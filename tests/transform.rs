use wroomer::geometry::{Point, Size, SCALE_ONE, SUBPIXELS};
use wroomer::transform::{build_image_transform, Column, Transform, TransformInput};

fn input(offset: Point, scale: i64, cos: i64, sin: i64, image: (u32, u32), window: (u32, u32)) -> TransformInput {
    TransformInput {
        offset,
        scale,
        cos,
        sin,
        image_size: Size { width: image.0, height: image.1 },
        window_size: Size { width: window.0, height: window.1 },
    }
}

/// Where the UV point `(u, v)` (in halves) lands, in millionths.
fn apply_half(t: &Transform, u: i128, v: i128) -> (i128, i128) {
    (
        (t.x_col.x * u + t.y_col.x * v) / 2 + t.z_col.x,
        (t.x_col.y * u + t.y_col.y * v) / 2 + t.z_col.y,
    )
}

#[test]
fn transform_of_image_filling_window() {
    let t = build_image_transform(input(Point { x: 0, y: 0 }, SCALE_ONE, SCALE_ONE, 0, (100, 100), (100, 100)));
    assert_eq!(
        t,
        Transform {
            x_col: Column { x: 2_000_000, y: 0, z: 0 },
            y_col: Column { x: 0, y: -2_000_000, z: 0 },
            z_col: Column { x: -1_000_000, y: 1_000_000, z: 1_000_000 },
        }
    );
    // The UV corners land on the NDC corners, Y flipped.
    assert_eq!(apply_half(&t, 0, 0), (-1_000_000, 1_000_000));
    assert_eq!(apply_half(&t, 2, 2), (1_000_000, -1_000_000));
}

#[test]
fn transform_with_offset_and_scale() {
    let t = build_image_transform(input(Point { x: 50 * SUBPIXELS, y: 0 }, SCALE_ONE / 2, SCALE_ONE, 0, (100, 100), (200, 100)));
    assert_eq!(t.x_col, Column { x: 500_000, y: 0, z: 0 });
    assert_eq!(t.y_col, Column { x: 0, y: -1_000_000, z: 0 });
    assert_eq!(t.z_col, Column { x: -500_000, y: 1_000_000, z: 1_000_000 });
}

#[test]
fn quarter_turn_rotates_about_center() {
    let t = build_image_transform(input(Point { x: 0, y: 0 }, SCALE_ONE, 0, SCALE_ONE, (100, 100), (100, 100)));
    assert_eq!(t.x_col, Column { x: 0, y: -2_000_000, z: 0 });
    assert_eq!(t.y_col, Column { x: -2_000_000, y: 0, z: 0 });
    assert_eq!(t.z_col, Column { x: 1_000_000, y: 1_000_000, z: 1_000_000 });
    // The center stays at the center of the window.
    assert_eq!(apply_half(&t, 1, 1), (0, 0));
}

#[test]
fn rotation_keeps_center_of_offset_image() {
    let base = input(Point { x: 30 * SUBPIXELS, y: 10 * SUBPIXELS }, SCALE_ONE, SCALE_ONE, 0, (40, 20), (200, 100));
    let turned = TransformInput { cos: 0, sin: -SCALE_ONE, ..base };
    let a = build_image_transform(base);
    let b = build_image_transform(turned);
    // Center at (30 + 20, 10 + 10) px: NDC (-0.5, 0.6).
    assert_eq!(apply_half(&a, 1, 1), (-500_000, 600_000));
    assert_eq!(apply_half(&b, 1, 1), (-500_000, 600_000));
}

#[test]
fn transform_rounds_down() {
    // 2 * 1 * 1 / 3 = 0.666666 (rounded down); negative entries round away from zero.
    let t = build_image_transform(input(Point { x: 0, y: 0 }, SCALE_ONE, SCALE_ONE, 0, (1, 1), (3, 3)));
    assert_eq!(t.x_col.x, 666_666);
    assert_eq!(t.y_col.y, -666_667);
}
