//! The affine transform that carries image UV coordinates to normalized
//! device coordinates: rotate about the image's center, scale, translate by
//! the offset, then map window pixels to `[-1, 1]` with the Y axis flipped.
use vstd::prelude::*;
use crate::geometry::{Point, Size, SUBPIXELS, SCALE_ONE, MAX_SCALE, POSITION_LIMIT, floor_div};

verus! {

/// One column of a 3x3 matrix, in millionths.
#[derive(Clone, Copy, Debug, PartialEq, Eq, Structural)]
pub struct Column {
    pub x: i128,
    pub y: i128,
    pub z: i128,
}

/// A 3x3 matrix by columns, entries in millionths.
#[derive(Clone, Copy, Debug, PartialEq, Eq, Structural)]
pub struct Transform {
    pub x_col: Column,
    pub y_col: Column,
    pub z_col: Column,
}

/// Inputs of the transform: the view's offset (sub-pixels) and scale
/// (millionths), the cosine and sine of its rotation (millionths), and the
/// image and window sizes (pixels).
#[derive(Clone, Copy, Debug, PartialEq, Eq, Structural)]
pub struct TransformInput {
    pub offset: Point,
    pub scale: i64,
    pub cos: i64,
    pub sin: i64,
    pub image_size: Size,
    pub window_size: Size,
}

impl TransformInput {
    pub open spec fn is_valid(self) -> bool {
        &&& self.offset.in_bounds()
        &&& 0 <= self.scale <= MAX_SCALE
        &&& -SCALE_ONE <= self.cos <= SCALE_ONE
        &&& -SCALE_ONE <= self.sin <= SCALE_ONE
        &&& self.image_size.is_positive()
        &&& self.window_size.is_positive()
    }

    /// The same view turned to no rotation.
    pub open spec fn unrotated(self) -> TransformInput {
        TransformInput { cos: SCALE_ONE as i64, sin: 0, ..self }
    }
}

/// Horizontal translation in units of `1 / (512 * SCALE_ONE^2)` pixel: the
/// offset plus the shift that keeps the rotation centered on the scaled
/// image, `(1 - cos) * center.x + sin * center.y`.
pub open spec fn translation_x_num(t: TransformInput) -> int {
    2 * SCALE_ONE * SCALE_ONE * t.offset.x + SUBPIXELS * (SCALE_ONE - t.cos) * t.scale
        * t.image_size.width + SUBPIXELS * t.sin * t.scale * t.image_size.height
}

/// Vertical translation in the same units: the offset plus
/// `-sin * center.x + (1 - cos) * center.y`.
pub open spec fn translation_y_num(t: TransformInput) -> int {
    2 * SCALE_ONE * SCALE_ONE * t.offset.y - SUBPIXELS * t.sin * t.scale * t.image_size.width
        + SUBPIXELS * (SCALE_ONE - t.cos) * t.scale * t.image_size.height
}

/// The transform with each entry rounded down to millionths.
pub open spec fn transform_spec(t: TransformInput) -> Transform {
    let (s, c, n) = (t.scale as int, t.cos as int, t.sin as int);
    let (iw, ih) = (t.image_size.width as int, t.image_size.height as int);
    let (ww, wh) = (t.window_size.width as int, t.window_size.height as int);
    Transform {
        x_col: Column {
            x: ((2 * s * c * iw) / (SCALE_ONE * ww)) as i128,
            y: ((-2 * s * n * iw) / (SCALE_ONE * wh)) as i128,
            z: 0,
        },
        y_col: Column {
            x: ((-2 * s * n * ih) / (SCALE_ONE * ww)) as i128,
            y: ((-2 * s * c * ih) / (SCALE_ONE * wh)) as i128,
            z: 0,
        },
        z_col: Column {
            x: (translation_x_num(t) / (SUBPIXELS * SCALE_ONE * ww) - SCALE_ONE) as i128,
            y: (SCALE_ONE + (-translation_y_num(t)) / (SUBPIXELS * SCALE_ONE * wh)) as i128,
            z: SCALE_ONE as i128,
        },
    }
}

/// Where the image's center lands horizontally, before rounding, as a
/// numerator over `SUBPIXELS * SCALE_ONE * window width` (in millionths of
/// the NDC unit, plus `SCALE_ONE`).
pub open spec fn center_x_num(t: TransformInput) -> int {
    SUBPIXELS * t.scale * t.cos * t.image_size.width - SUBPIXELS * t.scale * t.sin
        * t.image_size.height + translation_x_num(t)
}

/// Where the image's center lands vertically, before rounding, as a
/// numerator over `SUBPIXELS * SCALE_ONE * window height`, measured
/// downwards.
pub open spec fn center_y_num(t: TransformInput) -> int {
    SUBPIXELS * t.scale * t.sin * t.image_size.width + SUBPIXELS * t.scale * t.cos
        * t.image_size.height + translation_y_num(t)
}

/// Rotation turns the image about its own center: the center lands where it
/// lands without rotation, whatever the angle.
pub proof fn lemma_rotation_keeps_center(t: TransformInput)
    ensures
        center_x_num(t) == center_x_num(t.unrotated()),
        center_y_num(t) == center_y_num(t.unrotated()),
{
    let (s, c, n) = (t.scale as int, t.cos as int, t.sin as int);
    let (iw, ih) = (t.image_size.width as int, t.image_size.height as int);
    assert(SUBPIXELS * s * c * iw - SUBPIXELS * s * n * ih + SUBPIXELS * (SCALE_ONE - c) * s * iw
        + SUBPIXELS * n * s * ih == SUBPIXELS * s * SCALE_ONE * iw) by (nonlinear_arith);
    assert(SUBPIXELS * s * n * iw + SUBPIXELS * s * c * ih - SUBPIXELS * n * s * iw + SUBPIXELS * (
    SCALE_ONE - c) * s * ih == SUBPIXELS * s * SCALE_ONE * ih) by (nonlinear_arith);
    assert(SUBPIXELS * s * SCALE_ONE * iw - SUBPIXELS * s * 0 * ih + SUBPIXELS * (SCALE_ONE
        - SCALE_ONE) * s * iw + SUBPIXELS * 0 * s * ih == SUBPIXELS * s * SCALE_ONE * iw)
        by (nonlinear_arith);
    assert(SUBPIXELS * s * 0 * iw + SUBPIXELS * s * SCALE_ONE * ih - SUBPIXELS * 0 * s * iw
        + SUBPIXELS * (SCALE_ONE - SCALE_ONE) * s * ih == SUBPIXELS * s * SCALE_ONE * ih)
        by (nonlinear_arith);
}

/// Bound on the magnitude of a product of four inputs: 2^96.
pub const PRODUCT_LIMIT: i128 = 0x1_0000_0000_0000_0000_0000_0000;

/// `a * b * c * d` for inputs within the ranges a transform takes.
fn product4(a: i128, b: i128, c: i128, d: i128) -> (r: i128)
    requires
        -2 * MAX_SCALE <= a <= 2 * MAX_SCALE,
        -2 * SCALE_ONE <= b <= 2 * SCALE_ONE,
        -(SUBPIXELS * SUBPIXELS) <= c <= SUBPIXELS * SUBPIXELS,
        0 <= d <= u32::MAX,
    ensures
        r == a * b * c * d,
        -PRODUCT_LIMIT <= r <= PRODUCT_LIMIT,
{
    assert(-4 * MAX_SCALE * SCALE_ONE <= a * b <= 4 * MAX_SCALE * SCALE_ONE) by (nonlinear_arith)
        requires
            -2 * MAX_SCALE <= a <= 2 * MAX_SCALE,
            -2 * SCALE_ONE <= b <= 2 * SCALE_ONE,
    ;
    let ab = a * b;
    assert(-4 * MAX_SCALE * SCALE_ONE * SUBPIXELS * SUBPIXELS <= ab * c <= 4 * MAX_SCALE
        * SCALE_ONE * SUBPIXELS * SUBPIXELS) by (nonlinear_arith)
        requires
            -4 * MAX_SCALE * SCALE_ONE <= ab <= 4 * MAX_SCALE * SCALE_ONE,
            -(SUBPIXELS * SUBPIXELS) <= c <= SUBPIXELS * SUBPIXELS,
    ;
    let abc = ab * c;
    assert(-PRODUCT_LIMIT <= abc * d <= PRODUCT_LIMIT) by (nonlinear_arith)
        requires
            -4 * MAX_SCALE * SCALE_ONE * SUBPIXELS * SUBPIXELS <= abc <= 4 * MAX_SCALE * SCALE_ONE
                * SUBPIXELS * SUBPIXELS,
            0 <= d <= u32::MAX,
    ;
    abc * d
}

proof fn lemma_quotient_shrinks(n: int, d: int)
    requires
        d >= 1,
    ensures
        n >= 0 ==> 0 <= n / d <= n,
        n < 0 ==> n <= n / d < 0,
{
    vstd::arithmetic::div_mod::lemma_fundamental_div_mod(n, d);
    assert(n >= 0 ==> 0 <= n / d <= n) by (nonlinear_arith)
        requires
            n == d * (n / d) + n % d,
            0 <= n % d < d,
            d >= 1,
    ;
    assert(n < 0 ==> n <= n / d < 0) by (nonlinear_arith)
        requires
            n == d * (n / d) + n % d,
            0 <= n % d < d,
            d >= 1,
    ;
}

/// `n / d` rounded down, for a numerator within four products' bound.
fn quotient(n: i128, d: i128) -> (r: i128)
    requires
        -4 * PRODUCT_LIMIT <= n <= 4 * PRODUCT_LIMIT,
        d >= 1,
    ensures
        r == n as int / d as int,
        -4 * PRODUCT_LIMIT <= r <= 4 * PRODUCT_LIMIT,
{
    proof {
        lemma_quotient_shrinks(n as int, d as int);
    }
    floor_div(n, d)
}

/// Composes the transform of a view: each entry is the exact value rounded
/// down to millionths.
pub fn build_image_transform(t: TransformInput) -> (r: Transform)
    requires
        t.is_valid(),
    ensures
        r == transform_spec(t),
{
    let s = t.scale as i128;
    let c = t.cos as i128;
    let n = t.sin as i128;
    let one = SCALE_ONE as i128;
    let sub = SUBPIXELS as i128;
    let iw = t.image_size.width as i128;
    let ih = t.image_size.height as i128;
    let ww = t.window_size.width as i128;
    let wh = t.window_size.height as i128;

    let x_den = one * ww;
    let y_den = one * wh;
    let xx = quotient(product4(2 * s, c, 1, iw), x_den);
    let xy = quotient(product4(2 * s, -n, 1, iw), y_den);
    let yx = quotient(product4(2 * s, -n, 1, ih), x_den);
    let yy = quotient(product4(2 * s, -c, 1, ih), y_den);

    let ox = t.offset.x as i128;
    let oy = t.offset.y as i128;
    assert(-PRODUCT_LIMIT <= 2 * one * one * ox <= PRODUCT_LIMIT && -PRODUCT_LIMIT <= 2 * one
        * one * oy <= PRODUCT_LIMIT) by (nonlinear_arith)
        requires
            one == SCALE_ONE,
            -POSITION_LIMIT <= ox <= POSITION_LIMIT,
            -POSITION_LIMIT <= oy <= POSITION_LIMIT,
    ;
    let tx = 2 * one * one * (t.offset.x as i128) + product4(s, one - c, sub, iw) + product4(
        s,
        n,
        sub,
        ih,
    );
    let ty = 2 * one * one * (t.offset.y as i128) - product4(s, n, sub, iw) + product4(
        s,
        one - c,
        sub,
        ih,
    );
    proof {
        let (si, ci, ni) = (s as int, c as int, n as int);
        let (iwi, ihi) = (iw as int, ih as int);
        assert(2 * si * ci * 1 * iwi == 2 * si * ci * iwi) by (nonlinear_arith);
        assert(2 * si * (-ni) * 1 * iwi == -2 * si * ni * iwi) by (nonlinear_arith);
        assert(2 * si * (-ni) * 1 * ihi == -2 * si * ni * ihi) by (nonlinear_arith);
        assert(2 * si * (-ci) * 1 * ihi == -2 * si * ci * ihi) by (nonlinear_arith);
        assert(si * (SCALE_ONE - ci) * SUBPIXELS * iwi == SUBPIXELS * (SCALE_ONE - ci) * si * iwi)
            by (nonlinear_arith);
        assert(si * ni * SUBPIXELS * ihi == SUBPIXELS * ni * si * ihi) by (nonlinear_arith);
        assert(si * ni * SUBPIXELS * iwi == SUBPIXELS * ni * si * iwi) by (nonlinear_arith);
        assert(si * (SCALE_ONE - ci) * SUBPIXELS * ihi == SUBPIXELS * (SCALE_ONE - ci) * si * ihi)
            by (nonlinear_arith);
    }
    let zx = quotient(tx, sub * one * ww) - one;
    let zy = one + quotient(-ty, sub * one * wh);

    Transform {
        x_col: Column { x: xx, y: xy, z: 0 },
        y_col: Column { x: yx, y: yy, z: 0 },
        z_col: Column { x: zx, y: zy, z: one },
    }
}

} // verus!
