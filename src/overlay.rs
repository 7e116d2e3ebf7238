//! A decorative overlay that bounces inside the image and cycles its color.
use vstd::prelude::*;
use crate::geometry::{Point, Size, SUBPIXELS, POSITION_LIMIT};

verus! {

/// Number of frames in one cycle of the overlay's color.
pub const COLOR_CYCLE: u32 = 256;

/// Opacity of the overlay, out of 255.
pub const OVERLAY_ALPHA: u8 = 128;

/// A color with 8-bit channels.
#[derive(Clone, Copy, Debug, PartialEq, Eq, Structural)]
pub struct Rgba {
    pub r: u8,
    pub g: u8,
    pub b: u8,
    pub a: u8,
}

/// A box moving with constant speed inside the image, reflecting off its
/// edges.
#[derive(Clone, Copy, Debug, PartialEq, Eq, Structural)]
pub struct Overlay {
    /// Top-left corner, in sub-pixels of the image.
    pub position: Point,
    /// Movement per frame, in sub-pixels.
    pub velocity: Point,
    /// Size of the box, in pixels.
    pub size: Size,
    /// Largest position on each axis: image size less box size, in sub-pixels.
    pub limit: Point,
    /// Frames drawn so far, counted modulo the color cycle.
    pub frame: u32,
}

/// One axis of a bounce: the position moves by the velocity; past either end
/// of `[0, limit]` it is put back on that end and the velocity turns round.
pub open spec fn bounce_axis(p: int, v: int, limit: int) -> (int, int) {
    let next = p + v;
    if next < 0 {
        (0, -v)
    } else if next > limit {
        (limit, -v)
    } else {
        (next, v)
    }
}

/// Color at `frame`: a ramp from red to blue, blue to green and green back
/// to red over the cycle, at half opacity.
pub open spec fn color_at(frame: int) -> Rgba {
    let q = (frame % (COLOR_CYCLE as int)) * 3;
    let f = q % 256;
    if q < 256 {
        Rgba { r: (255 - f) as u8, g: 0, b: f as u8, a: OVERLAY_ALPHA }
    } else if q < 512 {
        Rgba { r: 0, g: f as u8, b: (255 - f) as u8, a: OVERLAY_ALPHA }
    } else {
        Rgba { r: f as u8, g: (255 - f) as u8, b: 0, a: OVERLAY_ALPHA }
    }
}

impl Overlay {
    /// Position within `[0, limit]`, limits and speeds within the
    /// coordinate range, frame within the cycle.
    pub open spec fn wf(self) -> bool {
        &&& 0 <= self.limit.x <= POSITION_LIMIT
        &&& 0 <= self.limit.y <= POSITION_LIMIT
        &&& 0 <= self.position.x <= self.limit.x
        &&& 0 <= self.position.y <= self.limit.y
        &&& self.velocity.in_bounds()
        &&& self.frame < COLOR_CYCLE
    }

    /// The overlay one frame later.
    pub open spec fn step_spec(self) -> Overlay {
        let (x, vx) = bounce_axis(self.position.x as int, self.velocity.x as int, self.limit.x as int);
        let (y, vy) = bounce_axis(self.position.y as int, self.velocity.y as int, self.limit.y as int);
        Overlay {
            position: Point { x: x as i64, y: y as i64 },
            velocity: Point { x: vx as i64, y: vy as i64 },
            frame: ((self.frame + 1) % (COLOR_CYCLE as int)) as u32,
            ..self
        }
    }

    /// An overlay a quarter of the image's size on each side, in the
    /// image's top-left corner, moving by `velocity` each frame.
    pub fn new(image_size: Size, velocity: Point) -> (r: Overlay)
        requires
            velocity.in_bounds(),
        ensures
            r.wf(),
            r.size == (Size { width: image_size.width / 4, height: image_size.height / 4 }),
            r.limit.x == (image_size.width - image_size.width / 4) * SUBPIXELS,
            r.limit.y == (image_size.height - image_size.height / 4) * SUBPIXELS,
            r.position == (Point { x: 0, y: 0 }),
            r.velocity == velocity,
            r.frame == 0,
    {
        let size = Size { width: image_size.width / 4, height: image_size.height / 4 };
        let limit = Point {
            x: ((image_size.width - size.width) as i64) * SUBPIXELS,
            y: ((image_size.height - size.height) as i64) * SUBPIXELS,
        };
        Overlay { position: Point { x: 0, y: 0 }, velocity, size, limit, frame: 0 }
    }

    /// Advances the overlay by one frame.
    pub fn step(&mut self)
        requires
            old(self).wf(),
        ensures
            *final(self) == old(self).step_spec(),
            final(self).wf(),
    {
        let (x, vx) = bounce(self.position.x, self.velocity.x, self.limit.x);
        let (y, vy) = bounce(self.position.y, self.velocity.y, self.limit.y);
        self.position = Point { x, y };
        self.velocity = Point { x: vx, y: vy };
        self.frame = (self.frame + 1) % COLOR_CYCLE;
    }

    /// The overlay's current color.
    pub fn color(&self) -> (r: Rgba)
        requires
            self.wf(),
        ensures
            r == color_at(self.frame as int),
    {
        overlay_color(self.frame)
    }
}

/// Bounces happen per axis: when position plus velocity passes an end of
/// `[0, limit]` on an axis, that axis's velocity turns round and its position
/// is put on that end; otherwise it simply moves. The outcome on one axis
/// depends on that axis alone.
pub proof fn lemma_bounce_per_axis(o: Overlay, other: Overlay)
    requires
        o.wf(),
        other.wf(),
    ensures
        ({
            let n = o.step_spec();
            let (x, vx, lx) = (o.position.x as int, o.velocity.x as int, o.limit.x as int);
            let (y, vy, ly) = (o.position.y as int, o.velocity.y as int, o.limit.y as int);
            &&& 0 <= n.position.x <= lx && 0 <= n.position.y <= ly
            &&& (x + vx > lx ==> n.position.x == lx && n.velocity.x == -vx)
            &&& (x + vx < 0 ==> n.position.x == 0 && n.velocity.x == -vx)
            &&& (0 <= x + vx <= lx ==> n.position.x == x + vx && n.velocity.x == vx)
            &&& (y + vy > ly ==> n.position.y == ly && n.velocity.y == -vy)
            &&& (y + vy < 0 ==> n.position.y == 0 && n.velocity.y == -vy)
            &&& (0 <= y + vy <= ly ==> n.position.y == y + vy && n.velocity.y == vy)
        }),
        (other.position.x == o.position.x && other.velocity.x == o.velocity.x && other.limit.x
            == o.limit.x) ==> (other.step_spec().position.x == o.step_spec().position.x
            && other.step_spec().velocity.x == o.step_spec().velocity.x),
        (other.position.y == o.position.y && other.velocity.y == o.velocity.y && other.limit.y
            == o.limit.y) ==> (other.step_spec().position.y == o.step_spec().position.y
            && other.step_spec().velocity.y == o.step_spec().velocity.y),
{
}

fn bounce(p: i64, v: i64, limit: i64) -> (r: (i64, i64))
    requires
        0 <= p <= limit <= POSITION_LIMIT,
        -POSITION_LIMIT <= v <= POSITION_LIMIT,
    ensures
        r.0 == bounce_axis(p as int, v as int, limit as int).0,
        r.1 == bounce_axis(p as int, v as int, limit as int).1,
        0 <= r.0 <= limit,
        -POSITION_LIMIT <= r.1 <= POSITION_LIMIT,
{
    let next = p + v;
    if next < 0 {
        (0, -v)
    } else if next > limit {
        (limit, -v)
    } else {
        (next, v)
    }
}

/// Color of the overlay at `frame`.
pub fn overlay_color(frame: u32) -> (r: Rgba)
    ensures
        r == color_at(frame as int),
{
    let q = (frame % COLOR_CYCLE) * 3;
    let f = q % 256;
    if q < 256 {
        Rgba { r: (255 - f) as u8, g: 0, b: f as u8, a: OVERLAY_ALPHA }
    } else if q < 512 {
        Rgba { r: 0, g: f as u8, b: (255 - f) as u8, a: OVERLAY_ALPHA }
    } else {
        Rgba { r: f as u8, g: (255 - f) as u8, b: 0, a: OVERLAY_ALPHA }
    }
}

} // verus!
