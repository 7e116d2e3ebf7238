//! Fixed-point units shared by the view model.
//!
//! Every continuous quantity of the viewer is held as an integer in a fixed
//! unit, so that each step of the interaction can be stated exactly:
//! positions in sub-pixels, scale factors and radii in millionths, angles in
//! fractions of a full turn.
use vstd::prelude::*;

verus! {

/// Number of sub-pixels in one pixel: positions, offsets and scroll deltas
/// are counted in 1/256 of their unit.
pub const SUBPIXELS: i64 = 256;

/// The scale factor 1.0, in millionths.
pub const SCALE_ONE: i64 = 1_000_000;

/// The smallest scale factor a view may take (0.1).
pub const MIN_SCALE: i64 = 100_000;

/// The largest scale factor a view may take (10.0).
pub const MAX_SCALE: i64 = 10_000_000;

/// Largest magnitude of a coordinate, in sub-pixels (2^40, about four
/// billion pixels); positions beyond it are clamped.
pub const POSITION_LIMIT: i64 = 1_099_511_627_776;

/// Size of a window or an image in whole pixels.
#[derive(Clone, Copy, Debug, PartialEq, Eq, Structural)]
pub struct Size {
    pub width: u32,
    pub height: u32,
}

/// A point or a translation in sub-pixels.
#[derive(Clone, Copy, Debug, PartialEq, Eq, Structural)]
pub struct Point {
    pub x: i64,
    pub y: i64,
}

impl Size {
    /// Both sides are at least one pixel.
    pub open spec fn is_positive(self) -> bool {
        self.width > 0 && self.height > 0
    }
}

impl Point {
    pub open spec fn in_bounds(self) -> bool {
        -POSITION_LIMIT <= self.x <= POSITION_LIMIT && -POSITION_LIMIT <= self.y
            <= POSITION_LIMIT
    }
}

/// `v` limited to `[lo, hi]`.
pub open spec fn clamp_spec(v: int, lo: int, hi: int) -> int {
    if v < lo {
        lo
    } else if v > hi {
        hi
    } else {
        v
    }
}

/// A coordinate limited to the representable range.
pub open spec fn clamp_position(v: int) -> int {
    clamp_spec(v, -(POSITION_LIMIT as int), POSITION_LIMIT as int)
}

/// `v` limited to `[lo, hi]`, computed on wide integers.
pub fn clamp_wide(v: i128, lo: i64, hi: i64) -> (r: i64)
    requires
        lo <= hi,
    ensures
        r == clamp_spec(v as int, lo as int, hi as int),
{
    if v < lo as i128 {
        lo
    } else if v > hi as i128 {
        hi
    } else {
        v as i64
    }
}

/// A coordinate limited to `[-POSITION_LIMIT, POSITION_LIMIT]`.
pub fn clamp_coordinate(v: i128) -> (r: i64)
    ensures
        r == clamp_position(v as int),
{
    clamp_wide(v, -POSITION_LIMIT, POSITION_LIMIT)
}

/// `a / 2` rounded towards negative infinity.
pub fn floor_half(a: i128) -> (r: i128)
    requires
        a > i128::MIN,
    ensures
        r == a as int / 2,
{
    if a >= 0 {
        a / 2
    } else {
        let n = -a;
        -(n / 2 + n % 2)
    }
}

/// `a / d` rounded towards negative infinity.
pub fn floor_div(a: i128, d: i128) -> (r: i128)
    requires
        d > 0,
        a > i128::MIN,
    ensures
        r == a as int / d as int,
{
    if a >= 0 {
        a / d
    } else {
        let n = -a;
        let q = n / d;
        let m = n % d;
        proof {
            vstd::arithmetic::div_mod::lemma_fundamental_div_mod(n as int, d as int);
        }
        assert(a as int / d as int == if m == 0 { -q } else { -q - 1 }) by (nonlinear_arith)
            requires
                n == -a,
                n > 0,
                d > 0,
                q == n / d,
                m == n % d,
                n == d * q + m,
                0 <= m < d,
        ;
        if m == 0 {
            -q
        } else {
            -q - 1
        }
    }
}

} // verus!
