//! How scroll input turns into zoom multipliers and rotation steps.
use vstd::prelude::*;
use crate::geometry::{SUBPIXELS, SCALE_ONE, POSITION_LIMIT, clamp_spec, clamp_position, clamp_wide};

verus! {

/// One full turn (2π) in angle units. It is divisible by 48, so that a
/// quarter turn and a notch's π/24 are whole numbers of units.
pub const TURN: i64 = 196_608;

/// Bound on the magnitude of a scroll multiplier, in millionths.
pub const MAX_MULTIPLIER: i64 = 100_000_000_000_000_000;

/// A quarter turn (π/2).
pub const QUARTER_TURN: i64 = 49_152;

/// Multiplier of one wheel notch towards the user (0.9), in millionths.
pub const LINE_SHRINK: i64 = 900_000;

/// Multiplier of one wheel notch away from the user (1.1), in millionths.
pub const LINE_GROW: i64 = 1_100_000;

/// A trackpad movement of one window height changes the multiplier by this
/// many times 1.0.
pub const PIXEL_SENSITIVITY: i64 = 5;

/// Rotation of one wheel notch (π/24), in angle units per sub-line.
pub const LINE_ROTATION_PER_SUBLINE: i64 = 16;

/// The vertical component of a scroll event.
#[derive(Clone, Copy, Debug, PartialEq, Eq, Structural)]
pub enum ScrollDelta {
    /// Wheel notches, in 1/256 of a line.
    Lines(i64),
    /// Continuous (trackpad) movement, in sub-pixels.
    Pixels(i64),
}

/// The event's amount, limited to the coordinate range.
pub open spec fn delta_amount(d: ScrollDelta) -> int {
    match d {
        ScrollDelta::Lines(y) => clamp_position(y as int),
        ScrollDelta::Pixels(y) => clamp_position(y as int),
    }
}

pub open spec fn abs_spec(v: int) -> int {
    if v < 0 {
        -v
    } else {
        v
    }
}

/// Change of the multiplier, in millionths, for a trackpad movement of
/// `amount` sub-pixels in a window `height` pixels tall (rounded down in
/// magnitude).
pub open spec fn pixel_step(amount: int, height: int) -> int {
    PIXEL_SENSITIVITY * SCALE_ONE * abs_spec(amount) / (height * SUBPIXELS)
}

/// Multiplier, in millionths, that a scroll event applies to a zoom factor
/// or a spotlight radius: a fixed step per wheel event, and a step
/// proportional to the movement relative to the window height for a
/// trackpad. An event with no vertical movement leaves the value alone.
pub open spec fn multiplier_spec(d: ScrollDelta, height: int) -> int {
    let a = delta_amount(d);
    match d {
        ScrollDelta::Lines(_) => if a < 0 {
            LINE_SHRINK as int
        } else if a > 0 {
            LINE_GROW as int
        } else {
            SCALE_ONE as int
        },
        ScrollDelta::Pixels(_) => if a < 0 {
            SCALE_ONE - pixel_step(a, height)
        } else {
            SCALE_ONE + pixel_step(a, height)
        },
    }
}

/// `value` multiplied by `multiplier` millionths, rounded down, limited to
/// `[lo, hi]`.
pub open spec fn scaled_clamped(value: int, multiplier: int, lo: int, hi: int) -> int {
    clamp_spec(value * multiplier / (SCALE_ONE as int), lo, hi)
}

/// Rotation of a scroll event in angle units: π/24 per notch, and 2π per
/// window height of trackpad movement (rounded towards zero).
pub open spec fn rotation_delta_spec(d: ScrollDelta, height: int) -> int {
    let a = delta_amount(d);
    match d {
        ScrollDelta::Lines(_) => a * LINE_ROTATION_PER_SUBLINE,
        ScrollDelta::Pixels(_) => if a < 0 {
            -(-a * TURN / (height * SUBPIXELS))
        } else {
            a * TURN / (height * SUBPIXELS)
        },
    }
}

/// `angle` reduced modulo a full turn, keeping its sign: the result lies
/// strictly between minus one turn and one turn.
pub open spec fn wrap_turn(angle: int) -> int {
    if angle >= 0 {
        angle % (TURN as int)
    } else {
        -((-angle) % (TURN as int))
    }
}

/// The amount of a scroll event, limited to the coordinate range.
fn amount(d: ScrollDelta) -> (r: i64)
    ensures
        r == delta_amount(d),
        -POSITION_LIMIT <= r <= POSITION_LIMIT,
{
    match d {
        ScrollDelta::Lines(y) => clamp_wide(y as i128, -POSITION_LIMIT, POSITION_LIMIT),
        ScrollDelta::Pixels(y) => clamp_wide(y as i128, -POSITION_LIMIT, POSITION_LIMIT),
    }
}

/// Multiplier, in millionths, that a scroll event applies to a zoom factor
/// or a spotlight radius.
pub fn multiplier_from_mouse_delta(delta: ScrollDelta, window_height: u32) -> (r: i64)
    requires
        window_height > 0,
    ensures
        r == multiplier_spec(delta, window_height as int),
        -MAX_MULTIPLIER <= r <= MAX_MULTIPLIER,
{
    let a = amount(delta);
    match delta {
        ScrollDelta::Lines(_) => {
            if a < 0 {
                LINE_SHRINK
            } else if a > 0 {
                LINE_GROW
            } else {
                SCALE_ONE
            }
        },
        ScrollDelta::Pixels(_) => {
            let magnitude: i128 = if a < 0 {
                -(a as i128)
            } else {
                a as i128
            };
            assert(window_height * SUBPIXELS <= u32::MAX * SUBPIXELS) by (nonlinear_arith)
                requires
                    window_height <= u32::MAX,
            ;
            let denominator = (window_height as i128) * (SUBPIXELS as i128);
            let step = (PIXEL_SENSITIVITY as i128) * (SCALE_ONE as i128) * magnitude / denominator;
            assert(step <= PIXEL_SENSITIVITY * SCALE_ONE * magnitude) by (nonlinear_arith)
                requires
                    step == PIXEL_SENSITIVITY * SCALE_ONE * magnitude / (denominator as int),
                    denominator >= SUBPIXELS,
                    magnitude >= 0,
            ;
            assert(PIXEL_SENSITIVITY * SCALE_ONE * magnitude / (denominator as int)
                <= PIXEL_SENSITIVITY * SCALE_ONE * magnitude / (SUBPIXELS as int)) by {
                vstd::arithmetic::div_mod::lemma_div_is_ordered_by_denominator(
                    PIXEL_SENSITIVITY * SCALE_ONE * magnitude,
                    SUBPIXELS as int,
                    denominator as int,
                );
            }
            assert(0 <= step <= MAX_MULTIPLIER - SCALE_ONE) by (nonlinear_arith)
                requires
                    step <= PIXEL_SENSITIVITY * SCALE_ONE * magnitude / (SUBPIXELS as int),
                    step >= 0,
                    0 <= magnitude <= POSITION_LIMIT,
            ;
            if a < 0 {
                (SCALE_ONE as i128 - step) as i64
            } else {
                (SCALE_ONE as i128 + step) as i64
            }
        },
    }
}

/// `value` multiplied by `multiplier` millionths, rounded down, limited to
/// `[lo, hi]`.
pub fn apply_multiplier(value: i64, multiplier: i64, lo: i64, hi: i64) -> (r: i64)
    requires
        0 < lo <= hi,
        0 <= value <= hi,
        hi <= 1_000_000_000,
        -MAX_MULTIPLIER <= multiplier <= MAX_MULTIPLIER,
    ensures
        r == scaled_clamped(value as int, multiplier as int, lo as int, hi as int),
        lo <= r <= hi,
{
    assert(-100_000_000_000_000_000_000_000_000 <= value * multiplier
        <= 100_000_000_000_000_000_000_000_000) by (nonlinear_arith)
        requires
            0 <= value <= 1_000_000_000,
            -MAX_MULTIPLIER <= multiplier <= MAX_MULTIPLIER,
    ;
    let p = (value as i128) * (multiplier as i128);
    if p < 0 {
        assert((p as int) / (SCALE_ONE as int) < 0);
        lo
    } else {
        clamp_wide(p / (SCALE_ONE as i128), lo, hi)
    }
}

/// Rotation of a scroll event, in angle units.
pub fn rotation_delta(delta: ScrollDelta, window_height: u32) -> (r: i64)
    requires
        window_height > 0,
    ensures
        r == rotation_delta_spec(delta, window_height as int),
        -POSITION_LIMIT * TURN <= r <= POSITION_LIMIT * TURN,
{
    let a = amount(delta);
    assert(-POSITION_LIMIT * TURN <= a * LINE_ROTATION_PER_SUBLINE <= POSITION_LIMIT * TURN)
        by (nonlinear_arith)
        requires
            -POSITION_LIMIT <= a <= POSITION_LIMIT,
    ;
    match delta {
        ScrollDelta::Lines(_) => a * LINE_ROTATION_PER_SUBLINE,
        ScrollDelta::Pixels(_) => {
            let magnitude: i128 = if a < 0 {
                -(a as i128)
            } else {
                a as i128
            };
            assert(window_height * SUBPIXELS <= u32::MAX * SUBPIXELS) by (nonlinear_arith)
                requires
                    window_height <= u32::MAX,
            ;
            let denominator = (window_height as i128) * (SUBPIXELS as i128);
            let turns = magnitude * (TURN as i128) / denominator;
            assert(0 <= turns <= magnitude * TURN / (SUBPIXELS as int)) by (nonlinear_arith)
                requires
                    turns == magnitude * TURN / (denominator as int),
                    denominator >= SUBPIXELS,
                    magnitude >= 0,
            ;
            assert(magnitude * TURN / (SUBPIXELS as int) <= POSITION_LIMIT * TURN)
                by (nonlinear_arith)
                requires
                    0 <= magnitude <= POSITION_LIMIT,
            ;
            if a < 0 {
                (-turns) as i64
            } else {
                turns as i64
            }
        },
    }
}

/// `angle` reduced modulo a full turn, keeping its sign.
pub fn wrap_angle(angle: i64) -> (r: i64)
    requires
        angle > i64::MIN,
    ensures
        r == wrap_turn(angle as int),
        -TURN < r < TURN,
{
    if angle >= 0 {
        angle % TURN
    } else {
        -((-angle) % TURN)
    }
}

} // verus!
