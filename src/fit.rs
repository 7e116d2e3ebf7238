//! Centering and scaling an image so that it fits a window.
use vstd::prelude::*;
use crate::geometry::{
    Point, Size, SUBPIXELS, SCALE_ONE, floor_half,
};

verus! {

/// Where the image's top-left corner lands in the window, and at what scale.
#[derive(Clone, Copy, Debug, PartialEq, Eq, Structural)]
pub struct Fit {
    /// Offset of the image's top-left corner, in sub-pixels.
    pub offset: Point,
    /// Scale factor, in millionths.
    pub scale: i64,
}

/// `window_len / image_len` as a scale in millionths, rounded down.
pub open spec fn axis_ratio(window_len: int, image_len: int) -> int {
    window_len * SCALE_ONE / image_len
}

/// The scale at which the image fits the window: the smaller of the two
/// side ratios, but no more than 1.0 (a smaller image is not enlarged). It is
/// raised to one millionth only where the ratio rounds to zero, so that the
/// scale never vanishes.
pub open spec fn fit_scale(image: Size, window: Size) -> int {
    let rx = axis_ratio(window.width as int, image.width as int);
    let ry = axis_ratio(window.height as int, image.height as int);
    let m = if rx < ry {
        rx
    } else {
        ry
    };
    if m > SCALE_ONE {
        SCALE_ONE as int
    } else if m < 1 {
        1
    } else {
        m
    }
}

/// Length in sub-pixels of `len` pixels shown at `scale`, rounded down.
pub open spec fn scaled_len(len: int, scale: int) -> int {
    len * SUBPIXELS * scale / (SCALE_ONE as int)
}

/// Offset that centers `image_len` pixels shown at `scale` inside
/// `window_len` pixels.
pub open spec fn centered_offset(window_len: int, image_len: int, scale: int) -> int {
    (window_len * SUBPIXELS - scaled_len(image_len, scale)) / 2
}

/// The fitted, centered placement of `image` inside `window`.
pub open spec fn fit_spec(image: Size, window: Size) -> Fit {
    let s = fit_scale(image, window);
    Fit {
        offset: Point {
            x: centered_offset(window.width as int, image.width as int, s) as i64,
            y: centered_offset(window.height as int, image.height as int, s) as i64,
        },
        scale: s as i64,
    }
}

proof fn lemma_scaled_len_bounds(len: int, scale: int)
    requires
        0 <= len <= u32::MAX,
        0 <= scale <= SCALE_ONE,
    ensures
        0 <= scaled_len(len, scale) <= len * SUBPIXELS,
{
    assert(0 <= len * SUBPIXELS * scale / (SCALE_ONE as int) <= len * SUBPIXELS) by (nonlinear_arith)
        requires
            0 <= len,
            0 <= scale <= SCALE_ONE,
    ;
}

/// The fitting scale is positive and at most 1.0.
pub proof fn lemma_fit_scale_range(image: Size, window: Size)
    requires
        image.is_positive(),
        window.is_positive(),
    ensures
        1 <= fit_scale(image, window) <= SCALE_ONE,
{
}

/// The fitted placement's offsets stay within the coordinate range.
pub proof fn lemma_fit_in_bounds(image: Size, window: Size)
    requires
        image.is_positive(),
        window.is_positive(),
    ensures
        fit_spec(image, window).offset.in_bounds(),
        fit_spec(image, window).scale == fit_scale(image, window),
{
    let s = fit_scale(image, window);
    lemma_scaled_len_bounds(image.width as int, s);
    lemma_scaled_len_bounds(image.height as int, s);
}

proof fn lemma_ratio_floor(target: int, source: int)
    requires
        source > 0,
        target >= 0,
    ensures
        (target * SCALE_ONE / source) * source <= target * SCALE_ONE,
        target * SCALE_ONE < (target * SCALE_ONE / source + 1) * source,
{
    vstd::arithmetic::div_mod::lemma_fundamental_div_mod(target * SCALE_ONE, source);
    assert((target * SCALE_ONE / source) * source <= target * SCALE_ONE < (target * SCALE_ONE
        / source + 1) * source) by (nonlinear_arith)
        requires
            target * SCALE_ONE == source * (target * SCALE_ONE / source) + (target * SCALE_ONE)
                % source,
            0 <= (target * SCALE_ONE) % source < source,
    ;
}

/// `len` pixels at a scale with `scale * len <= limit * SCALE_ONE` span at
/// most `limit` pixels.
proof fn lemma_scaled_within(len: int, scale: int, limit: int)
    requires
        len > 0,
        scale >= 0,
        scale * len <= limit * SCALE_ONE,
    ensures
        scaled_len(len, scale) <= limit * SUBPIXELS,
{
    assert(len * SUBPIXELS * scale / (SCALE_ONE as int) <= limit * SUBPIXELS) by (nonlinear_arith)
        requires
            scale * len <= limit * SCALE_ONE,
            len > 0,
            scale >= 0,
    ;
}

/// A fitted image is never cropped: both offsets are non-negative and the
/// scaled image ends within the window's far edges (unless it is over a
/// million times the window's size, where the scale stops at one millionth).
/// Unless the image is shown unscaled, one side spans the window to within
/// the rounding of the scale: one more millionth would overflow that side.
pub proof fn lemma_fit_contained(image: Size, window: Size)
    requires
        image.is_positive(),
        window.is_positive(),
        image.width <= SCALE_ONE * window.width,
        image.height <= SCALE_ONE * window.height,
    ensures
        ({
            let f = fit_spec(image, window);
            let s = fit_scale(image, window);
            let (iw, ih) = (image.width as int, image.height as int);
            let (ww, wh) = (window.width as int, window.height as int);
            &&& 0 <= f.offset.x
            &&& 0 <= f.offset.y
            &&& f.offset.x + scaled_len(iw, s) <= ww * SUBPIXELS
            &&& f.offset.y + scaled_len(ih, s) <= wh * SUBPIXELS
            &&& (s < SCALE_ONE ==> (s + 1) * iw > ww * SCALE_ONE || (s + 1) * ih > wh
                * SCALE_ONE)
        }),
{
    let (iw, ih, ww, wh) = (
        image.width as int,
        image.height as int,
        window.width as int,
        window.height as int,
    );
    let s = fit_scale(image, window);
    let rx = axis_ratio(ww, iw);
    let ry = axis_ratio(wh, ih);
    lemma_fit_in_bounds(image, window);
    lemma_ratio_floor(ww, iw);
    lemma_ratio_floor(wh, ih);
    assert(rx >= 1) by (nonlinear_arith)
        requires
            rx == ww * SCALE_ONE / iw,
            iw <= SCALE_ONE * ww,
            iw > 0,
    ;
    assert(ry >= 1) by (nonlinear_arith)
        requires
            ry == wh * SCALE_ONE / ih,
            ih <= SCALE_ONE * wh,
            ih > 0,
    ;
    assert(s <= rx && s <= ry);
    assert(s * iw <= ww * SCALE_ONE && s * ih <= wh * SCALE_ONE) by (nonlinear_arith)
        requires
            0 <= s <= rx,
            s <= ry,
            rx * iw <= ww * SCALE_ONE,
            ry * ih <= wh * SCALE_ONE,
            iw > 0,
            ih > 0,
    ;
    if s < SCALE_ONE {
        assert(s == rx || s == ry);
        assert((s + 1) * iw > ww * SCALE_ONE || (s + 1) * ih > wh * SCALE_ONE) by (nonlinear_arith)
            requires
                s == rx || s == ry,
                ww * SCALE_ONE < (rx + 1) * iw,
                wh * SCALE_ONE < (ry + 1) * ih,
        ;
    }
    lemma_scaled_within(iw, s, ww);
    lemma_scaled_within(ih, s, wh);
    lemma_scaled_len_bounds(iw, s);
    lemma_scaled_len_bounds(ih, s);
}

/// Scale `len` pixels by `scale` millionths into sub-pixels.
fn scaled_length(len: u32, scale: i64) -> (r: i128)
    requires
        0 <= scale <= SCALE_ONE,
    ensures
        r == scaled_len(len as int, scale as int),
        0 <= r <= len * SUBPIXELS,
{
    proof {
        lemma_scaled_len_bounds(len as int, scale as int);
        assert(len * SUBPIXELS * scale <= u32::MAX * SUBPIXELS * SCALE_ONE) by (nonlinear_arith)
            requires
                0 <= scale <= SCALE_ONE,
                len <= u32::MAX,
        ;
    }
    (len as i128) * (SUBPIXELS as i128) * (scale as i128) / (SCALE_ONE as i128)
}

/// `window_len / image_len` in millionths, rounded down.
fn ratio(window_len: u32, image_len: u32) -> (r: u64)
    requires
        image_len > 0,
    ensures
        r == axis_ratio(window_len as int, image_len as int),
{
    assert(window_len * SCALE_ONE <= u32::MAX * SCALE_ONE) by (nonlinear_arith)
        requires
            window_len <= u32::MAX,
    ;
    (window_len as u64) * (SCALE_ONE as u64) / (image_len as u64)
}

/// Offset and scale that center the image in the window: shown unscaled
/// when the window exceeds it on both sides, otherwise shrunk uniformly so
/// that its limiting side spans the window.
pub fn centered_fitting_image_offset_scale(image: Size, window: Size) -> (r: Fit)
    requires
        image.is_positive(),
        window.is_positive(),
    ensures
        r == fit_spec(image, window),
{
    let rx = ratio(window.width, image.width);
    let ry = ratio(window.height, image.height);
    let m = if rx < ry {
        rx
    } else {
        ry
    };
    let scale: i64 = if m > SCALE_ONE as u64 {
        SCALE_ONE
    } else if m < 1 {
        1
    } else {
        m as i64
    };
    proof {
        lemma_fit_in_bounds(image, window);
        assert(window.width * SUBPIXELS <= u32::MAX * SUBPIXELS && window.height * SUBPIXELS
            <= u32::MAX * SUBPIXELS) by (nonlinear_arith)
            requires
                window.width <= u32::MAX,
                window.height <= u32::MAX,
        ;
    }
    let sw = scaled_length(image.width, scale);
    let sh = scaled_length(image.height, scale);
    let x = floor_half((window.width as i128) * (SUBPIXELS as i128) - sw);
    let y = floor_half((window.height as i128) * (SUBPIXELS as i128) - sh);
    Fit { offset: Point { x: x as i64, y: y as i64 }, scale }
}

} // verus!
