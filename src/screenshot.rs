//! Laying out the screenshots of several monitors side by side.
use vstd::prelude::*;
use crate::geometry::Size;

verus! {

/// One image holding all monitors' screenshots, left to right.
#[derive(Clone, Debug, PartialEq, Eq)]
pub struct Composition {
    /// Width of the composed image: the sum of the screenshots' widths.
    pub width: u32,
    /// Height of the composed image: the tallest screenshot's height.
    pub height: u32,
    /// Horizontal position of each screenshot in the composed image.
    pub offsets: Vec<u32>,
}

/// Why no composition could be made.
#[derive(Clone, Copy, Debug, PartialEq, Eq, Structural)]
pub enum CompositionError {
    /// There was no screenshot.
    NoMonitors,
    /// The screenshots together are wider than an image can be.
    TooWide,
}

impl CompositionError {
    /// What to tell the user.
    pub fn message(&self) -> (r: &'static str)
        ensures
            *self == CompositionError::NoMonitors ==> r@ == "No monitors detected"@,
            *self == CompositionError::TooWide ==> r@ == "Screens are too wide to compose"@,
    {
        match self {
            CompositionError::NoMonitors => "No monitors detected",
            CompositionError::TooWide => "Screens are too wide to compose",
        }
    }
}

/// Sum of the widths.
pub open spec fn total_width(sizes: Seq<Size>) -> int
    decreases sizes.len(),
{
    if sizes.len() == 0 {
        0
    } else {
        total_width(sizes.drop_last()) + sizes.last().width
    }
}

/// Largest height, zero for no sizes.
pub open spec fn max_height(sizes: Seq<Size>) -> int
    decreases sizes.len(),
{
    if sizes.len() == 0 {
        0
    } else {
        let h = max_height(sizes.drop_last());
        if sizes.last().height > h {
            sizes.last().height as int
        } else {
            h
        }
    }
}

proof fn lemma_total_width_grows(sizes: Seq<Size>, i: int)
    requires
        0 <= i <= sizes.len(),
    ensures
        total_width(sizes.take(i)) <= total_width(sizes),
    decreases sizes.len(),
{
    if i < sizes.len() {
        assert(sizes.drop_last().take(i) == sizes.take(i));
        lemma_total_width_grows(sizes.drop_last(), i);
    } else {
        assert(sizes.take(i) == sizes);
    }
}

/// Places the screenshots of `sizes` left to right, top-aligned: each
/// starts where the previous one ends.
pub fn compose_layout(sizes: &Vec<Size>) -> (r: Result<Composition, CompositionError>)
    ensures
        sizes@.len() == 0 ==> r == Err::<Composition, CompositionError>(
            CompositionError::NoMonitors,
        ),
        sizes@.len() > 0 && total_width(sizes@) > u32::MAX ==> r == Err::<
            Composition,
            CompositionError,
        >(CompositionError::TooWide),
        sizes@.len() > 0 && total_width(sizes@) <= u32::MAX ==> (r matches Ok(c) && c.width
            == total_width(sizes@) && c.height == max_height(sizes@) && c.offsets@.len()
            == sizes@.len() && forall|i: int|
            0 <= i < sizes@.len() ==> c.offsets@[i] == total_width(#[trigger] sizes@.take(i))),
{
    if sizes.len() == 0 {
        return Err(CompositionError::NoMonitors);
    }
    let mut offsets: Vec<u32> = Vec::new();
    let mut width: u64 = 0;
    let mut height: u32 = 0;
    let mut i: usize = 0;
    while i < sizes.len()
        invariant
            i <= sizes@.len(),
            width == total_width(sizes@.take(i as int)),
            width <= u32::MAX,
            height == max_height(sizes@.take(i as int)),
            offsets@.len() == i,
            forall|j: int| 0 <= j < i ==> offsets@[j] == total_width(#[trigger] sizes@.take(j)),
        decreases sizes@.len() - i,
    {
        assert(sizes@.take(i as int + 1).drop_last() == sizes@.take(i as int));
        offsets.push(width as u32);
        width = width + sizes[i].width as u64;
        if sizes[i].height > height {
            height = sizes[i].height;
        }
        i = i + 1;
        if width > u32::MAX as u64 {
            proof {
                lemma_total_width_grows(sizes@, i as int);
            }
            assert(sizes@.take(sizes@.len() as int) == sizes@);
            return Err(CompositionError::TooWide);
        }
    }
    assert(sizes@.take(sizes@.len() as int) == sizes@);
    Ok(Composition { width: width as u32, height, offsets })
}

} // verus!
