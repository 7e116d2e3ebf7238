//! Choices made when configuring the drawing surface.
use vstd::prelude::*;

verus! {

/// How the window system blends the surface with what lies behind it.
#[derive(Clone, Copy, Debug, PartialEq, Eq, Structural)]
pub enum AlphaMode {
    Auto,
    Opaque,
    PreMultiplied,
    PostMultiplied,
    Inherit,
}

/// The preferred blending among those the surface supports: pre-multiplied,
/// else post-multiplied (both allow transparency), else automatic.
pub open spec fn preferred_alpha_mode(supported: Seq<AlphaMode>) -> AlphaMode {
    if supported.contains(AlphaMode::PreMultiplied) {
        AlphaMode::PreMultiplied
    } else if supported.contains(AlphaMode::PostMultiplied) {
        AlphaMode::PostMultiplied
    } else {
        AlphaMode::Auto
    }
}

fn supports(modes: &Vec<AlphaMode>, mode: AlphaMode) -> (r: bool)
    ensures
        r == modes@.contains(mode),
{
    let mut i: usize = 0;
    while i < modes.len()
        invariant
            i <= modes.len(),
            forall|j: int| 0 <= j < i ==> modes@[j] != mode,
        decreases modes.len() - i,
    {
        if modes[i] == mode {
            return true;
        }
        i = i + 1;
    }
    false
}

/// Selects the surface's blending, preferring modes that allow
/// transparency.
pub fn select_surface_alpha_mode(alpha_modes: &Vec<AlphaMode>) -> (r: AlphaMode)
    ensures
        r == preferred_alpha_mode(alpha_modes@),
{
    if supports(alpha_modes, AlphaMode::PreMultiplied) {
        AlphaMode::PreMultiplied
    } else if supports(alpha_modes, AlphaMode::PostMultiplied) {
        AlphaMode::PostMultiplied
    } else {
        AlphaMode::Auto
    }
}

/// Index of the texture format to draw in, given for each supported format
/// whether it is sRGB: the first sRGB one, else the first one; none when no
/// format is supported.
pub fn select_texture_format(is_srgb: &Vec<bool>) -> (r: Option<usize>)
    ensures
        is_srgb@.len() == 0 ==> r.is_none(),
        is_srgb@.len() > 0 ==> r.is_some(),
        match r {
            Some(i) => {
                &&& i < is_srgb@.len()
                &&& forall|j: int| 0 <= j < i ==> !is_srgb@[j]
                &&& (is_srgb@[i as int] || (i == 0 && forall|j: int|
                    0 <= j < is_srgb@.len() ==> !is_srgb@[j]))
            },
            None => true,
        },
{
    let mut i: usize = 0;
    while i < is_srgb.len()
        invariant
            i <= is_srgb.len(),
            forall|j: int| 0 <= j < i ==> !is_srgb@[j],
        decreases is_srgb.len() - i,
    {
        if is_srgb[i] {
            return Some(i);
        }
        i = i + 1;
    }
    if is_srgb.len() > 0 {
        Some(0)
    } else {
        None
    }
}

} // verus!
