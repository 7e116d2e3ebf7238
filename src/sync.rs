//! Deciding which GPU uniform blocks to rewrite before a frame.
use vstd::prelude::*;
use crate::geometry::{Point, Size};
use crate::view::State;

verus! {

/// The view values that the uniform blocks are computed from.
#[derive(Clone, Copy, Debug, PartialEq, Eq, Structural)]
pub struct UniformInputs {
    pub window_size: Size,
    pub image_size: Size,
    pub image_offset: Point,
    pub image_scale: i64,
    pub image_rotation_angle: i64,
    pub cursor_position: Point,
    pub spotlight_radius: i64,
    pub spotlight_darkness: i64,
}

/// The inputs of the uniform blocks for a view.
pub open spec fn inputs_of(s: State) -> UniformInputs {
    UniformInputs {
        window_size: s.window_size,
        image_size: s.image_size,
        image_offset: s.image_offset,
        image_scale: s.image_scale,
        image_rotation_angle: s.image_rotation_angle,
        cursor_position: s.cursor_position,
        spotlight_radius: s.spotlight_radius,
        spotlight_darkness: s.spotlight_darkness,
    }
}

/// What the uniform buffers were last written from.
#[derive(Clone, Copy, Debug, PartialEq, Eq, Structural)]
pub struct UniformSync {
    /// Inputs of the last write of the image block; none before the first.
    pub image: Option<UniformInputs>,
    /// Inputs of the last write of the spotlight block; none before the first.
    pub spotlight: Option<UniformInputs>,
}

/// The buffer writes and draws of one frame.
#[derive(Clone, Copy, Debug, PartialEq, Eq, Structural)]
pub struct FramePlan {
    /// Rewrite the image block from the current view.
    pub write_image: bool,
    /// Rewrite the spotlight block from the current view.
    pub write_spotlight: bool,
    /// Draw the spotlight over the image.
    pub draw_spotlight: bool,
}

/// The inputs of the uniform blocks for a view.
pub fn uniform_inputs(s: &State) -> (r: UniformInputs)
    ensures
        r == inputs_of(*s),
{
    UniformInputs {
        window_size: s.window_size,
        image_size: s.image_size,
        image_offset: s.image_offset,
        image_scale: s.image_scale,
        image_rotation_angle: s.image_rotation_angle,
        cursor_position: s.cursor_position,
        spotlight_radius: s.spotlight_radius,
        spotlight_darkness: s.spotlight_darkness,
    }
}

impl UniformSync {
    /// Nothing has been written yet.
    pub fn new() -> (r: UniformSync)
        ensures
            r.image.is_none(),
            r.spotlight.is_none(),
    {
        UniformSync { image: None, spotlight: None }
    }

    /// The plan for the next frame of `s`: a block is rewritten exactly when
    /// the view changed since its last write (or it was never written), and
    /// the spotlight block only while the spotlight is shown.
    pub open spec fn plan_spec(self, s: State) -> FramePlan {
        FramePlan {
            write_image: self.image != Some(inputs_of(s)),
            write_spotlight: s.spotlight_on && self.spotlight != Some(inputs_of(s)),
            draw_spotlight: s.spotlight_on,
        }
    }

    /// The record after carrying out the plan for `s`.
    pub open spec fn after_spec(self, s: State) -> UniformSync {
        UniformSync {
            image: Some(inputs_of(s)),
            spotlight: if s.spotlight_on {
                Some(inputs_of(s))
            } else {
                self.spotlight
            },
        }
    }

    /// Plans the buffer writes and draws of the next frame of `s`, and
    /// records the writes as done.
    pub fn plan_frame(&mut self, s: &State) -> (r: FramePlan)
        ensures
            r == old(self).plan_spec(*s),
            *final(self) == old(self).after_spec(*s),
    {
        let inputs = uniform_inputs(s);
        let write_image = match self.image {
            Some(last) => last != inputs,
            None => true,
        };
        let write_spotlight = s.spotlight_on && match self.spotlight {
            Some(last) => last != inputs,
            None => true,
        };
        self.image = Some(inputs);
        if s.spotlight_on {
            self.spotlight = Some(inputs);
        }
        FramePlan { write_image, write_spotlight, draw_spotlight: s.spotlight_on }
    }
}

/// No block that a frame uses is stale: after planning, the image block
/// holds the current view, and so does the spotlight block whenever the
/// spotlight is drawn.
pub proof fn lemma_plan_leaves_nothing_stale(sync: UniformSync, s: State)
    ensures
        sync.after_spec(s).image == Some(inputs_of(s)),
        sync.plan_spec(s).draw_spotlight ==> sync.after_spec(s).spotlight == Some(inputs_of(s)),
{
}

/// Planning is idempotent: a second frame of an unchanged view rewrites
/// nothing.
pub proof fn lemma_plan_idempotent(sync: UniformSync, s: State)
    ensures
        !sync.after_spec(s).plan_spec(s).write_image,
        !sync.after_spec(s).plan_spec(s).write_spotlight,
        sync.after_spec(s).after_spec(s) == sync.after_spec(s),
{
}

} // verus!
