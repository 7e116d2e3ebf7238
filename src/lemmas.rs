//! Laws of the view state machine, proved over its specification.
use vstd::prelude::*;
use crate::fit::{fit_spec, lemma_fit_in_bounds, lemma_fit_scale_range};
use crate::geometry::{Point, MIN_SCALE, MAX_SCALE, POSITION_LIMIT};
use crate::scroll::{ScrollDelta, TURN, QUARTER_TURN};
use crate::view::{
    State, WindowEvent, Key, MouseButton, DEFAULT_SPOTLIGHT_RADIUS, zoomed_coordinate,
};

verus! {

/// Every event keeps a consistent state consistent.
pub proof fn lemma_event_preserves_wf(s: State, e: WindowEvent)
    requires
        s.wf(),
    ensures
        s.next_spec(e).wf(),
{
    lemma_fit_in_bounds(s.image_size, s.window_size);
    lemma_fit_scale_range(s.image_size, s.window_size);
    match e {
        WindowEvent::Resized(size) | WindowEvent::ScaleFactorChanged(Some(size)) => {
            if size.is_positive() {
                lemma_fit_in_bounds(s.image_size, size);
                lemma_fit_scale_range(s.image_size, size);
            }
        },
        _ => {},
    }
}

/// Resetting is idempotent: fitting a view that was just fitted to the same
/// sizes yields the same offset, scale and state.
pub proof fn lemma_reset_idempotent(s: State)
    requires
        s.wf(),
    ensures
        s.reset_spec().reset_spec() == s.reset_spec(),
{
}

/// A reset (the R key) leaves exactly the fitted offset and scale for the
/// current sizes, no rotation, the default spotlight radius and no drag.
pub proof fn lemma_reset_matches_fit(s: State)
    requires
        s.wf(),
    ensures
        ({
            let t = s.next_spec(WindowEvent::KeyboardInput { key: Key::R, pressed: true });
            let f = fit_spec(s.image_size, s.window_size);
            &&& t.image_offset == f.offset
            &&& t.old_image_offset == f.offset
            &&& t.image_scale == f.scale
            &&& t.image_rotation_angle == 0
            &&& t.spotlight_radius == DEFAULT_SPOTLIGHT_RADIUS
            &&& t.initial_dragging_position.is_none()
        }),
{
}

/// `new_offset` keeps the image point under the cursor in place to within
/// one sub-pixel: with `image_coord = (cursor - offset) / old`, the point
/// `new_offset + image_coord * new` lies in `(cursor - 1, cursor]`.
pub open spec fn keeps_point_under_cursor(
    cursor: int,
    offset: int,
    old: int,
    new: int,
    new_offset: int,
) -> bool {
    (cursor - new_offset) * old <= (cursor - offset) * new < (cursor - new_offset + 1) * old
}

proof fn lemma_zoomed_coordinate_anchors(cursor: int, offset: int, old: int, new: int)
    requires
        old > 0,
        -POSITION_LIMIT <= cursor - (cursor - offset) * new / old <= POSITION_LIMIT,
    ensures
        keeps_point_under_cursor(cursor, offset, old, new, zoomed_coordinate(cursor, offset, old, new)),
{
    let a = (cursor - offset) * new;
    vstd::arithmetic::div_mod::lemma_fundamental_div_mod(a, old);
    assert((a / old) * old <= a < (a / old + 1) * old) by (nonlinear_arith)
        requires
            a == old * (a / old) + a % old,
            0 <= a % old < old,
    ;
}

/// One zoom step keeps the image point under the cursor where it was, to
/// within one sub-pixel on each axis, unless the new offset had to be
/// clamped to the coordinate range.
pub proof fn lemma_zoom_anchors_cursor(s: State, d: ScrollDelta)
    requires
        s.wf(),
    ensures
        ({
            let t = s.zoom_spec(d);
            let (c, o, old, new) = (s.cursor_position, s.image_offset, s.image_scale as int, t.image_scale as int);
            &&& (-POSITION_LIMIT <= c.x - (c.x - o.x) * new / old <= POSITION_LIMIT
                ==> keeps_point_under_cursor(c.x as int, o.x as int, old, new, t.image_offset.x as int))
            &&& (-POSITION_LIMIT <= c.y - (c.y - o.y) * new / old <= POSITION_LIMIT
                ==> keeps_point_under_cursor(c.y as int, o.y as int, old, new, t.image_offset.y as int))
        }),
{
    let t = s.zoom_spec(d);
    lemma_event_preserves_wf(s, WindowEvent::MouseWheel(d));
    let (c, o, old, new) = (s.cursor_position, s.image_offset, s.image_scale as int, s.zoomed_scale(d));
    assert(MIN_SCALE <= new <= MAX_SCALE);
    if -POSITION_LIMIT <= c.x - (c.x - o.x) * new / old <= POSITION_LIMIT {
        lemma_zoomed_coordinate_anchors(c.x as int, o.x as int, old, new);
    }
    if -POSITION_LIMIT <= c.y - (c.y - o.y) * new / old <= POSITION_LIMIT {
        lemma_zoomed_coordinate_anchors(c.y as int, o.y as int, old, new);
    }
}

/// The view after zooming by each delta in turn.
pub open spec fn zoom_all(s: State, deltas: Seq<ScrollDelta>) -> State
    decreases deltas.len(),
{
    if deltas.len() == 0 {
        s
    } else {
        zoom_all(s.zoom_spec(deltas[0]), deltas.drop_first())
    }
}

/// However many zoom steps are taken, in or out, the zoom factor never
/// leaves `[MIN_SCALE, MAX_SCALE]` after the first one.
pub proof fn lemma_zoom_stays_in_range(s: State, deltas: Seq<ScrollDelta>)
    requires
        s.wf(),
    ensures
        zoom_all(s, deltas).wf(),
        deltas.len() > 0 ==> MIN_SCALE <= zoom_all(s, deltas).image_scale <= MAX_SCALE,
    decreases deltas.len(),
{
    if deltas.len() > 0 {
        lemma_event_preserves_wf(s, WindowEvent::MouseWheel(deltas[0]));
        lemma_zoom_stays_in_range(s.zoom_spec(deltas[0]), deltas.drop_first());
    }
}

/// A wheel notch towards the user never takes the zoom factor below
/// `MIN_SCALE`, and never raises a factor already in range; a notch away
/// never lowers it and never takes it above `MAX_SCALE`.
pub proof fn lemma_wheel_zoom_monotone(s: State, y: i64)
    requires
        s.wf(),
    ensures
        y < 0 ==> MIN_SCALE <= s.zoomed_scale(ScrollDelta::Lines(y)),
        y < 0 && s.image_scale >= MIN_SCALE ==> s.zoomed_scale(ScrollDelta::Lines(y))
            <= s.image_scale,
        y >= 0 ==> s.image_scale <= s.zoomed_scale(ScrollDelta::Lines(y)) <= MAX_SCALE,
{
    let old = s.image_scale as int;
    assert(old * 900_000 / 1_000_000 <= old && old * 1_100_000 / 1_000_000 >= old && old
        * 1_000_000 / 1_000_000 == old)
        by (nonlinear_arith)
        requires
            old >= 0,
    ;
}

/// Dragging: press the left button with the cursor at `press_at`, move it to
/// `move_to`, release, then move it to `later`. While dragging the offset is
/// the committed offset plus the cursor's travel; the release commits it;
/// moving afterwards leaves it alone.
pub proof fn lemma_drag_round_trip(s: State, press_at: Point, move_to: Point, later: Point)
    requires
        s.wf(),
        press_at.in_bounds(),
        move_to.in_bounds(),
        later.in_bounds(),
        -POSITION_LIMIT <= s.old_image_offset.x + move_to.x - press_at.x <= POSITION_LIMIT,
        -POSITION_LIMIT <= s.old_image_offset.y + move_to.y - press_at.y <= POSITION_LIMIT,
    ensures
        ({
            let pressed = s.next_spec(WindowEvent::CursorMoved(press_at)).next_spec(
                WindowEvent::MouseInput { button: MouseButton::Left, pressed: true },
            );
            let dragged = pressed.next_spec(WindowEvent::CursorMoved(move_to));
            let released = dragged.next_spec(
                WindowEvent::MouseInput { button: MouseButton::Left, pressed: false },
            );
            let after = released.next_spec(WindowEvent::CursorMoved(later));
            &&& dragged.image_offset == Point {
                x: (s.old_image_offset.x + move_to.x - press_at.x) as i64,
                y: (s.old_image_offset.y + move_to.y - press_at.y) as i64,
            }
            &&& released.old_image_offset == dragged.image_offset
            &&& released.initial_dragging_position.is_none()
            &&& after.image_offset == dragged.image_offset
        }),
{
}

/// The view after turning it `n` times by a quarter turn (π/2).
pub open spec fn quarter_turns(s: State, n: nat) -> State
    decreases n,
{
    if n == 0 {
        s
    } else {
        quarter_turns(s, (n - 1) as nat).rotate_spec(QUARTER_TURN as int)
    }
}

/// Turning keeps a consistent state consistent.
pub proof fn lemma_rotate_preserves_wf(s: State, delta: int)
    requires
        s.wf(),
    ensures
        s.rotate_spec(delta).wf(),
{
}

proof fn lemma_quarter_turns_congruent(s: State, n: nat)
    requires
        s.wf(),
    ensures
        quarter_turns(s, n).wf(),
        (quarter_turns(s, n).image_rotation_angle - s.image_rotation_angle - n * QUARTER_TURN)
            % (TURN as int) == 0,
    decreases n,
{
    if n > 0 {
        let p = quarter_turns(s, (n - 1) as nat);
        lemma_quarter_turns_congruent(s, (n - 1) as nat);
        lemma_rotate_preserves_wf(p, QUARTER_TURN as int);
        let a = p.image_rotation_angle + QUARTER_TURN;
        let w = quarter_turns(s, n).image_rotation_angle;
        let k = p.image_rotation_angle - s.image_rotation_angle - (n - 1) * QUARTER_TURN;
        assert((w - a) % (TURN as int) == 0);
        assert(w - s.image_rotation_angle - n * QUARTER_TURN == (w - a) + k);
        vstd::arithmetic::div_mod::lemma_add_mod_noop(w - a, k, TURN as int);
    }
}

/// Eight quarter turns bring the image back to its angle, modulo one turn.
pub proof fn lemma_eight_quarter_turns(s: State)
    requires
        s.wf(),
    ensures
        (quarter_turns(s, 8).image_rotation_angle - s.image_rotation_angle) % (TURN as int) == 0,
{
    lemma_quarter_turns_congruent(s, 8);
}

} // verus!
