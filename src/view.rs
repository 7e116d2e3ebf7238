//! The interaction state machine: how window events change the view.
use vstd::prelude::*;
use crate::config::AppConfig;
use crate::fit::{Fit, fit_spec, centered_fitting_image_offset_scale, lemma_fit_in_bounds,
    lemma_fit_scale_range};
use crate::lemmas::{keeps_point_under_cursor, lemma_zoom_anchors_cursor};
use crate::geometry::{
    Point, Size, MIN_SCALE, MAX_SCALE, POSITION_LIMIT, clamp_position, clamp_coordinate,
    floor_div,
};
use crate::scroll::{
    ScrollDelta, TURN, QUARTER_TURN, multiplier_spec, scaled_clamped, rotation_delta_spec,
    wrap_turn, multiplier_from_mouse_delta, apply_multiplier, rotation_delta, wrap_angle,
};

verus! {

/// Smallest spotlight radius (0.01 of the window), in millionths.
pub const MIN_SPOTLIGHT_RADIUS: i64 = 10_000;

/// Largest spotlight radius (the whole window), in millionths.
pub const MAX_SPOTLIGHT_RADIUS: i64 = 1_000_000;

/// Spotlight radius at start and after a reset (0.1), in millionths.
pub const DEFAULT_SPOTLIGHT_RADIUS: i64 = 100_000;

/// Opacity of the spotlight's dimming (0.9), in millionths.
pub const SPOTLIGHT_DARKNESS: i64 = 900_000;

/// Largest magnitude of one rotation step, in angle units
/// (`POSITION_LIMIT * TURN`); no scroll event yields more.
pub const MAX_ROTATION_STEP: i64 = 216_172_782_113_783_808;

/// What scrolling does; chosen by the held modifier keys.
#[derive(Clone, Copy, Debug, Default, PartialEq, Eq, Structural)]
pub enum ScrollBehaviour {
    #[default]
    Zoom,
    Rotate,
    ChangeSpotlightRadius,
}

/// Keys the viewer reacts to.
#[derive(Clone, Copy, Debug, PartialEq, Eq, Structural)]
pub enum Key {
    Escape,
    R,
    Q,
    E,
    Other,
}

/// Mouse buttons the viewer reacts to.
#[derive(Clone, Copy, Debug, PartialEq, Eq, Structural)]
pub enum MouseButton {
    Left,
    Right,
    Back,
    Other,
}

/// Modifier keys held down.
#[derive(Clone, Copy, Debug, PartialEq, Eq, Structural)]
pub struct Modifiers {
    pub control: bool,
    pub shift: bool,
    pub alt: bool,
}

/// A window event, reduced to what the viewer reads of it.
#[derive(Clone, Copy, Debug, PartialEq, Eq, Structural)]
pub enum WindowEvent {
    CloseRequested,
    Destroyed,
    /// New inner size of the window, in pixels.
    Resized(Size),
    /// The window's scale factor changed; carries the new inner size in
    /// pixels, or none when the platform rejected the resize.
    ScaleFactorChanged(Option<Size>),
    KeyboardInput { key: Key, pressed: bool },
    ModifiersChanged(Modifiers),
    MouseInput { button: MouseButton, pressed: bool },
    MouseWheel(ScrollDelta),
    /// New cursor position, in sub-pixels.
    CursorMoved(Point),
    RedrawRequested,
    Other,
}

/// What the surroundings have to do after an event.
#[derive(Clone, Copy, Debug, PartialEq, Eq, Structural)]
pub struct EventResponse {
    /// Leave the application.
    pub exit: bool,
    /// Configure the drawing surface to this size before the next frame.
    pub reconfigure: Option<Size>,
    /// Draw a frame now.
    pub render: bool,
    /// Ask the window for another redraw.
    pub request_redraw: bool,
}

/// How drawing a frame went.
#[derive(Clone, Copy, Debug, PartialEq, Eq, Structural)]
pub enum RenderResult {
    Presented,
    /// The surface was lost and must be configured again.
    Lost,
    /// The surface no longer matches the window and must be configured again.
    Outdated,
    /// Any other failure of the frame.
    Failed,
}

/// What to do once a frame has been attempted.
#[derive(Clone, Copy, Debug, PartialEq, Eq, Structural)]
pub enum RenderAction {
    Done,
    /// Configure the surface to this size; the frame is skipped.
    Reconfigure(Size),
    /// Report the failure; the next redraw tries again.
    Report,
}

/// The view of the image and the input state that drives it.
#[derive(Clone, Copy, Debug, PartialEq, Eq, Structural)]
pub struct State {
    pub app_config: AppConfig,
    /// Current inner size of the window, in pixels.
    pub window_size: Size,
    /// Size of the image, in pixels; fixed for the session.
    pub image_size: Size,
    /// Where the image's top-left corner is drawn, in sub-pixels.
    pub image_offset: Point,
    /// The offset as of the last drag release, zoom or reset.
    pub old_image_offset: Point,
    /// Last known cursor position, in sub-pixels.
    pub cursor_position: Point,
    /// Cursor position where the current drag started; none when not dragging.
    pub initial_dragging_position: Option<Point>,
    /// Zoom factor, in millionths.
    pub image_scale: i64,
    /// Rotation of the image about its center, in units of `TURN` per turn.
    pub image_rotation_angle: i64,
    /// The spotlight is shown (Control held).
    pub spotlight_on: bool,
    /// Spotlight radius relative to the window, in millionths.
    pub spotlight_radius: i64,
    /// Opacity of the spotlight's dimming, in millionths.
    pub spotlight_darkness: i64,
    pub scroll_behaviour: ScrollBehaviour,
    /// Window size at start.
    pub initial_window_size: Size,
    /// The view is fitted once more on the first resize to a size other than
    /// the one at start, when the window system settles the real size late.
    pub refit_pending: bool,
}

/// Scroll behaviour for the held modifiers: Alt rotates, Control with Shift
/// changes the spotlight radius, anything else zooms.
pub open spec fn behaviour_for(m: Modifiers) -> ScrollBehaviour {
    if m.alt {
        ScrollBehaviour::Rotate
    } else if m.control && m.shift {
        ScrollBehaviour::ChangeSpotlightRadius
    } else {
        ScrollBehaviour::Zoom
    }
}

/// New offset coordinate after zooming from `old` to `new` scale with the
/// cursor at `cursor`: the image point under the cursor stays under it.
pub open spec fn zoomed_coordinate(cursor: int, offset: int, old: int, new: int) -> int {
    clamp_position(cursor - (cursor - offset) * new / old)
}

/// The event asks for a new frame once it is handled.
pub open spec fn redraw_wanted(event: WindowEvent) -> bool {
    match event {
        WindowEvent::Resized(_)
        | WindowEvent::ScaleFactorChanged(_)
        | WindowEvent::KeyboardInput { .. }
        | WindowEvent::ModifiersChanged(_)
        | WindowEvent::MouseInput { .. }
        | WindowEvent::MouseWheel(_)
        | WindowEvent::CursorMoved(_) => true,
        _ => false,
    }
}

/// The event asks to leave the application: the window closes, Escape or Q
/// is pressed, or the right button is pressed.
pub open spec fn exit_wanted(event: WindowEvent) -> bool {
    match event {
        WindowEvent::CloseRequested | WindowEvent::Destroyed => true,
        WindowEvent::KeyboardInput { key, pressed } => pressed && (key == Key::Escape || key
            == Key::Q),
        WindowEvent::MouseInput { button, pressed } => pressed && button == MouseButton::Right,
        _ => false,
    }
}

impl State {
    /// The state is consistent: positive sizes, coordinates in range, the
    /// zoom factor, angle and spotlight radius within their bounds.
    pub open spec fn wf(self) -> bool {
        &&& self.window_size.is_positive()
        &&& self.image_size.is_positive()
        &&& self.image_offset.in_bounds()
        &&& self.old_image_offset.in_bounds()
        &&& self.cursor_position.in_bounds()
        &&& match self.initial_dragging_position {
            Some(p) => p.in_bounds(),
            None => true,
        }
        &&& 1 <= self.image_scale <= MAX_SCALE
        &&& -TURN < self.image_rotation_angle < TURN
        &&& MIN_SPOTLIGHT_RADIUS <= self.spotlight_radius <= MAX_SPOTLIGHT_RADIUS
    }

    /// The view fitted to the current window: offset and scale of the fit,
    /// no rotation, default spotlight radius, no drag in progress.
    pub open spec fn reset_spec(self) -> State {
        let f = fit_spec(self.image_size, self.window_size);
        State {
            image_offset: f.offset,
            old_image_offset: f.offset,
            image_scale: f.scale,
            image_rotation_angle: 0,
            spotlight_radius: DEFAULT_SPOTLIGHT_RADIUS,
            initial_dragging_position: None,
            ..self
        }
    }

    /// The state after the window is resized to `size`; a size with a zero
    /// side is ignored.
    pub open spec fn resize_spec(self, size: Size) -> State {
        if !size.is_positive() {
            self
        } else {
            let resized = State { window_size: size, ..self };
            let centered = if self.app_config.center_image_on_resize {
                resized.reset_spec()
            } else {
                resized
            };
            if centered.refit_pending && centered.initial_window_size != centered.window_size {
                State { refit_pending: false, ..centered.reset_spec() }
            } else {
                centered
            }
        }
    }

    /// The state after turning the image by `delta` angle units.
    pub open spec fn rotate_spec(self, delta: int) -> State {
        State {
            image_rotation_angle: wrap_turn(self.image_rotation_angle + delta) as i64,
            ..self
        }
    }

    /// The state after a key event: R resets the view and E turns it back by
    /// a quarter turn; Escape and Q ask to leave and change nothing.
    pub open spec fn keyboard_spec(self, key: Key, pressed: bool) -> State {
        if !pressed {
            self
        } else {
            match key {
                Key::R => self.reset_spec(),
                Key::E => self.rotate_spec(-QUARTER_TURN),
                _ => self,
            }
        }
    }

    /// The state after the held modifiers change.
    pub open spec fn modifiers_spec(self, m: Modifiers) -> State {
        State { spotlight_on: m.control, scroll_behaviour: behaviour_for(m), ..self }
    }

    /// The state after a mouse button event: the left button starts and ends
    /// a drag, the back button resets the view.
    pub open spec fn mouse_input_spec(self, button: MouseButton, pressed: bool) -> State {
        match button {
            MouseButton::Left => if pressed {
                State { initial_dragging_position: Some(self.cursor_position), ..self }
            } else {
                State {
                    old_image_offset: self.image_offset,
                    initial_dragging_position: None,
                    ..self
                }
            },
            MouseButton::Back => if pressed {
                self.reset_spec()
            } else {
                self
            },
            _ => self,
        }
    }

    /// The state after the cursor moves to `p`: while dragging, the offset is
    /// the committed offset moved by the cursor's travel since the drag began.
    pub open spec fn cursor_moved_spec(self, p: Point) -> State {
        let cursor = Point {
            x: clamp_position(p.x as int) as i64,
            y: clamp_position(p.y as int) as i64,
        };
        let moved = State { cursor_position: cursor, ..self };
        match self.initial_dragging_position {
            Some(anchor) => State {
                image_offset: Point {
                    x: clamp_position(self.old_image_offset.x + cursor.x - anchor.x) as i64,
                    y: clamp_position(self.old_image_offset.y + cursor.y - anchor.y) as i64,
                },
                ..moved
            },
            None => moved,
        }
    }

    /// The zoom factor after a scroll event in zoom mode.
    pub open spec fn zoomed_scale(self, d: ScrollDelta) -> int {
        scaled_clamped(
            self.image_scale as int,
            multiplier_spec(d, self.window_size.height as int),
            MIN_SCALE as int,
            MAX_SCALE as int,
        )
    }

    /// The state after zooming: the scale is multiplied and clamped, and the
    /// offset moves so that the image point under the cursor stays there; the
    /// new offset is committed.
    pub open spec fn zoom_spec(self, d: ScrollDelta) -> State {
        let new_scale = self.zoomed_scale(d);
        let offset = Point {
            x: zoomed_coordinate(
                self.cursor_position.x as int,
                self.image_offset.x as int,
                self.image_scale as int,
                new_scale,
            ) as i64,
            y: zoomed_coordinate(
                self.cursor_position.y as int,
                self.image_offset.y as int,
                self.image_scale as int,
                new_scale,
            ) as i64,
        };
        State {
            image_offset: offset,
            old_image_offset: offset,
            image_scale: new_scale as i64,
            ..self
        }
    }

    /// The state after a scroll event in spotlight-radius mode.
    pub open spec fn radius_spec(self, d: ScrollDelta) -> State {
        State {
            spotlight_radius: scaled_clamped(
                self.spotlight_radius as int,
                multiplier_spec(d, self.window_size.height as int),
                MIN_SPOTLIGHT_RADIUS as int,
                MAX_SPOTLIGHT_RADIUS as int,
            ) as i64,
            ..self
        }
    }

    /// The state after a scroll event, by the current scroll behaviour.
    pub open spec fn mouse_wheel_spec(self, d: ScrollDelta) -> State {
        match self.scroll_behaviour {
            ScrollBehaviour::Zoom => self.zoom_spec(d),
            ScrollBehaviour::Rotate => self.rotate_spec(
                rotation_delta_spec(d, self.window_size.height as int),
            ),
            ScrollBehaviour::ChangeSpotlightRadius => self.radius_spec(d),
        }
    }

    /// The state after the scale factor changes: a new positive size is
    /// taken and the view fitted to it, whatever the centering setting; a
    /// rejected or empty size leaves the state as it was.
    pub open spec fn scale_factor_spec(self, new_size: Option<Size>) -> State {
        match new_size {
            Some(size) => if size.is_positive() {
                State { window_size: size, ..self }.reset_spec()
            } else {
                self
            },
            None => self,
        }
    }

    /// The state after any window event.
    pub open spec fn next_spec(self, event: WindowEvent) -> State {
        match event {
            WindowEvent::Resized(size) => self.resize_spec(size),
            WindowEvent::ScaleFactorChanged(new_size) => self.scale_factor_spec(new_size),
            WindowEvent::KeyboardInput { key, pressed } => self.keyboard_spec(key, pressed),
            WindowEvent::ModifiersChanged(m) => self.modifiers_spec(m),
            WindowEvent::MouseInput { button, pressed } => self.mouse_input_spec(button, pressed),
            WindowEvent::MouseWheel(d) => self.mouse_wheel_spec(d),
            WindowEvent::CursorMoved(p) => self.cursor_moved_spec(p),
            _ => self,
        }
    }

    /// What the surroundings must do after an event.
    pub open spec fn response_spec(event: WindowEvent) -> EventResponse {
        EventResponse {
            exit: exit_wanted(event),
            reconfigure: match event {
                WindowEvent::Resized(size) => if size.is_positive() {
                    Some(size)
                } else {
                    None
                },
                WindowEvent::ScaleFactorChanged(Some(size)) => if size.is_positive() {
                    Some(size)
                } else {
                    None
                },
                _ => None,
            },
            render: event == WindowEvent::RedrawRequested,
            request_redraw: redraw_wanted(event),
        }
    }

    /// The state at start: the image fitted to the window, no rotation,
    /// spotlight off with its default radius, zooming on scroll.
    pub open spec fn initial_spec(app_config: AppConfig, window_size: Size, image_size: Size) -> State {
        let f = fit_spec(image_size, window_size);
        State {
            app_config,
            window_size,
            image_size,
            image_offset: f.offset,
            old_image_offset: f.offset,
            cursor_position: Point { x: 0, y: 0 },
            initial_dragging_position: None,
            image_scale: f.scale,
            image_rotation_angle: 0,
            spotlight_on: false,
            spotlight_radius: DEFAULT_SPOTLIGHT_RADIUS,
            spotlight_darkness: SPOTLIGHT_DARKNESS,
            scroll_behaviour: ScrollBehaviour::Zoom,
            initial_window_size: window_size,
            refit_pending: true,
        }
    }

    /// A view of `image_size` pixels in a window of `window_size` pixels.
    pub fn new(app_config: AppConfig, window_size: Size, image_size: Size) -> (r: State)
        requires
            window_size.is_positive(),
            image_size.is_positive(),
        ensures
            r == State::initial_spec(app_config, window_size, image_size),
            r.wf(),
    {
        let fit = centered_fitting_image_offset_scale(image_size, window_size);
        proof {
            lemma_fit_in_bounds(image_size, window_size);
            lemma_fit_scale_range(image_size, window_size);
        }
        State {
            app_config,
            window_size,
            image_size,
            image_offset: fit.offset,
            old_image_offset: fit.offset,
            cursor_position: Point { x: 0, y: 0 },
            initial_dragging_position: None,
            image_scale: fit.scale,
            image_rotation_angle: 0,
            spotlight_on: false,
            spotlight_radius: DEFAULT_SPOTLIGHT_RADIUS,
            spotlight_darkness: SPOTLIGHT_DARKNESS,
            scroll_behaviour: ScrollBehaviour::Zoom,
            initial_window_size: window_size,
            refit_pending: true,
        }
    }

    /// Fits the image to the window again and clears rotation, spotlight
    /// radius and any drag.
    pub fn reset_image_position(&mut self)
        requires
            old(self).wf(),
        ensures
            *final(self) == old(self).reset_spec(),
            final(self).wf(),
    {
        let fit: Fit = centered_fitting_image_offset_scale(self.image_size, self.window_size);
        proof {
            lemma_fit_in_bounds(self.image_size, self.window_size);
            lemma_fit_scale_range(self.image_size, self.window_size);
        }
        self.image_offset = fit.offset;
        self.old_image_offset = fit.offset;
        self.image_scale = fit.scale;
        self.image_rotation_angle = 0;
        self.spotlight_radius = DEFAULT_SPOTLIGHT_RADIUS;
        self.initial_dragging_position = None;
    }

    /// Fits the view once more on the first resize to a size other than the
    /// one at start.
    fn check_and_recalculate_initial_image_position(&mut self)
        requires
            old(self).wf(),
        ensures
            *final(self) == (if old(self).refit_pending && old(self).initial_window_size
                != old(self).window_size {
                State { refit_pending: false, ..old(self).reset_spec() }
            } else {
                *old(self)
            }),
            final(self).wf(),
    {
        if self.refit_pending && self.initial_window_size != self.window_size {
            self.reset_image_position();
            self.refit_pending = false;
        }
    }

    /// Takes the window's new size; the view is fitted again when so
    /// configured. A size with a zero side is ignored.
    pub fn resize(&mut self, window_size: Size)
        requires
            old(self).wf(),
        ensures
            *final(self) == old(self).resize_spec(window_size),
            final(self).wf(),
    {
        if window_size.width == 0 || window_size.height == 0 {
            return;
        }
        self.window_size = window_size;
        if self.app_config.center_image_on_resize {
            self.reset_image_position();
        }
        self.check_and_recalculate_initial_image_position();
    }

    /// Turns the image by `angle` units, keeping the angle within one turn.
    pub fn increment_image_rotation_angle(&mut self, angle: i64)
        requires
            old(self).wf(),
            -MAX_ROTATION_STEP <= angle <= MAX_ROTATION_STEP,
        ensures
            *final(self) == old(self).rotate_spec(angle as int),
            final(self).wf(),
    {
        self.image_rotation_angle = wrap_angle(self.image_rotation_angle + angle);
    }

    /// A key event: R resets the view, E turns it back by a quarter turn.
    pub fn handle_keyboard_input(&mut self, key: Key, pressed: bool)
        requires
            old(self).wf(),
        ensures
            *final(self) == old(self).keyboard_spec(key, pressed),
            final(self).wf(),
    {
        if pressed {
            match key {
                Key::R => self.reset_image_position(),
                Key::E => self.increment_image_rotation_angle(-QUARTER_TURN),
                _ => {},
            }
        }
    }

    /// The held modifiers changed: Control shows the spotlight, and the
    /// modifiers choose what scrolling does.
    pub fn handle_modifiers_changed(&mut self, modifiers: Modifiers)
        requires
            old(self).wf(),
        ensures
            *final(self) == old(self).modifiers_spec(modifiers),
            final(self).wf(),
    {
        self.spotlight_on = modifiers.control;
        if modifiers.alt {
            self.scroll_behaviour = ScrollBehaviour::Rotate;
        } else if modifiers.control && modifiers.shift {
            self.scroll_behaviour = ScrollBehaviour::ChangeSpotlightRadius;
        } else {
            self.scroll_behaviour = ScrollBehaviour::Zoom;
        }
    }

    /// A mouse button event: the left button starts and ends a drag, the back
    /// button resets the view.
    pub fn handle_mouse_input(&mut self, button: MouseButton, pressed: bool)
        requires
            old(self).wf(),
        ensures
            *final(self) == old(self).mouse_input_spec(button, pressed),
            final(self).wf(),
    {
        match button {
            MouseButton::Left => {
                if pressed {
                    self.initial_dragging_position = Some(self.cursor_position);
                } else {
                    self.old_image_offset = self.image_offset;
                    self.initial_dragging_position = None;
                }
            },
            MouseButton::Back => {
                if pressed {
                    self.reset_image_position();
                }
            },
            _ => {},
        }
    }

    /// The cursor moved: while dragging, the offset follows it from the
    /// committed offset; otherwise only the cursor position changes.
    pub fn handle_cursor_moved(&mut self, position: Point)
        requires
            old(self).wf(),
        ensures
            *final(self) == old(self).cursor_moved_spec(position),
            final(self).wf(),
    {
        let cursor = Point {
            x: clamp_coordinate(position.x as i128),
            y: clamp_coordinate(position.y as i128),
        };
        self.cursor_position = cursor;
        if let Some(anchor) = self.initial_dragging_position {
            self.image_offset = Point {
                x: clamp_coordinate(
                    self.old_image_offset.x as i128 + cursor.x as i128 - anchor.x as i128,
                ),
                y: clamp_coordinate(
                    self.old_image_offset.y as i128 + cursor.y as i128 - anchor.y as i128,
                ),
            };
        }
    }

    /// Takes the window's size after a scale-factor change and fits the
    /// view to it; a rejected or empty size changes nothing.
    pub fn handle_scale_factor_changed(&mut self, new_size: Option<Size>)
        requires
            old(self).wf(),
        ensures
            *final(self) == old(self).scale_factor_spec(new_size),
            final(self).wf(),
    {
        if let Some(size) = new_size {
            if size.width > 0 && size.height > 0 {
                self.window_size = size;
                self.reset_image_position();
            }
        }
    }

    /// Zooms by a scroll event around the cursor: the scale is multiplied
    /// and kept within `[MIN_SCALE, MAX_SCALE]`, the image point under the
    /// cursor stays within one sub-pixel of it (unless the new offset leaves
    /// the coordinate range), and the new offset is committed.
    pub fn handle_image_scale_changed(&mut self, delta: ScrollDelta)
        requires
            old(self).wf(),
        ensures
            *final(self) == old(self).zoom_spec(delta),
            final(self).wf(),
            MIN_SCALE <= final(self).image_scale <= MAX_SCALE,
            final(self).cursor_position == old(self).cursor_position,
            ({
                let (c, o) = (old(self).cursor_position, old(self).image_offset);
                let (old_scale, new_scale) = (
                    old(self).image_scale as int,
                    final(self).image_scale as int,
                );
                &&& (-POSITION_LIMIT <= c.x - (c.x - o.x) * new_scale / old_scale
                    <= POSITION_LIMIT ==> keeps_point_under_cursor(
                    c.x as int,
                    o.x as int,
                    old_scale,
                    new_scale,
                    final(self).image_offset.x as int,
                ))
                &&& (-POSITION_LIMIT <= c.y - (c.y - o.y) * new_scale / old_scale
                    <= POSITION_LIMIT ==> keeps_point_under_cursor(
                    c.y as int,
                    o.y as int,
                    old_scale,
                    new_scale,
                    final(self).image_offset.y as int,
                ))
            }),
    {
        proof {
            lemma_zoom_anchors_cursor(*self, delta);
        }
        let multiplier = multiplier_from_mouse_delta(delta, self.window_size.height);
        let old_scale = self.image_scale;
        let new_scale = apply_multiplier(old_scale, multiplier, MIN_SCALE, MAX_SCALE);
        let offset = Point {
            x: zoom_coordinate(self.cursor_position.x, self.image_offset.x, old_scale, new_scale),
            y: zoom_coordinate(self.cursor_position.y, self.image_offset.y, old_scale, new_scale),
        };
        self.image_offset = offset;
        self.old_image_offset = offset;
        self.image_scale = new_scale;
    }

    /// Turns the image by a scroll event in rotation mode.
    pub fn handle_image_rotation_angle_changed(&mut self, delta: ScrollDelta)
        requires
            old(self).wf(),
        ensures
            *final(self) == old(self).rotate_spec(
                rotation_delta_spec(delta, old(self).window_size.height as int),
            ),
            final(self).wf(),
    {
        let angle = rotation_delta(delta, self.window_size.height);
        self.increment_image_rotation_angle(angle);
    }

    /// Scales the spotlight radius by a scroll event, within its bounds.
    pub fn handle_spotlight_radius_changed(&mut self, delta: ScrollDelta)
        requires
            old(self).wf(),
        ensures
            *final(self) == old(self).radius_spec(delta),
            final(self).wf(),
    {
        let multiplier = multiplier_from_mouse_delta(delta, self.window_size.height);
        self.spotlight_radius = apply_multiplier(
            self.spotlight_radius,
            multiplier,
            MIN_SPOTLIGHT_RADIUS,
            MAX_SPOTLIGHT_RADIUS,
        );
    }

    /// A scroll event, handled by the current scroll behaviour.
    pub fn handle_mouse_wheel(&mut self, delta: ScrollDelta)
        requires
            old(self).wf(),
        ensures
            *final(self) == old(self).mouse_wheel_spec(delta),
            final(self).wf(),
    {
        match self.scroll_behaviour {
            ScrollBehaviour::Zoom => self.handle_image_scale_changed(delta),
            ScrollBehaviour::Rotate => self.handle_image_rotation_angle_changed(delta),
            ScrollBehaviour::ChangeSpotlightRadius => self.handle_spotlight_radius_changed(delta),
        }
    }

    /// Applies a window event to the view and says what the surroundings
    /// must do next.
    pub fn handle_window_event(&mut self, event: WindowEvent) -> (r: EventResponse)
        requires
            old(self).wf(),
        ensures
            *final(self) == old(self).next_spec(event),
            r == State::response_spec(event),
            final(self).wf(),
    {
        let request_redraw = should_request_redraw(&event);
        let mut response = EventResponse {
            exit: false,
            reconfigure: None,
            render: false,
            request_redraw,
        };
        match event {
            WindowEvent::CloseRequested | WindowEvent::Destroyed => {
                response.exit = true;
            },
            WindowEvent::Resized(size) => {
                self.resize(size);
                if size.width > 0 && size.height > 0 {
                    response.reconfigure = Some(size);
                }
            },
            WindowEvent::ScaleFactorChanged(new_size) => {
                if let Some(size) = new_size {
                    if size.width > 0 && size.height > 0 {
                        response.reconfigure = Some(size);
                    }
                }
                self.handle_scale_factor_changed(new_size);
            },
            WindowEvent::KeyboardInput { key, pressed } => {
                response.exit = pressed && (key == Key::Escape || key == Key::Q);
                self.handle_keyboard_input(key, pressed);
            },
            WindowEvent::ModifiersChanged(modifiers) => self.handle_modifiers_changed(modifiers),
            WindowEvent::MouseInput { button, pressed } => {
                response.exit = pressed && button == MouseButton::Right;
                self.handle_mouse_input(button, pressed);
            },
            WindowEvent::MouseWheel(delta) => self.handle_mouse_wheel(delta),
            WindowEvent::CursorMoved(position) => self.handle_cursor_moved(position),
            WindowEvent::RedrawRequested => {
                response.render = true;
            },
            _ => {},
        }
        response
    }

    /// Reacts to the outcome of drawing a frame: a lost or outdated surface
    /// is configured again at the window's current size, any other failure
    /// is reported.
    pub fn handle_render_result(&mut self, result: RenderResult, window_size: Size) -> (r:
        RenderAction)
        requires
            old(self).wf(),
        ensures
            match result {
                RenderResult::Lost | RenderResult::Outdated => {
                    &&& *final(self) == old(self).resize_spec(window_size)
                    &&& r == if window_size.is_positive() {
                        RenderAction::Reconfigure(window_size)
                    } else {
                        RenderAction::Done
                    }
                },
                RenderResult::Presented => *final(self) == *old(self) && r == RenderAction::Done,
                RenderResult::Failed => *final(self) == *old(self) && r == RenderAction::Report,
            },
            final(self).wf(),
    {
        match result {
            RenderResult::Presented => RenderAction::Done,
            RenderResult::Lost | RenderResult::Outdated => {
                self.resize(window_size);
                if window_size.width > 0 && window_size.height > 0 {
                    RenderAction::Reconfigure(window_size)
                } else {
                    RenderAction::Done
                }
            },
            RenderResult::Failed => RenderAction::Report,
        }
    }
}

/// New offset coordinate after zooming from `old_scale` to `new_scale`.
fn zoom_coordinate(cursor: i64, offset: i64, old_scale: i64, new_scale: i64) -> (r: i64)
    requires
        -POSITION_LIMIT <= cursor <= POSITION_LIMIT,
        -POSITION_LIMIT <= offset <= POSITION_LIMIT,
        1 <= old_scale <= MAX_SCALE,
        MIN_SCALE <= new_scale <= MAX_SCALE,
    ensures
        r == zoomed_coordinate(cursor as int, offset as int, old_scale as int, new_scale as int),
{
    let relative = cursor as i128 - offset as i128;
    assert(-0x1_0000_0000_0000_0000_0000 <= relative * new_scale <= 0x1_0000_0000_0000_0000_0000)
        by (nonlinear_arith)
        requires
            -0x200_0000_0000 <= relative <= 0x200_0000_0000,
            MIN_SCALE <= new_scale <= MAX_SCALE,
    ;
    let moved = floor_div(relative * (new_scale as i128), old_scale as i128);
    assert(-0x1_0000_0000_0000_0000_0000 <= moved <= 0x1_0000_0000_0000_0000_0000)
        by (nonlinear_arith)
        requires
            moved == (relative * new_scale) / (old_scale as int),
            -0x1_0000_0000_0000_0000_0000 <= relative * new_scale <= 0x1_0000_0000_0000_0000_0000,
            old_scale >= 1,
    ;
    clamp_coordinate(cursor as i128 - moved)
}

/// Whether the event asks for a new frame once it is handled.
pub fn should_request_redraw(event: &WindowEvent) -> (r: bool)
    ensures
        r == redraw_wanted(*event),
{
    match event {
        WindowEvent::Resized(_)
        | WindowEvent::ScaleFactorChanged(_)
        | WindowEvent::KeyboardInput { .. }
        | WindowEvent::ModifiersChanged(_)
        | WindowEvent::MouseInput { .. }
        | WindowEvent::MouseWheel(_)
        | WindowEvent::CursorMoved(_) => true,
        _ => false,
    }
}

} // verus!
