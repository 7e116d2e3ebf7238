use wroomer::config::AppConfig;
use wroomer::fit::centered_fitting_image_offset_scale;
use wroomer::geometry::{Point, Size, MAX_SCALE, MIN_SCALE, SCALE_ONE, SUBPIXELS};
use wroomer::scroll::{ScrollDelta, QUARTER_TURN, TURN};
use wroomer::view::{
    should_request_redraw, EventResponse, Key, Modifiers, MouseButton, RenderAction,
    RenderResult, ScrollBehaviour, State, WindowEvent, DEFAULT_SPOTLIGHT_RADIUS,
    MAX_SPOTLIGHT_RADIUS, MIN_SPOTLIGHT_RADIUS, SPOTLIGHT_DARKNESS,
};

fn px(x: i64, y: i64) -> Point {
    Point { x: x * SUBPIXELS, y: y * SUBPIXELS }
}

fn size(width: u32, height: u32) -> Size {
    Size { width, height }
}

fn config(center: bool) -> AppConfig {
    AppConfig { fullscreen: false, center_image_on_resize: center }
}

/// A 100x100 image filling a 100x100 window: offset (0, 0), scale 1.
fn square_state() -> State {
    State::new(config(false), size(100, 100), size(100, 100))
}

fn press(button: MouseButton) -> WindowEvent {
    WindowEvent::MouseInput { button, pressed: true }
}

fn release(button: MouseButton) -> WindowEvent {
    WindowEvent::MouseInput { button, pressed: false }
}

fn key(key: Key) -> WindowEvent {
    WindowEvent::KeyboardInput { key, pressed: true }
}

fn modifiers(control: bool, shift: bool, alt: bool) -> WindowEvent {
    WindowEvent::ModifiersChanged(Modifiers { control, shift, alt })
}

#[test]
fn new_state_is_fitted() {
    let s = State::new(config(true), size(200, 100), size(400, 100));
    assert_eq!(s.image_scale, SCALE_ONE / 2);
    assert_eq!(s.image_offset, px(0, 25));
    assert_eq!(s.old_image_offset, s.image_offset);
    assert_eq!(s.image_rotation_angle, 0);
    assert_eq!(s.cursor_position, Point { x: 0, y: 0 });
    assert_eq!(s.initial_dragging_position, None);
    assert!(!s.spotlight_on);
    assert_eq!(s.spotlight_radius, DEFAULT_SPOTLIGHT_RADIUS);
    assert_eq!(s.spotlight_darkness, SPOTLIGHT_DARKNESS);
    assert_eq!(s.scroll_behaviour, ScrollBehaviour::Zoom);
    assert!(s.refit_pending);
}

#[test]
fn drag_round_trip() {
    let mut s = square_state();
    assert_eq!(s.old_image_offset, px(0, 0));
    s.handle_window_event(WindowEvent::CursorMoved(px(10, 10)));
    s.handle_window_event(press(MouseButton::Left));
    assert_eq!(s.initial_dragging_position, Some(px(10, 10)));
    s.handle_window_event(WindowEvent::CursorMoved(px(50, 30)));
    assert_eq!(s.image_offset, px(40, 20));
    assert_eq!(s.old_image_offset, px(0, 0));
    s.handle_window_event(release(MouseButton::Left));
    assert_eq!(s.old_image_offset, px(40, 20));
    assert_eq!(s.initial_dragging_position, None);
    s.handle_window_event(WindowEvent::CursorMoved(px(90, 90)));
    assert_eq!(s.image_offset, px(40, 20));
    assert_eq!(s.cursor_position, px(90, 90));
}

#[test]
fn second_drag_starts_from_committed_offset() {
    let mut s = square_state();
    s.handle_window_event(WindowEvent::CursorMoved(px(10, 10)));
    s.handle_window_event(press(MouseButton::Left));
    s.handle_window_event(WindowEvent::CursorMoved(px(50, 30)));
    s.handle_window_event(release(MouseButton::Left));
    s.handle_window_event(press(MouseButton::Left));
    s.handle_window_event(WindowEvent::CursorMoved(px(40, 40)));
    assert_eq!(s.image_offset, px(30, 30));
}

#[test]
fn cursor_is_clamped_to_coordinate_range() {
    let mut s = square_state();
    s.handle_window_event(WindowEvent::CursorMoved(Point { x: i64::MAX, y: i64::MIN }));
    assert_eq!(s.cursor_position, Point { x: 1 << 40, y: -(1 << 40) });
}

#[test]
fn zoom_in_keeps_point_under_cursor() {
    let mut s = square_state();
    s.handle_window_event(WindowEvent::CursorMoved(px(50, 20)));
    s.handle_window_event(WindowEvent::MouseWheel(ScrollDelta::Lines(SUBPIXELS)));
    assert_eq!(s.image_scale, 1_100_000);
    // 50 px from the corner becomes 55 px: the corner moves 5 px left.
    assert_eq!(s.image_offset, px(-5, -2));
    assert_eq!(s.old_image_offset, s.image_offset);
    // The image point under the cursor stays within one sub-pixel of it.
    let image_coord_x = (px(50, 20).x - 0) as f64 / 1.0;
    let back_x = s.image_offset.x as f64 + image_coord_x * 1.1;
    assert!((back_x - px(50, 20).x as f64).abs() < 1.0);
}

#[test]
fn zoom_out_with_line_delta() {
    let mut s = square_state();
    s.handle_window_event(WindowEvent::CursorMoved(px(0, 0)));
    s.handle_window_event(WindowEvent::MouseWheel(ScrollDelta::Lines(-SUBPIXELS)));
    assert_eq!(s.image_scale, 900_000);
    assert_eq!(s.image_offset, px(0, 0));
}

#[test]
fn zoom_with_zero_line_delta_keeps_scale() {
    let mut s = square_state();
    s.handle_window_event(WindowEvent::MouseWheel(ScrollDelta::Lines(0)));
    assert_eq!(s.image_scale, SCALE_ONE);
}

#[test]
fn q_requests_exit_and_leaves_view() {
    let mut s = square_state();
    let before = s;
    let r = s.handle_window_event(key(Key::Q));
    assert!(r.exit);
    assert_eq!(s, before);
}

#[test]
fn zoom_from_fitted_scale_below_range() {
    let mut s = State::new(config(false), size(100, 100), size(2000, 100));
    assert_eq!(s.image_scale, 50_000);
    s.handle_window_event(WindowEvent::MouseWheel(ScrollDelta::Lines(-SUBPIXELS)));
    assert_eq!(s.image_scale, MIN_SCALE);
}

#[test]
fn scale_factor_change_refits() {
    let mut s = square_state();
    s.handle_window_event(WindowEvent::MouseWheel(ScrollDelta::Lines(SUBPIXELS)));
    s.handle_window_event(key(Key::E));
    let r = s.handle_window_event(WindowEvent::ScaleFactorChanged(Some(size(200, 300))));
    assert_eq!(
        r,
        EventResponse { exit: false, reconfigure: Some(size(200, 300)), render: false, request_redraw: true }
    );
    assert_eq!(s.window_size, size(200, 300));
    assert_eq!(s.image_scale, SCALE_ONE);
    assert_eq!(s.image_offset, px(50, 100));
    assert_eq!(s.old_image_offset, px(50, 100));
    assert_eq!(s.image_rotation_angle, 0);
}

#[test]
fn rejected_scale_factor_change_keeps_state() {
    let mut s = square_state();
    s.handle_window_event(WindowEvent::MouseWheel(ScrollDelta::Lines(SUBPIXELS)));
    let before = s;
    let r = s.handle_window_event(WindowEvent::ScaleFactorChanged(None));
    assert_eq!(r.reconfigure, None);
    assert!(r.request_redraw);
    assert_eq!(s, before);
    let r = s.handle_window_event(WindowEvent::ScaleFactorChanged(Some(size(0, 10))));
    assert_eq!(r.reconfigure, None);
    assert_eq!(s, before);
}

#[test]
fn zoom_with_pixel_delta_is_proportional() {
    let mut s = square_state();
    // 10 px of a 100 px tall window, times 5: +50 %.
    s.handle_window_event(WindowEvent::MouseWheel(ScrollDelta::Pixels(10 * SUBPIXELS)));
    assert_eq!(s.image_scale, 1_500_000);
    s.handle_window_event(WindowEvent::MouseWheel(ScrollDelta::Pixels(-2 * SUBPIXELS)));
    assert_eq!(s.image_scale, 1_350_000);
}

#[test]
fn zoom_with_large_negative_pixel_delta_stops_at_smallest_scale() {
    let mut s = square_state();
    s.handle_window_event(WindowEvent::MouseWheel(ScrollDelta::Pixels(-100 * SUBPIXELS)));
    assert_eq!(s.image_scale, MIN_SCALE);
}

#[test]
fn zoom_scale_stays_within_bounds() {
    let mut s = square_state();
    let mut previous = s.image_scale;
    for _ in 0..100 {
        s.handle_window_event(WindowEvent::MouseWheel(ScrollDelta::Lines(-SUBPIXELS)));
        assert!(s.image_scale >= MIN_SCALE);
        assert!(s.image_scale <= previous);
        previous = s.image_scale;
    }
    assert_eq!(s.image_scale, MIN_SCALE);
    for _ in 0..100 {
        s.handle_window_event(WindowEvent::MouseWheel(ScrollDelta::Lines(SUBPIXELS)));
        assert!(s.image_scale <= MAX_SCALE);
    }
    assert_eq!(s.image_scale, MAX_SCALE);
}

#[test]
fn quarter_turns_wrap_to_zero() {
    let mut s = square_state();
    s.increment_image_rotation_angle(QUARTER_TURN);
    assert_eq!(s.image_rotation_angle, QUARTER_TURN);
    for _ in 1..8 {
        s.increment_image_rotation_angle(QUARTER_TURN);
    }
    assert_eq!(s.image_rotation_angle % TURN, 0);
    assert_eq!(s.image_rotation_angle, 0);
}

#[test]
fn counter_clockwise_quarter_turns_stay_within_a_turn() {
    let mut s = square_state();
    s.handle_window_event(key(Key::E));
    assert_eq!(s.image_rotation_angle, -QUARTER_TURN);
    for _ in 0..3 {
        s.handle_window_event(key(Key::E));
    }
    assert_eq!(s.image_rotation_angle, 0);
    for _ in 0..3 {
        s.handle_window_event(key(Key::E));
    }
    assert_eq!(s.image_rotation_angle, -3 * QUARTER_TURN);
    assert!(s.image_rotation_angle > -TURN);
}

#[test]
fn released_keys_do_nothing() {
    let mut s = square_state();
    let before = s;
    let r = s.handle_window_event(WindowEvent::KeyboardInput { key: Key::Escape, pressed: false });
    assert!(!r.exit);
    s.handle_window_event(WindowEvent::KeyboardInput { key: Key::E, pressed: false });
    assert_eq!(s, before);
}

#[test]
fn alt_scroll_rotates() {
    let mut s = square_state();
    s.handle_window_event(modifiers(false, false, true));
    assert_eq!(s.scroll_behaviour, ScrollBehaviour::Rotate);
    // One notch turns by pi/24.
    s.handle_window_event(WindowEvent::MouseWheel(ScrollDelta::Lines(SUBPIXELS)));
    assert_eq!(s.image_rotation_angle, TURN / 48);
    assert_eq!(s.image_scale, SCALE_ONE);
    // A trackpad movement of a quarter of the window height turns a quarter.
    s.handle_window_event(WindowEvent::MouseWheel(ScrollDelta::Pixels(-25 * SUBPIXELS)));
    assert_eq!(s.image_rotation_angle, TURN / 48 - QUARTER_TURN);
    // A full window height is a full turn; the sum turns positive and keeps its sign
    // when wrapped.
    s.handle_window_event(WindowEvent::MouseWheel(ScrollDelta::Pixels(100 * SUBPIXELS)));
    assert_eq!(s.image_rotation_angle, TURN + TURN / 48 - QUARTER_TURN);
}

#[test]
fn modifier_precedence() {
    let mut s = square_state();
    s.handle_window_event(modifiers(true, true, true));
    assert_eq!(s.scroll_behaviour, ScrollBehaviour::Rotate);
    assert!(s.spotlight_on);
    s.handle_window_event(modifiers(true, true, false));
    assert_eq!(s.scroll_behaviour, ScrollBehaviour::ChangeSpotlightRadius);
    s.handle_window_event(modifiers(true, false, false));
    assert_eq!(s.scroll_behaviour, ScrollBehaviour::Zoom);
    assert!(s.spotlight_on);
    s.handle_window_event(modifiers(false, true, false));
    assert_eq!(s.scroll_behaviour, ScrollBehaviour::Zoom);
    assert!(!s.spotlight_on);
}

#[test]
fn spotlight_radius_scroll_is_clamped() {
    let mut s = square_state();
    s.handle_window_event(modifiers(true, true, false));
    s.handle_window_event(WindowEvent::MouseWheel(ScrollDelta::Lines(SUBPIXELS)));
    assert_eq!(s.spotlight_radius, 110_000);
    assert_eq!(s.image_scale, SCALE_ONE);
    for _ in 0..100 {
        s.handle_window_event(WindowEvent::MouseWheel(ScrollDelta::Lines(SUBPIXELS)));
    }
    assert_eq!(s.spotlight_radius, MAX_SPOTLIGHT_RADIUS);
    for _ in 0..100 {
        s.handle_window_event(WindowEvent::MouseWheel(ScrollDelta::Lines(-SUBPIXELS)));
    }
    assert_eq!(s.spotlight_radius, MIN_SPOTLIGHT_RADIUS);
}

#[test]
fn reset_after_pan_zoom_rotate() {
    let mut s = State::new(config(false), size(100, 100), size(200, 100));
    let fit = centered_fitting_image_offset_scale(size(200, 100), size(100, 100));
    s.handle_window_event(WindowEvent::CursorMoved(px(10, 10)));
    s.handle_window_event(press(MouseButton::Left));
    s.handle_window_event(WindowEvent::CursorMoved(px(70, 15)));
    s.handle_window_event(WindowEvent::MouseWheel(ScrollDelta::Lines(SUBPIXELS)));
    s.handle_window_event(key(Key::E));
    s.handle_window_event(modifiers(true, true, false));
    s.handle_window_event(WindowEvent::MouseWheel(ScrollDelta::Lines(SUBPIXELS)));
    assert_ne!(s.image_offset, fit.offset);
    s.handle_window_event(key(Key::R));
    assert_eq!(s.image_offset, fit.offset);
    assert_eq!(s.old_image_offset, fit.offset);
    assert_eq!(s.image_scale, fit.scale);
    assert_eq!(s.image_offset, px(0, 25));
    assert_eq!(s.image_scale, SCALE_ONE / 2);
    assert_eq!(s.image_rotation_angle, 0);
    assert_eq!(s.spotlight_radius, DEFAULT_SPOTLIGHT_RADIUS);
    assert_eq!(s.initial_dragging_position, None);
}

#[test]
fn back_button_resets() {
    let mut s = square_state();
    s.handle_window_event(WindowEvent::MouseWheel(ScrollDelta::Lines(SUBPIXELS)));
    s.handle_window_event(press(MouseButton::Back));
    assert_eq!(s.image_scale, SCALE_ONE);
    assert_eq!(s.image_offset, px(0, 0));
}

#[test]
fn exit_requests() {
    let mut s = square_state();
    assert!(s.handle_window_event(key(Key::Escape)).exit);
    assert!(s.handle_window_event(key(Key::Q)).exit);
    assert!(s.handle_window_event(press(MouseButton::Right)).exit);
    assert!(!s.handle_window_event(release(MouseButton::Right)).exit);
    assert!(s.handle_window_event(WindowEvent::CloseRequested).exit);
    assert!(s.handle_window_event(WindowEvent::Destroyed).exit);
    assert!(!s.handle_window_event(press(MouseButton::Left)).exit);
}

#[test]
fn resize_with_zero_side_is_ignored() {
    let mut s = State::new(config(true), size(100, 100), size(50, 50));
    let before = s;
    let r = s.handle_window_event(WindowEvent::Resized(size(0, 300)));
    assert_eq!(r.reconfigure, None);
    assert_eq!(s, before);
}

#[test]
fn resize_recenters_when_configured() {
    let mut s = State::new(config(true), size(100, 100), size(50, 50));
    assert_eq!(s.image_offset, px(25, 25));
    let r = s.handle_window_event(WindowEvent::Resized(size(300, 100)));
    assert_eq!(
        r,
        EventResponse { exit: false, reconfigure: Some(size(300, 100)), render: false, request_redraw: true }
    );
    assert_eq!(s.window_size, size(300, 100));
    assert_eq!(s.image_offset, px(125, 25));
    assert!(!s.refit_pending);
}

#[test]
fn resize_without_centering_refits_only_once() {
    let mut s = square_state();
    s.handle_window_event(WindowEvent::CursorMoved(px(0, 0)));
    s.handle_window_event(press(MouseButton::Left));
    s.handle_window_event(WindowEvent::CursorMoved(px(5, 5)));
    s.handle_window_event(release(MouseButton::Left));
    // Same size as at start: nothing to settle.
    s.handle_window_event(WindowEvent::Resized(size(100, 100)));
    assert_eq!(s.image_offset, px(5, 5));
    assert!(s.refit_pending);
    // The first other size fits the view once more.
    s.handle_window_event(WindowEvent::Resized(size(200, 200)));
    assert_eq!(s.image_offset, px(50, 50));
    assert!(!s.refit_pending);
    // Later resizes leave the view alone.
    s.handle_window_event(WindowEvent::Resized(size(300, 300)));
    assert_eq!(s.image_offset, px(50, 50));
    assert_eq!(s.window_size, size(300, 300));
}

#[test]
fn redraw_requested_renders() {
    let mut s = square_state();
    let r = s.handle_window_event(WindowEvent::RedrawRequested);
    assert!(r.render);
    assert!(!r.request_redraw);
    let r = s.handle_window_event(WindowEvent::Other);
    assert_eq!(r, EventResponse { exit: false, reconfigure: None, render: false, request_redraw: false });
}

#[test]
fn redraw_wanted_for_input_events() {
    assert!(should_request_redraw(&WindowEvent::Resized(size(1, 1))));
    assert!(should_request_redraw(&WindowEvent::ScaleFactorChanged(None)));
    assert!(should_request_redraw(&key(Key::Other)));
    assert!(should_request_redraw(&modifiers(false, false, false)));
    assert!(should_request_redraw(&press(MouseButton::Other)));
    assert!(should_request_redraw(&WindowEvent::MouseWheel(ScrollDelta::Lines(0))));
    assert!(should_request_redraw(&WindowEvent::CursorMoved(px(1, 1))));
    assert!(!should_request_redraw(&WindowEvent::RedrawRequested));
    assert!(!should_request_redraw(&WindowEvent::CloseRequested));
    assert!(!should_request_redraw(&WindowEvent::Other));
}

#[test]
fn lost_surface_is_reconfigured() {
    let mut s = State::new(config(true), size(100, 100), size(50, 50));
    let a = s.handle_render_result(RenderResult::Lost, size(200, 200));
    assert_eq!(a, RenderAction::Reconfigure(size(200, 200)));
    assert_eq!(s.window_size, size(200, 200));
    assert_eq!(s.image_offset, px(75, 75));
    let a = s.handle_render_result(RenderResult::Outdated, size(0, 0));
    assert_eq!(a, RenderAction::Done);
    assert_eq!(s.window_size, size(200, 200));
}

#[test]
fn other_render_results() {
    let mut s = square_state();
    let before = s;
    assert_eq!(s.handle_render_result(RenderResult::Presented, size(10, 10)), RenderAction::Done);
    assert_eq!(s.handle_render_result(RenderResult::Failed, size(10, 10)), RenderAction::Report);
    assert_eq!(s, before);
}

#[test]
fn reset_twice_is_reset_once() {
    let mut s = State::new(config(false), size(640, 480), size(1920, 1080));
    s.handle_window_event(WindowEvent::MouseWheel(ScrollDelta::Lines(SUBPIXELS)));
    s.reset_image_position();
    let once = s;
    s.reset_image_position();
    assert_eq!(s, once);
}

#[test]
fn increment_rotation_directly() {
    let mut s = square_state();
    s.increment_image_rotation_angle(TURN + 5);
    assert_eq!(s.image_rotation_angle, 5);
    s.increment_image_rotation_angle(-10);
    assert_eq!(s.image_rotation_angle, -5);
}
