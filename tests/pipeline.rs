use pixel_canvas::canvas::{scale_factor, CanvasPresenter};
use pixel_canvas::mapper::{
    map_cursor, ndc_to_simulation, viewport_to_world, world_to_ndc, CursorPos, MouseWorldPosition,
    Ndc, SimPoint, WorldPoint, HALF_PIXEL, SUBPIXELS_PER_PIXEL,
};
use pixel_canvas::motion::{
    diagonal_component, movement_velocity, MovementKeys, Velocity, PLAYER_SPEED,
    VELOCITY_STEPS_PER_PIXEL,
};
use pixel_canvas::orientation::{heading_toward, Heading};
use pixel_canvas::resolution::{Resolution, WindowSize};
use pixel_canvas::trigger::{flare_position, FireTrigger, FLARE_OFFSET_X};

const S: i64 = SUBPIXELS_PER_PIXEL as i64;

fn res() -> Resolution {
    Resolution::new(128, 80).unwrap()
}

fn win(width: u32, height: u32) -> WindowSize {
    WindowSize { width, height }
}

fn px(x: u64, y: u64) -> Option<CursorPos> {
    Some(CursorPos { x: x * SUBPIXELS_PER_PIXEL as u64, y: y * SUBPIXELS_PER_PIXEL as u64 })
}

fn keys(up: bool, down: bool, left: bool, right: bool) -> MovementKeys {
    MovementKeys { up, down, left, right }
}

#[test]
fn resolution_rejects_zero_side() {
    assert!(Resolution::new(0, 80).is_none());
    assert!(Resolution::new(128, 0).is_none());
    assert_eq!(Resolution::new(128, 80), Some(Resolution { width: 128, height: 80 }));
}

#[test]
fn scale_factor_resize_scenario() {
    assert_eq!(scale_factor(res(), win(1280, 800)), 10);
    assert_eq!(scale_factor(res(), win(640, 400)), 5);
}

#[test]
fn scale_factor_takes_smaller_ratio_and_floors() {
    assert_eq!(scale_factor(res(), win(1280, 400)), 5);
    assert_eq!(scale_factor(res(), win(1279, 800)), 9);
    assert_eq!(scale_factor(res(), win(128, 80)), 1);
    assert_eq!(scale_factor(res(), win(300, 10000)), 2);
}

#[test]
fn scale_factor_zero_for_small_window() {
    assert_eq!(scale_factor(res(), win(127, 800)), 0);
    assert_eq!(scale_factor(res(), win(1280, 79)), 0);
    assert_eq!(scale_factor(res(), win(0, 0)), 0);
}

#[test]
fn scale_factor_largest_window() {
    let r = Resolution::new(1, 1).unwrap();
    assert_eq!(scale_factor(r, win(u32::MAX, u32::MAX)), u32::MAX);
}

#[test]
fn presenter_recomputes_once_per_resize() {
    let mut p = CanvasPresenter::new(res());
    assert_eq!(p.scale, 1);
    p.fit(&vec![win(1280, 800)]);
    assert_eq!(p.scale, 10);
    assert_eq!(p.recomputations, 1);
    p.fit(&vec![]);
    p.fit(&vec![]);
    assert_eq!(p.scale, 10);
    assert_eq!(p.recomputations, 1);
    p.fit(&vec![win(2000, 2000), win(640, 400)]);
    assert_eq!(p.scale, 5);
    assert_eq!(p.recomputations, 3);
    assert_eq!(p.presented_size(), (640, 400));
    p.fit(&vec![win(100, 100)]);
    assert_eq!(p.scale, 0);
    assert_eq!(p.presented_size(), (0, 0));
}

#[test]
fn top_left_cursor_maps_to_surface_corner() {
    let p = map_cursor(res(), win(1280, 800), px(0, 0));
    assert_eq!(p, Some(SimPoint { x: -64 * S, y: 40 * S }));
}

#[test]
fn bottom_right_cursor_maps_to_opposite_corner() {
    let p = map_cursor(res(), win(1280, 800), px(1280, 800));
    assert_eq!(p, Some(SimPoint { x: 64 * S, y: -40 * S }));
}

#[test]
fn center_cursor_maps_to_origin_for_any_size() {
    for (w, h) in [(1280u32, 800u32), (641, 401), (1, 1), (3, 7)] {
        let c = CursorPos { x: w as u64 * HALF_PIXEL as u64, y: h as u64 * HALF_PIXEL as u64 };
        assert_eq!(map_cursor(res(), win(w, h), Some(c)), Some(SimPoint { x: 0, y: 0 }));
    }
}

#[test]
fn mapping_is_independent_of_scale() {
    let a = map_cursor(res(), win(1280, 800), px(320, 200));
    let b = map_cursor(res(), win(640, 400), px(160, 100));
    assert_eq!(a, Some(SimPoint { x: -32 * S, y: 20 * S }));
    assert_eq!(a, b);
}

#[test]
fn mapping_rounds_down_between_steps() {
    // One window pixel right of center on a 1280-wide window is a tenth of a
    // surface pixel: 25.6 steps, rounded down.
    let p = map_cursor(res(), win(1280, 800), px(641, 400)).unwrap();
    assert_eq!(p.x, 25);
    assert_eq!(p.y, 0);
    let q = map_cursor(res(), win(1280, 800), px(639, 401)).unwrap();
    assert_eq!(q.x, -26);
    assert_eq!(q.y, -26);
}

#[test]
fn mapping_fails_without_cursor_or_viewport() {
    assert_eq!(map_cursor(res(), win(1280, 800), None), None);
    assert_eq!(map_cursor(res(), win(1280, 800), px(1281, 0)), None);
    assert_eq!(map_cursor(res(), win(1280, 800), px(0, 801)), None);
    assert_eq!(map_cursor(res(), win(0, 800), px(0, 0)), None);
}

#[test]
fn pipeline_steps() {
    let w = win(1280, 800);
    let world = viewport_to_world(w, CursorPos { x: 0, y: 0 }).unwrap();
    assert_eq!(world, WorldPoint { x: -640 * S, y: 400 * S });
    let ndc = world_to_ndc(w, world).unwrap();
    assert_eq!(ndc, Ndc { x: -640 * S, y: 400 * S, half_width: 640 * 256, half_height: 400 * 256 });
    assert_eq!(ndc_to_simulation(res(), ndc), SimPoint { x: -64 * S, y: 40 * S });
    assert_eq!(world_to_ndc(win(0, 1), world), None);
    assert_eq!(viewport_to_world(win(1, 0), CursorPos { x: 0, y: 0 }), None);
}

#[test]
fn mouse_position_kept_when_mapping_fails() {
    let mut m = MouseWorldPosition::new();
    assert_eq!(m.pos, SimPoint { x: 0, y: 0 });
    assert!(m.update(res(), win(1280, 800), px(0, 0)));
    assert_eq!(m.pos, SimPoint { x: -64 * S, y: 40 * S });
    assert!(!m.update(res(), win(1280, 800), None));
    assert_eq!(m.pos, SimPoint { x: -64 * S, y: 40 * S });
    assert!(!m.update(res(), win(0, 0), px(0, 0)));
    assert_eq!(m.pos, SimPoint { x: -64 * S, y: 40 * S });
}

#[test]
fn diagonal_component_values() {
    assert_eq!(diagonal_component(0), 0);
    assert_eq!(diagonal_component(1), 0);
    assert_eq!(diagonal_component(2), 1);
    assert_eq!(diagonal_component(100), 70);
    assert_eq!(diagonal_component(PLAYER_SPEED), 4634095);
    let d = diagonal_component(u32::MAX) as u128;
    let s = u32::MAX as u128;
    assert!(2 * d * d <= s * s && s * s < 2 * (d + 1) * (d + 1));
}

#[test]
fn no_keys_means_no_motion() {
    assert_eq!(movement_velocity(keys(false, false, false, false), PLAYER_SPEED), Velocity { x: 0, y: 0 });
    assert_eq!(movement_velocity(keys(false, false, true, true), PLAYER_SPEED), Velocity { x: 0, y: 0 });
    assert_eq!(movement_velocity(keys(true, true, true, true), PLAYER_SPEED), Velocity { x: 0, y: 0 });
}

#[test]
fn single_axis_moves_at_full_speed() {
    let s = PLAYER_SPEED as i64;
    assert_eq!(PLAYER_SPEED, 100 * 65536);
    assert_eq!(VELOCITY_STEPS_PER_PIXEL, 65536);
    assert_eq!(movement_velocity(keys(true, false, false, false), PLAYER_SPEED), Velocity { x: 0, y: s });
    assert_eq!(movement_velocity(keys(false, true, false, false), PLAYER_SPEED), Velocity { x: 0, y: -s });
    assert_eq!(movement_velocity(keys(false, false, true, false), PLAYER_SPEED), Velocity { x: -s, y: 0 });
    assert_eq!(movement_velocity(keys(true, true, false, true), PLAYER_SPEED), Velocity { x: s, y: 0 });
}

#[test]
fn diagonal_never_exceeds_speed() {
    let v = movement_velocity(keys(true, false, false, true), PLAYER_SPEED);
    assert_eq!(v, Velocity { x: 4634095, y: 4634095 });
    let v = movement_velocity(keys(false, true, true, false), PLAYER_SPEED);
    assert_eq!(v, Velocity { x: -4634095, y: -4634095 });
    let s = PLAYER_SPEED as i64;
    assert!(v.x * v.x + v.y * v.y <= s * s);
    let steps = VELOCITY_STEPS_PER_PIXEL as f64;
    let len = ((v.x * v.x + v.y * v.y) as f64).sqrt() / steps;
    assert!(len <= 100.0 && 100.0 - len <= 1e-3);
    let expected = 100.0 / 2f64.sqrt();
    assert!((v.x as f64 / steps + expected).abs() <= 1e-3);
    assert!((v.y as f64 / steps + expected).abs() <= 1e-3);
}

#[test]
fn heading_points_at_target() {
    let from = SimPoint { x: 10, y: -5 };
    assert_eq!(heading_toward(from, SimPoint { x: 13, y: -1 }), Heading { x: 3, y: 4 });
    let h = heading_toward(SimPoint { x: i64::MIN, y: i64::MAX }, SimPoint { x: i64::MAX, y: i64::MIN });
    assert_eq!(h, Heading { x: u64::MAX as i128, y: -(u64::MAX as i128) });
}

#[test]
fn heading_at_cursor_is_zero_angle() {
    let p = SimPoint { x: 77, y: -3 };
    let h = heading_toward(p, p);
    assert_eq!(h, Heading { x: 1, y: 0 });
    let angle = (h.y as f32).atan2(h.x as f32);
    assert!(!angle.is_nan());
    assert_eq!(angle, 0.0);
}

#[test]
fn single_press_fires_once() {
    let mut t = FireTrigger::new();
    assert!(t.step(true));
    assert!(!t.step(false));
    let mut t = FireTrigger::new();
    assert_eq!(t.run(&vec![false, true, false, false]), 1);
}

#[test]
fn holding_fires_once() {
    let mut t = FireTrigger::new();
    assert_eq!(t.run(&vec![true; 60]), 1);
    assert!(t.held);
    assert_eq!(t.run(&vec![true; 5]), 0);
}

#[test]
fn tap_within_one_frame_fires() {
    let mut t = FireTrigger::new();
    assert!(t.step_frame(false, true));
    assert!(!t.held);
    assert!(!t.step_frame(false, false));
    assert!(t.step_frame(true, true));
    assert!(!t.step_frame(true, false));
    assert!(!t.step_frame(false, false));
    assert!(t.step_frame(true, false));
}

#[test]
fn recomputation_count_saturates() {
    let mut p = CanvasPresenter::new(res());
    p.recomputations = u64::MAX - 1;
    p.fit(&vec![win(1280, 800), win(640, 400), win(256, 160)]);
    assert_eq!(p.recomputations, u64::MAX);
    assert_eq!(p.scale, 2);
}

#[test]
fn each_new_press_fires() {
    let mut t = FireTrigger::new();
    assert_eq!(t.run(&vec![true, true, false, true, false, false, true]), 3);
    assert_eq!(t.run(&vec![]), 0);
    assert!(t.held);
}

#[test]
fn flare_appears_right_of_shooter() {
    assert_eq!(FLARE_OFFSET_X, 30 * S);
    assert_eq!(flare_position(SimPoint { x: 5, y: -9 }), SimPoint { x: 5 + 30 * S, y: -9 });
}
