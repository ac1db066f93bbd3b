use raytracer::camera::Camera;
use raytracer::controller::{
    key_control, CameraController, Control, InputEvent, KeyCode, LookMode, Measured, MotionStep,
    Pressed,
};

type Point = (f64, f64);

/// The look delta is long enough and the way ahead is clear.
const LIVELY: Measured = Measured { look_exceeds_noise: true, forward_clear: true };

/// The look delta is noise; the way ahead is clear.
const QUIET: Measured = Measured { look_exceeds_noise: false, forward_clear: true };

/// The look delta is long enough, but there is no room ahead.
const BLOCKED: Measured = Measured { look_exceeds_noise: true, forward_clear: false };

const NO_KEYS: Pressed = Pressed {
    forward: false,
    backward: false,
    left: false,
    right: false,
    up: false,
    down: false,
    boost: false,
};

fn key(code: KeyCode, pressed: bool) -> InputEvent<Point> {
    InputEvent::Key { code, pressed }
}

fn start_camera() -> Camera<i64> {
    Camera {
        origin: [0, 0, 0],
        horizontal: [2, 0, 0],
        vertical: [0, 2, 0],
        lower_left_corner: [-1, -1, 1],
    }
}

/// Appends the step's number to the origin's first component, so that the
/// order of the calls can be read off the camera.
fn log_step(camera: Camera<i64>, step: MotionStep) -> Camera<i64> {
    let digit = match step {
        MotionStep::Forward => 1,
        MotionStep::Backward => 2,
        MotionStep::Right => 3,
        MotionStep::Left => 4,
        MotionStep::Up => 5,
        MotionStep::Down => 6,
        MotionStep::Yaw => 7,
        MotionStep::Pitch => 8,
    };
    let mut next = camera;
    next.origin[0] = camera.origin[0] * 10 + digit;
    next
}

#[test]
fn keys_are_bound_as_documented() {
    assert_eq!(key_control(KeyCode::W), Some(Control::Forward));
    assert_eq!(key_control(KeyCode::Up), Some(Control::Forward));
    assert_eq!(key_control(KeyCode::A), Some(Control::Left));
    assert_eq!(key_control(KeyCode::Left), Some(Control::Left));
    assert_eq!(key_control(KeyCode::S), Some(Control::Backward));
    assert_eq!(key_control(KeyCode::Down), Some(Control::Backward));
    assert_eq!(key_control(KeyCode::D), Some(Control::Right));
    assert_eq!(key_control(KeyCode::Right), Some(Control::Right));
    assert_eq!(key_control(KeyCode::Space), Some(Control::Up));
    assert_eq!(key_control(KeyCode::LControl), Some(Control::Down));
    assert_eq!(key_control(KeyCode::LShift), Some(Control::Boost));
    assert_eq!(key_control(KeyCode::Other), None);
}

#[test]
fn new_controller_is_idle() {
    let controller: CameraController<Point> = CameraController::new(LookMode::FreeLook);
    assert_eq!(controller.mode(), LookMode::FreeLook);
    assert_eq!(controller.pressed(), NO_KEYS);
    assert!(controller.pending_deltas().is_empty());
    assert_eq!(controller.drag(), None);
    assert!(!controller.has_look());
}

#[test]
fn key_events_set_and_clear_their_flag() {
    let mut controller = CameraController::new(LookMode::FreeLook);
    assert!(controller.process_events(&key(KeyCode::W, true)));
    assert!(controller.process_events(&key(KeyCode::Left, true)));
    assert!(controller.process_events(&key(KeyCode::LShift, true)));
    assert_eq!(
        controller.pressed(),
        Pressed { forward: true, left: true, boost: true, ..NO_KEYS }
    );
    assert!(controller.process_events(&key(KeyCode::Up, false)));
    assert_eq!(controller.pressed(), Pressed { left: true, boost: true, ..NO_KEYS });
    assert!(controller.process_events(&key(KeyCode::Space, true)));
    assert!(controller.process_events(&key(KeyCode::LControl, true)));
    assert!(controller.process_events(&key(KeyCode::S, true)));
    assert!(controller.process_events(&key(KeyCode::D, true)));
    assert_eq!(
        controller.pressed(),
        Pressed {
            forward: false,
            backward: true,
            left: true,
            right: true,
            up: true,
            down: true,
            boost: true,
        }
    );
}

#[test]
fn unknown_keys_and_other_events_are_not_consumed() {
    let mut controller = CameraController::new(LookMode::FreeLook);
    controller.process_events(&key(KeyCode::W, true));
    controller.process_events(&InputEvent::MouseMotion { delta: (1.0, 2.0) });
    assert!(!controller.process_events(&key(KeyCode::Other, true)));
    assert!(!controller.process_events(&InputEvent::Other));
    assert_eq!(controller.pressed(), Pressed { forward: true, ..NO_KEYS });
    assert_eq!(controller.pending_deltas(), &vec![(1.0, 2.0)]);
}

#[test]
fn free_look_collects_motions_in_order() {
    let mut controller = CameraController::new(LookMode::FreeLook);
    assert!(controller.process_events(&InputEvent::MouseMotion { delta: (10.0, 0.0) }));
    assert!(controller.process_events(&InputEvent::MouseMotion { delta: (0.0, 10.0) }));
    assert!(controller.process_events(&InputEvent::MouseMotion { delta: (-0.5, 0.25) }));
    assert_eq!(controller.pending_deltas(), &vec![(10.0, 0.0), (0.0, 10.0), (-0.5, 0.25)]);
    assert!(controller.has_look());
    assert_eq!(controller.drag(), None);
}

#[test]
fn free_look_ignores_drag_events() {
    let mut controller: CameraController<Point> = CameraController::new(LookMode::FreeLook);
    assert!(!controller.process_events(&InputEvent::MouseButton { pressed: true }));
    assert!(!controller.process_events(&InputEvent::CursorMoved { position: (3.0, 4.0) }));
    assert!(!controller.has_look());
    assert_eq!(controller.drag(), None);
}

#[test]
fn drag_ignores_relative_motion() {
    let mut controller = CameraController::new(LookMode::Drag);
    assert!(!controller.process_events(&InputEvent::MouseMotion { delta: (1.0, 1.0) }));
    assert!(controller.pending_deltas().is_empty());
    assert!(!controller.has_look());
}

#[test]
fn drag_spans_from_press_to_pointer() {
    let mut controller = CameraController::new(LookMode::Drag);
    assert!(controller.process_events(&InputEvent::CursorMoved { position: (5.0, 5.0) }));
    assert_eq!(controller.drag(), None);
    assert!(controller.process_events(&InputEvent::MouseButton { pressed: true }));
    assert_eq!(controller.drag(), Some(((5.0, 5.0), (5.0, 5.0))));
    assert!(controller.process_events(&InputEvent::CursorMoved { position: (9.0, 2.0) }));
    assert_eq!(controller.drag(), Some(((5.0, 5.0), (9.0, 2.0))));
    assert!(controller.has_look());
}

#[test]
fn drag_pressed_before_the_pointer_was_seen_anchors_at_first_position() {
    let mut controller = CameraController::new(LookMode::Drag);
    controller.process_events(&InputEvent::MouseButton { pressed: true });
    assert_eq!(controller.drag(), None);
    controller.process_events(&InputEvent::CursorMoved { position: (1.0, 1.0) });
    assert_eq!(controller.drag(), Some(((1.0, 1.0), (1.0, 1.0))));
    controller.process_events(&InputEvent::CursorMoved { position: (4.0, 1.0) });
    assert_eq!(controller.drag(), Some(((1.0, 1.0), (4.0, 1.0))));
}

#[test]
fn releasing_the_button_stops_rotation_until_the_next_press() {
    let mut controller = CameraController::new(LookMode::Drag);
    controller.process_events(&InputEvent::CursorMoved { position: (0.0, 0.0) });
    controller.process_events(&InputEvent::MouseButton { pressed: true });
    controller.process_events(&InputEvent::CursorMoved { position: (8.0, 0.0) });
    assert!(controller.has_look());
    controller.process_events(&InputEvent::MouseButton { pressed: false });
    assert!(!controller.has_look());
    controller.process_events(&InputEvent::CursorMoved { position: (20.0, 0.0) });
    controller.process_events(&key(KeyCode::W, true));
    assert!(!controller.has_look());
    let mut cam = start_camera();
    let changed = controller.update_camera(&mut cam, LIVELY, log_step);
    assert!(changed);
    assert_eq!(cam.origin[0], 1);
    controller.process_events(&InputEvent::MouseButton { pressed: true });
    controller.process_events(&InputEvent::CursorMoved { position: (21.0, 0.0) });
    assert_eq!(controller.drag(), Some(((20.0, 0.0), (21.0, 0.0))));
}

#[test]
fn steps_come_in_the_fixed_order() {
    let mut controller = CameraController::new(LookMode::FreeLook);
    for code in [
        KeyCode::LControl,
        KeyCode::Space,
        KeyCode::A,
        KeyCode::D,
        KeyCode::S,
        KeyCode::W,
        KeyCode::LShift,
    ] {
        controller.process_events(&key(code, true));
    }
    controller.process_events(&InputEvent::MouseMotion { delta: (1.0, 1.0) });
    assert_eq!(
        controller.steps(LIVELY),
        vec![
            MotionStep::Forward,
            MotionStep::Backward,
            MotionStep::Right,
            MotionStep::Left,
            MotionStep::Up,
            MotionStep::Down,
            MotionStep::Yaw,
            MotionStep::Pitch,
        ]
    );
    assert_eq!(controller.steps(QUIET).len(), 6);
    let mut cam = start_camera();
    assert!(controller.update_camera(&mut cam, LIVELY, log_step));
    assert_eq!(cam.origin[0], 12345678);
}

#[test]
fn idle_update_leaves_the_camera_untouched() {
    let mut controller: CameraController<Point> = CameraController::new(LookMode::FreeLook);
    let mut cam = start_camera();
    let changed = controller.update_camera(&mut cam, QUIET, log_step);
    assert!(!changed);
    assert_eq!(cam.origin, [0, 0, 0]);
    assert_eq!(cam.horizontal, [2, 0, 0]);
    assert_eq!(cam.vertical, [0, 2, 0]);
    assert_eq!(cam.lower_left_corner, [-1, -1, 1]);
    let changed = controller.update_camera(&mut cam, LIVELY, log_step);
    assert!(!changed);
    assert_eq!(cam.origin, [0, 0, 0]);
}

#[test]
fn boost_alone_changes_nothing() {
    let mut controller: CameraController<Point> = CameraController::new(LookMode::FreeLook);
    controller.process_events(&key(KeyCode::LShift, true));
    let mut cam = start_camera();
    assert!(!controller.update_camera(&mut cam, LIVELY, log_step));
    assert_eq!(cam.origin, [0, 0, 0]);
}

#[test]
fn look_below_the_noise_threshold_is_kept_and_changes_nothing() {
    let mut controller = CameraController::new(LookMode::FreeLook);
    controller.process_events(&InputEvent::MouseMotion { delta: (0.0, 0.0) });
    let mut cam = start_camera();
    assert!(!controller.update_camera(&mut cam, QUIET, log_step));
    assert_eq!(cam.origin, [0, 0, 0]);
    assert_eq!(controller.pending_deltas(), &vec![(0.0, 0.0)]);
}

#[test]
fn rotation_uses_up_the_free_look_deltas() {
    let mut controller = CameraController::new(LookMode::FreeLook);
    controller.process_events(&InputEvent::MouseMotion { delta: (10.0, 0.0) });
    controller.process_events(&InputEvent::MouseMotion { delta: (0.0, 10.0) });
    let mut cam = start_camera();
    assert!(controller.update_camera(&mut cam, LIVELY, log_step));
    assert_eq!(cam.origin[0], 78);
    assert!(controller.pending_deltas().is_empty());
    assert!(!controller.has_look());
    assert!(!controller.update_camera(&mut cam, LIVELY, log_step));
    assert_eq!(cam.origin[0], 78);
}

#[test]
fn rotation_moves_the_drag_anchor_to_the_pointer() {
    let mut controller = CameraController::new(LookMode::Drag);
    controller.process_events(&InputEvent::CursorMoved { position: (0.0, 0.0) });
    controller.process_events(&InputEvent::MouseButton { pressed: true });
    controller.process_events(&InputEvent::CursorMoved { position: (3.0, 4.0) });
    let mut cam = start_camera();
    assert!(controller.update_camera(&mut cam, LIVELY, log_step));
    assert_eq!(cam.origin[0], 78);
    assert_eq!(controller.drag(), Some(((3.0, 4.0), (3.0, 4.0))));
    controller.process_events(&InputEvent::CursorMoved { position: (3.0, 6.0) });
    assert_eq!(controller.drag(), Some(((3.0, 4.0), (3.0, 6.0))));
}

#[test]
fn held_keys_move_the_camera_every_frame() {
    let mut controller: CameraController<Point> = CameraController::new(LookMode::FreeLook);
    controller.process_events(&key(KeyCode::D, true));
    let mut cam = start_camera();
    assert!(controller.update_camera(&mut cam, QUIET, log_step));
    assert!(controller.update_camera(&mut cam, QUIET, log_step));
    assert_eq!(cam.origin[0], 33);
    controller.process_events(&key(KeyCode::D, false));
    assert!(!controller.update_camera(&mut cam, QUIET, log_step));
    assert_eq!(cam.origin[0], 33);
}

#[test]
fn blocked_forward_step_is_left_out_but_counts_as_change() {
    let mut controller: CameraController<Point> = CameraController::new(LookMode::FreeLook);
    controller.process_events(&key(KeyCode::W, true));
    assert_eq!(controller.steps(BLOCKED), vec![]);
    let mut cam = start_camera();
    assert!(controller.update_camera(&mut cam, BLOCKED, log_step));
    assert_eq!(cam.origin, [0, 0, 0]);
    controller.process_events(&key(KeyCode::S, true));
    controller.process_events(&InputEvent::MouseMotion { delta: (1.0, 0.0) });
    assert_eq!(
        controller.steps(BLOCKED),
        vec![MotionStep::Backward, MotionStep::Yaw, MotionStep::Pitch]
    );
    assert_eq!(
        controller.steps(QUIET),
        vec![MotionStep::Forward, MotionStep::Backward]
    );
}

#[test]
fn boost_doubles_the_speed() {
    let mut pressed = NO_KEYS;
    assert_eq!(pressed.boost_factor(), 1);
    pressed.set(Control::Boost, true);
    assert_eq!(pressed.boost_factor(), 2);
    pressed.set(Control::Forward, true);
    assert_eq!(pressed.boost_factor(), 2);
    pressed.set(Control::Boost, false);
    assert_eq!(pressed.boost_factor(), 1);
}

#[test]
fn pressed_set_touches_one_flag() {
    let mut pressed = NO_KEYS;
    pressed.set(Control::Down, true);
    assert_eq!(pressed, Pressed { down: true, ..NO_KEYS });
    assert!(pressed.is_moving());
    pressed.set(Control::Down, false);
    pressed.set(Control::Boost, true);
    assert_eq!(pressed, Pressed { boost: true, ..NO_KEYS });
    assert!(!pressed.is_moving());
}
