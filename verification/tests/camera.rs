use orbit_drag::camera::CameraOrbitState;
use orbit_drag::camera::DragMode;
use orbit_drag::camera::InputAccumulator;
use orbit_drag::camera::RADIUS_MIN;
use orbit_drag::vecs::Vec3;

fn reference_camera() -> CameraOrbitState {
    // Focus (0, 0.1, 0), radius 0.4, looking down from almost straight above:
    // the camera sits near (0, 0.5, 0).
    CameraOrbitState::new(
        Vec3 { x: 0, y: 100_000, z: 0 },
        400_000,
        0,
        999_000,
    )
}

#[test]
fn zero_input_leaves_camera_unchanged() {
    let mut cam = reference_camera();
    let before = cam;
    let frame_before = cam.frame();
    let mut input = InputAccumulator::new();
    cam.update(&mut input, DragMode::Idle);
    assert_eq!(cam, before);
    assert_eq!(cam.frame(), frame_before);
    // The same holds whatever the drag is bound to.
    cam.update(&mut input, DragMode::Orbit);
    assert_eq!(cam, before);
    cam.update(&mut input, DragMode::Pan);
    assert_eq!(cam, before);
}

#[test]
fn scroll_down_zooms_in_below_initial_radius() {
    // Scroll delta of -1 (one fixed-point unit) for one tick reduces the
    // radius below its initial 0.4.
    let mut cam = reference_camera();
    let mut input = InputAccumulator::new();
    input.add_scroll(-1_000_000);
    cam.update(&mut input, DragMode::Idle);
    assert!(cam.radius < 400_000);
    assert!(cam.radius >= RADIUS_MIN);
    assert_eq!(cam.radius, 200_000);
}

#[test]
fn uniform_scroll_is_monotone_and_floored_at_minimum() {
    let mut cam = reference_camera();
    let mut last = cam.radius;
    for _ in 0..6 {
        let mut input = InputAccumulator::new();
        input.add_scroll(-1_000_000);
        cam.update(&mut input, DragMode::Idle);
        assert!(cam.radius <= last);
        assert!(cam.radius >= RADIUS_MIN);
        last = cam.radius;
    }
    assert_eq!(cam.radius, RADIUS_MIN);

    // The opposite scroll sign is monotone the other way.
    let mut rising = reference_camera();
    let mut last = rising.radius;
    for _ in 0..4 {
        let mut input = InputAccumulator::new();
        input.add_scroll(1_000_000);
        rising.update(&mut input, DragMode::Idle);
        assert!(rising.radius >= last);
        last = rising.radius;
    }
}

#[test]
fn accumulator_sums_events_and_resets_on_take() {
    let mut input = InputAccumulator::new();
    input.add_motion(3, 4);
    input.add_motion(10, -2);
    input.add_scroll(7);
    input.add_scroll(-3);
    let (drag, scroll) = input.take();
    assert_eq!((drag.x, drag.y), (13, 2));
    assert_eq!(scroll, 4);
    let (drag2, scroll2) = input.take();
    assert_eq!((drag2.x, drag2.y), (0, 0));
    assert_eq!(scroll2, 0);
}

#[test]
fn orbit_drag_turns_yaw_and_clamps_pitch() {
    let mut cam = reference_camera();
    let mut input = InputAccumulator::new();
    input.add_motion(1_000_000, 0);
    cam.update(&mut input, DragMode::Orbit);
    assert_eq!(cam.yaw, 4_000);
    assert_eq!(cam.pitch, 999_000);

    // Pitch is already at the limit; pushing further leaves it clamped.
    let mut input = InputAccumulator::new();
    input.add_motion(0, 100_000_000);
    cam.update(&mut input, DragMode::Orbit);
    assert_eq!(cam.pitch, 999_000);
}

#[test]
fn pan_moves_focus_in_the_camera_plane() {
    // Level camera at yaw 0: right is (0, 0, -1), up is (0, 1, 0).
    let mut cam = CameraOrbitState::new(Vec3 { x: 0, y: 0, z: 0 }, 400_000, 0, 0);
    let mut input = InputAccumulator::new();
    input.add_motion(1_000_000, 0);
    cam.update(&mut input, DragMode::Pan);
    assert_eq!(cam.focus, Vec3 { x: 0, y: 0, z: 800 });
    assert_eq!(cam.yaw, 0);
    assert_eq!(cam.pitch, 0);
}

#[test]
fn frame_places_camera_on_the_orbit_sphere() {
    let cam = CameraOrbitState::new(Vec3 { x: 0, y: 100_000, z: 0 }, 400_000, 0, 0);
    let frame = cam.frame();
    assert_eq!(frame.translation, Vec3 { x: 400_000, y: 100_000, z: 0 });
    assert_eq!(frame.right, Vec3 { x: 0, y: 0, z: -1_000_000 });
    assert_eq!(frame.up, Vec3 { x: 0, y: 1_000_000, z: 0 });
}
