use orbit_drag::camera::CameraFrame;
use orbit_drag::drag::DragController;
use orbit_drag::drag::DragStartError;
use orbit_drag::drag::DRAG_GAIN;
use orbit_drag::drag::PointerButton;
use orbit_drag::drag::drag_target;
use orbit_drag::pose::Pose;
use orbit_drag::vecs::Vec2;
use orbit_drag::vecs::Vec3;

fn overhead_frame() -> CameraFrame {
    // A camera above the scene: right along +x, up along +y.
    CameraFrame {
        translation: Vec3 { x: 0, y: 500_000, z: 0 },
        right: Vec3 { x: 1_000_000, y: 0, z: 0 },
        up: Vec3 { x: 0, y: 1_000_000, z: 0 },
    }
}

#[test]
fn dead_center_grab_at_rest_applies_no_impulse() {
    // Drag-start hit at local offset (0,0,0) on a body at rest; with
    // distance (0,0) the target equals the origin and the impulse is zero.
    let body = Pose::at(Vec3 { x: 0, y: 50_000, z: 0 });
    let mut ctl = DragController::new();
    let r = ctl.on_drag_start(
        PointerButton::Primary,
        Some(Vec3 { x: 0, y: 50_000, z: 0 }),
        1,
        &body,
    );
    assert_eq!(r, Ok(true));
    let imp = ctl.tick(&overhead_frame(), &body);
    assert_eq!(imp.linear, Vec3 { x: 0, y: 0, z: 0 });
    assert_eq!(imp.angular, Vec3 { x: 0, y: 0, z: 0 });
}

#[test]
fn drag_distance_moves_target_and_impulse_the_same_way() {
    // origin (0.05, 0.05, 0), one drag event of distance (0.1, 0):
    // the target moves toward +x and the impulse pulls the same way.
    let origin = Vec3 { x: 50_000, y: 50_000, z: 0 };
    let body = Pose::at(origin);
    let mut ctl = DragController::new();
    let r = ctl.on_drag_start(PointerButton::Primary, Some(origin), 1, &body);
    assert_eq!(r, Ok(true));
    ctl.on_drag(Vec2 { x: 100_000, y: 0 });
    let frame = overhead_frame();
    let sess = ctl.session.unwrap();
    let target = drag_target(&sess, &frame);
    assert!(target.x > origin.x);
    let imp = ctl.tick(&frame, &body);
    let point = body.apply(&sess.offset);
    assert!(target.x - point.x > 0);
    assert!(imp.linear.x > 0);
}

#[test]
fn impulse_axes_are_clamped_however_far_the_body_is() {
    // Grab the body at the world origin, then teleport it far away: each
    // axis of the linear impulse stays within the gain.
    let body = Pose::at(Vec3 { x: 0, y: 0, z: 0 });
    let mut ctl = DragController::new();
    let r = ctl.on_drag_start(
        PointerButton::Primary,
        Some(Vec3 { x: 0, y: 0, z: 0 }),
        1,
        &body,
    );
    assert_eq!(r, Ok(true));
    let far = body.translated(&Vec3 { x: 90_000_000, y: 0, z: -90_000_000 });
    let imp = ctl.tick(&overhead_frame(), &far);
    assert!(imp.linear.x.abs() <= DRAG_GAIN);
    assert!(imp.linear.y.abs() <= DRAG_GAIN);
    assert!(imp.linear.z.abs() <= DRAG_GAIN);
    assert_eq!(imp.linear.x, -DRAG_GAIN);
    assert_eq!(imp.linear.z, DRAG_GAIN);
}

#[test]
fn no_impulse_after_drag_end() {
    let origin = Vec3 { x: 50_000, y: 50_000, z: 0 };
    let body = Pose::at(origin);
    let mut ctl = DragController::new();
    let r = ctl.on_drag_start(PointerButton::Primary, Some(origin), 1, &body);
    assert_eq!(r, Ok(true));
    ctl.on_drag(Vec2 { x: 100_000, y: 0 });
    let frame = overhead_frame();
    let busy = ctl.tick(&frame, &body);
    assert!(busy.linear.x != 0);
    ctl.on_drag_end();
    assert!(ctl.session.is_none());
    let idle = ctl.tick(&frame, &body);
    assert_eq!(idle.linear, Vec3 { x: 0, y: 0, z: 0 });
    assert_eq!(idle.angular, Vec3 { x: 0, y: 0, z: 0 });
    // Later ticks stay quiet too, wherever the body goes.
    let moved = body.translated(&Vec3 { x: 1_000_000, y: 0, z: 0 });
    let later = ctl.tick(&frame, &moved);
    assert_eq!(later.linear, Vec3 { x: 0, y: 0, z: 0 });
    assert_eq!(later.angular, Vec3 { x: 0, y: 0, z: 0 });
}

#[test]
fn drag_start_needs_a_hit_position() {
    let body = Pose::at(Vec3 { x: 0, y: 0, z: 0 });
    let mut ctl = DragController::new();
    let r = ctl.on_drag_start(PointerButton::Primary, None, 1, &body);
    assert_eq!(r, Err(DragStartError::NoHitPosition));
    assert!(ctl.session.is_none());
}

#[test]
fn drag_start_ignores_other_buttons() {
    let body = Pose::at(Vec3 { x: 0, y: 0, z: 0 });
    let mut ctl = DragController::new();
    let r = ctl.on_drag_start(
        PointerButton::Secondary,
        Some(Vec3 { x: 0, y: 0, z: 0 }),
        1,
        &body,
    );
    assert_eq!(r, Ok(false));
    assert!(ctl.session.is_none());
    let r = ctl.on_drag_start(
        PointerButton::Middle,
        Some(Vec3 { x: 0, y: 0, z: 0 }),
        1,
        &body,
    );
    assert_eq!(r, Ok(false));
    assert!(ctl.session.is_none());
}

#[test]
fn later_drag_events_supersede_earlier_ones() {
    let body = Pose::at(Vec3 { x: 0, y: 0, z: 0 });
    let mut ctl = DragController::new();
    let r = ctl.on_drag_start(
        PointerButton::Primary,
        Some(Vec3 { x: 0, y: 0, z: 0 }),
        7,
        &body,
    );
    assert_eq!(r, Ok(true));
    ctl.on_drag(Vec2 { x: 10, y: 20 });
    ctl.on_drag(Vec2 { x: 30, y: -5 });
    let sess = ctl.session.unwrap();
    assert_eq!(sess.distance, Vec2 { x: 30, y: -5 });
    assert_eq!(sess.camera, 7);
}

#[test]
fn drag_start_captures_the_local_grab_point() {
    // A body translated and turned: the captured offset maps back onto
    // the hit point through the body's own pose.
    let body = Pose::at(Vec3 { x: 10_000, y: 0, z: 0 }).turned_quarter();
    let hit = Vec3 { x: 30_000, y: 5_000, z: 2_000 };
    let mut ctl = DragController::new();
    let r = ctl.on_drag_start(PointerButton::Primary, Some(hit), 1, &body);
    assert_eq!(r, Ok(true));
    let sess = ctl.session.unwrap();
    assert_eq!(body.apply(&sess.offset), hit);
}
