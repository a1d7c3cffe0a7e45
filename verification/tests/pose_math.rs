use orbit_drag::fx::clamp;
use orbit_drag::fx::cosl;
use orbit_drag::fx::div_scale;
use orbit_drag::fx::emod;
use orbit_drag::fx::isqrt;
use orbit_drag::fx::mul_div_scale;
use orbit_drag::fx::sinl;
use orbit_drag::pose::Pose;
use orbit_drag::vecs::Vec3;

#[test]
fn grab_point_tracks_body_motions() {
    // The offset captured at drag start keeps reproducing the world
    // position of the grabbed point through translations and quarter turns.
    let pose0 = Pose::at(Vec3 { x: 10_000, y: 0, z: 0 });
    let origin = Vec3 { x: 30_000, y: 5_000, z: 0 };
    let offset = pose0.inv_apply(&origin);
    assert_eq!(offset, Vec3 { x: 20_000, y: 5_000, z: 0 });
    assert_eq!(pose0.apply(&offset), origin);

    // Move the body and track the grabbed point by hand.
    let pose1 = pose0.translated(&Vec3 { x: 5_000, y: 0, z: 2_000 });
    let point1 = Vec3 { x: 35_000, y: 5_000, z: 2_000 };
    assert_eq!(pose1.apply(&offset), point1);

    // Quarter turn about the vertical axis through the body origin:
    // (x, y, z) relative to the center becomes (z, y, -x).
    let pose2 = pose1.turned_quarter();
    let point2 = Vec3 { x: 15_000, y: 5_000, z: -18_000 };
    assert_eq!(pose2.apply(&offset), point2);

    let pose3 = pose2.translated(&Vec3 { x: -1_000, y: 4_000, z: 0 });
    let point3 = Vec3 { x: 14_000, y: 9_000, z: -18_000 };
    assert_eq!(pose3.apply(&offset), point3);
}

#[test]
fn inverse_round_trips_for_every_rotation() {
    let q = Vec3 { x: 123, y: -456, z: 789 };
    let mut pose = Pose::at(Vec3 { x: 1_000, y: 2_000, z: -3_000 });
    for _ in 0..4 {
        assert_eq!(pose.apply(&pose.inv_apply(&q)), q);
        assert_eq!(pose.inv_apply(&pose.apply(&q)), q);
        pose = pose.turned_quarter();
    }
}

#[test]
fn four_quarter_turns_restore_the_pose() {
    let pose = Pose::at(Vec3 { x: 7, y: 8, z: 9 });
    let back = pose.turned_quarter().turned_quarter().turned_quarter().turned_quarter();
    assert_eq!(back, pose);
}

#[test]
fn isqrt_matches_the_floor_square_root() {
    assert_eq!(isqrt(0), 0);
    assert_eq!(isqrt(1), 1);
    assert_eq!(isqrt(8), 2);
    assert_eq!(isqrt(9), 3);
    assert_eq!(isqrt(10), 3);
    assert_eq!(isqrt(1_000_000), 1_000);
    assert_eq!(isqrt(999_999), 999);
}

#[test]
fn division_and_modulus_are_euclidean() {
    assert_eq!(div_scale(1_999_999), 1);
    assert_eq!(div_scale(-1), -1);
    assert_eq!(div_scale(-1_000_000), -1);
    assert_eq!(div_scale(-1_000_001), -2);
    assert_eq!(mul_div_scale(500_000, 3), 1);
    assert_eq!(mul_div_scale(-500_000, 3), -2);
    assert_eq!(emod(-1, 4_000_000), 3_999_999);
    assert_eq!(emod(4_000_001, 4_000_000), 1);
    assert_eq!(clamp(5, -2, 2), 2);
    assert_eq!(clamp(-5, -2, 2), -2);
    assert_eq!(clamp(1, -2, 2), 1);
}

#[test]
fn linear_trig_hits_the_cardinal_angles() {
    assert_eq!(cosl(0), 1_000_000);
    assert_eq!(cosl(1_000_000), 0);
    assert_eq!(cosl(2_000_000), -1_000_000);
    assert_eq!(cosl(3_000_000), 0);
    assert_eq!(cosl(4_000_000), 1_000_000);
    assert_eq!(sinl(0), 0);
    assert_eq!(sinl(1_000_000), 1_000_000);
    assert_eq!(sinl(2_000_000), 0);
    assert_eq!(sinl(3_000_000), -1_000_000);
    assert_eq!(sinl(-1_000_000), -1_000_000);
}

#[test]
fn vector_algebra_is_exact() {
    let a = Vec3 { x: 2_000_000, y: -1_000_000, z: 500_000 };
    let b = Vec3 { x: 1_000_000, y: 3_000_000, z: 0 };
    assert_eq!(a.plus(&b), Vec3 { x: 3_000_000, y: 2_000_000, z: 500_000 });
    assert_eq!(a.minus(&b), Vec3 { x: 1_000_000, y: -4_000_000, z: 500_000 });
    assert_eq!(a.dot(&b), 2_000_000i64 * 1_000_000 - 1_000_000i64 * 3_000_000);
    assert_eq!(a.ground(), Vec3 { x: 2_000_000, y: 0, z: 500_000 });
    assert_eq!(
        a.clamp_unit(),
        Vec3 { x: 1_000_000, y: -1_000_000, z: 500_000 },
    );
    assert_eq!(a.scale_div(500_000), Vec3 { x: 1_000_000, y: -500_000, z: 250_000 });
    // Cross product of the unit x and y axes is the unit z axis.
    let ex = Vec3 { x: 1_000_000, y: 0, z: 0 };
    let ey = Vec3 { x: 0, y: 1_000_000, z: 0 };
    assert_eq!(ex.cross_div(&ey), Vec3 { x: 0, y: 0, z: 1_000_000 });
    let n = ex.plus(&ey).norm();
    assert_eq!(n, 1_414_213);
}
