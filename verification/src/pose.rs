//! Rigid poses of the dragged body.
//!
//! A pose is a translation together with a rotation about the vertical
//! axis in quarter turns. Quarter turns are the rotations that fixed-point
//! coordinates represent exactly: applying a pose, inverting it, and
//! composing motions all stay on the integers, so the grab-point
//! bookkeeping below is exact rather than approximate.

use vstd::prelude::*;

verus! {

use crate::fx::MAX_COORD;
use crate::vecs::V3i;
use crate::vecs::VEC_RANGE;
use crate::vecs::Vec3;

/// One quarter turn about the vertical axis.
pub open spec fn rotq(p: V3i) -> V3i {
    V3i { x: p.z, y: p.y, z: -p.x }
}

/// `k` quarter turns about the vertical axis.
pub open spec fn rotn(k: nat, p: V3i) -> V3i
    decreases k,
{
    if k == 0 {
        p
    } else {
        rotq(rotn((k - 1) as nat, p))
    }
}

/// Four quarter turns change nothing.
pub proof fn lemma_rot4(p: V3i)
    ensures
        rotn(4, p) == p,
{
    reveal_with_fuel(rotn, 5);
}

/// Mathematical rigid pose: rotate by `rot` quarter turns, then translate.
pub ghost struct PoseI {
    pub pos: V3i,
    pub rot: nat,
}

impl PoseI {
    /// The rotation count is reduced and the translation in range.
    pub open spec fn wf(self) -> bool {
        &&& self.rot < 4
        &&& self.pos.bounded(MAX_COORD as int)
    }

    /// World position of the body-local point `p`.
    pub open spec fn apply(self, p: V3i) -> V3i {
        self.pos.plus(rotn(self.rot, p))
    }

    /// Body-local coordinates of the world point `q`.
    pub open spec fn inv_apply(self, q: V3i) -> V3i {
        rotn(((4 - self.rot % 4) % 4) as nat, q.minus(self.pos))
    }
}

/// Quarter turns permute and negate coordinates, so they keep bounds.
pub proof fn lemma_rotn_bounded(k: nat, p: V3i, b: int)
    requires
        p.bounded(b),
    ensures
        rotn(k, p).bounded(b),
    decreases k,
{
    if k > 0 {
        lemma_rotn_bounded((k - 1) as nat, p, b);
    }
}

/// Mapping a point out of the local frame and back returns it unchanged.
pub proof fn lemma_apply_inverse(pose: PoseI, q: V3i)
    requires
        pose.wf(),
    ensures
        pose.apply(pose.inv_apply(q)) == q,
{
    reveal_with_fuel(rotn, 5);
    let d = q.minus(pose.pos);
    if pose.rot == 0 {
        assert(pose.apply(pose.inv_apply(q)) == q);
    } else if pose.rot == 1 {
        assert(rotn(1, rotn(3, d)) == rotn(4, d));
        lemma_rot4(d);
    } else if pose.rot == 2 {
        assert(rotn(2, rotn(2, d)) == rotn(4, d));
        lemma_rot4(d);
    } else {
        assert(rotn(3, rotn(1, d)) == rotn(4, d));
        lemma_rot4(d);
    }
}

/// The inverse image of a world point is what the pose maps back onto it.
pub proof fn lemma_inverse_apply(pose: PoseI, p: V3i)
    requires
        pose.wf(),
    ensures
        pose.inv_apply(pose.apply(p)) == p,
{
    reveal_with_fuel(rotn, 5);
    let r = rotn(pose.rot, p);
    assert(pose.apply(p).minus(pose.pos) == r);
    if pose.rot == 1 {
        assert(rotn(3, rotn(1, p)) == rotn(4, p));
        lemma_rot4(p);
    } else if pose.rot == 2 {
        assert(rotn(2, rotn(2, p)) == rotn(4, p));
        lemma_rot4(p);
    } else if pose.rot == 3 {
        assert(rotn(1, rotn(3, p)) == rotn(4, p));
        lemma_rot4(p);
    }
}

/// A rigid motion of the body, as the physics engine reports it: a world
/// translation, or a quarter turn about the vertical axis through the
/// body's own origin.
#[derive(Clone, Copy, Debug, PartialEq, Eq, Structural)]
pub enum Motion {
    Translate(Vec3),
    TurnQuarter,
}

/// Mathematical motion.
pub ghost enum MotionI {
    Translate(V3i),
    TurnQuarter,
}

impl View for Motion {
    type V = MotionI;

    open spec fn view(&self) -> MotionI {
        match *self {
            Motion::Translate(d) => MotionI::Translate(d@),
            Motion::TurnQuarter => MotionI::TurnQuarter,
        }
    }
}

/// The pose after a motion.
pub open spec fn step_s(pose: PoseI, m: MotionI) -> PoseI {
    match m {
        MotionI::Translate(d) => PoseI { pos: pose.pos.plus(d), rot: pose.rot },
        MotionI::TurnQuarter => PoseI { pos: pose.pos, rot: ((pose.rot + 1) % 4) as nat },
    }
}

/// Where a motion carries a world point, given the body origin `center`
/// the motion turns about.
pub open spec fn move_point_s(m: MotionI, center: V3i, q: V3i) -> V3i {
    match m {
        MotionI::Translate(d) => q.plus(d),
        MotionI::TurnQuarter => center.plus(rotq(q.minus(center))),
    }
}

/// The pose after a sequence of motions.
pub open spec fn run_pose_s(pose: PoseI, ms: Seq<MotionI>) -> PoseI
    decreases ms.len(),
{
    if ms.len() == 0 {
        pose
    } else {
        run_pose_s(step_s(pose, ms[0]), ms.subrange(1, ms.len() as int))
    }
}

/// A world point carried along the same sequence of motions.
pub open spec fn track_point_s(pose: PoseI, q: V3i, ms: Seq<MotionI>) -> V3i
    decreases ms.len(),
{
    if ms.len() == 0 {
        q
    } else {
        track_point_s(
            step_s(pose, ms[0]),
            move_point_s(ms[0], pose.pos, q),
            ms.subrange(1, ms.len() as int),
        )
    }
}

/// One motion moves the image of a body-local point exactly as it moves
/// the tracked world point.
proof fn lemma_step_commutes(pose: PoseI, off: V3i, m: MotionI)
    requires
        pose.rot < 4,
    ensures
        step_s(pose, m).rot < 4,
        step_s(pose, m).apply(off) == move_point_s(m, pose.pos, pose.apply(off)),
{
    match m {
        MotionI::Translate(d) => {
        },
        MotionI::TurnQuarter => {
            reveal_with_fuel(rotn, 5);
            let r = rotn(pose.rot, off);
            assert(pose.apply(off).minus(pose.pos) == r);
            if pose.rot == 3 {
                assert(rotn(4, off) == rotq(rotn(3, off)));
                lemma_rot4(off);
            }
        },
    }
}

/// The world position of a grabbed body-local point, recomputed from the
/// body's current pose, tracks the point through every sequence of
/// translations and quarter turns.
pub proof fn lemma_apply_tracks_motions(pose: PoseI, off: V3i, ms: Seq<MotionI>)
    requires
        pose.rot < 4,
    ensures
        run_pose_s(pose, ms).rot < 4,
        run_pose_s(pose, ms).apply(off) == track_point_s(pose, pose.apply(off), ms),
    decreases ms.len(),
{
    if ms.len() > 0 {
        lemma_step_commutes(pose, off, ms[0]);
        lemma_apply_tracks_motions(step_s(pose, ms[0]), off, ms.subrange(1, ms.len() as int));
    }
}

/// The offset captured at the start of a drag keeps reproducing the world
/// position of the originally grabbed point, whatever translations and
/// quarter turns the body goes through afterwards.
pub proof fn lemma_drag_offset_tracks(pose: PoseI, origin: V3i, ms: Seq<MotionI>)
    requires
        pose.wf(),
    ensures
        run_pose_s(pose, ms).apply(pose.inv_apply(origin)) == track_point_s(
            pose,
            origin,
            ms,
        ),
{
    lemma_apply_inverse(pose, origin);
    lemma_apply_tracks_motions(pose, pose.inv_apply(origin), ms);
}

/// Body pose in fixed-point coordinates.
#[derive(Clone, Copy, Debug, PartialEq, Eq, Structural)]
pub struct Pose {
    pub pos: Vec3,
    pub rot: u8,
}

impl View for Pose {
    type V = PoseI;

    open spec fn view(&self) -> PoseI {
        PoseI { pos: self.pos@, rot: self.rot as nat }
    }
}

impl Pose {
    /// A pose with the given translation and no rotation.
    pub fn at(pos: Vec3) -> (r: Pose)
        requires
            pos@.bounded(MAX_COORD as int),
        ensures
            r@ == (PoseI { pos: pos@, rot: 0 }),
            r@.wf(),
    {
        Pose { pos, rot: 0 }
    }

    /// Quarter turns, reduced, and translation in range.
    pub open spec fn wf(self) -> bool {
        self@.wf()
    }

    /// Rotates a point by the pose's quarter turns.
    fn rotate(&self, p: &Vec3) -> (r: Vec3)
        requires
            self@.wf(),
            p@.bounded(VEC_RANGE as int),
        ensures
            r@ == rotn(self@.rot, p@),
            r@.bounded(VEC_RANGE as int),
    {
        proof {
            reveal_with_fuel(rotn, 5);
        }
        if self.rot == 0 {
            *p
        } else if self.rot == 1 {
            Vec3 { x: p.z, y: p.y, z: -p.x }
        } else if self.rot == 2 {
            Vec3 { x: -p.x, y: p.y, z: -p.z }
        } else {
            Vec3 { x: -p.z, y: p.y, z: p.x }
        }
    }

    /// World position of the body-local point `p`.
    pub fn apply(&self, p: &Vec3) -> (r: Vec3)
        requires
            self@.wf(),
            p@.bounded(VEC_RANGE as int),
        ensures
            r@ == self@.apply(p@),
    {
        let rp = self.rotate(p);
        self.pos.plus(&rp)
    }

    /// Body-local coordinates of the world point `q`.
    pub fn inv_apply(&self, q: &Vec3) -> (r: Vec3)
        requires
            self@.wf(),
            q@.bounded(VEC_RANGE as int - MAX_COORD as int),
        ensures
            r@ == self@.inv_apply(q@),
    {
        let d = q.minus(&self.pos);
        let inv = Pose { pos: Vec3 { x: 0, y: 0, z: 0 }, rot: (4 - self.rot) % 4 };
        proof {
            assert(inv@.rot == ((4 - self@.rot % 4) % 4) as nat);
        }
        inv.rotate(&d)
    }

    /// The pose after a world translation by `d`.
    pub fn translated(&self, d: &Vec3) -> (r: Pose)
        requires
            self@.wf(),
            self@.pos.plus(d@).bounded(MAX_COORD as int),
            d@.bounded(VEC_RANGE as int),
        ensures
            r@ == step_s(self@, MotionI::Translate(d@)),
            r@.wf(),
    {
        Pose { pos: self.pos.plus(d), rot: self.rot }
    }

    /// The pose after a quarter turn about the vertical axis through the
    /// body origin.
    pub fn turned_quarter(&self) -> (r: Pose)
        requires
            self@.wf(),
        ensures
            r@ == step_s(self@, MotionI::TurnQuarter),
            r@.wf(),
    {
        Pose { pos: self.pos, rot: (self.rot + 1) % 4 }
    }

    /// The pose after one motion.
    pub fn moved(&self, m: &Motion) -> (r: Pose)
        requires
            self@.wf(),
            m@ matches MotionI::Translate(d) ==> self@.pos.plus(d).bounded(MAX_COORD as int)
                && d.bounded(VEC_RANGE as int),
        ensures
            r@ == step_s(self@, m@),
            r@.wf(),
    {
        match m {
            Motion::Translate(d) => self.translated(d),
            Motion::TurnQuarter => self.turned_quarter(),
        }
    }
}

} // verus!
