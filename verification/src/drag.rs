//! Drag-to-impulse control of a rigid body.
//!
//! A `DragSession` captures, at the drag-start hit, the camera, the world
//! hit point, and that point in the body's local frame. Each tick the
//! controller recomputes a target on the ground plane from the cumulative
//! screen-space drag distance and the camera axes, and emits a clamped
//! linear impulse pulling the grabbed point toward the target, plus a
//! torque impulse from the lever arm orthogonal to that pull.

use vstd::prelude::*;

verus! {

use crate::camera::CameraFrame;
use crate::camera::INPUT_MAX;
use crate::fx::MAX_COORD;
use crate::fx::SCALE;
use crate::fx::lemma_mul_bound;
use crate::fx::lemma_div_scale_bound;
use crate::fx::lemma_sqrt_floor_bounds;
use crate::pose::Pose;
use crate::pose::PoseI;
use crate::vecs::V2i;
use crate::vecs::V3i;
use crate::vecs::Vec2;
use crate::vecs::Vec3;
use crate::vecs::lemma_square_nonneg;

/// Drag sensitivity: how fast the target moves per unit of screen drag,
/// per unit of camera distance (0.0011).
pub const DRAG_SENSITIVITY: i64 = 1_100;

/// Gain applied to the clamped pull toward the target (1.5).
pub const DRAG_GAIN: i64 = 1_500_000;

/// Largest magnitude of a session's local offset (grab point relative to
/// a body anywhere in the world box).
pub const OFFSET_RANGE: i64 = 200_000_000;

/// Pointer buttons as the picking backend reports them.
#[derive(Clone, Copy, Debug, PartialEq, Eq, Structural)]
pub enum PointerButton {
    Primary,
    Secondary,
    Middle,
}

/// Why a drag could not start.
#[derive(Clone, Copy, Debug, PartialEq, Eq, Structural)]
pub enum DragStartError {
    /// The picking backend reported a hit without a world position.
    NoHitPosition,
}

/// Mathematical drag session.
pub ghost struct SessionI {
    pub camera: int,
    pub origin: V3i,
    pub offset: V3i,
    pub distance: V2i,
}

/// Live state of one pointer-driven manipulation of the body.
#[derive(Clone, Copy, Debug, PartialEq, Eq, Structural)]
pub struct DragSession {
    /// The camera whose ray originated the drag.
    pub camera: u64,
    /// World-space hit point at drag start.
    pub origin: Vec3,
    /// The hit point in the body's local frame; mapping it through the
    /// body's current pose recovers the grabbed point as the body moves.
    pub offset: Vec3,
    /// Latest cumulative screen-space drag distance; overwritten, not
    /// accumulated, as drag events arrive.
    pub distance: Vec2,
}

impl View for DragSession {
    type V = SessionI;

    open spec fn view(&self) -> SessionI {
        SessionI {
            camera: self.camera as int,
            origin: self.origin@,
            offset: self.offset@,
            distance: self.distance@,
        }
    }
}

impl DragSession {
    /// Origin, offset and distance within their ranges.
    pub open spec fn wf(self) -> bool {
        &&& self.origin@.bounded(MAX_COORD as int)
        &&& self.offset@.bounded(OFFSET_RANGE as int)
        &&& self.distance@.bounded(INPUT_MAX as int)
    }
}

/// Linear and angular impulse for the physics engine to apply.
#[derive(Clone, Copy, Debug, PartialEq, Eq, Structural)]
pub struct Impulses {
    pub linear: Vec3,
    pub angular: Vec3,
}

impl Impulses {
    /// No impulse at all.
    pub open spec fn is_zero(self) -> bool {
        self.linear@ == V3i::zero() && self.angular@ == V3i::zero()
    }

    /// The zero impulse pair.
    pub fn zero() -> (r: Impulses)
        ensures
            r.is_zero(),
    {
        Impulses { linear: Vec3 { x: 0, y: 0, z: 0 }, angular: Vec3 { x: 0, y: 0, z: 0 } }
    }
}

/// The camera-relative drag offset on the ground plane:
/// `distance.x * right - distance.y * up`, with the vertical dropped.
pub open spec fn offset_vec_s(distance: V2i, right: V3i, up: V3i) -> V3i {
    right.scale_div(distance.x).minus(up.scale_div(distance.y)).ground()
}

/// Drag sensitivity grows with the camera's distance from the grab origin,
/// compensating perspective foreshortening.
pub open spec fn zoom_factor_s(cam_translation: V3i, origin: V3i) -> int {
    (cam_translation.minus(origin).norm() * DRAG_SENSITIVITY as int) / SCALE as int
}

/// The world point the drag pulls toward.
pub open spec fn target_s(sess: SessionI, cam_translation: V3i, right: V3i, up: V3i) -> V3i {
    sess.origin.plus(
        offset_vec_s(sess.distance, right, up).scale_div(zoom_factor_s(cam_translation, sess.origin)),
    )
}

/// The current world position of the originally grabbed point.
pub open spec fn drag_point_s(sess: SessionI, body: PoseI) -> V3i {
    body.apply(sess.offset)
}

/// The linear impulse: the pull toward the target, clamped to one unit on
/// each axis and multiplied by the gain.
pub open spec fn linear_impulse_s(
    sess: SessionI,
    cam_translation: V3i,
    right: V3i,
    up: V3i,
    body: PoseI,
) -> V3i {
    target_s(sess, cam_translation, right, up).minus(drag_point_s(sess, body)).clamp_unit()
        .scale_div(DRAG_GAIN as int)
}

/// The torque impulse from lever arm `c` and applied impulse `i`. Only
/// the component of `c` orthogonal to `i` produces torque, and the
/// parallel component contributes nothing to the cross product, so the
/// torque is the cross product itself; a zero or degenerate impulse
/// yields zero torque.
pub open spec fn torque_s(c: V3i, i: V3i) -> V3i {
    c.cross_div(i)
}

/// The grounded lever arm from the body's center of mass to the grabbed
/// point.
pub open spec fn lever_arm_s(sess: SessionI, body: PoseI) -> V3i {
    drag_point_s(sess, body).minus(body.pos).ground()
}

/// The angular impulse of one drag tick.
pub open spec fn angular_impulse_s(
    sess: SessionI,
    cam_translation: V3i,
    right: V3i,
    up: V3i,
    body: PoseI,
) -> V3i {
    torque_s(lever_arm_s(sess, body), linear_impulse_s(sess, cam_translation, right, up, body))
}

/// The squared length of a vector is at least each component's square,
/// and at most three times the bound's square.
proof fn lemma_len2_bounds(v: V3i, b: int)
    requires
        v.bounded(b),
        0 <= b,
    ensures
        0 <= v.len2() <= 3 * (b * b),
        v.x * v.x <= v.len2(),
        v.y * v.y <= v.len2(),
        v.z * v.z <= v.len2(),
{
    lemma_square_nonneg(v.x);
    lemma_square_nonneg(v.y);
    lemma_square_nonneg(v.z);
    lemma_mul_bound(v.x, v.x, b, b);
    lemma_mul_bound(v.y, v.y, b, b);
    lemma_mul_bound(v.z, v.z, b, b);
}

/// The floor of a vector's length is below `nb` whenever `(nb+1)^2`
/// dominates the squared-length bound.
proof fn lemma_norm_bound(v: V3i, b: int, nb: int)
    requires
        v.bounded(b),
        0 <= b,
        0 <= nb,
        3 * (b * b) < (nb + 1) * (nb + 1),
    ensures
        0 <= v.norm() <= nb,
{
    lemma_len2_bounds(v, b);
    lemma_sqrt_floor_bounds(v.len2() as nat);
    let s = sqrt_floor_int(v.len2());
    assert(s <= nb) by (nonlinear_arith)
        requires
            s * s <= v.len2(),
            v.len2() <= 3 * (b * b),
            3 * (b * b) < (nb + 1) * (nb + 1),
            0 <= s,
            0 <= nb,
    ;
}

/// The floor square root, as an `int` of an `int`.
spec fn sqrt_floor_int(n: int) -> int {
    crate::fx::sqrt_floor(n as nat) as int
}

/// Computes the drag target: the session origin shifted by the
/// camera-relative drag offset, scaled by the distance-dependent factor.
pub fn drag_target(sess: &DragSession, frame: &CameraFrame) -> (r: Vec3)
    requires
        sess.wf(),
        frame.wf(),
    ensures
        r@ == target_s(sess@, frame.translation@, frame.right@, frame.up@),
        r@.bounded(700_000_000),
{
    let rv = frame.right.scale_div(sess.distance.x);
    let uv = frame.up.scale_div(sess.distance.y);
    proof {
        lemma_mul_bound(frame.right@.x, sess@.distance.x, SCALE as int, INPUT_MAX as int);
        lemma_mul_bound(frame.right@.y, sess@.distance.x, SCALE as int, INPUT_MAX as int);
        lemma_mul_bound(frame.right@.z, sess@.distance.x, SCALE as int, INPUT_MAX as int);
        lemma_mul_bound(frame.up@.x, sess@.distance.y, SCALE as int, INPUT_MAX as int);
        lemma_mul_bound(frame.up@.y, sess@.distance.y, SCALE as int, INPUT_MAX as int);
        lemma_mul_bound(frame.up@.z, sess@.distance.y, SCALE as int, INPUT_MAX as int);
        lemma_div_scale_bound(frame.right@.x * sess@.distance.x, INPUT_MAX as int);
        lemma_div_scale_bound(frame.right@.y * sess@.distance.x, INPUT_MAX as int);
        lemma_div_scale_bound(frame.right@.z * sess@.distance.x, INPUT_MAX as int);
        lemma_div_scale_bound(frame.up@.x * sess@.distance.y, INPUT_MAX as int);
        lemma_div_scale_bound(frame.up@.y * sess@.distance.y, INPUT_MAX as int);
        lemma_div_scale_bound(frame.up@.z * sess@.distance.y, INPUT_MAX as int);
    }
    let ov = rv.minus(&uv).ground();
    let diff = frame.translation.minus(&sess.origin);
    proof {
        lemma_norm_bound(diff@, 2 * MAX_COORD as int, 350_000_000);
    }
    let nrm = diff.norm();
    let zf = crate::fx::mul_div_scale(nrm, DRAG_SENSITIVITY);
    proof {
        lemma_mul_bound(nrm as int, DRAG_SENSITIVITY as int, 350_000_000, DRAG_SENSITIVITY as int);
        lemma_div_scale_bound(nrm as int * DRAG_SENSITIVITY as int, 385_000);
        lemma_mul_bound(ov@.x, zf as int, 2 * INPUT_MAX as int, 385_000);
        lemma_mul_bound(ov@.z, zf as int, 2 * INPUT_MAX as int, 385_000);
        lemma_div_scale_bound(ov@.x * zf as int, 77_000_000_000int);
        lemma_div_scale_bound(ov@.z * zf as int, 77_000_000_000int);
    }
    let shift = ov.scale_div(zf);
    sess.origin.plus(&shift)
}

/// Computes the drag impulses for an active session against the camera
/// frame and the body's current pose. Each axis of the linear impulse is
/// clamped: its magnitude never exceeds `DRAG_GAIN`, however far the body
/// is from the target.
pub fn drag_impulses(sess: &DragSession, frame: &CameraFrame, body: &Pose) -> (r: Impulses)
    requires
        sess.wf(),
        frame.wf(),
        body@.wf(),
    ensures
        r.linear@ == linear_impulse_s(sess@, frame.translation@, frame.right@, frame.up@, body@),
        r.angular@ == angular_impulse_s(sess@, frame.translation@, frame.right@, frame.up@, body@),
        -DRAG_GAIN <= r.linear@.x <= DRAG_GAIN,
        -DRAG_GAIN <= r.linear@.y <= DRAG_GAIN,
        -DRAG_GAIN <= r.linear@.z <= DRAG_GAIN,
{
    let target = drag_target(sess, frame);
    proof {
        crate::pose::lemma_rotn_bounded(body@.rot, sess@.offset, OFFSET_RANGE as int);
    }
    let point = body.apply(&sess.offset);
    let raw = target.minus(&point);
    let clamped = raw.clamp_unit();
    proof {
        lemma_mul_bound(clamped@.x, DRAG_GAIN as int, SCALE as int, DRAG_GAIN as int);
        lemma_mul_bound(clamped@.y, DRAG_GAIN as int, SCALE as int, DRAG_GAIN as int);
        lemma_mul_bound(clamped@.z, DRAG_GAIN as int, SCALE as int, DRAG_GAIN as int);
        lemma_div_scale_bound(clamped@.x * DRAG_GAIN as int, DRAG_GAIN as int);
        lemma_div_scale_bound(clamped@.y * DRAG_GAIN as int, DRAG_GAIN as int);
        lemma_div_scale_bound(clamped@.z * DRAG_GAIN as int, DRAG_GAIN as int);
    }
    let linear = clamped.scale_div(DRAG_GAIN);
    let arm = point.minus(&body.pos).ground();
    let angular = torque(&arm, &linear);
    Impulses { linear, angular }
}

/// Computes `torque_s`: the lever arm crossed with the impulse.
fn torque(c: &Vec3, i: &Vec3) -> (r: Vec3)
    requires
        c@.bounded(600_000_000),
        i@.bounded(DRAG_GAIN as int),
    ensures
        r@ == torque_s(c@, i@),
{
    c.cross_div(i)
}

/// The linear impulse of one controller tick: zero when idle.
pub open spec fn tick_linear_s(
    s: Option<SessionI>,
    cam_translation: V3i,
    right: V3i,
    up: V3i,
    body: PoseI,
) -> V3i {
    match s {
        Option::None => V3i::zero(),
        Option::Some(sess) => linear_impulse_s(sess, cam_translation, right, up, body),
    }
}

/// The angular impulse of one controller tick: zero when idle.
pub open spec fn tick_angular_s(
    s: Option<SessionI>,
    cam_translation: V3i,
    right: V3i,
    up: V3i,
    body: PoseI,
) -> V3i {
    match s {
        Option::None => V3i::zero(),
        Option::Some(sess) => angular_impulse_s(sess, cam_translation, right, up, body),
    }
}

/// Per-body drag controller: at most one session at a time.
#[derive(Clone, Copy, Debug, PartialEq, Eq, Structural)]
pub struct DragController {
    pub session: Option<DragSession>,
}

/// The session, if any, as its mathematical view.
pub open spec fn session_view(s: Option<DragSession>) -> Option<SessionI> {
    match s {
        Option::Some(sess) => Option::Some(sess@),
        Option::None => Option::None,
    }
}

impl DragController {
    /// Any held session is well-formed.
    pub open spec fn wf(self) -> bool {
        self.session matches Option::Some(s) ==> s.wf()
    }

    /// Starts idle: no session, no impulses.
    pub fn new() -> (r: DragController)
        ensures
            r.session is None,
            r.wf(),
    {
        DragController { session: Option::None }
    }

    /// Handles a drag-start hit. Only the primary button starts a drag;
    /// a primary hit without a world position is the backend-capability
    /// error; otherwise a session is created that captures the camera,
    /// the hit point, and the hit point in the body's local frame.
    pub fn on_drag_start(
        &mut self,
        button: PointerButton,
        hit_position: Option<Vec3>,
        camera: u64,
        body: &Pose,
    ) -> (r: Result<bool, DragStartError>)
        requires
            old(self).wf(),
            body@.wf(),
            hit_position matches Some(p) ==> p@.bounded(MAX_COORD as int),
        ensures
            final(self).wf(),
            button != PointerButton::Primary ==> r == Ok::<bool, DragStartError>(false)
                && final(self).session == old(self).session,
            button == PointerButton::Primary && hit_position is None ==> r == Err::<
                bool,
                DragStartError,
            >(DragStartError::NoHitPosition) && final(self).session == old(self).session,
            button == PointerButton::Primary ==> (hit_position matches Some(p) ==> r
                == Ok::<bool, DragStartError>(true) && (final(self).session matches Some(s)
                && s.camera == camera && s.origin == p && s.offset@ == body@.inv_apply(p@)
                && s.distance@ == V2i::zero())),
    {
        if !matches!(button, PointerButton::Primary) {
            return Ok(false);
        }
        match hit_position {
            Option::None => Err(DragStartError::NoHitPosition),
            Option::Some(p) => {
                proof {
                    crate::pose::lemma_rotn_bounded(
                        ((4 - body@.rot % 4) % 4) as nat,
                        p@.minus(body@.pos),
                        OFFSET_RANGE as int,
                    );
                }
                let offset = body.inv_apply(&p);
                self.session = Option::Some(
                    DragSession { camera, origin: p, offset, distance: Vec2 { x: 0, y: 0 } },
                );
                Ok(true)
            },
        }
    }

    /// Handles one drag event: the reported cumulative distance overwrites
    /// the session's, so the last event of a tick wins. Without a session
    /// the event is ignored.
    pub fn on_drag(&mut self, distance: Vec2)
        requires
            old(self).wf(),
            distance@.bounded(INPUT_MAX as int),
        ensures
            final(self).wf(),
            old(self).session matches Some(s) ==> final(self).session matches Some(t)
                && t.camera == s.camera && t.origin == s.origin && t.offset == s.offset
                && t.distance == distance,
            old(self).session is None ==> final(self).session is None,
    {
        match &self.session {
            Option::Some(s) => {
                self.session = Option::Some(
                    DragSession {
                        camera: s.camera,
                        origin: s.origin,
                        offset: s.offset,
                        distance,
                    },
                );
            },
            Option::None => {},
        }
    }

    /// Handles the drag-end event: the session is removed unconditionally,
    /// so later ticks apply no impulse.
    pub fn on_drag_end(&mut self)
        ensures
            final(self).session is None,
            final(self).wf(),
    {
        self.session = Option::None;
    }

    /// One force tick: a no-op pair of zero impulses when idle; for an
    /// active session, the computed drag impulses.
    pub fn tick(&self, frame: &CameraFrame, body: &Pose) -> (r: Impulses)
        requires
            self.wf(),
            frame.wf(),
            body@.wf(),
        ensures
            self.session is None ==> r.is_zero(),
            r.linear@ == tick_linear_s(
                session_view(self.session),
                frame.translation@,
                frame.right@,
                frame.up@,
                body@,
            ),
            r.angular@ == tick_angular_s(
                session_view(self.session),
                frame.translation@,
                frame.right@,
                frame.up@,
                body@,
            ),
            -DRAG_GAIN <= r.linear@.x <= DRAG_GAIN,
            -DRAG_GAIN <= r.linear@.y <= DRAG_GAIN,
            -DRAG_GAIN <= r.linear@.z <= DRAG_GAIN,
    {
        match &self.session {
            Option::None => Impulses::zero(),
            Option::Some(s) => drag_impulses(s, frame, body),
        }
    }
}

/// After a drag-end event the controller holds no session
/// (`on_drag_end` ensures it), and a tick without a session is the zero
/// impulse pair, whatever the camera and body do: no force is applied to
/// the body once the drag has ended.
pub proof fn lemma_no_impulse_after_end(
    cam_translation: V3i,
    right: V3i,
    up: V3i,
    body: PoseI,
)
    ensures
        tick_linear_s(Option::None, cam_translation, right, up, body) == V3i::zero(),
        tick_angular_s(Option::None, cam_translation, right, up, body) == V3i::zero(),
{
}

} // verus!
