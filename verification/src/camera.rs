//! Pan-orbit camera: per-tick input accumulation and the deterministic
//! update of the camera state around its focus point.
//!
//! The camera sits on a sphere of `radius` around `focus`, placed by a yaw
//! and a pitch angle. Angles are measured so that `TURN` is a full turn and
//! the trig is the piecewise-linear kind from `fx`, which keeps every
//! transform component an exact integer function of the state.

use vstd::prelude::*;

verus! {

use crate::fx::ANGLE_RANGE;
use crate::fx::MAX_COORD;
use crate::fx::SCALE;
use crate::fx::TURN;
use crate::fx::clamp;
use crate::fx::clamp_s;
use crate::fx::cosl;
use crate::fx::cosl_s;
use crate::fx::div_scale;
use crate::fx::emod;
use crate::fx::lemma_div_scale_bound;
use crate::fx::lemma_mul_bound;
use crate::fx::mul_div_scale;
use crate::fx::sinl;
use crate::fx::sinl_s;
use crate::vecs::V2i;
use crate::vecs::V3i;
use crate::vecs::Vec2;
use crate::vecs::Vec3;

/// Orbit speed: angle units per fixed-point unit of pointer motion.
pub const ORBIT_SENSITIVITY: i64 = 4_000;

/// Pan speed, applied after scaling by the orbit radius.
pub const PAN_SENSITIVITY: i64 = 2_000;

/// Zoom speed; negative, so scrolling down (a negative delta) zooms in.
pub const ZOOM_SENSITIVITY: i64 = -200_000;

/// The orbit radius never falls below this (0.01 world units).
pub const RADIUS_MIN: i64 = 10_000;

/// The orbit radius never exceeds this (50 world units).
pub const RADIUS_MAX: i64 = 50_000_000;

/// The focus point stays within this box.
pub const FOCUS_MAX: i64 = 50_000_000;

/// Pitch is clamped short of a quarter turn so the camera never looks
/// exactly along the vertical axis.
pub const PITCH_LIMIT: i64 = 999_000;

/// Largest accumulated pointer or scroll delta per tick.
pub const INPUT_MAX: i64 = 100_000_000;

/// What the pointer's drag motion is currently bound to.
#[derive(Clone, Copy, Debug, PartialEq, Eq, Structural)]
pub enum DragMode {
    Idle,
    Orbit,
    Pan,
}

/// Per-tick accumulator of raw pointer and scroll input.
#[derive(Clone, Copy, Debug, PartialEq, Eq, Structural)]
pub struct InputAccumulator {
    pub drag: Vec2,
    pub scroll: i64,
}

impl InputAccumulator {
    /// Every accumulated delta within range.
    pub open spec fn wf(self) -> bool {
        &&& self.drag@.bounded(INPUT_MAX as int)
        &&& -INPUT_MAX <= self.scroll <= INPUT_MAX
    }

    /// Nothing accumulated.
    pub open spec fn is_zero(self) -> bool {
        self.drag@ == V2i::zero() && self.scroll == 0
    }

    /// Starts a tick with nothing accumulated.
    pub fn new() -> (r: InputAccumulator)
        ensures
            r.is_zero(),
            r.wf(),
    {
        InputAccumulator { drag: Vec2 { x: 0, y: 0 }, scroll: 0 }
    }

    /// Adds one pointer-motion event to the tick's total. Events sum;
    /// none is dropped short of the (huge) saturation bound.
    pub fn add_motion(&mut self, dx: i64, dy: i64)
        requires
            old(self).wf(),
            -INPUT_MAX <= dx <= INPUT_MAX,
            -INPUT_MAX <= dy <= INPUT_MAX,
        ensures
            final(self).drag.x == clamp_s(
                old(self).drag.x + dx,
                -INPUT_MAX as int,
                INPUT_MAX as int,
            ),
            final(self).drag.y == clamp_s(
                old(self).drag.y + dy,
                -INPUT_MAX as int,
                INPUT_MAX as int,
            ),
            final(self).scroll == old(self).scroll,
            final(self).wf(),
    {
        self.drag.x = clamp(self.drag.x + dx, -INPUT_MAX, INPUT_MAX);
        self.drag.y = clamp(self.drag.y + dy, -INPUT_MAX, INPUT_MAX);
    }

    /// Adds one scroll event to the tick's total.
    pub fn add_scroll(&mut self, d: i64)
        requires
            old(self).wf(),
            -INPUT_MAX <= d <= INPUT_MAX,
        ensures
            final(self).scroll == clamp_s(
                old(self).scroll + d,
                -INPUT_MAX as int,
                INPUT_MAX as int,
            ),
            final(self).drag == old(self).drag,
            final(self).wf(),
    {
        self.scroll = clamp(self.scroll + d, -INPUT_MAX, INPUT_MAX);
    }

    /// Hands the tick's totals out and resets to zero.
    pub fn take(&mut self) -> (r: (Vec2, i64))
        requires
            old(self).wf(),
        ensures
            r.0 == old(self).drag,
            r.1 == old(self).scroll,
            final(self).is_zero(),
            final(self).wf(),
    {
        let r = (self.drag, self.scroll);
        self.drag = Vec2 { x: 0, y: 0 };
        self.scroll = 0;
        r
    }
}

/// Mathematical camera state.
pub ghost struct CamI {
    pub focus: V3i,
    pub radius: int,
    pub yaw: int,
    pub pitch: int,
}

impl CamI {
    /// Focus, radius and angles within their configured ranges.
    pub open spec fn wf(self) -> bool {
        &&& self.focus.bounded(FOCUS_MAX as int)
        &&& RADIUS_MIN <= self.radius <= RADIUS_MAX
        &&& 0 <= self.yaw < TURN
        &&& -PITCH_LIMIT <= self.pitch <= PITCH_LIMIT
    }
}

/// Unit-scale direction from the focus to the camera.
pub open spec fn dir_s(yaw: int, pitch: int) -> V3i {
    let cp = cosl_s(pitch);
    let sp = sinl_s(pitch);
    let cy = cosl_s(yaw);
    let sy = sinl_s(yaw);
    V3i {
        x: (cp * cy) / SCALE as int,
        y: sp,
        z: (cp * sy) / SCALE as int,
    }
}

/// The camera's horizontal right axis.
pub open spec fn right_s(yaw: int) -> V3i {
    V3i { x: sinl_s(yaw), y: 0, z: -cosl_s(yaw) }
}

/// The camera's up axis.
pub open spec fn up_s(yaw: int, pitch: int) -> V3i {
    let cp = cosl_s(pitch);
    let sp = sinl_s(pitch);
    let cy = cosl_s(yaw);
    let sy = sinl_s(yaw);
    V3i {
        x: -((sp * cy) / SCALE as int),
        y: cp,
        z: -((sp * sy) / SCALE as int),
    }
}

/// World position of the camera: `focus + radius * dir / SCALE`.
pub open spec fn cam_pos_s(c: CamI) -> V3i {
    c.focus.plus(dir_s(c.yaw, c.pitch).scale_div(c.radius))
}

/// The camera transform as the drag controller reads it.
#[derive(Clone, Copy, Debug, PartialEq, Eq, Structural)]
pub struct CameraFrame {
    pub translation: Vec3,
    pub right: Vec3,
    pub up: Vec3,
}

impl CameraFrame {
    /// Translation in world range, axes of unit scale.
    pub open spec fn wf(self) -> bool {
        &&& self.translation@.bounded(MAX_COORD as int)
        &&& self.right@.bounded(SCALE as int)
        &&& self.up@.bounded(SCALE as int)
    }
}

/// Orbiting: the accumulated drag turns into yaw and pitch increments;
/// yaw wraps around the turn, pitch is clamped short of the poles.
pub open spec fn orbit_s(c: CamI, d: V2i) -> CamI {
    CamI {
        focus: c.focus,
        radius: c.radius,
        yaw: (c.yaw + (d.x * ORBIT_SENSITIVITY) / SCALE as int) % TURN as int,
        pitch: clamp_s(
            c.pitch + (d.y * ORBIT_SENSITIVITY) / SCALE as int,
            -PITCH_LIMIT as int,
            PITCH_LIMIT as int,
        ),
    }
}

/// The focus translation a pan drag asks for, before radius scaling.
pub open spec fn pan_vec_s(c: CamI, d: V2i) -> V3i {
    let r = right_s(c.yaw);
    let u = up_s(c.yaw, c.pitch);
    V3i {
        x: (-(d.x * r.x) + d.y * u.x) / SCALE as int,
        y: (-(d.x * r.y) + d.y * u.y) / SCALE as int,
        z: (-(d.x * r.z) + d.y * u.z) / SCALE as int,
    }
}

/// Panning: the focus moves in the camera's right/up plane, scaled by the
/// radius so panning speed is distance-invariant, and stays in its box.
pub open spec fn pan_s(c: CamI, d: V2i) -> CamI {
    let pr = (c.radius * PAN_SENSITIVITY) / SCALE as int;
    let t = pan_vec_s(c, d);
    CamI {
        focus: V3i {
            x: clamp_s(c.focus.x + (t.x * pr) / SCALE as int, -FOCUS_MAX as int, FOCUS_MAX as int),
            y: clamp_s(c.focus.y + (t.y * pr) / SCALE as int, -FOCUS_MAX as int, FOCUS_MAX as int),
            z: clamp_s(c.focus.z + (t.z * pr) / SCALE as int, -FOCUS_MAX as int, FOCUS_MAX as int),
        },
        radius: c.radius,
        yaw: c.yaw,
        pitch: c.pitch,
    }
}

/// Zooming: the radius shrinks by `scroll * ZOOM_SENSITIVITY / SCALE` and
/// is clamped to its configured range.
pub open spec fn zoom_s(radius: int, scroll: int) -> int {
    clamp_s(
        radius - (scroll * ZOOM_SENSITIVITY as int) / SCALE as int,
        RADIUS_MIN as int,
        RADIUS_MAX as int,
    )
}

/// One camera tick: the drag input orbits or pans according to the mode,
/// then the scroll input zooms.
pub open spec fn update_s(c: CamI, d: V2i, scroll: int, mode: DragMode) -> CamI {
    let c1 = match mode {
        DragMode::Orbit => orbit_s(c, d),
        DragMode::Pan => pan_s(c, d),
        DragMode::Idle => c,
    };
    CamI { focus: c1.focus, radius: zoom_s(c1.radius, scroll), yaw: c1.yaw, pitch: c1.pitch }
}

/// Camera state: focus point, orbit radius, and the two orbit angles.
#[derive(Clone, Copy, Debug, PartialEq, Eq, Structural)]
pub struct CameraOrbitState {
    pub focus: Vec3,
    pub radius: i64,
    pub yaw: i64,
    pub pitch: i64,
}

impl View for CameraOrbitState {
    type V = CamI;

    open spec fn view(&self) -> CamI {
        CamI {
            focus: self.focus@,
            radius: self.radius as int,
            yaw: self.yaw as int,
            pitch: self.pitch as int,
        }
    }
}

impl CameraOrbitState {
    /// Focus, radius and angles within their configured ranges.
    pub open spec fn wf(self) -> bool {
        self@.wf()
    }

    /// A camera at the given angles, clamped into range.
    pub fn new(focus: Vec3, radius: i64, yaw: i64, pitch: i64) -> (r: CameraOrbitState)
        requires
            focus@.bounded(FOCUS_MAX as int),
            -ANGLE_RANGE <= yaw <= ANGLE_RANGE,
        ensures
            r@.focus == focus@,
            r@.radius == clamp_s(radius as int, RADIUS_MIN as int, RADIUS_MAX as int),
            r@.yaw == yaw as int % TURN as int,
            r@.pitch == clamp_s(pitch as int, -PITCH_LIMIT as int, PITCH_LIMIT as int),
            r.wf(),
    {
        proof {
            vstd::arithmetic::div_mod::lemma_mod_bound(yaw as int, TURN as int);
        }
        CameraOrbitState {
            focus,
            radius: clamp(radius, RADIUS_MIN, RADIUS_MAX),
            yaw: emod(yaw, TURN),
            pitch: clamp(pitch, -PITCH_LIMIT, PITCH_LIMIT),
        }
    }
}

/// With nothing accumulated, a camera tick changes nothing: position and
/// orientation are exactly what they were.
pub proof fn lemma_update_zero_input(c: CamI, mode: DragMode)
    requires
        c.wf(),
    ensures
        update_s(c, V2i::zero(), 0, mode) == c,
{
    let s = SCALE as int;
    vstd::arithmetic::div_mod::lemma_div_multiples_vanish(0, s);
    assert(s * 0 == 0) by (nonlinear_arith);
    vstd::arithmetic::div_mod::lemma_small_mod(c.yaw as nat, TURN as nat);
}

/// The radius after `n` uniform zoom ticks.
pub open spec fn radius_after_s(radius: int, scroll: int, n: nat) -> int
    decreases n,
{
    if n == 0 {
        radius
    } else {
        zoom_s(radius_after_s(radius, scroll, (n - 1) as nat), scroll)
    }
}

/// One zoom tick keeps the radius in range and moves it in the direction
/// of `scroll * ZOOM_SENSITIVITY`.
proof fn lemma_zoom_step(r: int, scroll: int)
    requires
        RADIUS_MIN <= r <= RADIUS_MAX,
    ensures
        RADIUS_MIN <= zoom_s(r, scroll) <= RADIUS_MAX,
        scroll * ZOOM_SENSITIVITY as int >= 0 ==> zoom_s(r, scroll) <= r,
        scroll * ZOOM_SENSITIVITY as int <= 0 ==> zoom_s(r, scroll) >= r,
{
    let s = SCALE as int;
    let p = scroll * ZOOM_SENSITIVITY as int;
    vstd::arithmetic::div_mod::lemma_div_multiples_vanish(0, s);
    assert(s * 0 == 0) by (nonlinear_arith);
    if p >= 0 {
        vstd::arithmetic::div_mod::lemma_div_is_ordered(0, p, s);
    }
    if p <= 0 {
        vstd::arithmetic::div_mod::lemma_div_is_ordered(p, 0, s);
    }
}

/// Under a uniform per-tick scroll, the radius is monotone in the tick
/// count - falling when `scroll * ZOOM_SENSITIVITY` is non-negative and
/// rising when it is non-positive - and never leaves its configured range,
/// in particular never going below `RADIUS_MIN`.
pub proof fn lemma_zoom_monotone(radius: int, scroll: int, n: nat)
    requires
        RADIUS_MIN <= radius <= RADIUS_MAX,
    ensures
        RADIUS_MIN <= radius_after_s(radius, scroll, n) <= RADIUS_MAX,
        scroll * ZOOM_SENSITIVITY as int >= 0 ==> radius_after_s(radius, scroll, n + 1)
            <= radius_after_s(radius, scroll, n) <= radius,
        scroll * ZOOM_SENSITIVITY as int <= 0 ==> radius_after_s(radius, scroll, n + 1)
            >= radius_after_s(radius, scroll, n) >= radius,
    decreases n,
{
    if n == 0 {
        lemma_zoom_step(radius, scroll);
        assert(radius_after_s(radius, scroll, 1) == zoom_s(radius_after_s(radius, scroll, 0), scroll));
    } else {
        lemma_zoom_monotone(radius, scroll, (n - 1) as nat);
        lemma_zoom_step(radius_after_s(radius, scroll, n), scroll);
        assert(radius_after_s(radius, scroll, n + 1) == zoom_s(radius_after_s(radius, scroll, n), scroll));
    }
}

impl CameraOrbitState {
    /// The camera's world transform: its translation and its right and up
    /// axes, all exact functions of the orbit state.
    pub fn frame(&self) -> (r: CameraFrame)
        requires
            self.wf(),
        ensures
            r.translation@ == cam_pos_s(self@),
            r.right@ == right_s(self@.yaw),
            r.up@ == up_s(self@.yaw, self@.pitch),
            r.wf(),
    {
        let cp = cosl(self.pitch);
        let sp = sinl(self.pitch);
        let cy = cosl(self.yaw);
        let sy = sinl(self.yaw);
        proof {
            lemma_mul_bound(cp as int, cy as int, SCALE as int, SCALE as int);
            lemma_mul_bound(cp as int, sy as int, SCALE as int, SCALE as int);
            lemma_mul_bound(sp as int, cy as int, SCALE as int, SCALE as int);
            lemma_mul_bound(sp as int, sy as int, SCALE as int, SCALE as int);
            lemma_div_scale_bound(cp as int * cy as int, SCALE as int);
            lemma_div_scale_bound(cp as int * sy as int, SCALE as int);
            lemma_div_scale_bound(sp as int * cy as int, SCALE as int);
            lemma_div_scale_bound(sp as int * sy as int, SCALE as int);
        }
        let dir = Vec3 { x: mul_div_scale(cp, cy), y: sp, z: mul_div_scale(cp, sy) };
        let offset = dir.scale_div(self.radius);
        proof {
            lemma_mul_bound(dir.x as int, self.radius as int, SCALE as int, RADIUS_MAX as int);
            lemma_mul_bound(dir.y as int, self.radius as int, SCALE as int, RADIUS_MAX as int);
            lemma_mul_bound(dir.z as int, self.radius as int, SCALE as int, RADIUS_MAX as int);
            lemma_div_scale_bound(dir.x as int * self.radius as int, RADIUS_MAX as int);
            lemma_div_scale_bound(dir.y as int * self.radius as int, RADIUS_MAX as int);
            lemma_div_scale_bound(dir.z as int * self.radius as int, RADIUS_MAX as int);
        }
        let translation = self.focus.plus(&offset);
        let right = Vec3 { x: sy, y: 0, z: -cy };
        let up = Vec3 { x: -mul_div_scale(sp, cy), y: cp, z: -mul_div_scale(sp, sy) };
        CameraFrame { translation, right, up }
    }

    /// One camera tick: consumes (and so resets) the accumulated input and
    /// applies orbit or pan according to the mode, then the zoom.
    pub fn update(&mut self, input: &mut InputAccumulator, mode: DragMode)
        requires
            old(self).wf(),
            old(input).wf(),
        ensures
            final(self)@ == update_s(old(self)@, old(input).drag@, old(input).scroll as int, mode),
            final(self).wf(),
            final(input).is_zero(),
            final(input).wf(),
    {
        let (drag, scroll) = input.take();
        match mode {
            DragMode::Orbit => {
                proof {
                    lemma_mul_bound(
                        drag.x as int,
                        ORBIT_SENSITIVITY as int,
                        INPUT_MAX as int,
                        ORBIT_SENSITIVITY as int,
                    );
                    lemma_mul_bound(
                        drag.y as int,
                        ORBIT_SENSITIVITY as int,
                        INPUT_MAX as int,
                        ORBIT_SENSITIVITY as int,
                    );
                    lemma_div_scale_bound(drag.x as int * ORBIT_SENSITIVITY as int, 400_000);
                    lemma_div_scale_bound(drag.y as int * ORBIT_SENSITIVITY as int, 400_000);
                    vstd::arithmetic::div_mod::lemma_mod_bound(
                        self@.yaw + (drag.x as int * ORBIT_SENSITIVITY as int) / SCALE as int,
                        TURN as int,
                    );
                }
                let dyaw = mul_div_scale(drag.x, ORBIT_SENSITIVITY);
                let dpitch = mul_div_scale(drag.y, ORBIT_SENSITIVITY);
                self.yaw = emod(self.yaw + dyaw, TURN);
                self.pitch = clamp(self.pitch + dpitch, -PITCH_LIMIT, PITCH_LIMIT);
            },
            DragMode::Pan => {
                let cy = cosl(self.yaw);
                let sy = sinl(self.yaw);
                let cp = cosl(self.pitch);
                let sp = sinl(self.pitch);
                proof {
                    lemma_mul_bound(sp as int, cy as int, SCALE as int, SCALE as int);
                    lemma_mul_bound(sp as int, sy as int, SCALE as int, SCALE as int);
                    lemma_div_scale_bound(sp as int * cy as int, SCALE as int);
                    lemma_div_scale_bound(sp as int * sy as int, SCALE as int);
                }
                let ux = -mul_div_scale(sp, cy);
                let uy = cp;
                let uz = -mul_div_scale(sp, sy);
                proof {
                    lemma_mul_bound(drag.x as int, sy as int, INPUT_MAX as int, SCALE as int);
                    lemma_mul_bound(drag.y as int, ux as int, INPUT_MAX as int, SCALE as int);
                    lemma_mul_bound(drag.x as int, 0, INPUT_MAX as int, SCALE as int);
                    lemma_mul_bound(drag.y as int, uy as int, INPUT_MAX as int, SCALE as int);
                    lemma_mul_bound(drag.x as int, -(cy as int), INPUT_MAX as int, SCALE as int);
                    lemma_mul_bound(drag.y as int, uz as int, INPUT_MAX as int, SCALE as int);
                    lemma_div_scale_bound(
                        -(drag.x as int * sy as int) + drag.y as int * ux as int,
                        200_000_000,
                    );
                    lemma_div_scale_bound(
                        -(drag.x as int * 0) + drag.y as int * uy as int,
                        200_000_000,
                    );
                    lemma_div_scale_bound(
                        -(drag.x as int * -(cy as int)) + drag.y as int * uz as int,
                        200_000_000,
                    );
                    lemma_mul_bound(
                        self.radius as int,
                        PAN_SENSITIVITY as int,
                        RADIUS_MAX as int,
                        PAN_SENSITIVITY as int,
                    );
                    lemma_div_scale_bound(self.radius as int * PAN_SENSITIVITY as int, 100_000);
                }
                let tx = div_scale(-(drag.x * sy) + drag.y * ux);
                let ty = div_scale(-(drag.x * 0) + drag.y * uy);
                let tz = div_scale(-(drag.x * -cy) + drag.y * uz);
                let pr = mul_div_scale(self.radius, PAN_SENSITIVITY);
                proof {
                    lemma_mul_bound(tx as int, pr as int, 200_000_000, 100_000);
                    lemma_mul_bound(ty as int, pr as int, 200_000_000, 100_000);
                    lemma_mul_bound(tz as int, pr as int, 200_000_000, 100_000);
                    lemma_div_scale_bound(tx as int * pr as int, 20_000_000);
                    lemma_div_scale_bound(ty as int * pr as int, 20_000_000);
                    lemma_div_scale_bound(tz as int * pr as int, 20_000_000);
                }
                self.focus.x = clamp(self.focus.x + mul_div_scale(tx, pr), -FOCUS_MAX, FOCUS_MAX);
                self.focus.y = clamp(self.focus.y + mul_div_scale(ty, pr), -FOCUS_MAX, FOCUS_MAX);
                self.focus.z = clamp(self.focus.z + mul_div_scale(tz, pr), -FOCUS_MAX, FOCUS_MAX);
            },
            DragMode::Idle => {},
        }
        proof {
            lemma_mul_bound(
                scroll as int,
                ZOOM_SENSITIVITY as int,
                INPUT_MAX as int,
                200_000,
            );
            lemma_div_scale_bound(scroll as int * ZOOM_SENSITIVITY as int, 20_000_000);
        }
        let dz = mul_div_scale(scroll, ZOOM_SENSITIVITY);
        self.radius = clamp(self.radius - dz, RADIUS_MIN, RADIUS_MAX);
    }
}

} // verus!
