//! The planar movement controllers: key bindings, the ground-plane motion
//! basis derived from an entity's current rotation, and the per-tick
//! position integration.
//!
//! Forward and left are taken from the rotation, their vertical component is
//! zeroed, and they are re-normalized, so an entity that is pitched up or
//! down still walks parallel to the ground. Held keys compose additively and
//! unnormalized: holding two perpendicular directions at once moves the full
//! per-key distance along each axis, a deliberate, documented property of
//! the design, not an oversight to correct. When a projected direction
//! degenerates to the zero vector (the view is exactly vertical), a fixed
//! default direction is used instead, so the integration stays well-defined
//! for every input.

use vstd::prelude::*;

verus! {

use crate::fixed::{FX_ONE, isqrt_u64, sdiv, sdiv_i64, sqrt_floor};
use crate::quat::{QuatFx, QuatModel, forward_model, left_model, quat_forward, quat_left};
use crate::vec3::{Vec3Fx, Vec3Model, default_forward, default_left, in_bounds, vadd, vneg, vzero};

/// The largest speed a binding profile may carry: a thousand world units per
/// second, in fixed-point steps.
pub const SPEED_LIMIT: i64 = 1_000_000_000;

/// The largest time slice one tick may integrate: ten seconds, in
/// fixed-point steps.
pub const DT_LIMIT: i64 = 10_000_000;

/// The largest magnitude one direction can contribute to a position
/// component in one tick: `SPEED_LIMIT * DT_LIMIT / FX_ONE`.
pub const STEP_LIMIT: i64 = 10_000_000_000;

/// The largest position component magnitude accepted by an update; keeps
/// a whole tick of movement away from the machine-word edge.
pub const POSITION_LIMIT: i64 = 1_000_000_000_000_000;

/// One direction's contribution to one position component:
/// `direction * speed * dt`, brought back to the `FX_ONE` scale (two scale
/// factors fall away), rounded towards zero.
pub open spec fn scaled_step(d: int, speed: int, dt: int) -> int {
    sdiv(d * speed * dt, FX_ONE * FX_ONE)
}

/// One direction's contribution to the position over a tick.
pub open spec fn dir_step(v: Vec3Model, speed: int, dt: int) -> Vec3Model {
    Vec3Model {
        x: scaled_step(v.x, speed, dt),
        y: scaled_step(v.y, speed, dt),
        z: scaled_step(v.z, speed, dt),
    }
}

/// The vertical unit direction (world up).
pub open spec fn up_model() -> Vec3Model {
    Vec3Model { x: 0, y: FX_ONE as int, z: 0 }
}

/// Zero the vertical component of `v` and re-normalize what is left to one
/// world unit; if nothing is left, fall back to the given fixed direction.
pub open spec fn horizontal_unit_model(v: Vec3Model, fallback: Vec3Model) -> Vec3Model {
    let m = v.x * v.x + v.z * v.z;
    let n = sqrt_floor(m as nat);
    if n == 0 {
        fallback
    } else {
        Vec3Model {
            x: sdiv(v.x * FX_ONE, n as int),
            y: 0,
            z: sdiv(v.z * FX_ONE, n as int),
        }
    }
}

/// A direction whose horizontal part vanishes is replaced by the fallback.
pub proof fn lemma_degenerate_direction_uses_fallback(v: Vec3Model, fallback: Vec3Model)
    requires
        v.x == 0,
        v.z == 0,
    ensures
        horizontal_unit_model(v, fallback) == fallback,
{
}

/// The executable horizontal projection with re-normalization and the
/// degenerate-direction guard.
pub fn horizontal_unit(v: &Vec3Fx, fallback: &Vec3Fx) -> (r: Vec3Fx)
    requires
        in_bounds(v@, 4 * FX_ONE),
        in_bounds(fallback@, FX_ONE as int),
        fallback@.y == 0,
    ensures
        r@ == horizontal_unit_model(v@, fallback@),
        in_bounds(r@, FX_ONE as int),
        r@.y == 0,
{
    proof {
        assert(forall|a: int|
            -4 * FX_ONE <= a <= 4 * FX_ONE ==> 0 <= #[trigger] (a * a) <= 16 * (FX_ONE * FX_ONE))
            by (nonlinear_arith);
    }
    let xx: i64 = v.x * v.x;
    let zz: i64 = v.z * v.z;
    let m: u64 = (xx + zz) as u64;
    let n: u64 = isqrt_u64(m);
    if n == 0 {
        *fallback
    } else {
        proof {
            // each horizontal component is bounded by the root of the sum
            // of their squares
            assert(-(n as int) <= v@.x <= n as int && -(n as int) <= v@.z <= n as int)
                by (nonlinear_arith)
                requires
                    v@.x * v@.x <= m as int,
                    v@.z * v@.z <= m as int,
                    m < (n as int + 1) * (n as int + 1),
                    n >= 1,
            ;
            assert(-(n as int * FX_ONE) <= v@.x * FX_ONE <= n as int * FX_ONE && -(n as int
                * FX_ONE) <= v@.z * FX_ONE <= n as int * FX_ONE) by (nonlinear_arith)
                requires
                    -(n as int) <= v@.x <= n as int,
                    -(n as int) <= v@.z <= n as int,
                    FX_ONE > 0,
            ;
            crate::fixed::lemma_sdiv_bound(v@.x * FX_ONE, n as int, FX_ONE as int);
            crate::fixed::lemma_sdiv_bound(v@.z * FX_ONE, n as int, FX_ONE as int);
            // the root of a bounded sum of squares is itself bounded
            assert(n <= 6_000_000) by (nonlinear_arith)
                requires
                    n as int * n as int <= m as int,
                    m <= 32 * (1_000_000_000_000int),
            ;
        }
        Vec3Fx { x: sdiv_i64(v.x * FX_ONE, n as i64), y: 0, z: sdiv_i64(v.z * FX_ONE, n as i64) }
    }
}

/// The motion basis of a rotation: its forward and left directions projected
/// into the ground plane, with the fixed defaults as degenerate fallbacks.
pub open spec fn basis_forward(q: QuatModel) -> Vec3Model {
    horizontal_unit_model(forward_model(q), Vec3Model { x: 0, y: 0, z: -FX_ONE as int })
}

/// See [`basis_forward`].
pub open spec fn basis_left(q: QuatModel) -> Vec3Model {
    horizontal_unit_model(left_model(q), Vec3Model { x: -FX_ONE as int, y: 0, z: 0 })
}

/// The key codes driving one controller, and its speed in fixed-point world
/// units per second. Holding `forward` moves along the basis forward
/// direction, `backward` against it; `strafe_left` along the basis left
/// direction, `strafe_right` against it. The optional vertical pair bypasses
/// the ground-plane projection and moves purely along world up.
#[derive(Clone, Copy, PartialEq, Eq, Structural, Debug)]
pub struct KeyBindingProfile {
    pub forward: u32,
    pub backward: u32,
    pub strafe_left: u32,
    pub strafe_right: u32,
    pub ascend: Option<u32>,
    pub descend: Option<u32>,
    pub speed: i64,
}

impl KeyBindingProfile {
    /// The speed is positive and bounded.
    pub open spec fn wf(self) -> bool {
        0 < self.speed <= SPEED_LIMIT
    }
}

/// The forward/backward share of a tick's displacement.
pub open spec fn forward_part(
    p: KeyBindingProfile,
    held: Seq<u32>,
    fwd: Vec3Model,
    dt: int,
) -> Vec3Model {
    vadd(
        if held.contains(p.forward) {
            dir_step(fwd, p.speed as int, dt)
        } else {
            vzero()
        },
        if held.contains(p.backward) {
            vneg(dir_step(fwd, p.speed as int, dt))
        } else {
            vzero()
        },
    )
}

/// The strafe share of a tick's displacement.
pub open spec fn strafe_part(
    p: KeyBindingProfile,
    held: Seq<u32>,
    left: Vec3Model,
    dt: int,
) -> Vec3Model {
    vadd(
        if held.contains(p.strafe_left) {
            dir_step(left, p.speed as int, dt)
        } else {
            vzero()
        },
        if held.contains(p.strafe_right) {
            vneg(dir_step(left, p.speed as int, dt))
        } else {
            vzero()
        },
    )
}

/// Whether the profile binds a vertical key that is currently held.
pub open spec fn vertical_active(p: KeyBindingProfile, held: Seq<u32>) -> bool {
    ||| (p.ascend matches Some(k) && held.contains(k))
    ||| (p.descend matches Some(k) && held.contains(k))
}

/// The vertical share of a tick's displacement.
pub open spec fn vertical_part(p: KeyBindingProfile, held: Seq<u32>, dt: int) -> Vec3Model {
    vadd(
        if p.ascend matches Some(k) && held.contains(k) {
            dir_step(up_model(), p.speed as int, dt)
        } else {
            vzero()
        },
        if p.descend matches Some(k) && held.contains(k) {
            vneg(dir_step(up_model(), p.speed as int, dt))
        } else {
            vzero()
        },
    )
}

/// A whole tick's displacement: the three shares composed additively, so
/// simultaneous keys move the full per-key distance along each axis.
pub open spec fn displacement(
    p: KeyBindingProfile,
    held: Seq<u32>,
    fwd: Vec3Model,
    left: Vec3Model,
    dt: int,
) -> Vec3Model {
    vadd(vadd(forward_part(p, held, fwd, dt), strafe_part(p, held, left, dt)), vertical_part(
        p,
        held,
        dt,
    ))
}

/// Holding only the forward key for a tick of length `dt` moves the entity
/// exactly `speed * dt` along the basis forward direction.
pub proof fn lemma_forward_only_moves_speed_times_dt(
    p: KeyBindingProfile,
    held: Seq<u32>,
    fwd: Vec3Model,
    left: Vec3Model,
    dt: int,
)
    requires
        held.contains(p.forward),
        !held.contains(p.backward),
        !held.contains(p.strafe_left),
        !held.contains(p.strafe_right),
        !vertical_active(p, held),
    ensures
        displacement(p, held, fwd, left, dt) == dir_step(fwd, p.speed as int, dt),
{
}

/// Holding forward and strafe together moves the full per-key distance
/// along each of the two axes independently: the diagonal speedup is a
/// preserved property, not an accident.
pub proof fn lemma_diagonal_moves_both_axes(
    p: KeyBindingProfile,
    held: Seq<u32>,
    fwd: Vec3Model,
    left: Vec3Model,
    dt: int,
)
    requires
        held.contains(p.forward),
        held.contains(p.strafe_left),
        !held.contains(p.backward),
        !held.contains(p.strafe_right),
        !vertical_active(p, held),
    ensures
        displacement(p, held, fwd, left, dt) == vadd(
            dir_step(fwd, p.speed as int, dt),
            dir_step(left, p.speed as int, dt),
        ),
{
}

/// A step along a level direction has no vertical component.
pub proof fn lemma_level_step_stays_level(v: Vec3Model, speed: int, dt: int)
    requires
        v.y == 0,
    ensures
        dir_step(v, speed, dt).y == 0,
{
}

/// With no vertical key held, a tick's displacement over a level basis
/// leaves the vertical coordinate untouched, whatever the entity's pitch.
pub proof fn lemma_no_vertical_key_keeps_height(
    p: KeyBindingProfile,
    held: Seq<u32>,
    fwd: Vec3Model,
    left: Vec3Model,
    dt: int,
)
    requires
        fwd.y == 0,
        left.y == 0,
        !vertical_active(p, held),
    ensures
        displacement(p, held, fwd, left, dt).y == 0,
{
    lemma_level_step_stays_level(fwd, p.speed as int, dt);
    lemma_level_step_stays_level(left, p.speed as int, dt);
}

/// Whether `code` is in the held-key set.
pub fn key_held(held: &Vec<u32>, code: u32) -> (r: bool)
    ensures
        r == held@.contains(code),
{
    let n = held.len();
    let mut i: usize = 0;
    while i < n
        invariant
            0 <= i <= n,
            n == held@.len(),
            forall|j: int| 0 <= j < i ==> held@[j] != code,
        decreases n - i,
    {
        if held[i] == code {
            return true;
        }
        i = i + 1;
    }
    false
}

/// One direction's contribution to one position component, executably.
fn step_component(d: i64, speed: i64, dt: i64) -> (r: i64)
    requires
        -FX_ONE <= d <= FX_ONE,
        0 < speed <= SPEED_LIMIT,
        0 <= dt <= DT_LIMIT,
    ensures
        r == scaled_step(d as int, speed as int, dt as int),
        -STEP_LIMIT <= r <= STEP_LIMIT,
{
    let mag: u64 = if d >= 0 {
        d as u64
    } else {
        (-d) as u64
    };
    proof {
        assert(0 <= mag as int * speed <= FX_ONE * SPEED_LIMIT && 0 <= (mag as int * speed) * dt
            <= (FX_ONE * SPEED_LIMIT) * DT_LIMIT) by (nonlinear_arith)
            requires
                0 <= mag <= FX_ONE,
                0 < speed <= SPEED_LIMIT,
                0 <= dt <= DT_LIMIT,
        ;
    }
    let prod: u128 = (mag as u128) * (speed as u128) * (dt as u128);
    let scale: u128 = (FX_ONE as u128) * (FX_ONE as u128);
    let q: u128 = prod / scale;
    proof {
        vstd::arithmetic::div_mod::lemma_div_is_ordered(
            prod as int,
            (FX_ONE * SPEED_LIMIT) * DT_LIMIT,
            FX_ONE * FX_ONE,
        );
        vstd::arithmetic::div_mod::lemma_div_pos_is_pos(prod as int, FX_ONE * FX_ONE);
        if d >= 0 {
            assert(d as int * speed * dt == prod) by (nonlinear_arith)
                requires
                    d >= 0,
                    mag == d,
                    prod == mag as int * speed * dt,
            ;
        } else {
            assert(d as int * speed * dt == -(prod as int)) by (nonlinear_arith)
                requires
                    d < 0,
                    mag == -(d as int),
                    prod == mag as int * speed * dt,
            ;
        }
    }
    if d >= 0 {
        q as i64
    } else {
        -(q as i64)
    }
}

/// One direction's contribution to the position over a tick, executably.
fn dir_step_fx(v: &Vec3Fx, speed: i64, dt: i64) -> (r: Vec3Fx)
    requires
        in_bounds(v@, FX_ONE as int),
        0 < speed <= SPEED_LIMIT,
        0 <= dt <= DT_LIMIT,
    ensures
        r@ == dir_step(v@, speed as int, dt as int),
        in_bounds(r@, STEP_LIMIT as int),
{
    Vec3Fx {
        x: step_component(v.x, speed, dt),
        y: step_component(v.y, speed, dt),
        z: step_component(v.z, speed, dt),
    }
}

/// A position and a rotation, the two halves of one entity's transform.
/// Within a tick the orientation integrator owns the rotation and a motion
/// controller owns the position; the controller only reads the rotation.
#[derive(Clone, Copy, PartialEq, Eq, Structural, Debug)]
pub struct Pose {
    pub position: Vec3Fx,
    pub rotation: QuatFx,
}

impl Pose {
    /// The rotation stays at the scale of a unit quaternion.
    pub open spec fn wf(self) -> bool {
        self.rotation.wf()
    }

    /// A level pose at the given fixed-point position.
    pub fn level_at(x: i64, y: i64, z: i64) -> (r: Pose)
        ensures
            r.wf(),
            r.position@ == (Vec3Model { x: x as int, y: y as int, z: z as int }),
            r.rotation@ == (QuatModel { w: FX_ONE as int, x: 0, y: 0, z: 0 }),
    {
        Pose { position: Vec3Fx { x, y, z }, rotation: QuatFx::identity() }
    }

    /// Move the pose by a bounded displacement; the rotation is untouched.
    pub fn translate(&mut self, d: &Vec3Fx)
        requires
            in_bounds(old(self).position@, POSITION_LIMIT as int),
            in_bounds(d@, 6 * STEP_LIMIT),
        ensures
            final(self).position@ == vadd(old(self).position@, d@),
            final(self).rotation == old(self).rotation,
    {
        self.position = self.position.plus(d);
    }
}

/// The orientation integrator's write-back: rebuild the rotation from the
/// current yaw and pitch (handed in as half-angle cosine/sine pairs), yaw
/// outermost, and store it. The position is never written here, and the
/// written rotation carries no roll.
pub fn write_orientation(
    pose: &mut Pose,
    yaw_half: crate::quat::HalfAngle,
    pitch_half: crate::quat::HalfAngle,
)
    requires
        yaw_half.wf(),
        pitch_half.wf(),
    ensures
        final(pose).rotation@ == crate::quat::quat_mul(
            crate::quat::yaw_quat(yaw_half.cos as int, yaw_half.sin as int),
            crate::quat::pitch_quat(pitch_half.cos as int, pitch_half.sin as int),
        ),
        final(pose).wf(),
        crate::quat::roll_measure(final(pose).rotation@) == 0,
        final(pose).position == old(pose).position,
{
    pose.rotation = crate::quat::orientation_quat(yaw_half, pitch_half);
}

/// One per-entity movement controller: a binding profile applied once per
/// tick to the entity's pose.
#[derive(Clone, Copy, PartialEq, Eq, Structural, Debug)]
pub struct PlanarMotionController {
    pub profile: KeyBindingProfile,
}

impl PlanarMotionController {
    /// Package a binding profile.
    pub fn new(profile: KeyBindingProfile) -> (r: PlanarMotionController)
        requires
            profile.wf(),
        ensures
            r.profile == profile,
    {
        PlanarMotionController { profile }
    }

    /// The tick's displacement for this controller: basis directions from
    /// the rotation, one additive share per held key.
    #[verifier::rlimit(60)]
    pub fn tick_displacement(&self, held: &Vec<u32>, rotation: &QuatFx, dt: i64) -> (d: Vec3Fx)
        requires
            self.profile.wf(),
            rotation.wf(),
            0 <= dt <= DT_LIMIT,
        ensures
            d@ == displacement(
                self.profile,
                held@,
                basis_forward(rotation@),
                basis_left(rotation@),
                dt as int,
            ),
            in_bounds(d@, 6 * STEP_LIMIT),
            !vertical_active(self.profile, held@) ==> d@.y == 0,
    {
        let p = &self.profile;
        let fwd_raw = quat_forward(rotation);
        let fwd = horizontal_unit(&fwd_raw, &default_forward());
        let left_raw = quat_left(rotation);
        let left = horizontal_unit(&left_raw, &default_left());
        let up = Vec3Fx { x: 0, y: FX_ONE, z: 0 };
        let zero = Vec3Fx::zero();

        let f_step = dir_step_fx(&fwd, p.speed, dt);
        let l_step = dir_step_fx(&left, p.speed, dt);
        let u_step = dir_step_fx(&up, p.speed, dt);

        let fp = (if key_held(held, p.forward) {
            f_step
        } else {
            zero
        }).plus(
            &(if key_held(held, p.backward) {
                f_step.negated()
            } else {
                zero
            }),
        );
        let sp = (if key_held(held, p.strafe_left) {
            l_step
        } else {
            zero
        }).plus(
            &(if key_held(held, p.strafe_right) {
                l_step.negated()
            } else {
                zero
            }),
        );
        let up_held = match p.ascend {
            Some(k) => key_held(held, k),
            None => false,
        };
        let down_held = match p.descend {
            Some(k) => key_held(held, k),
            None => false,
        };
        let vp = (if up_held {
            u_step
        } else {
            zero
        }).plus(
            &(if down_held {
                u_step.negated()
            } else {
                zero
            }),
        );
        let d = fp.plus(&sp).plus(&vp);
        proof {
            assert(fp@ == forward_part(self.profile, held@, basis_forward(rotation@), dt as int));
            assert(sp@ == strafe_part(self.profile, held@, basis_left(rotation@), dt as int));
            assert(vp@ == vertical_part(self.profile, held@, dt as int));
            if !vertical_active(self.profile, held@) {
                lemma_no_vertical_key_keeps_height(
                    self.profile,
                    held@,
                    basis_forward(rotation@),
                    basis_left(rotation@),
                    dt as int,
                );
            }
        }
        d
    }

    /// The strafe share of this controller's tick displacement alone, taken
    /// from the given rotation's basis. The host applies it to a second
    /// entity that follows the strafe movement (the camera tracking the
    /// primary actor sideways).
    pub fn strafe_displacement(&self, held: &Vec<u32>, rotation: &QuatFx, dt: i64) -> (d: Vec3Fx)
        requires
            self.profile.wf(),
            rotation.wf(),
            0 <= dt <= DT_LIMIT,
        ensures
            d@ == strafe_part(self.profile, held@, basis_left(rotation@), dt as int),
            in_bounds(d@, 2 * STEP_LIMIT),
    {
        let p = &self.profile;
        let left_raw = quat_left(rotation);
        let left = horizontal_unit(&left_raw, &default_left());
        let zero = Vec3Fx::zero();
        let l_step = dir_step_fx(&left, p.speed, dt);
        (if key_held(held, p.strafe_left) {
            l_step
        } else {
            zero
        }).plus(
            &(if key_held(held, p.strafe_right) {
                l_step.negated()
            } else {
                zero
            }),
        )
    }

    /// The per-tick update: read the current rotation, derive the motion
    /// basis, and integrate the position. The rotation is never written.
    pub fn update(&self, held: &Vec<u32>, dt: i64, pose: &mut Pose)
        requires
            self.profile.wf(),
            old(pose).wf(),
            0 <= dt <= DT_LIMIT,
            in_bounds(old(pose).position@, POSITION_LIMIT as int),
        ensures
            final(pose).rotation == old(pose).rotation,
            final(pose).wf(),
            final(pose).position@ == vadd(
                old(pose).position@,
                displacement(
                    self.profile,
                    held@,
                    basis_forward(old(pose).rotation@),
                    basis_left(old(pose).rotation@),
                    dt as int,
                ),
            ),
            !vertical_active(self.profile, held@) ==> final(pose).position@.y == old(
                pose,
            ).position@.y,
    {
        let d = self.tick_displacement(held, &pose.rotation, dt);
        pose.translate(&d);
    }
}

} // verus!
