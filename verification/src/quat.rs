//! Fixed-point quaternions, the yaw-then-pitch orientation composition, and
//! the proof that this composition never introduces roll.
//!
//! A rotation quaternion is held at the `FX_ONE` scale: a unit quaternion
//! times `FX_ONE`. The host computes cosine/sine pairs of the half angles at
//! the `TRIG_ONE` scale; since `TRIG_ONE * TRIG_ONE == FX_ONE`, the product
//! quaternion of two such pairs is exactly at the `FX_ONE` scale and
//! [`orientation_quat`] needs no rounding at all.

use vstd::prelude::*;

verus! {

use crate::fixed::{FX_ONE, TRIG_ONE, lemma_sdiv_bound, sdiv};
use crate::vec3::{Vec3Fx, Vec3Model, in_bounds};
use vstd::arithmetic::mul::{
    lemma_mul_is_commutative,
    lemma_mul_is_distributive_add,
    lemma_mul_is_distributive_add_other_way,
    lemma_mul_is_distributive_sub,
    lemma_mul_is_distributive_sub_other_way,
};

/// The mathematical value of a [`QuatFx`]: four unbounded integers at the
/// `FX_ONE` scale.
pub struct QuatModel {
    pub w: int,
    pub x: int,
    pub y: int,
    pub z: int,
}

/// A rotation quaternion with fixed-point components.
#[derive(Clone, Copy, PartialEq, Eq, Structural, Debug)]
pub struct QuatFx {
    pub w: i64,
    pub x: i64,
    pub y: i64,
    pub z: i64,
}

impl View for QuatFx {
    type V = QuatModel;

    open spec fn view(&self) -> QuatModel {
        QuatModel { w: self.w as int, x: self.x as int, y: self.y as int, z: self.z as int }
    }
}

impl QuatFx {
    /// Components stay within the scale of a unit quaternion.
    pub open spec fn wf(self) -> bool {
        &&& -FX_ONE <= self.w <= FX_ONE
        &&& -FX_ONE <= self.x <= FX_ONE
        &&& -FX_ONE <= self.y <= FX_ONE
        &&& -FX_ONE <= self.z <= FX_ONE
    }

    /// The identity rotation.
    pub fn identity() -> (q: QuatFx)
        ensures
            q.wf(),
            q@ == (QuatModel { w: FX_ONE as int, x: 0, y: 0, z: 0 }),
    {
        QuatFx { w: FX_ONE, x: 0, y: 0, z: 0 }
    }
}

/// The Hamilton product.
pub open spec fn quat_mul(a: QuatModel, b: QuatModel) -> QuatModel {
    QuatModel {
        w: a.w * b.w - a.x * b.x - a.y * b.y - a.z * b.z,
        x: a.w * b.x + a.x * b.w + a.y * b.z - a.z * b.y,
        y: a.w * b.y - a.x * b.z + a.y * b.w + a.z * b.x,
        z: a.w * b.z + a.x * b.y - a.y * b.x + a.z * b.w,
    }
}

/// A rotation about the world up axis, given the cosine and sine of half the
/// yaw angle.
pub open spec fn yaw_quat(c: int, s: int) -> QuatModel {
    QuatModel { w: c, x: 0, y: s, z: 0 }
}

/// A rotation about the local right axis, given the cosine and sine of half
/// the pitch angle.
pub open spec fn pitch_quat(c: int, s: int) -> QuatModel {
    QuatModel { w: c, x: s, y: 0, z: 0 }
}

/// A rotation about the local forward axis, given the cosine and sine of
/// half the roll angle.
pub open spec fn roll_quat(c: int, s: int) -> QuatModel {
    QuatModel { w: c, x: 0, y: 0, z: s }
}

/// The roll component of a yaw-pitch-roll decomposition vanishes exactly
/// when this quantity vanishes (see [`lemma_roll_is_detected`] for the
/// converse direction).
pub open spec fn roll_measure(q: QuatModel) -> int {
    q.w * q.z + q.x * q.y
}

/// Composing yaw about the world up axis with pitch about the local right
/// axis, yaw outermost, yields an orientation with no roll, whatever the
/// two angles are.
pub proof fn lemma_yaw_then_pitch_has_no_roll(cy: int, sy: int, cp: int, sp: int)
    ensures
        roll_measure(quat_mul(yaw_quat(cy, sy), pitch_quat(cp, sp))) == 0,
{
    let q = quat_mul(yaw_quat(cy, sy), pitch_quat(cp, sp));
    assert(q.w * q.z + q.x * q.y == 0) by (nonlinear_arith)
        requires
            q.w == cy * cp,
            q.x == cy * sp,
            q.y == sy * cp,
            q.z == -(sy * sp),
    ;
}

/// Composing in the opposite order, pitch outermost, rolls by a quantity
/// proportional to the product of the sines of both angles: the composition
/// order of [`orientation_quat`] is load-bearing.
pub proof fn lemma_pitch_then_yaw_can_roll(cy: int, sy: int, cp: int, sp: int)
    ensures
        roll_measure(quat_mul(pitch_quat(cp, sp), yaw_quat(cy, sy))) == 2 * (cp * sp) * (cy * sy),
{
    let q = quat_mul(pitch_quat(cp, sp), yaw_quat(cy, sy));
    assert(q.w * q.z + q.x * q.y == 2 * (cp * sp) * (cy * sy)) by (nonlinear_arith)
        requires
            q.w == cp * cy,
            q.x == sp * cy,
            q.y == cp * sy,
            q.z == sp * sy,
    ;
}

/// Appending an explicit roll to any orientation changes the roll measure by
/// a multiple of `c * s`: a roll-free measure plus the converse direction.
/// For a yaw-pitch orientation whose pitch stays strictly between the
/// vertical limits, the balance term is positive, so any appended roll with
/// `c * s != 0` makes the measure non-zero.
pub proof fn lemma_roll_is_detected(q: QuatModel, c: int, s: int)
    ensures
        roll_measure(quat_mul(q, roll_quat(c, s))) == (c * c - s * s) * roll_measure(q) + (c * s)
            * (q.w * q.w + q.y * q.y - q.x * q.x - q.z * q.z),
{
    let p = quat_mul(q, roll_quat(c, s));
    assert(p.w == q.w * c - q.z * s && p.x == q.x * c + q.y * s && p.y == q.y * c - q.x * s && p.z
        == q.w * s + q.z * c);
    lemma_roll_measure_expansion(q.w, q.x, q.y, q.z, c, s);
}

/// Exchange the inner factors of a product of two products.
proof fn lemma_monomial_swap(p: int, q: int, r: int, t: int)
    ensures
        (p * q) * (r * t) == (p * r) * (q * t),
{
    assert((p * q) * (r * t) == (p * r) * (q * t)) by (nonlinear_arith);
}

/// The ring identity behind [`lemma_roll_is_detected`], over plain scalars,
/// expanded one distributive step at a time.
proof fn lemma_roll_measure_expansion(a: int, b: int, e: int, d: int, c: int, s: int)
    ensures
        (a * c - d * s) * (a * s + d * c) + (b * c + e * s) * (e * c - b * s) == (c * c - s * s) * (
        a * d + b * e) + (c * s) * (a * a + e * e - b * b - d * d),
{
    // (a c - d s)(a s + d c) == a a c s + a d c c - a d s s - d d c s
    lemma_mul_is_distributive_sub_other_way(a * s + d * c, a * c, d * s);
    lemma_mul_is_distributive_add(a * c, a * s, d * c);
    lemma_mul_is_distributive_add(d * s, a * s, d * c);
    lemma_monomial_swap(a, c, a, s);
    lemma_monomial_swap(a, c, d, c);
    lemma_monomial_swap(d, s, a, s);
    lemma_monomial_swap(d, s, d, c);
    lemma_mul_is_commutative(d, a);
    lemma_mul_is_commutative(s, c);
    // (b c + e s)(e c - b s) == b e c c - b b c s + e e c s - b e s s
    lemma_mul_is_distributive_add_other_way(e * c - b * s, b * c, e * s);
    lemma_mul_is_distributive_sub(b * c, e * c, b * s);
    lemma_mul_is_distributive_sub(e * s, e * c, b * s);
    lemma_monomial_swap(b, c, e, c);
    lemma_monomial_swap(b, c, b, s);
    lemma_monomial_swap(e, s, e, c);
    lemma_monomial_swap(e, s, b, s);
    lemma_mul_is_commutative(e, b);
    // (c c - s s)(a d + b e) distributed into the same monomials
    lemma_mul_is_distributive_sub_other_way(a * d + b * e, c * c, s * s);
    lemma_mul_is_distributive_add(c * c, a * d, b * e);
    lemma_mul_is_distributive_add(s * s, a * d, b * e);
    lemma_mul_is_commutative(c * c, a * d);
    lemma_mul_is_commutative(c * c, b * e);
    lemma_mul_is_commutative(s * s, a * d);
    lemma_mul_is_commutative(s * s, b * e);
    // (c s)(a a + e e - b b - d d) distributed into the same monomials
    lemma_mul_is_distributive_sub(c * s, a * a + e * e - b * b, d * d);
    lemma_mul_is_distributive_sub(c * s, a * a + e * e, b * b);
    lemma_mul_is_distributive_add(c * s, a * a, e * e);
    lemma_mul_is_commutative(c * s, a * a);
    lemma_mul_is_commutative(c * s, e * e);
    lemma_mul_is_commutative(c * s, b * b);
    lemma_mul_is_commutative(c * s, d * d);
}

/// A cosine/sine pair for half of an angle, at the `TRIG_ONE` scale.
#[derive(Clone, Copy, PartialEq, Eq, Structural, Debug)]
pub struct HalfAngle {
    pub cos: i64,
    pub sin: i64,
}

impl HalfAngle {
    /// Both entries stay within the scale of a unit circle point.
    pub open spec fn wf(self) -> bool {
        &&& -TRIG_ONE <= self.cos <= TRIG_ONE
        &&& -TRIG_ONE <= self.sin <= TRIG_ONE
    }

    /// The pair for a zero angle.
    pub fn zero() -> (r: HalfAngle)
        ensures
            r.wf(),
            r.cos == TRIG_ONE,
            r.sin == 0,
    {
        HalfAngle { cos: TRIG_ONE, sin: 0 }
    }
}

/// The orientation written every tick: yaw about the world up axis composed
/// with pitch about the local right axis, yaw outermost. The result is the
/// exact Hamilton product of the two half-angle rotations, and it carries no
/// roll.
pub fn orientation_quat(yaw: HalfAngle, pitch: HalfAngle) -> (q: QuatFx)
    requires
        yaw.wf(),
        pitch.wf(),
    ensures
        q@ == quat_mul(
            yaw_quat(yaw.cos as int, yaw.sin as int),
            pitch_quat(pitch.cos as int, pitch.sin as int),
        ),
        q.wf(),
        roll_measure(q@) == 0,
{
    proof {
        assert(forall|a: int, b: int|
            -TRIG_ONE <= a <= TRIG_ONE && -TRIG_ONE <= b <= TRIG_ONE ==> -FX_ONE <= #[trigger] (a
                * b) <= FX_ONE) by (nonlinear_arith);
    }
    let q = QuatFx {
        w: yaw.cos * pitch.cos,
        x: yaw.cos * pitch.sin,
        y: yaw.sin * pitch.cos,
        z: -(yaw.sin * pitch.sin),
    };
    proof {
        lemma_yaw_then_pitch_has_no_roll(
            yaw.cos as int,
            yaw.sin as int,
            pitch.cos as int,
            pitch.sin as int,
        );
    }
    q
}

/// The forward direction of a rotation: the image of one world unit along
/// negative z, at the `FX_ONE` scale with truncating rounding.
pub open spec fn forward_model(q: QuatModel) -> Vec3Model {
    Vec3Model {
        x: sdiv(-2 * (q.x * q.z + q.w * q.y), FX_ONE as int),
        y: sdiv(2 * (q.w * q.x - q.y * q.z), FX_ONE as int),
        z: sdiv(2 * (q.x * q.x + q.y * q.y) - FX_ONE * FX_ONE, FX_ONE as int),
    }
}

/// The left direction of a rotation: the image of one world unit along
/// negative x, at the `FX_ONE` scale with truncating rounding.
pub open spec fn left_model(q: QuatModel) -> Vec3Model {
    Vec3Model {
        x: sdiv(2 * (q.y * q.y + q.z * q.z) - FX_ONE * FX_ONE, FX_ONE as int),
        y: sdiv(-2 * (q.x * q.y + q.w * q.z), FX_ONE as int),
        z: sdiv(2 * (q.w * q.y - q.x * q.z), FX_ONE as int),
    }
}

/// Bounds on all pairwise component products of a well-formed quaternion.
proof fn lemma_quat_products_bounded(q: QuatFx)
    requires
        q.wf(),
    ensures
        forall|a: int, b: int|
            -FX_ONE <= a <= FX_ONE && -FX_ONE <= b <= FX_ONE ==> -(FX_ONE * FX_ONE)
                <= #[trigger] (a * b) <= FX_ONE * FX_ONE,
        forall|a: int| -FX_ONE <= a <= FX_ONE ==> 0 <= #[trigger] (a * a),
{
    assert(forall|a: int, b: int|
        -FX_ONE <= a <= FX_ONE && -FX_ONE <= b <= FX_ONE ==> -(FX_ONE * FX_ONE) <= #[trigger] (a
            * b) <= FX_ONE * FX_ONE) by (nonlinear_arith);
    assert(forall|a: int| -FX_ONE <= a <= FX_ONE ==> 0 <= #[trigger] (a * a)) by (nonlinear_arith);
}

/// The forward direction of `q`, exactly as [`forward_model`] states it.
pub fn quat_forward(q: &QuatFx) -> (v: Vec3Fx)
    requires
        q.wf(),
    ensures
        v@ == forward_model(q@),
        in_bounds(v@, 4 * FX_ONE),
{
    proof {
        lemma_quat_products_bounded(*q);
    }
    let nx: i64 = -2 * (q.x * q.z + q.w * q.y);
    let ny: i64 = 2 * (q.w * q.x - q.y * q.z);
    let nz: i64 = 2 * (q.x * q.x + q.y * q.y) - FX_ONE * FX_ONE;
    proof {
        lemma_sdiv_bound(nx as int, FX_ONE as int, 4 * FX_ONE);
        lemma_sdiv_bound(ny as int, FX_ONE as int, 4 * FX_ONE);
        lemma_sdiv_bound(nz as int, FX_ONE as int, 4 * FX_ONE);
    }
    Vec3Fx {
        x: crate::fixed::fx_scale_down(nx as i128),
        y: crate::fixed::fx_scale_down(ny as i128),
        z: crate::fixed::fx_scale_down(nz as i128),
    }
}

/// The left direction of `q`, exactly as [`left_model`] states it.
pub fn quat_left(q: &QuatFx) -> (v: Vec3Fx)
    requires
        q.wf(),
    ensures
        v@ == left_model(q@),
        in_bounds(v@, 4 * FX_ONE),
{
    proof {
        lemma_quat_products_bounded(*q);
    }
    let nx: i64 = 2 * (q.y * q.y + q.z * q.z) - FX_ONE * FX_ONE;
    let ny: i64 = -2 * (q.x * q.y + q.w * q.z);
    let nz: i64 = 2 * (q.w * q.y - q.x * q.z);
    proof {
        lemma_sdiv_bound(nx as int, FX_ONE as int, 4 * FX_ONE);
        lemma_sdiv_bound(ny as int, FX_ONE as int, 4 * FX_ONE);
        lemma_sdiv_bound(nz as int, FX_ONE as int, 4 * FX_ONE);
    }
    Vec3Fx {
        x: crate::fixed::fx_scale_down(nx as i128),
        y: crate::fixed::fx_scale_down(ny as i128),
        z: crate::fixed::fx_scale_down(nz as i128),
    }
}

} // verus!
