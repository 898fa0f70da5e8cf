//! Fixed-point three-component vectors and their mathematical model.

use vstd::prelude::*;

verus! {

use crate::fixed::FX_ONE;

/// The mathematical value of a [`Vec3Fx`]: three unbounded integers at the
/// `FX_ONE` scale.
pub struct Vec3Model {
    pub x: int,
    pub y: int,
    pub z: int,
}

/// A world-space vector with fixed-point components (`FX_ONE` per world
/// unit).
#[derive(Clone, Copy, PartialEq, Eq, Structural, Debug)]
pub struct Vec3Fx {
    pub x: i64,
    pub y: i64,
    pub z: i64,
}

impl View for Vec3Fx {
    type V = Vec3Model;

    open spec fn view(&self) -> Vec3Model {
        Vec3Model { x: self.x as int, y: self.y as int, z: self.z as int }
    }
}

/// Componentwise sum.
pub open spec fn vadd(a: Vec3Model, b: Vec3Model) -> Vec3Model {
    Vec3Model { x: a.x + b.x, y: a.y + b.y, z: a.z + b.z }
}

/// Componentwise negation.
pub open spec fn vneg(a: Vec3Model) -> Vec3Model {
    Vec3Model { x: -a.x, y: -a.y, z: -a.z }
}

/// The zero vector.
pub open spec fn vzero() -> Vec3Model {
    Vec3Model { x: 0, y: 0, z: 0 }
}

/// Every component lies within `[-bound, bound]`.
pub open spec fn in_bounds(v: Vec3Model, bound: int) -> bool {
    &&& -bound <= v.x <= bound
    &&& -bound <= v.y <= bound
    &&& -bound <= v.z <= bound
}

impl Vec3Fx {
    /// The zero vector.
    pub fn zero() -> (r: Vec3Fx)
        ensures
            r@ == vzero(),
    {
        Vec3Fx { x: 0, y: 0, z: 0 }
    }

    /// Componentwise sum.
    pub fn plus(&self, other: &Vec3Fx) -> (r: Vec3Fx)
        requires
            i64::MIN <= self.x + other.x <= i64::MAX,
            i64::MIN <= self.y + other.y <= i64::MAX,
            i64::MIN <= self.z + other.z <= i64::MAX,
        ensures
            r@ == vadd(self@, other@),
    {
        Vec3Fx { x: self.x + other.x, y: self.y + other.y, z: self.z + other.z }
    }

    /// Componentwise negation.
    pub fn negated(&self) -> (r: Vec3Fx)
        requires
            self.x > i64::MIN,
            self.y > i64::MIN,
            self.z > i64::MIN,
        ensures
            r@ == vneg(self@),
    {
        Vec3Fx { x: -self.x, y: -self.y, z: -self.z }
    }
}

/// The fixed default heading used when a direction degenerates: one world
/// unit along negative z, the conventional "forward" of the host scene.
pub fn default_forward() -> (r: Vec3Fx)
    ensures
        r@ == (Vec3Model { x: 0, y: 0, z: -(FX_ONE as int) }),
{
    Vec3Fx { x: 0, y: 0, z: -FX_ONE }
}

/// The fixed default sideways direction: one world unit along negative x,
/// the conventional "left" of the host scene.
pub fn default_left() -> (r: Vec3Fx)
    ensures
        r@ == (Vec3Model { x: -(FX_ONE as int), y: 0, z: 0 }),
{
    Vec3Fx { x: -FX_ONE, y: 0, z: 0 }
}

} // verus!
