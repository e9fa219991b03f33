//! Three-component vectors over the fixed-point scalar.
//!
//! Positions, velocities and accelerations are all values of [`Vec3`].  As
//! with the scalars, every executable operation has a spec-level mirror
//! (`vadd`, `vscale`, `vdot`, ...) that gives the result exactly, component
//! by component.

use crate::fixed::{fadd, fdiv, fmul, fneg, fsqrt, fsub, Fx};
use vstd::prelude::*;

verus! {

/// A vector of three Q32.32 fixed-point components.
#[derive(Clone, Copy, Debug, PartialEq, Eq, Structural)]
pub struct Vec3 {
    pub x: Fx,
    pub y: Fx,
    pub z: Fx,
}

/// The zero vector.
pub open spec fn vzero() -> Vec3 {
    Vec3 { x: Fx { bits: 0 }, y: Fx { bits: 0 }, z: Fx { bits: 0 } }
}

/// Mirror of component-wise vector addition.
pub open spec fn vadd(a: Vec3, b: Vec3) -> Vec3 {
    Vec3 { x: fadd(a.x, b.x), y: fadd(a.y, b.y), z: fadd(a.z, b.z) }
}

/// Mirror of component-wise vector subtraction.
pub open spec fn vsub(a: Vec3, b: Vec3) -> Vec3 {
    Vec3 { x: fsub(a.x, b.x), y: fsub(a.y, b.y), z: fsub(a.z, b.z) }
}

/// Mirror of component-wise vector negation.
pub open spec fn vneg(a: Vec3) -> Vec3 {
    Vec3 { x: fneg(a.x), y: fneg(a.y), z: fneg(a.z) }
}

/// Mirror of scaling a vector by a scalar.
pub open spec fn vscale(a: Vec3, s: Fx) -> Vec3 {
    Vec3 { x: fmul(a.x, s), y: fmul(a.y, s), z: fmul(a.z, s) }
}

/// Mirror of dividing a vector by a scalar, component by component.
pub open spec fn vdivs(a: Vec3, s: Fx) -> Vec3 {
    Vec3 { x: fdiv(a.x, s), y: fdiv(a.y, s), z: fdiv(a.z, s) }
}

/// Mirror of the dot product, summed left to right.
pub open spec fn vdot(a: Vec3, b: Vec3) -> Fx {
    fadd(fadd(fmul(a.x, b.x), fmul(a.y, b.y)), fmul(a.z, b.z))
}

/// Mirror of the cross product.
pub open spec fn vcross(a: Vec3, b: Vec3) -> Vec3 {
    Vec3 {
        x: fsub(fmul(a.y, b.z), fmul(a.z, b.y)),
        y: fsub(fmul(a.z, b.x), fmul(a.x, b.z)),
        z: fsub(fmul(a.x, b.y), fmul(a.y, b.x)),
    }
}

/// Mirror of the Euclidean norm: the square root of the dot product of a
/// vector with itself.
pub open spec fn vnorm(a: Vec3) -> Fx {
    fsqrt(vdot(a, a))
}

impl Vec3 {
    /// The zero vector.
    pub fn zero() -> (r: Vec3)
        ensures
            r == vzero(),
    {
        Vec3 { x: Fx::zero(), y: Fx::zero(), z: Fx::zero() }
    }

    /// Builds a vector from its three components.
    pub fn new(x: Fx, y: Fx, z: Fx) -> (r: Vec3)
        ensures
            r == (Vec3 { x, y, z }),
    {
        Vec3 { x, y, z }
    }

    /// Component-wise addition.
    pub fn add(self, other: Vec3) -> (r: Vec3)
        ensures
            r == vadd(self, other),
    {
        Vec3 { x: self.x.add(other.x), y: self.y.add(other.y), z: self.z.add(other.z) }
    }

    /// Component-wise subtraction.
    pub fn sub(self, other: Vec3) -> (r: Vec3)
        ensures
            r == vsub(self, other),
    {
        Vec3 { x: self.x.sub(other.x), y: self.y.sub(other.y), z: self.z.sub(other.z) }
    }

    /// Component-wise negation.
    pub fn neg(self) -> (r: Vec3)
        ensures
            r == vneg(self),
    {
        Vec3 { x: self.x.neg(), y: self.y.neg(), z: self.z.neg() }
    }

    /// Scales every component by `s`.
    pub fn scale(self, s: Fx) -> (r: Vec3)
        ensures
            r == vscale(self, s),
    {
        Vec3 { x: self.x.mul(s), y: self.y.mul(s), z: self.z.mul(s) }
    }

    /// Divides every component by `s`; a zero divisor yields the zero vector.
    pub fn div_scalar(self, s: Fx) -> (r: Vec3)
        ensures
            r == vdivs(self, s),
    {
        Vec3 { x: self.x.div(s), y: self.y.div(s), z: self.z.div(s) }
    }

    /// The dot product with `other`.
    pub fn dot(self, other: Vec3) -> (r: Fx)
        ensures
            r == vdot(self, other),
    {
        self.x.mul(other.x).add(self.y.mul(other.y)).add(self.z.mul(other.z))
    }

    /// The cross product with `other`.
    pub fn cross(self, other: Vec3) -> (r: Vec3)
        ensures
            r == vcross(self, other),
    {
        Vec3 {
            x: self.y.mul(other.z).sub(self.z.mul(other.y)),
            y: self.z.mul(other.x).sub(self.x.mul(other.z)),
            z: self.x.mul(other.y).sub(self.y.mul(other.x)),
        }
    }

    /// The Euclidean norm.
    pub fn norm(self) -> (r: Fx)
        ensures
            r == vnorm(self),
    {
        self.dot(self).sqrt()
    }
}

} // verus!
