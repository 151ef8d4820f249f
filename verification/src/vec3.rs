//! Three-component vectors of binary64 numbers.

use vstd::prelude::*;
use crate::scalar::Scalar;

verus! {

/// Encoding of 1e-10, the guard added to a distance before dividing by it.
pub const EPSILON_BITS: u64 = 0x3DDB_7CDF_D9D7_BDBB;

/// A point or a displacement in space. Values are immutable: every operation
/// returns a new vector.
#[derive(Clone, Copy, Debug)]
pub struct Vec3 {
    pub x: Scalar,
    pub y: Scalar,
    pub z: Scalar,
}

/// The guard 1e-10 as a number.
pub open spec fn epsilon() -> Scalar {
    Scalar { bits: EPSILON_BITS }
}

impl Vec3 {
    /// The vector whose three components are positive zero.
    pub open spec fn origin() -> Vec3 {
        Vec3 { x: Scalar::spec_zero(), y: Scalar::spec_zero(), z: Scalar::spec_zero() }
    }

    /// Component-wise sum.
    pub open spec fn sum(self, rhs: Vec3) -> Vec3 {
        Vec3 { x: self.x.sum(rhs.x), y: self.y.sum(rhs.y), z: self.z.sum(rhs.z) }
    }

    /// Every component multiplied by `k`.
    pub open spec fn scaled(self, k: Scalar) -> Vec3 {
        Vec3 { x: self.x.product(k), y: self.y.product(k), z: self.z.product(k) }
    }

    /// The displacement that leads from `self` to `target`.
    pub open spec fn offset_to(self, target: Vec3) -> Vec3 {
        Vec3 {
            x: target.x.difference(self.x),
            y: target.y.difference(self.y),
            z: target.z.difference(self.z),
        }
    }

    /// Euclidean length: the root of `x*x + y*y + z*z`, summed left to right.
    pub open spec fn length(self) -> Scalar {
        self.x.product(self.x).sum(self.y.product(self.y)).sum(self.z.product(self.z)).root()
    }

    /// Euclidean distance between `self` and `other`: the length of the
    /// displacement from `other` to `self`.
    pub open spec fn separation(self, other: Vec3) -> Scalar {
        other.offset_to(self).length()
    }

    /// The displacement from `self` to `target`, every component divided by
    /// the displacement's length plus the guard. For distinct points this is
    /// the unit vector towards `target` up to the guard; for coincident points
    /// the division is by the guard alone, never by zero.
    pub open spec fn direction(self, target: Vec3) -> Vec3 {
        let d = self.offset_to(target);
        let dist = d.length().sum(epsilon());
        Vec3 { x: d.x.quotient(dist), y: d.y.quotient(dist), z: d.z.quotient(dist) }
    }

    /// The vector whose three components are positive zero.
    pub fn zero() -> (r: Vec3)
        ensures
            r == Vec3::origin(),
    {
        Vec3 { x: Scalar::zero(), y: Scalar::zero(), z: Scalar::zero() }
    }

    /// Every component multiplied by `scalar`.
    pub fn scale(self, scalar: Scalar) -> (r: Vec3)
        ensures
            r == self.scaled(scalar),
    {
        Vec3 { x: self.x * scalar, y: self.y * scalar, z: self.z * scalar }
    }

    /// Euclidean distance between `self` and `other`.
    pub fn distance(self, other: Vec3) -> (r: Scalar)
        ensures
            r == self.separation(other),
    {
        let dx = self.x - other.x;
        let dy = self.y - other.y;
        let dz = self.z - other.z;
        (dx * dx + dy * dy + dz * dz).sqrt()
    }

    /// The direction from `self` to `target`, with the guard in the divisor:
    /// defined for coincident points too.
    pub fn direction_to(self, target: Vec3) -> (r: Vec3)
        ensures
            r == self.direction(target),
    {
        let dx = target.x - self.x;
        let dy = target.y - self.y;
        let dz = target.z - self.z;
        let dist = (dx * dx + dy * dy + dz * dz).sqrt() + Scalar::from_bits(EPSILON_BITS);
        Vec3 { x: dx / dist, y: dy / dist, z: dz / dist }
    }
}

impl core::ops::Add for Vec3 {
    type Output = Vec3;

    /// Component-wise sum, written `a + b`.
    fn add(self, rhs: Vec3) -> (r: Vec3)
        ensures
            r == self.sum(rhs),
    {
        Vec3 { x: self.x + rhs.x, y: self.y + rhs.y, z: self.z + rhs.z }
    }
}

impl vstd::std_specs::ops::AddSpecImpl for Vec3 {
    open spec fn obeys_add_spec() -> bool {
        true
    }

    open spec fn add_req(self, rhs: Vec3) -> bool {
        true
    }

    open spec fn add_spec(self, rhs: Vec3) -> Vec3 {
        self.sum(rhs)
    }
}

} // verus!
