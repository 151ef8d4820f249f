//! Point masses.

use vstd::prelude::*;
use crate::error::SimError;
use crate::scalar::Scalar;
use crate::vec3::Vec3;

verus! {

/// A point mass. Bodies are created at rest; only the engine's step changes
/// them, and it changes velocity and position, never the mass.
#[derive(Clone, Copy, Debug)]
pub struct Body {
    pub position: Vec3,
    pub velocity: Vec3,
    pub mass: Scalar,
}

impl Body {
    /// The mass is greater than zero.
    pub open spec fn well_formed(self) -> bool {
        self.mass.positive()
    }

    /// The body of mass `mass` that rests at `position`.
    pub open spec fn at_rest(position: Vec3, mass: Scalar) -> Body {
        Body { position, velocity: Vec3::origin(), mass }
    }

    /// A body at rest at `position`. A mass that is zero, negative or NaN is
    /// refused.
    pub fn new(position: Vec3, mass: Scalar) -> (r: Result<Body, SimError>)
        ensures
            mass.positive() ==> r == Ok::<Body, SimError>(Body::at_rest(position, mass)),
            !mass.positive() ==> r == Err::<Body, SimError>(SimError::NonPositiveMass),
    {
        if mass.is_positive() {
            Ok(Body { position, velocity: Vec3::zero(), mass })
        } else {
            Err(SimError::NonPositiveMass)
        }
    }
}

} // verus!
