//! Reasons for which a simulation cannot be built.

use vstd::prelude::*;

verus! {

/// Why construction was refused. Construction is the only operation that can
/// fail: stepping and extraction are total.
#[derive(Clone, Copy, Debug, PartialEq, Eq, Structural)]
pub enum SimError {
    /// The body count is zero.
    NoBodies,
    /// The gravitational constant is not greater than zero.
    NonPositiveGravity,
    /// The timestep is not greater than zero.
    NonPositiveTimestep,
    /// Some body's mass is not greater than zero.
    NonPositiveMass,
}

} // verus!
