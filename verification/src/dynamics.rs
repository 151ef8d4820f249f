//! The mathematical model of the engine: what one step does to a system of
//! bodies, stated over the named binary64 operations.

use vstd::prelude::*;
use crate::body::Body;
use crate::scalar::Scalar;
use crate::vec3::{epsilon, Vec3};

verus! {

/// The state of an engine: its bodies in storage order, the gravitational
/// constant and the timestep.
pub struct System {
    pub bodies: Seq<Body>,
    pub g: Scalar,
    pub dt: Scalar,
}

/// The force that `b` exerts on `a`: the direction from `a` to `b`, scaled by
/// `g * a.mass * b.mass / (dist * dist + guard)`, where `dist` is the distance
/// between the two and the guard keeps the divisor away from zero.
pub open spec fn attraction(a: Body, b: Body, g: Scalar) -> Vec3 {
    let dist = a.position.separation(b.position);
    let magnitude = g.product(a.mass).product(b.mass).quotient(
        dist.product(dist).sum(epsilon()),
    );
    a.position.direction(b.position).scaled(magnitude)
}

/// The body after one timestep under `force`: the velocity gains
/// `force / mass * dt`, then the position gains the new velocity times `dt`.
pub open spec fn integrated(body: Body, force: Vec3, dt: Scalar) -> Body {
    let acceleration = force.scaled(Scalar::spec_one().quotient(body.mass));
    let velocity = body.velocity.sum(acceleration.scaled(dt));
    Body { position: body.position.sum(velocity.scaled(dt)), velocity, mass: body.mass }
}

impl System {
    /// At least one body, every mass greater than zero, and both constants
    /// greater than zero.
    pub open spec fn valid(self) -> bool {
        &&& self.bodies.len() >= 1
        &&& self.g.positive()
        &&& self.dt.positive()
        &&& forall|i: int| 0 <= i < self.bodies.len() ==> (#[trigger] self.bodies[i]).well_formed()
    }

    /// The force on body `i` from the bodies before index `upto`, itself left
    /// out, accumulated from zero in index order.
    pub open spec fn partial_force(self, i: int, upto: int) -> Vec3
        decreases upto,
    {
        if upto <= 0 {
            Vec3::origin()
        } else {
            let before = self.partial_force(i, upto - 1);
            if upto - 1 == i {
                before
            } else {
                before.sum(attraction(self.bodies[i], self.bodies[upto - 1], self.g))
            }
        }
    }

    /// The force on body `i` from all the other bodies.
    pub open spec fn net_force(self, i: int) -> Vec3 {
        self.partial_force(i, self.bodies.len() as int)
    }

    /// The system one timestep later. Every force is taken from the positions
    /// before the step; then every body is integrated under its own force.
    pub open spec fn stepped(self) -> System {
        System {
            bodies: Seq::new(
                self.bodies.len(),
                |i: int| integrated(self.bodies[i], self.net_force(i), self.dt),
            ),
            g: self.g,
            dt: self.dt,
        }
    }

    /// The system `steps` timesteps later.
    pub open spec fn evolved(self, steps: nat) -> System
        decreases steps,
    {
        if steps == 0 {
            self
        } else {
            self.evolved((steps - 1) as nat).stepped()
        }
    }
}

/// A step neither adds nor removes a body.
pub proof fn lemma_step_keeps_count(system: System)
    ensures
        system.stepped().bodies.len() == system.bodies.len(),
{
}

/// No number of steps adds or removes a body.
pub proof fn lemma_run_keeps_count(system: System, steps: nat)
    ensures
        system.evolved(steps).bodies.len() == system.bodies.len(),
    decreases steps,
{
    if steps > 0 {
        lemma_run_keeps_count(system, (steps - 1) as nat);
    }
}

/// Runs compose: `first` steps followed by `second` steps are `first + second`
/// steps.
pub proof fn lemma_runs_compose(system: System, first: nat, second: nat)
    ensures
        system.evolved(first).evolved(second) == system.evolved(first + second),
    decreases second,
{
    if second > 0 {
        lemma_runs_compose(system, first, (second - 1) as nat);
        assert((first + second - 1) as nat == first + (second - 1) as nat);
    }
}

/// A step leaves every mass and both constants as they were.
pub proof fn lemma_step_keeps_masses(system: System, i: int)
    requires
        0 <= i < system.bodies.len(),
    ensures
        system.stepped().bodies[i].mass == system.bodies[i].mass,
        system.stepped().g == system.g,
        system.stepped().dt == system.dt,
{
}

/// A valid system is valid after a step.
pub proof fn lemma_step_preserves_validity(system: System)
    requires
        system.valid(),
    ensures
        system.stepped().valid(),
{
    let next = system.stepped();
    assert forall|i: int| 0 <= i < next.bodies.len() implies (#[trigger] next.bodies[i]).well_formed() by {
        assert(system.bodies[i].well_formed());
    }
}

/// A valid system is valid after any number of steps.
pub proof fn lemma_run_preserves_validity(system: System, steps: nat)
    requires
        system.valid(),
    ensures
        system.evolved(steps).valid(),
    decreases steps,
{
    if steps > 0 {
        lemma_run_preserves_validity(system, (steps - 1) as nat);
        lemma_step_preserves_validity(system.evolved((steps - 1) as nat));
    }
}

} // verus!
