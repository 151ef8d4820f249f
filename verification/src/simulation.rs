//! The simulation engine: an ordered collection of bodies, advanced by exact
//! pairwise summation and semi-implicit Euler integration.

use vstd::prelude::*;
use crate::body::Body;
use crate::dynamics::{
    integrated, lemma_run_keeps_count, lemma_run_preserves_validity, lemma_step_preserves_validity,
    System,
};
use crate::error::SimError;
use crate::extract::{snapshot, write_positions, Layout};
use crate::scalar::Scalar;
use crate::vec3::{Vec3, EPSILON_BITS};

verus! {

/// Encoding of 6.674e-11, the gravitational constant of a default engine.
pub const GRAVITY_BITS: u64 = 0x3DD2_5868_F4DE_AE16;

/// Encoding of 0.016, the timestep of a default engine.
pub const TIMESTEP_BITS: u64 = 0x3F90_624D_D2F1_A9FC;

/// Encoding of 0.01: the spacing of the default placement along x, and the
/// mass gained per index.
pub const X_SPACING_BITS: u64 = 0x3F84_7AE1_47AE_147B;

/// Encoding of 0.02: the spacing of the default placement along y.
pub const Y_SPACING_BITS: u64 = 0x3F94_7AE1_47AE_147B;

/// Encoding of 0.03: the spacing of the default placement along z.
pub const Z_SPACING_BITS: u64 = 0x3F9E_B851_EB85_1EB8;

/// Steps taken by [`simulate_n_body`].
pub const BATCH_STEPS: usize = 100;

/// Body `i` of the default placement: at rest at `(i * 0.01, i * 0.02, i * 0.03)`
/// with mass `1 + i * 0.01`.
pub open spec fn placed(i: usize) -> Body {
    let t = Scalar::of_index(i);
    Body {
        position: Vec3 {
            x: t.product(Scalar { bits: X_SPACING_BITS }),
            y: t.product(Scalar { bits: Y_SPACING_BITS }),
            z: t.product(Scalar { bits: Z_SPACING_BITS }),
        },
        velocity: Vec3::origin(),
        mass: Scalar::spec_one().sum(t.product(Scalar { bits: X_SPACING_BITS })),
    }
}

/// What building an engine from the given parts yields: the system made of
/// them, or the first of the reasons, in the order written here, for which
/// they are refused.
pub open spec fn assembled(bodies: Seq<Body>, g: Scalar, dt: Scalar) -> Result<System, SimError> {
    if bodies.len() == 0 {
        Err(SimError::NoBodies)
    } else if !g.positive() {
        Err(SimError::NonPositiveGravity)
    } else if !dt.positive() {
        Err(SimError::NonPositiveTimestep)
    } else if exists|i: int| 0 <= i < bodies.len() && !(#[trigger] bodies[i]).well_formed() {
        Err(SimError::NonPositiveMass)
    } else {
        Ok(System { bodies, g, dt })
    }
}

/// The bodies of a default engine of `n` bodies, in storage order.
pub open spec fn placement(n: nat) -> Seq<Body> {
    Seq::new(n, |i: int| placed(i as usize))
}

/// What building a default engine of `n` bodies yields: `n` bodies on the
/// default placement with the default constants, unless `n` is zero or the
/// placement rule gives some body a mass that is not greater than zero.
pub open spec fn initial(n: nat) -> Result<System, SimError> {
    assembled(placement(n), Scalar { bits: GRAVITY_BITS }, Scalar { bits: TIMESTEP_BITS })
}

/// Whatever is assembled is valid.
pub proof fn lemma_assembled_is_valid(bodies: Seq<Body>, g: Scalar, dt: Scalar)
    ensures
        assembled(bodies, g, dt) matches Ok(system) ==> system.valid() && system.bodies == bodies,
{
}

/// A default engine, where one can be built, is valid and has `n` bodies.
pub proof fn lemma_initial_is_valid(n: nat)
    ensures
        initial(n) matches Ok(system) ==> system.valid() && system.bodies.len() == n,
        initial(n) matches Err(e) ==> e == SimError::NoBodies || e == SimError::NonPositiveMass,
        n == 0 <==> initial(n) == Err::<System, SimError>(SimError::NoBodies),
{
}

/// What [`simulate_n_body`] yields: the default system of `n` bodies after
/// [`BATCH_STEPS`] steps, or the reason for which it cannot be built.
pub open spec fn batch(n: nat) -> Result<System, SimError> {
    match initial(n) {
        Ok(system) => Ok(system.evolved(BATCH_STEPS as nat)),
        Err(e) => Err(e),
    }
}

/// The engine. The number of bodies and their order are fixed when the engine
/// is built.
pub struct NBodySimulation {
    bodies: Vec<Body>,
    g: Scalar,
    dt: Scalar,
}

impl View for NBodySimulation {
    type V = System;

    closed spec fn view(&self) -> System {
        System { bodies: self.bodies@, g: self.g, dt: self.dt }
    }
}

impl NBodySimulation {
    /// Builds an engine from bodies and constants chosen by the caller. The
    /// bodies keep their order. Refused are an empty collection, a constant
    /// that is not greater than zero, and a mass that is not greater than
    /// zero.
    pub fn from_bodies(bodies: Vec<Body>, g: Scalar, dt: Scalar) -> (r: Result<
        NBodySimulation,
        SimError,
    >)
        ensures
            match r {
                Ok(sim) => assembled(bodies@, g, dt) == Ok::<System, SimError>(sim@),
                Err(e) => assembled(bodies@, g, dt) == Err::<System, SimError>(e),
            },
            r matches Ok(sim) ==> sim@.valid(),
    {
        let n = bodies.len();
        if n == 0 {
            return Err(SimError::NoBodies);
        }
        if !g.is_positive() {
            return Err(SimError::NonPositiveGravity);
        }
        if !dt.is_positive() {
            return Err(SimError::NonPositiveTimestep);
        }
        let mut i: usize = 0;
        while i < n
            invariant
                i <= n,
                0 < n == bodies.len(),
                g.positive(),
                dt.positive(),
                forall|k: int| 0 <= k < i ==> (#[trigger] bodies[k]).well_formed(),
            decreases n - i,
        {
            if !bodies[i].mass.is_positive() {
                assert(!bodies@[i as int].well_formed());
                return Err(SimError::NonPositiveMass);
            }
            i += 1;
        }
        Ok(NBodySimulation { bodies, g, dt })
    }

    /// Builds an engine of `n` bodies on the default placement, all at rest,
    /// with the default constants. The same `n` always gives the same engine.
    ///
    /// A count of zero is refused. Every mass is checked as well: the masses
    /// are computed, and the contract does not interpret the arithmetic that
    /// computes them, so it says what happens should one come out not greater
    /// than zero.
    pub fn new(n: usize) -> (r: Result<NBodySimulation, SimError>)
        ensures
            match r {
                Ok(sim) => initial(n as nat) == Ok::<System, SimError>(sim@),
                Err(e) => initial(n as nat) == Err::<System, SimError>(e),
            },
            r matches Ok(sim) ==> sim@.valid() && sim@.bodies.len() == n,
            r matches Err(e) ==> e == SimError::NoBodies || e == SimError::NonPositiveMass,
            n == 0 <==> r == Err::<NBodySimulation, SimError>(SimError::NoBodies),
    {
        let mut bodies: Vec<Body> = Vec::new();
        let mut i: usize = 0;
        while i < n
            invariant
                i <= n,
                bodies.len() == i,
                forall|k: int| 0 <= k < i ==> bodies[k] == placed(k as usize),
            decreases n - i,
        {
            let t = Scalar::from_index(i);
            let spacing = Scalar::from_bits(X_SPACING_BITS);
            let position = Vec3 {
                x: t * spacing,
                y: t * Scalar::from_bits(Y_SPACING_BITS),
                z: t * Scalar::from_bits(Z_SPACING_BITS),
            };
            let mass = Scalar::one() + t * spacing;
            bodies.push(Body { position, velocity: Vec3::zero(), mass });
            i += 1;
        }
        assert(bodies@ =~= placement(n as nat));
        NBodySimulation::from_bodies(
            bodies,
            Scalar::from_bits(GRAVITY_BITS),
            Scalar::from_bits(TIMESTEP_BITS),
        )
    }

    /// The number of bodies, which never changes.
    pub fn body_count(&self) -> (n: usize)
        ensures
            n == self@.bodies.len(),
    {
        self.bodies.len()
    }

    /// The bodies in storage order.
    pub fn bodies(&self) -> (r: &Vec<Body>)
        ensures
            r@ == self@.bodies,
    {
        &self.bodies
    }

    /// The gravitational constant.
    pub fn gravity(&self) -> (r: Scalar)
        ensures
            r == self@.g,
    {
        self.g
    }

    /// The timestep.
    pub fn timestep(&self) -> (r: Scalar)
        ensures
            r == self@.dt,
    {
        self.dt
    }

    /// The force on body `i` from all the others, at the current positions.
    fn force_on(&self, i: usize) -> (force: Vec3)
        requires
            i < self@.bodies.len(),
        ensures
            force == self@.net_force(i as int),
    {
        let n = self.bodies.len();
        let a = self.bodies[i];
        let mut force = Vec3::zero();
        let mut j: usize = 0;
        while j < n
            invariant
                j <= n,
                n == self.bodies.len(),
                i < n,
                a == self.bodies[i as int],
                force == self@.partial_force(i as int, j as int),
            decreases n - j,
        {
            if i != j {
                let b = self.bodies[j];
                let dist = a.position.distance(b.position);
                let dir = a.position.direction_to(b.position);
                let magnitude = self.g * a.mass * b.mass
                    / (dist * dist + Scalar::from_bits(EPSILON_BITS));
                force = force + dir.scale(magnitude);
            }
            j += 1;
        }
        force
    }

    /// Advances the simulation by one timestep. First the force on every body
    /// is accumulated from the positions before the step; only then is any
    /// body moved. Each body's velocity is updated first, and its position
    /// moves by the updated velocity.
    pub fn step(&mut self)
        ensures
            final(self)@ == old(self)@.stepped(),
            final(self)@.bodies.len() == old(self)@.bodies.len(),
            old(self)@.valid() ==> final(self)@.valid(),
    {
        let n = self.bodies.len();
        let mut forces: Vec<Vec3> = Vec::new();
        let mut i: usize = 0;
        while i < n
            invariant
                i <= n,
                n == self.bodies.len(),
                forces.len() == i,
                forall|k: int| 0 <= k < i ==> forces[k] == self@.net_force(k),
            decreases n - i,
        {
            let force = self.force_on(i);
            forces.push(force);
            i += 1;
        }
        let ghost before = self@;
        let mut k: usize = 0;
        while k < n
            invariant
                k <= n,
                n == self.bodies.len(),
                n == forces.len(),
                n == before.bodies.len(),
                self.g == before.g,
                self.dt == before.dt,
                forall|m: int| 0 <= m < n ==> forces[m] == before.net_force(m),
                forall|m: int|
                    0 <= m < k ==> self.bodies[m] == integrated(
                        before.bodies[m],
                        before.net_force(m),
                        before.dt,
                    ),
                forall|m: int| k <= m < n ==> self.bodies[m] == before.bodies[m],
            decreases n - k,
        {
            let body = self.bodies[k];
            let acceleration = forces[k].scale(Scalar::one() / body.mass);
            let velocity = body.velocity + acceleration.scale(self.dt);
            let position = body.position + velocity.scale(self.dt);
            self.bodies.set(k, Body { position, velocity, mass: body.mass });
            k += 1;
        }
        assert(self@.bodies =~= before.stepped().bodies);
        proof {
            if before.valid() {
                lemma_step_preserves_validity(before);
            }
        }
    }

    /// The positions of all bodies as a flat buffer, in storage order:
    /// `layout.stride()` numbers per body, each multiplied by `scale` where one
    /// is given. The engine is not changed.
    pub fn extract_positions(&self, layout: Layout, scale: Option<Scalar>) -> (buffer: Vec<Scalar>)
        ensures
            buffer@ == snapshot(self@.bodies, layout, scale),
            buffer@.len() == layout.stride() * self@.bodies.len(),
    {
        let mut buffer: Vec<Scalar> = Vec::new();
        write_positions(&self.bodies, layout, scale, &mut buffer);
        buffer
    }

    /// As [`NBodySimulation::extract_positions`], into a buffer that the
    /// caller keeps between frames. The buffer is emptied first.
    pub fn extract_positions_into(
        &self,
        layout: Layout,
        scale: Option<Scalar>,
        buffer: &mut Vec<Scalar>,
    )
        ensures
            final(buffer)@ == snapshot(self@.bodies, layout, scale),
            final(buffer)@.len() == layout.stride() * self@.bodies.len(),
    {
        write_positions(&self.bodies, layout, scale, buffer);
    }

    /// Advances the simulation by `steps` timesteps.
    pub fn run(&mut self, steps: usize)
        ensures
            final(self)@ == old(self)@.evolved(steps as nat),
            final(self)@.bodies.len() == old(self)@.bodies.len(),
            old(self)@.valid() ==> final(self)@.valid(),
    {
        let mut done: usize = 0;
        while done < steps
            invariant
                done <= steps,
                self@ == old(self)@.evolved(done as nat),
            decreases steps - done,
        {
            self.step();
            done += 1;
        }
        proof {
            lemma_run_keeps_count(old(self)@, steps as nat);
            if old(self)@.valid() {
                lemma_run_preserves_validity(old(self)@, steps as nat);
            }
        }
    }
}

/// Builds the default engine of `n` bodies and advances it by
/// [`BATCH_STEPS`] steps.
pub fn simulate_n_body(n: usize) -> (r: Result<NBodySimulation, SimError>)
    ensures
        match r {
            Ok(sim) => batch(n as nat) == Ok::<System, SimError>(sim@),
            Err(e) => batch(n as nat) == Err::<System, SimError>(e),
        },
        r matches Ok(sim) ==> sim@.valid() && sim@.bodies.len() == n,
{
    match NBodySimulation::new(n) {
        Ok(sim) => {
            let mut sim = sim;
            sim.run(BATCH_STEPS);
            Ok(sim)
        },
        Err(e) => Err(e),
    }
}

} // verus!
