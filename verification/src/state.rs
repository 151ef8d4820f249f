//! The state container: at most one live engine, with an explicit lifecycle.
//!
//! A container starts empty. `initialize` puts an engine into it, `step` and
//! `extract_positions` work on the engine that is there, and `clear` empties
//! the container again. On an empty container `step` does nothing and
//! `extract_positions` yields an empty buffer; neither fails.

use vstd::prelude::*;
use crate::dynamics::{lemma_step_keeps_count, lemma_step_preserves_validity, System};
use crate::error::SimError;
use crate::extract::{snapshot, Layout};
use crate::scalar::Scalar;
use crate::simulation::{initial, lemma_initial_is_valid, NBodySimulation};

verus! {

/// What `initialize` does to a container that already holds an engine. The
/// policy is chosen when the container is made and never changes.
#[derive(Clone, Copy, Debug, PartialEq, Eq, Structural)]
pub enum InitPolicy {
    /// The engine that is there stays, with all its progress; the call does
    /// nothing.
    KeepExisting,
    /// The engine that is there is discarded for a fresh one.
    Replace,
}

/// The container as the contracts see it.
pub struct StateModel {
    pub engine: Option<System>,
    pub policy: InitPolicy,
}

impl StateModel {
    /// The empty container with the given policy.
    pub open spec fn empty(policy: InitPolicy) -> StateModel {
        StateModel { engine: None, policy }
    }

    /// The engine in the container, if there is one, is valid.
    pub open spec fn valid(self) -> bool {
        self.engine matches Some(system) ==> system.valid()
    }

    /// The number of bodies: that of the engine, or zero for an empty
    /// container.
    pub open spec fn body_count(self) -> nat {
        match self.engine {
            Some(system) => system.bodies.len(),
            None => 0,
        }
    }

    /// `initialize(n)` leaves the container untouched and builds nothing.
    pub open spec fn keeps_engine(self) -> bool {
        self.policy == InitPolicy::KeepExisting && self.engine.is_some()
    }

    /// The container after `initialize(n)`. Where the policy keeps an existing
    /// engine, nothing changes. Otherwise a default engine of `n` bodies
    /// takes the place of whatever was there, unless it cannot be built: then
    /// nothing changes either.
    pub open spec fn initialized(self, n: nat) -> StateModel {
        if self.keeps_engine() {
            self
        } else {
            match initial(n) {
                Ok(system) => StateModel { engine: Some(system), policy: self.policy },
                Err(_) => self,
            }
        }
    }

    /// The container after `step()`.
    pub open spec fn stepped(self) -> StateModel {
        match self.engine {
            Some(system) => StateModel { engine: Some(system.stepped()), policy: self.policy },
            None => self,
        }
    }

    /// The container after `steps` calls of `step()`.
    pub open spec fn after_steps(self, steps: nat) -> StateModel
        decreases steps,
    {
        if steps == 0 {
            self
        } else {
            self.after_steps((steps - 1) as nat).stepped()
        }
    }

    /// The buffer that extraction yields: the engine's snapshot, or nothing
    /// for an empty container.
    pub open spec fn extracted(self, layout: Layout, scale: Option<Scalar>) -> Seq<Scalar> {
        match self.engine {
            Some(system) => snapshot(system.bodies, layout, scale),
            None => Seq::empty(),
        }
    }
}

/// Holds zero or one engine and mediates every access to it.
pub struct SimulationState {
    engine: Option<NBodySimulation>,
    policy: InitPolicy,
}

impl View for SimulationState {
    type V = StateModel;

    closed spec fn view(&self) -> StateModel {
        StateModel {
            engine: match self.engine {
                Some(sim) => Some(sim@),
                None => None,
            },
            policy: self.policy,
        }
    }
}

impl SimulationState {
    /// An empty container with the given policy.
    pub fn new(policy: InitPolicy) -> (r: SimulationState)
        ensures
            r@ == StateModel::empty(policy),
    {
        SimulationState { engine: None, policy }
    }

    /// The policy the container was made with.
    pub fn policy(&self) -> (r: InitPolicy)
        ensures
            r == self@.policy,
    {
        self.policy
    }

    /// Whether the container holds an engine.
    pub fn is_initialized(&self) -> (r: bool)
        ensures
            r == self@.engine.is_some(),
    {
        self.engine.is_some()
    }

    /// The number of bodies of the engine, zero for an empty container.
    pub fn body_count(&self) -> (n: usize)
        ensures
            n == self@.body_count(),
    {
        match &self.engine {
            Some(sim) => sim.body_count(),
            None => 0,
        }
    }

    /// Establishes a default engine of `n` bodies, as the policy says. The
    /// call fails exactly when an engine has to be built and `n` is refused;
    /// the container is then as it was.
    pub fn initialize(&mut self, n: usize) -> (r: Result<(), SimError>)
        ensures
            final(self)@ == old(self)@.initialized(n as nat),
            old(self)@.keeps_engine() ==> r.is_ok(),
            !old(self)@.keeps_engine() ==> match r {
                Ok(_) => initial(n as nat).is_ok(),
                Err(e) => initial(n as nat) == Err::<System, SimError>(e),
            },
            old(self)@.valid() ==> final(self)@.valid(),
    {
        let keep = match self.policy {
            InitPolicy::KeepExisting => self.engine.is_some(),
            InitPolicy::Replace => false,
        };
        if keep {
            return Ok(());
        }
        match NBodySimulation::new(n) {
            Ok(sim) => {
                self.engine = Some(sim);
                Ok(())
            },
            Err(e) => Err(e),
        }
    }

    /// Advances the engine by one timestep. Does nothing on an empty
    /// container.
    pub fn step(&mut self)
        ensures
            final(self)@ == old(self)@.stepped(),
            final(self)@.body_count() == old(self)@.body_count(),
            old(self)@.valid() ==> final(self)@.valid(),
    {
        match &mut self.engine {
            Some(sim) => {
                sim.step();
            },
            None => {},
        }
    }

    /// The positions of all bodies as a flat buffer, empty for an empty
    /// container. The container is not changed.
    pub fn extract_positions(&self, layout: Layout, scale: Option<Scalar>) -> (buffer: Vec<Scalar>)
        ensures
            buffer@ == self@.extracted(layout, scale),
            buffer@.len() == layout.stride() * self@.body_count(),
    {
        match &self.engine {
            Some(sim) => sim.extract_positions(layout, scale),
            None => Vec::new(),
        }
    }

    /// Discards the engine, if there is one.
    pub fn clear(&mut self)
        ensures
            final(self)@ == StateModel::empty(old(self)@.policy),
    {
        self.engine = None;
    }
}

/// A step never changes the number of bodies, whether or not the container
/// holds an engine.
pub proof fn lemma_step_keeps_body_count(state: StateModel)
    ensures
        state.stepped().body_count() == state.body_count(),
{
    if let Some(system) = state.engine {
        lemma_step_keeps_count(system);
    }
}

/// An extracted buffer holds `layout.stride()` numbers for every body, and
/// none for an empty container.
pub proof fn lemma_extracted_len(state: StateModel, layout: Layout, scale: Option<Scalar>)
    ensures
        state.extracted(layout, scale).len() == layout.stride() * state.body_count(),
{
}

/// A container whose engine is valid stays so under `initialize` and `step`.
pub proof fn lemma_lifecycle_preserves_validity(state: StateModel, n: nat)
    requires
        state.valid(),
    ensures
        state.initialized(n).valid(),
        state.stepped().valid(),
{
    lemma_initial_is_valid(n);
    if let Some(system) = state.engine {
        lemma_step_preserves_validity(system);
    }
}

/// Runs are reproducible: two containers that start empty with the same
/// policy, are initialized with the same `n` and stepped equally often end in
/// the same state, bit for bit.
pub proof fn lemma_runs_are_reproducible(
    policy: InitPolicy,
    n: nat,
    steps: nat,
    first: StateModel,
    second: StateModel,
)
    requires
        first == StateModel::empty(policy).initialized(n).after_steps(steps),
        second == StateModel::empty(policy).initialized(n).after_steps(steps),
    ensures
        first == second,
        first.extracted(Layout::Xyz, None) == second.extracted(Layout::Xyz, None),
{
}

/// Extraction is repeatable: two extractions from the same container state,
/// with the same layout and scale, yield the same buffer.
pub proof fn lemma_extraction_is_repeatable(
    state: StateModel,
    layout: Layout,
    scale: Option<Scalar>,
    first: Seq<Scalar>,
    second: Seq<Scalar>,
)
    requires
        first == state.extracted(layout, scale),
        second == state.extracted(layout, scale),
    ensures
        first == second,
{
}

} // verus!
