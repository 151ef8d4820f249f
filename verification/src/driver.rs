//! The decisions of the frame loop that drives a simulation.
//!
//! The loop itself lives outside this library: it owns the timer, the
//! renderer and the buttons. What it does next is decided here. The driver is
//! told what happened and answers with the next action; the loop carries the
//! action out and comes back with the next event.

use vstd::prelude::*;

verus! {

/// Bodies of the simulation that a launch sets up.
pub const LAUNCH_BODIES: usize = 200;

/// Milliseconds the loop waits after a frame before it looks again.
pub const FRAME_DELAY_MS: u32 = 16;

/// What happened outside.
#[derive(Clone, Copy, Debug, PartialEq, Eq, Structural)]
pub enum Event {
    /// The start control was used.
    Start,
    /// The stop control was used.
    Stop,
    /// The frame loop is at the top of an iteration.
    Tick,
}

/// What the loop has to do next.
#[derive(Clone, Copy, Debug, PartialEq, Eq, Structural)]
pub enum Action {
    /// Nothing.
    Idle,
    /// Initialize the simulation with `bodies` bodies and start a frame loop,
    /// which begins with a tick.
    Launch { bodies: usize },
    /// Step once, extract the positions, hand them to the renderer if there
    /// is one, wait `delay_ms` milliseconds, then tick again.
    Frame { delay_ms: u32 },
    /// Report that the loop has stopped, and end it.
    Halt,
}

/// The driver after `event`, given whether it was running, and the action
/// that answers the event.
///
/// A start while running is ignored, so that one run is not reset by a second
/// press. A stop only lowers the flag: the loop ends at its next tick, after
/// the frame in progress is complete.
pub open spec fn transition(running: bool, event: Event) -> (bool, Action) {
    match event {
        Event::Start => if running {
            (true, Action::Idle)
        } else {
            (true, Action::Launch { bodies: LAUNCH_BODIES })
        },
        Event::Stop => (false, Action::Idle),
        Event::Tick => if running {
            (true, Action::Frame { delay_ms: FRAME_DELAY_MS })
        } else {
            (false, Action::Halt)
        },
    }
}

/// Whether a run is in progress.
pub struct Driver {
    running: bool,
}

impl View for Driver {
    type V = bool;

    closed spec fn view(&self) -> bool {
        self.running
    }
}

impl Driver {
    /// A driver with no run in progress.
    pub fn new() -> (r: Driver)
        ensures
            !r@,
    {
        Driver { running: false }
    }

    /// Whether a run is in progress.
    pub fn is_running(&self) -> (r: bool)
        ensures
            r == self@,
    {
        self.running
    }

    /// Takes note of `event` and says what to do next.
    pub fn handle(&mut self, event: Event) -> (action: Action)
        ensures
            (final(self)@, action) == transition(old(self)@, event),
    {
        match event {
            Event::Start => {
                if self.running {
                    Action::Idle
                } else {
                    self.running = true;
                    Action::Launch { bodies: LAUNCH_BODIES }
                }
            },
            Event::Stop => {
                self.running = false;
                Action::Idle
            },
            Event::Tick => {
                if self.running {
                    Action::Frame { delay_ms: FRAME_DELAY_MS }
                } else {
                    Action::Halt
                }
            },
        }
    }
}

} // verus!
