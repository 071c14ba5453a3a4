//! The state handed between the control loop and its caller.

use vstd::prelude::*;

verus! {

/// The state of the control loop. It holds nothing yet.
#[derive(Clone, Copy, Debug, PartialEq, Eq, Structural)]
pub struct State {}

impl State {
    /// The initial state.
    pub fn new() -> (s: State)
        ensures
            s == (State {  }),
    {
        State {  }
    }
}

/// Milliseconds between two rounds of the control loop.
pub const CONTROL_PERIOD_MS: u64 = 10;

} // verus!
