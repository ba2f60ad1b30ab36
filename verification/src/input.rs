//! Decoded state of the logical actions, as the host reports it each frame.

use vstd::prelude::*;

verus! {

/// State of one digital action during one frame.
#[derive(Clone, Copy, Debug, PartialEq, Eq, Structural)]
pub struct DigitalState {
    /// The action became active in this frame.
    pub pressed: bool,
    /// The action is active in this frame.
    pub held: bool,
}

impl DigitalState {
    /// The state of an action that nobody touches.
    pub open spec fn spec_idle() -> DigitalState {
        DigitalState { pressed: false, held: false }
    }

    /// The state of an action that nobody touches.
    #[verifier::when_used_as_spec(spec_idle)]
    pub fn idle() -> (s: DigitalState)
        ensures
            s == DigitalState::spec_idle(),
    {
        DigitalState { pressed: false, held: false }
    }
}

} // verus!
