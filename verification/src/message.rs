//! Commands carried from the control panel to the generation worker.
use vstd::prelude::*;

verus! {

/// A command on the control channel.
#[derive(Clone, Copy, Debug, PartialEq, Eq, Structural)]
pub enum Message {
    /// Advance the optimizer by one step and publish the resulting figure.
    Next,
    /// Leave the receive loop; nothing is processed afterwards.
    Quit,
}

} // verus!
