//! Commands for the task that drives the tuner.

use vstd::prelude::*;

verus! {

/// A command to the tuner.
#[derive(Clone, Copy, Debug, PartialEq, Eq)]
pub enum ControlTaskEvent {
    /// Tune the receiver to the given center frequency (Hz).
    SetFreq(u32),
}

} // verus!
