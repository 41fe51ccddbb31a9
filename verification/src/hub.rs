//! Reports for the task that publishes the receiver's state.
//!
//! Link-control and trunking-control records are carried as the types `L` and
//! `T`: the receive task forwards them and never looks inside.

use crate::message::TalkGroup;
use vstd::prelude::*;

verus! {

/// A change of the long-lived state of the receiver.
#[derive(Clone, Debug, PartialEq, Eq)]
pub enum StateEvent<T> {
    /// The control channel frequency (Hz) was set.
    UpdateCtlFreq(u32),
    /// The given trunking record updated the channel parameters.
    UpdateChannelParams(T),
}

/// A report to the monitoring consumer.
#[derive(Clone, Debug, PartialEq, Eq)]
pub enum HubEvent<L, T> {
    /// Long-lived state changed.
    State(StateEvent<T>),
    /// The receiver was tuned to the given frequency (Hz).
    UpdateCurFreq(u32),
    /// The given talkgroup is now followed.
    UpdateTalkGroup(TalkGroup),
    /// A trunking-control record was received on the control channel.
    TrunkingControl(T),
    /// A link-control record was received on a traffic channel.
    LinkControl(L),
}

} // verus!
