//! Decoded protocol events, as far as the receive task reads them.
//!
//! The frame decoder turns baseband samples into protocol events. The types
//! here hold the fields of those events that tuning decisions depend on. The
//! records themselves travel as the type parameters `L` (link control), `T`
//! (trunking control) and `V` (voice frame), untouched.

use vstd::prelude::*;

verus! {

/// The logical conversation group that a transmission belongs to.
#[derive(Clone, Copy, Debug, PartialEq, Eq, Hash)]
pub enum TalkGroup {
    /// No particular group.
    Default,
    /// The group with the given id.
    Other(u16),
}

/// Kind of data unit that a frame-sync record announces.
#[derive(Clone, Copy, Debug, PartialEq, Eq)]
pub enum DataUnit {
    /// Terminator of a voice transmission, without link control.
    VoiceSimpleTerminator,
    /// Terminator of a voice transmission, with link control.
    VoiceLCTerminator,
    /// Any other data unit.
    Other,
}

impl DataUnit {
    /// Whether this data unit ends a voice transmission.
    pub open spec fn is_terminator(self) -> bool {
        self is VoiceSimpleTerminator || self is VoiceLCTerminator
    }

    /// Whether this data unit ends a voice transmission.
    pub fn terminates(&self) -> (r: bool)
        ensures
            r == self.is_terminator(),
    {
        match self {
            DataUnit::VoiceSimpleTerminator | DataUnit::VoiceLCTerminator => true,
            _ => false,
        }
    }
}

/// Encryption of a voice transmission, as its header or crypto-control record
/// announces it.
#[derive(Clone, Copy, Debug, PartialEq, Eq)]
pub enum CryptoAlgorithm {
    /// The voice frames are in the clear.
    Unencrypted,
    /// The voice frames are encrypted, with whatever algorithm.
    Encrypted,
}

/// One entry of a group-voice-channel-update: a talkgroup and the traffic
/// channel assigned to it.
#[derive(Clone, Copy, Debug, PartialEq, Eq)]
pub struct Assignment {
    /// The talkgroup that was given the channel.
    pub talkgroup: TalkGroup,
    /// Receive frequency (Hz) of the channel under the channel parameters
    /// known when the record arrived, `None` if they do not resolve it.
    pub freq: Option<u32>,
}

/// Operation of a trunking-control record with a recognized operation code.
#[derive(Clone, Debug, PartialEq, Eq)]
pub enum TsbkOpcode {
    /// Channel assignments of ongoing group voice traffic, in record order.
    GroupVoiceUpdate(Vec<Assignment>),
    /// The record carries frequency-plan parameters for one channel id.
    ChannelParamsUpdate,
    /// Any other recognized operation.
    Other,
}

/// A trunking-control record and what the receive task reads of it.
#[derive(Clone, Debug, PartialEq, Eq)]
pub struct TrunkingControl<T> {
    /// Manufacturer id; zero for the standard, anything else is vendor-specific.
    pub mfg: u8,
    /// Whether the checksum of the record matches its contents.
    pub crc_valid: bool,
    /// The operation, `None` if the operation code is not recognized.
    pub opcode: Option<TsbkOpcode>,
    /// The record itself.
    pub record: T,
}

impl<T> TrunkingControl<T> {
    /// Whether the record is acted on: it is a standard record with a good
    /// checksum and a recognized operation code.
    pub open spec fn accepted(self) -> bool {
        self.mfg == 0 && self.crc_valid && self.opcode is Some
    }
}

/// What the frame decoder yields for a baseband sample that completes a
/// protocol event.
#[derive(Clone, Debug, PartialEq, Eq)]
pub enum MessageEvent<L, T, V> {
    /// The decoder could not recover the data unit.
    Error,
    /// A frame-sync record announced a data unit.
    PacketNID(DataUnit),
    /// A voice header arrived, announcing the given encryption.
    VoiceHeader(CryptoAlgorithm),
    /// A voice frame arrived.
    VoiceFrame(V),
    /// A link-control record arrived.
    LinkControl {
        /// Whether its operation code is recognized.
        recognized: bool,
        /// The record itself.
        record: L,
    },
    /// A crypto-control record arrived, announcing the given encryption.
    CryptoControl(CryptoAlgorithm),
    /// A fragment of low-speed data arrived.
    LowSpeedDataFragment,
    /// A trunking-control record arrived.
    TrunkingControl(TrunkingControl<T>),
    /// The link-control record of a voice terminator arrived.
    VoiceTerm,
}

impl<L, T, V> MessageEvent<L, T, V> {
    /// What a receiver that only plays audio takes from the event: the voice
    /// frame, if the event is one.
    pub fn voice_frame(self) -> (frame: Option<V>)
        ensures
            frame == match self {
                MessageEvent::VoiceFrame(v) => Some(v),
                _ => None,
            },
    {
        match self {
            MessageEvent::VoiceFrame(v) => Some(v),
            _ => None,
        }
    }
}

} // verus!
