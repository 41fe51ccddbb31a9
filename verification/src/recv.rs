//! The receive task: which frequency the receiver is tuned to, and why.
//!
//! The task sits on the control channel until a trunking record assigns a
//! traffic channel to a talkgroup it may follow, tunes there, relays the voice
//! frames, and returns to the control channel when the transmission ends or
//! turns out to be encrypted. Talkgroups seen with encryption are never
//! followed again.
//!
//! Every transition is given twice: as a function on [`RecvState`] that says
//! what it does, and as a method of [`RecvTask`] that does it. A transition
//! sends nothing itself; it lists its messages, to be delivered in that order.

use crate::audio::AudioEvent;
use crate::encrypted;
use crate::hub::{HubEvent, StateEvent};
use crate::message::{
    Assignment, CryptoAlgorithm, MessageEvent, TalkGroup, TrunkingControl, TsbkOpcode,
};
use crate::sdr::ControlTaskEvent;
use fnv::FnvHashSet;
use vstd::prelude::*;

verus! {

/// An event in the queue of the receive task.
#[derive(Clone, Debug, PartialEq, Eq)]
pub enum RecvEvent<L, T, V> {
    /// The frame decoder completed a protocol event.
    Message(MessageEvent<L, T, V>),
    /// The control channel is at the given frequency (Hz) from now on.
    SetControlFreq(u32),
}

/// A message that the receive task wants delivered.
#[derive(Clone, Debug, PartialEq, Eq)]
pub enum Output<L, T, V> {
    /// A report to the monitoring consumer.
    Hub(HubEvent<L, T>),
    /// A command to the tuner.
    Sdr(ControlTaskEvent),
    /// An event for the audio task.
    Audio(AudioEvent<V>),
    /// The frame decoder is to drop its symbol timing and synchronize anew.
    Resync,
    /// The frequency-plan parameters of the record are to be merged into the
    /// channel parameters that later assignments are resolved with.
    MergeChannelParams(T),
}

/// What the receive task knows, as a mathematical value.
pub struct RecvState {
    /// Frequency (Hz) of the control channel.
    pub ctlfreq: u32,
    /// Frequency (Hz) that the receiver is tuned to.
    pub curfreq: u32,
    /// The talkgroup followed last.
    pub curgroup: TalkGroup,
    /// Ids of the talkgroups seen to be encrypted.
    pub encrypted: Set<u16>,
}

/// A state and the messages of the transition that led to it.
pub type Step<L, T, V> = (RecvState, Seq<Output<L, T, V>>);

/// Whether the talkgroup may not be followed because it is in the set.
pub open spec fn barred(encrypted: Set<u16>, tg: TalkGroup) -> bool {
    tg matches TalkGroup::Other(id) && encrypted.contains(id)
}

/// Whether talkgroup `tg` can be followed to a channel that resolves to
/// `freq`: the talkgroup is not barred, and there is a frequency.
pub open spec fn can_follow(encrypted: Set<u16>, tg: TalkGroup, freq: Option<u32>) -> bool {
    !barred(encrypted, tg) && freq is Some
}

/// Whether the assignment can be followed.
pub open spec fn usable(encrypted: Set<u16>, a: Assignment) -> bool {
    can_follow(encrypted, a.talkgroup, a.freq)
}

/// Position of the first usable assignment, if there is one.
pub open spec fn first_usable(encrypted: Set<u16>, updates: Seq<Assignment>) -> Option<int>
    decreases updates.len(),
{
    if updates.len() == 0 {
        None
    } else if usable(encrypted, updates[0]) {
        Some(0)
    } else {
        match first_usable(encrypted, updates.drop_first()) {
            Some(i) => Some(i + 1),
            None => None,
        }
    }
}

impl RecvState {
    /// The state of a task before it has been given a control channel.
    pub open spec fn blank() -> RecvState {
        RecvState {
            ctlfreq: u32::MAX,
            curfreq: u32::MAX,
            curgroup: TalkGroup::Default,
            encrypted: Set::empty(),
        }
    }

    /// A new task with its control channel at `freq`.
    pub open spec fn start<L, T, V>(freq: u32) -> Step<L, T, V> {
        Self::blank().set_control_freq(freq)
    }

    /// Whether the receiver is tuned to the control channel.
    pub open spec fn on_control(self) -> bool {
        self.curfreq == self.ctlfreq
    }

    /// Retune: the receiver is tuned to `freq`. The frequency is reported, the
    /// tuner is told, and the frame decoder synchronizes anew.
    pub open spec fn set_freq<L, T, V>(self, freq: u32) -> Step<L, T, V> {
        (
            RecvState { curfreq: freq, ..self },
            seq![
                Output::Hub(HubEvent::UpdateCurFreq(freq)),
                Output::Sdr(ControlTaskEvent::SetFreq(freq)),
                Output::Resync,
            ],
        )
    }

    /// Switch to control: the audio task is told that the transmission is
    /// over, then the receiver is retuned to the control channel.
    pub open spec fn switch_control<L, T, V>(self) -> Step<L, T, V> {
        let (tuned, msgs) = self.set_freq::<L, T, V>(self.ctlfreq);
        (tuned, seq![Output::Audio(AudioEvent::EndTransmission)] + msgs)
    }

    /// The control channel moves to `freq`: that is reported, then the task
    /// switches to control.
    pub open spec fn set_control_freq<L, T, V>(self, freq: u32) -> Step<L, T, V> {
        let (tuned, msgs) = RecvState { ctlfreq: freq, ..self }.switch_control::<L, T, V>();
        (tuned, seq![Output::Hub(HubEvent::State(StateEvent::UpdateCtlFreq(freq)))] + msgs)
    }

    /// A transmission announced its encryption. In the clear, nothing happens.
    /// Otherwise the task switches to control, and the talkgroup it followed,
    /// if it has an id, joins the encrypted set.
    pub open spec fn handle_crypto<L, T, V>(self, alg: CryptoAlgorithm) -> Step<L, T, V> {
        match alg {
            CryptoAlgorithm::Unencrypted => (self, Seq::empty()),
            CryptoAlgorithm::Encrypted => {
                let (tuned, msgs) = self.switch_control::<L, T, V>();
                let encrypted = match self.curgroup {
                    TalkGroup::Other(id) => self.encrypted.insert(id),
                    TalkGroup::Default => self.encrypted,
                };
                (RecvState { encrypted, ..tuned }, msgs)
            },
        }
    }

    /// Talkgroup `tg` was given a channel that resolves to `freq`, if it
    /// resolves. If the talkgroup is barred or the channel did not resolve,
    /// nothing happens. Otherwise the talkgroup is followed: the receiver is
    /// retuned to the channel and the talkgroup reported.
    pub open spec fn use_talkgroup<L, T, V>(self, tg: TalkGroup, freq: Option<u32>) -> Step<
        L,
        T,
        V,
    > {
        if can_follow(self.encrypted, tg, freq) {
            let (tuned, msgs) = RecvState { curgroup: tg, ..self }.set_freq::<L, T, V>(
                freq->Some_0,
            );
            (tuned, msgs.push(Output::Hub(HubEvent::UpdateTalkGroup(tg))))
        } else {
            (self, Seq::empty())
        }
    }

    /// A record with channel assignments arrived: the first usable one is
    /// followed, the others are not looked at.
    pub open spec fn group_voice_update<L, T, V>(self, updates: Seq<Assignment>) -> Step<L, T, V> {
        match first_usable(self.encrypted, updates) {
            Some(i) => self.use_talkgroup(updates[i].talkgroup, updates[i].freq),
            None => (self, Seq::empty()),
        }
    }

    /// A trunking-control record arrived. Unless it is accepted, nothing
    /// happens. An accepted record is reported, and then acted on by its
    /// operation.
    pub open spec fn handle_trunking<L, T, V>(self, tc: TrunkingControl<T>) -> Step<L, T, V> {
        if tc.accepted() {
            let report = seq![Output::Hub(HubEvent::TrunkingControl(tc.record))];
            match tc.opcode->Some_0 {
                TsbkOpcode::GroupVoiceUpdate(updates) => {
                    let (tuned, msgs) = self.group_voice_update::<L, T, V>(updates@);
                    (tuned, report + msgs)
                },
                TsbkOpcode::ChannelParamsUpdate => (
                    self,
                    report + seq![
                        Output::MergeChannelParams(tc.record),
                        Output::Hub(HubEvent::State(StateEvent::UpdateChannelParams(tc.record))),
                    ],
                ),
                TsbkOpcode::Other => (self, report),
            }
        } else {
            (self, Seq::empty())
        }
    }

    /// The frame decoder completed a protocol event.
    pub open spec fn handle_message<L, T, V>(self, event: MessageEvent<L, T, V>) -> Step<L, T, V> {
        match event {
            MessageEvent::Error => (self, Seq::empty()),
            MessageEvent::PacketNID(unit) => if unit.is_terminator() {
                self.switch_control()
            } else {
                (self, Seq::empty())
            },
            MessageEvent::VoiceHeader(alg) => self.handle_crypto(alg),
            MessageEvent::VoiceFrame(frame) => (
                self,
                seq![Output::Audio(AudioEvent::VoiceFrame(frame))],
            ),
            MessageEvent::LinkControl { recognized, record } => if recognized {
                (self, seq![Output::Hub(HubEvent::LinkControl(record))])
            } else {
                (self, Seq::empty())
            },
            MessageEvent::CryptoControl(alg) => self.handle_crypto(alg),
            MessageEvent::LowSpeedDataFragment => (self, Seq::empty()),
            MessageEvent::TrunkingControl(tc) => self.handle_trunking(tc),
            MessageEvent::VoiceTerm => (self, Seq::empty()),
        }
    }

    /// The task takes one event from its queue.
    pub open spec fn handle<L, T, V>(self, event: RecvEvent<L, T, V>) -> Step<L, T, V> {
        match event {
            RecvEvent::Message(message) => self.handle_message(message),
            RecvEvent::SetControlFreq(freq) => self.set_control_freq(freq),
        }
    }
}

/// The state of the receive task.
pub struct RecvTask {
    ctlfreq: u32,
    curfreq: u32,
    curgroup: TalkGroup,
    encrypted: FnvHashSet<u16>,
}

impl View for RecvTask {
    type V = RecvState;

    closed spec fn view(&self) -> RecvState {
        RecvState {
            ctlfreq: self.ctlfreq,
            curfreq: self.curfreq,
            curgroup: self.curgroup,
            encrypted: self.encrypted@,
        }
    }
}

/// Each transition appends its messages to `out`, oldest first, and leaves
/// what `out` held before in place.
impl RecvTask {
    /// Creates a task whose control channel is at `freq` (Hz), and switches it
    /// to control.
    pub fn new<L, T, V>(freq: u32, out: &mut Vec<Output<L, T, V>>) -> (task: RecvTask)
        ensures
            task@ == RecvState::start::<L, T, V>(freq).0,
            final(out)@ == old(out)@ + RecvState::start::<L, T, V>(freq).1,
    {
        let mut task = RecvTask {
            ctlfreq: u32::MAX,
            curfreq: u32::MAX,
            curgroup: TalkGroup::Default,
            encrypted: FnvHashSet::default(),
        };
        task.set_control_freq(freq, out);
        task
    }

    /// Frequency (Hz) of the control channel.
    pub fn ctlfreq(&self) -> (freq: u32)
        ensures
            freq == self@.ctlfreq,
    {
        self.ctlfreq
    }

    /// Frequency (Hz) that the receiver is tuned to.
    pub fn curfreq(&self) -> (freq: u32)
        ensures
            freq == self@.curfreq,
    {
        self.curfreq
    }

    /// The talkgroup followed last.
    pub fn curgroup(&self) -> (tg: TalkGroup)
        ensures
            tg == self@.curgroup,
    {
        self.curgroup
    }

    /// Whether the talkgroup with the given id was seen to be encrypted.
    pub fn is_encrypted(&self, id: u16) -> (r: bool)
        ensures
            r == self@.encrypted.contains(id),
    {
        encrypted::contains(&self.encrypted, id)
    }

    /// Whether the receiver is tuned to the control channel.
    pub fn on_control(&self) -> (r: bool)
        ensures
            r == self@.on_control(),
    {
        self.curfreq == self.ctlfreq
    }

    /// Moves the control channel to `freq` (Hz) and switches to control.
    pub fn set_control_freq<L, T, V>(&mut self, freq: u32, out: &mut Vec<Output<L, T, V>>)
        ensures
            final(self)@ == old(self)@.set_control_freq::<L, T, V>(freq).0,
            final(out)@ == old(out)@ + old(self)@.set_control_freq::<L, T, V>(freq).1,
    {
        self.ctlfreq = freq;
        out.push(Output::Hub(HubEvent::State(StateEvent::UpdateCtlFreq(freq))));
        self.switch_control(out);
    }

    /// Ends the transmission for the audio task and retunes to the control
    /// channel.
    fn switch_control<L, T, V>(&mut self, out: &mut Vec<Output<L, T, V>>)
        ensures
            final(self)@ == old(self)@.switch_control::<L, T, V>().0,
            final(out)@ == old(out)@ + old(self)@.switch_control::<L, T, V>().1,
    {
        out.push(Output::Audio(AudioEvent::EndTransmission));
        let freq: u32 = self.ctlfreq;
        self.set_freq(freq, out);
    }

    /// Retunes the receiver to `freq` (Hz).
    fn set_freq<L, T, V>(&mut self, freq: u32, out: &mut Vec<Output<L, T, V>>)
        ensures
            final(self)@ == old(self)@.set_freq::<L, T, V>(freq).0,
            final(out)@ == old(out)@ + old(self)@.set_freq::<L, T, V>(freq).1,
    {
        self.curfreq = freq;
        out.push(Output::Hub(HubEvent::UpdateCurFreq(freq)));
        out.push(Output::Sdr(ControlTaskEvent::SetFreq(freq)));
        out.push(Output::Resync);
    }

    /// Takes in one protocol event from the frame decoder.
    pub fn handle_message<L, T: Copy, V>(
        &mut self,
        event: MessageEvent<L, T, V>,
        out: &mut Vec<Output<L, T, V>>,
    )
        ensures
            final(self)@ == old(self)@.handle_message(event).0,
            final(out)@ == old(out)@ + old(self)@.handle_message(event).1,
    {
        match event {
            MessageEvent::Error => {},
            MessageEvent::PacketNID(unit) => {
                if unit.terminates() {
                    self.switch_control(out);
                }
            },
            MessageEvent::VoiceHeader(alg) => {
                self.handle_crypto(alg, out);
            },
            MessageEvent::VoiceFrame(frame) => {
                out.push(Output::Audio(AudioEvent::VoiceFrame(frame)));
            },
            MessageEvent::LinkControl { recognized, record } => {
                if recognized {
                    out.push(Output::Hub(HubEvent::LinkControl(record)));
                }
            },
            MessageEvent::CryptoControl(alg) => {
                self.handle_crypto(alg, out);
            },
            MessageEvent::LowSpeedDataFragment => {},
            MessageEvent::TrunkingControl(tc) => {
                self.handle_trunking(tc, out);
            },
            MessageEvent::VoiceTerm => {},
        }
    }

    /// Takes one event from the queue.
    pub fn handle<L, T: Copy, V>(
        &mut self,
        event: RecvEvent<L, T, V>,
        out: &mut Vec<Output<L, T, V>>,
    )
        ensures
            final(self)@ == old(self)@.handle(event).0,
            final(out)@ == old(out)@ + old(self)@.handle(event).1,
    {
        match event {
            RecvEvent::Message(message) => self.handle_message(message, out),
            RecvEvent::SetControlFreq(freq) => self.set_control_freq(freq, out),
        }
    }

    /// Acts on the encryption that a transmission announced.
    fn handle_crypto<L, T, V>(&mut self, alg: CryptoAlgorithm, out: &mut Vec<Output<L, T, V>>)
        ensures
            final(self)@ == old(self)@.handle_crypto::<L, T, V>(alg).0,
            final(out)@ == old(out)@ + old(self)@.handle_crypto::<L, T, V>(alg).1,
    {
        match alg {
            CryptoAlgorithm::Unencrypted => {},
            CryptoAlgorithm::Encrypted => {
                self.switch_control(out);
                match self.curgroup {
                    TalkGroup::Other(id) => {
                        encrypted::insert(&mut self.encrypted, id);
                    },
                    TalkGroup::Default => {},
                }
            },
        }
    }

    /// Follows talkgroup `tg` to the channel that was assigned to it, where
    /// `freq` is the frequency (Hz) that the channel resolves to, if it does.
    /// Returns whether the talkgroup is followed.
    pub fn use_talkgroup<L, T, V>(
        &mut self,
        tg: TalkGroup,
        freq: Option<u32>,
        out: &mut Vec<Output<L, T, V>>,
    ) -> (used: bool)
        ensures
            used == can_follow(old(self)@.encrypted, tg, freq),
            final(self)@ == old(self)@.use_talkgroup::<L, T, V>(tg, freq).0,
            final(out)@ == old(out)@ + old(self)@.use_talkgroup::<L, T, V>(tg, freq).1,
    {
        match tg {
            TalkGroup::Other(id) => {
                if encrypted::contains(&self.encrypted, id) {
                    return false;
                }
            },
            TalkGroup::Default => {},
        }
        let freq: u32 = match freq {
            Some(freq) => freq,
            None => {
                return false;
            },
        };
        self.curgroup = tg;
        self.set_freq(freq, out);
        out.push(Output::Hub(HubEvent::UpdateTalkGroup(tg)));
        true
    }

    /// Goes through the assignments of a group-voice-channel-update in record
    /// order and follows the first that can be followed.
    fn group_voice_update<L, T, V>(
        &mut self,
        updates: &Vec<Assignment>,
        out: &mut Vec<Output<L, T, V>>,
    )
        ensures
            final(self)@ == old(self)@.group_voice_update::<L, T, V>(updates@).0,
            final(out)@ == old(out)@ + old(self)@.group_voice_update::<L, T, V>(updates@).1,
    {
        let mut i: usize = 0;
        while i < updates.len()
            invariant
                i <= updates.len(),
                self@ == old(self)@,
                out@ == old(out)@,
                forall|j: int| 0 <= j < i ==> !usable(old(self)@.encrypted, updates@[j]),
            decreases updates.len() - i,
        {
            let a: Assignment = updates[i];
            if self.use_talkgroup(a.talkgroup, a.freq, out) {
                proof {
                    first_usable_is_least(old(self)@.encrypted, updates@, i as int);
                }
                return ;
            }
            i += 1;
        }
        proof {
            none_usable(old(self)@.encrypted, updates@);
        }
    }

    /// Takes in a trunking-control record.
    fn handle_trunking<L, T: Copy, V>(
        &mut self,
        tc: TrunkingControl<T>,
        out: &mut Vec<Output<L, T, V>>,
    )
        ensures
            final(self)@ == old(self)@.handle_trunking::<L, T, V>(tc).0,
            final(out)@ == old(out)@ + old(self)@.handle_trunking::<L, T, V>(tc).1,
    {
        if tc.mfg != 0 {
            return ;
        }
        if !tc.crc_valid {
            return ;
        }
        let opcode = match tc.opcode {
            Some(opcode) => opcode,
            None => {
                return ;
            },
        };
        out.push(Output::Hub(HubEvent::TrunkingControl(tc.record)));
        match opcode {
            TsbkOpcode::GroupVoiceUpdate(updates) => {
                self.group_voice_update(&updates, out);
            },
            TsbkOpcode::ChannelParamsUpdate => {
                out.push(Output::MergeChannelParams(tc.record));
                out.push(Output::Hub(HubEvent::State(StateEvent::UpdateChannelParams(tc.record))));
            },
            TsbkOpcode::Other => {},
        }
    }
}

/// The least position with a usable assignment is the one that is found.
pub proof fn first_usable_is_least(encrypted: Set<u16>, updates: Seq<Assignment>, i: int)
    requires
        0 <= i < updates.len(),
        usable(encrypted, updates[i]),
        forall|j: int| 0 <= j < i ==> !usable(encrypted, updates[j]),
    ensures
        first_usable(encrypted, updates) == Some(i),
    decreases updates.len(),
{
    if i > 0 {
        let rest = updates.drop_first();
        assert forall|j: int| 0 <= j < i - 1 implies !usable(encrypted, rest[j]) by {}
        first_usable_is_least(encrypted, rest, i - 1);
    }
}

/// Where no assignment is usable, none is found.
pub proof fn none_usable(encrypted: Set<u16>, updates: Seq<Assignment>)
    requires
        forall|j: int| 0 <= j < updates.len() ==> !usable(encrypted, updates[j]),
    ensures
        first_usable(encrypted, updates) is None,
    decreases updates.len(),
{
    if updates.len() > 0 {
        let rest = updates.drop_first();
        assert forall|j: int| 0 <= j < rest.len() implies !usable(encrypted, rest[j]) by {}
        none_usable(encrypted, rest);
    }
}

} // verus!
