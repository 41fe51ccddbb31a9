//! What holds of the receive task, whatever it is fed.
//!
//! The statements here are about the transitions of [`RecvState`], which the
//! methods of the receive task are proved to carry out.

use crate::audio::{
    decoder_history, end_of_transmission_isolates, history_after_event, schedule, AudioEvent,
};
use crate::hub::{HubEvent, StateEvent};
use crate::message::{
    Assignment, CryptoAlgorithm, DataUnit, MessageEvent, TalkGroup, TrunkingControl, TsbkOpcode,
};
use crate::recv::{
    can_follow, first_usable, first_usable_is_least, usable, Output, RecvEvent, RecvState, Step,
};
use crate::sdr::ControlTaskEvent;
use vstd::prelude::*;

verus! {

/// The state after the events were taken in order, starting from `s`, and all
/// the messages of the way there.
pub open spec fn run<L, T, V>(s: RecvState, events: Seq<RecvEvent<L, T, V>>) -> Step<L, T, V>
    decreases events.len(),
{
    if events.len() == 0 {
        (s, Seq::empty())
    } else {
        let (mid, early) = run(s, events.drop_last());
        let (end, late) = mid.handle(events.last());
        (end, early + late)
    }
}

/// The frequency that the tuner is at once the messages are delivered, having
/// been at `before`: that of the last command to it, if there is one.
pub open spec fn tuner_after<L, T, V>(before: u32, out: Seq<Output<L, T, V>>) -> u32
    decreases out.len(),
{
    if out.len() == 0 {
        before
    } else {
        match out.last() {
            Output::Sdr(ControlTaskEvent::SetFreq(freq)) => freq,
            _ => tuner_after(before, out.drop_last()),
        }
    }
}

/// The events for the audio task among the messages, in order.
pub open spec fn audio_events<L, T, V>(out: Seq<Output<L, T, V>>) -> Seq<AudioEvent<V>>
    decreases out.len(),
{
    if out.len() == 0 {
        Seq::empty()
    } else {
        match out.last() {
            Output::Audio(event) => audio_events(out.drop_last()).push(event),
            _ => audio_events(out.drop_last()),
        }
    }
}

/// Whether the event makes the task switch to control: a voice terminator,
/// the news of encryption, or a change of the control channel.
pub open spec fn ends_call<L, T, V>(event: RecvEvent<L, T, V>) -> bool {
    match event {
        RecvEvent::Message(MessageEvent::PacketNID(unit)) => unit.is_terminator(),
        RecvEvent::Message(MessageEvent::VoiceHeader(alg)) => alg is Encrypted,
        RecvEvent::Message(MessageEvent::CryptoControl(alg)) => alg is Encrypted,
        RecvEvent::SetControlFreq(_) => true,
        _ => false,
    }
}

/// The events that the frame decoder gives for a run of voice frames.
pub open spec fn voice_frames<L, T, V>(frames: Seq<V>) -> Seq<RecvEvent<L, T, V>> {
    Seq::new(frames.len(), |i: int| RecvEvent::Message(MessageEvent::VoiceFrame(frames[i])))
}

/// A record of channel assignments that is accepted.
pub open spec fn assigns<T>(tc: TrunkingControl<T>, updates: Seq<Assignment>) -> bool {
    &&& tc.accepted()
    &&& tc.opcode matches Some(TsbkOpcode::GroupVoiceUpdate(list))
    &&& list@ == updates
}

/// Of the assignments in an accepted record, the first usable one is followed
/// and no other: the task follows its talkgroup on its frequency, whatever the
/// assignments after it hold. The record is reported first, then the retune,
/// then the talkgroup.
pub proof fn first_usable_is_followed<L, T, V>(
    s: RecvState,
    tc: TrunkingControl<T>,
    updates: Seq<Assignment>,
    i: int,
)
    requires
        assigns(tc, updates),
        0 <= i < updates.len(),
        usable(s.encrypted, updates[i]),
        forall|j: int| 0 <= j < i ==> !usable(s.encrypted, updates[j]),
    ensures
        s.handle_message::<L, T, V>(MessageEvent::TrunkingControl(tc)) == (
            RecvState { curgroup: updates[i].talkgroup, curfreq: updates[i].freq->Some_0, ..s },
            seq![
                Output::<L, T, V>::Hub(HubEvent::TrunkingControl(tc.record)),
                Output::Hub(HubEvent::UpdateCurFreq(updates[i].freq->Some_0)),
                Output::Sdr(ControlTaskEvent::SetFreq(updates[i].freq->Some_0)),
                Output::Resync,
                Output::Hub(HubEvent::UpdateTalkGroup(updates[i].talkgroup)),
            ],
        ),
{
    first_usable_is_least(s.encrypted, updates, i);
    let step = s.handle_message::<L, T, V>(MessageEvent::TrunkingControl(tc));
    assert(step.1 =~= seq![
        Output::Hub(HubEvent::TrunkingControl(tc.record)),
        Output::Hub(HubEvent::UpdateCurFreq(updates[i].freq->Some_0)),
        Output::Sdr(ControlTaskEvent::SetFreq(updates[i].freq->Some_0)),
        Output::Resync,
        Output::Hub(HubEvent::UpdateTalkGroup(updates[i].talkgroup)),
    ]);
}

/// If the first assignment of an accepted record is usable, its talkgroup is
/// followed on its frequency, whatever the later assignments are.
pub proof fn first_assignment_wins<L, T, V>(
    s: RecvState,
    tc: TrunkingControl<T>,
    updates: Seq<Assignment>,
)
    requires
        assigns(tc, updates),
        updates.len() >= 1,
        usable(s.encrypted, updates[0]),
    ensures
        ({
            let next = s.handle_message::<L, T, V>(MessageEvent::TrunkingControl(tc)).0;
            &&& next.curgroup == updates[0].talkgroup
            &&& Some(next.curfreq) == updates[0].freq
        }),
{
    first_usable_is_followed::<L, T, V>(s, tc, updates, 0);
}

/// If the first assignment of an accepted record is not usable and the second
/// is, the talkgroup of the second is followed on its frequency.
pub proof fn second_assignment_is_next<L, T, V>(
    s: RecvState,
    tc: TrunkingControl<T>,
    updates: Seq<Assignment>,
)
    requires
        assigns(tc, updates),
        updates.len() >= 2,
        !usable(s.encrypted, updates[0]),
        usable(s.encrypted, updates[1]),
    ensures
        ({
            let next = s.handle_message::<L, T, V>(MessageEvent::TrunkingControl(tc)).0;
            &&& next.curgroup == updates[1].talkgroup
            &&& Some(next.curfreq) == updates[1].freq
        }),
{
    first_usable_is_followed::<L, T, V>(s, tc, updates, 1);
}

/// The assignment that is found is usable, and none before it is.
pub proof fn first_usable_is_usable(encrypted: Set<u16>, updates: Seq<Assignment>)
    ensures
        match first_usable(encrypted, updates) {
            Some(i) => {
                &&& 0 <= i < updates.len()
                &&& usable(encrypted, updates[i])
                &&& forall|j: int| 0 <= j < i ==> !usable(encrypted, updates[j])
            },
            None => forall|j: int| 0 <= j < updates.len() ==> !usable(encrypted, updates[j]),
        },
    decreases updates.len(),
{
    if updates.len() > 0 && !usable(encrypted, updates[0]) {
        let rest = updates.drop_first();
        first_usable_is_usable(encrypted, rest);
        match first_usable(encrypted, rest) {
            Some(i) => {
                assert forall|j: int| 0 <= j < i + 1 implies !usable(encrypted, updates[j]) by {
                    if j > 0 {
                        assert(rest[j - 1] == updates[j]);
                    }
                }
            },
            None => {
                assert forall|j: int| 0 <= j < updates.len() implies !usable(
                    encrypted,
                    updates[j],
                ) by {
                    if j > 0 {
                        assert(rest[j - 1] == updates[j]);
                    }
                }
            },
        }
    }
}

/// No transition takes a talkgroup out of the encrypted set.
pub proof fn encrypted_set_only_grows<L, T, V>(
    s: RecvState,
    event: RecvEvent<L, T, V>,
    tg: TalkGroup,
    freq: Option<u32>,
)
    ensures
        s.encrypted.subset_of(s.handle(event).0.encrypted),
        s.use_talkgroup::<L, T, V>(tg, freq).0.encrypted == s.encrypted,
{
}

/// The control channel stays where it is unless it is moved on purpose.
pub proof fn control_channel_stays<L, T, V>(
    s: RecvState,
    event: MessageEvent<L, T, V>,
    tg: TalkGroup,
    freq: Option<u32>,
)
    ensures
        s.handle_message(event).0.ctlfreq == s.ctlfreq,
        s.use_talkgroup::<L, T, V>(tg, freq).0.ctlfreq == s.ctlfreq,
{
}

/// A talkgroup in the encrypted set stays there through any events.
pub proof fn encrypted_for_good<L, T, V>(s: RecvState, events: Seq<RecvEvent<L, T, V>>, id: u16)
    requires
        s.encrypted.contains(id),
    ensures
        run(s, events).0.encrypted.contains(id),
    decreases events.len(),
{
    if events.len() > 0 {
        encrypted_for_good(s, events.drop_last(), id);
        encrypted_set_only_grows(run(s, events.drop_last()).0, events.last(), TalkGroup::Default, None);
    }
}

/// Once a talkgroup is in the encrypted set, no assignment to it is followed
/// again: whatever events the task has taken since, the assignment that it
/// picks from a record is never one of that talkgroup, and a record that
/// assigns channels to that talkgroup only is reported and changes nothing.
pub proof fn encrypted_talkgroup_is_never_followed<L, T, V>(
    s: RecvState,
    events: Seq<RecvEvent<L, T, V>>,
    id: u16,
    tc: TrunkingControl<T>,
    updates: Seq<Assignment>,
)
    requires
        s.encrypted.contains(id),
        assigns(tc, updates),
    ensures
        ({
            let now = run(s, events).0;
            &&& now.encrypted.contains(id)
            &&& first_usable(now.encrypted, updates) matches Some(i) ==> updates[i].talkgroup
                != TalkGroup::Other(id)
            &&& (forall|j: int|
                0 <= j < updates.len() ==> updates[j].talkgroup == TalkGroup::Other(id))
                ==> now.handle_message::<L, T, V>(MessageEvent::TrunkingControl(tc)) == (
                now,
                seq![Output::<L, T, V>::Hub(HubEvent::TrunkingControl(tc.record))],
            )
        }),
{
    encrypted_for_good(s, events, id);
    let now = run(s, events).0;
    first_usable_is_usable(now.encrypted, updates);
    if forall|j: int| 0 <= j < updates.len() ==> updates[j].talkgroup == TalkGroup::Other(id) {
        assert(now.handle_message::<L, T, V>(MessageEvent::TrunkingControl(tc)).1 =~= seq![
            Output::Hub(HubEvent::TrunkingControl(tc.record)),
        ]);
    }
}

/// When a transmission announces encryption, the audio task is told that the
/// transmission is over, then the receiver is retuned to the control channel,
/// and the talkgroup that was followed, if it has an id, is in the encrypted
/// set from then on. It makes no difference whether the voice header or a
/// crypto-control record brought the news.
pub proof fn encryption_ends_the_call<L, T, V>(s: RecvState)
    ensures
        ({
            let (next, out) = s.handle_message::<L, T, V>(
                MessageEvent::CryptoControl(CryptoAlgorithm::Encrypted),
            );
            &&& s.handle_message::<L, T, V>(MessageEvent::VoiceHeader(CryptoAlgorithm::Encrypted))
                == (next, out)
            &&& next.curfreq == s.ctlfreq
            &&& next.on_control()
            &&& next.ctlfreq == s.ctlfreq
            &&& next.curgroup == s.curgroup
            &&& s.curgroup matches TalkGroup::Other(id) ==> next.encrypted == s.encrypted.insert(
                id,
            ) && next.encrypted.contains(id)
            &&& s.curgroup is Default ==> next.encrypted == s.encrypted
            &&& out == seq![
                Output::<L, T, V>::Audio(AudioEvent::EndTransmission),
                Output::Hub(HubEvent::UpdateCurFreq(s.ctlfreq)),
                Output::Sdr(ControlTaskEvent::SetFreq(s.ctlfreq)),
                Output::Resync,
            ]
        }),
{
    let (next, out) = s.handle_message::<L, T, V>(
        MessageEvent::CryptoControl(CryptoAlgorithm::Encrypted),
    );
    assert(out =~= seq![
        Output::<L, T, V>::Audio(AudioEvent::EndTransmission),
        Output::Hub(HubEvent::UpdateCurFreq(s.ctlfreq)),
        Output::Sdr(ControlTaskEvent::SetFreq(s.ctlfreq)),
        Output::Resync,
    ]);
}

/// A frame-sync record that announces a voice terminator returns the receiver
/// to the control channel and changes nothing else. The audio task is told
/// that the transmission is over, once, and before the retune.
pub proof fn terminator_returns_to_control<L, T, V>(s: RecvState, unit: DataUnit)
    requires
        unit.is_terminator(),
    ensures
        ({
            let (next, out) = s.handle_message::<L, T, V>(MessageEvent::PacketNID(unit));
            &&& next == RecvState { curfreq: s.ctlfreq, ..s }
            &&& next.on_control()
            &&& out == seq![
                Output::<L, T, V>::Audio(AudioEvent::EndTransmission),
                Output::Hub(HubEvent::UpdateCurFreq(s.ctlfreq)),
                Output::Sdr(ControlTaskEvent::SetFreq(s.ctlfreq)),
                Output::Resync,
            ]
            &&& audio_events(out) == seq![AudioEvent::<V>::EndTransmission]
        }),
{
    let out = s.handle_message::<L, T, V>(MessageEvent::PacketNID(unit)).1;
    assert(out =~= seq![
        Output::<L, T, V>::Audio(AudioEvent::EndTransmission),
        Output::Hub(HubEvent::UpdateCurFreq(s.ctlfreq)),
        Output::Sdr(ControlTaskEvent::SetFreq(s.ctlfreq)),
        Output::Resync,
    ]);
    switch_ends_transmission_once(s, RecvEvent::<L, T, V>::Message(MessageEvent::PacketNID(unit)));
}

/// What there is nothing to do about is dropped: decode errors, data fragments,
/// terminator link control, frame-sync records of other data units, link
/// control with an unknown operation, transmissions in the clear, and
/// trunking records that are vendor-specific, fail their checksum or have an
/// unknown operation. None changes the state, none has a message.
pub proof fn noise_is_dropped<L, T, V>(s: RecvState, event: MessageEvent<L, T, V>)
    requires
        match event {
            MessageEvent::Error => true,
            MessageEvent::PacketNID(unit) => !unit.is_terminator(),
            MessageEvent::VoiceHeader(alg) => alg is Unencrypted,
            MessageEvent::VoiceFrame(_) => false,
            MessageEvent::LinkControl { recognized, .. } => !recognized,
            MessageEvent::CryptoControl(alg) => alg is Unencrypted,
            MessageEvent::LowSpeedDataFragment => true,
            MessageEvent::TrunkingControl(tc) => tc.mfg != 0 || !tc.crc_valid || tc.opcode is None,
            MessageEvent::VoiceTerm => true,
        },
    ensures
        s.handle_message(event) == (s, Seq::<Output<L, T, V>>::empty()),
{
}

/// An assignment that is not usable is passed over in silence.
pub proof fn unusable_is_passed_over<L, T, V>(s: RecvState, tg: TalkGroup, freq: Option<u32>)
    requires
        !can_follow(s.encrypted, tg, freq),
    ensures
        s.use_talkgroup::<L, T, V>(tg, freq) == (s, Seq::<Output<L, T, V>>::empty()),
{
}

/// Messages delivered one batch after the other leave the tuner where the
/// second batch leaves it, starting from where the first left it.
pub proof fn tuner_after_both<L, T, V>(
    before: u32,
    early: Seq<Output<L, T, V>>,
    late: Seq<Output<L, T, V>>,
)
    ensures
        tuner_after(before, early + late) == tuner_after(tuner_after(before, early), late),
    decreases late.len(),
{
    if late.len() > 0 {
        assert((early + late).drop_last() == early + late.drop_last());
        tuner_after_both(before, early, late.drop_last());
    }
}

/// The frequency in the state is the one the tuner is told: after any event,
/// a tuner that was at the current frequency before is at the current
/// frequency again once the messages are delivered. Every command to the
/// tuner comes directly after the report of that frequency and directly
/// before the resynchronization of the frame decoder.
pub proof fn tuner_follows_state<L, T, V>(s: RecvState, event: RecvEvent<L, T, V>)
    ensures
        forall|tg: TalkGroup, freq: Option<u32>|
            tuner_after(s.curfreq, #[trigger] s.use_talkgroup::<L, T, V>(tg, freq).1)
                == s.use_talkgroup::<L, T, V>(tg, freq).0.curfreq,
        ({
            let (next, out) = s.handle(event);
            &&& tuner_after(s.curfreq, out) == next.curfreq
            &&& forall|i: int|
                0 <= i < out.len() ==> (#[trigger] out[i] matches Output::Sdr(
                    ControlTaskEvent::SetFreq(freq),
                ) ==> {
                    &&& 0 < i < out.len() - 1
                    &&& out[i - 1] == Output::<L, T, V>::Hub(HubEvent::UpdateCurFreq(freq))
                    &&& out[i + 1] == Output::<L, T, V>::Resync
                })
        }),
{
    reveal_with_fuel(tuner_after, 8);
    match event {
        RecvEvent::Message(MessageEvent::TrunkingControl(tc)) => {
            if tc.accepted() {
                match tc.opcode->Some_0 {
                    TsbkOpcode::GroupVoiceUpdate(updates) => {
                        first_usable_is_usable(s.encrypted, updates@);
                    },
                    _ => {},
                }
            }
        },
        _ => {},
    }
}

/// Through any events, a tuner that was at the current frequency at the
/// start is at the current frequency at the end.
pub proof fn tuner_through<L, T, V>(s: RecvState, events: Seq<RecvEvent<L, T, V>>)
    ensures
        tuner_after(s.curfreq, run(s, events).1) == run(s, events).0.curfreq,
    decreases events.len(),
{
    if events.len() > 0 {
        let (mid, early) = run(s, events.drop_last());
        let late = mid.handle(events.last()).1;
        tuner_through(s, events.drop_last());
        tuner_follows_state(mid, events.last());
        tuner_after_both(s.curfreq, early, late);
    }
}

/// From the first messages of a new task on, the tuner is at the current
/// frequency, wherever it was before and whatever events the task takes.
pub proof fn tuner_never_strays<L, T, V>(
    before: u32,
    freq: u32,
    events: Seq<RecvEvent<L, T, V>>,
)
    ensures
        ({
            let (first, told) = RecvState::start::<L, T, V>(freq);
            let (now, out) = run(first, events);
            tuner_after(before, told + out) == now.curfreq
        }),
{
    let (first, told) = RecvState::start::<L, T, V>(freq);
    assert(tuner_after(before, told) == first.curfreq) by {
        reveal_with_fuel(tuner_after, 8);
    }
    tuner_through(first, events);
    tuner_after_both(before, told, run(first, events).1);
}

/// Taking events in two batches is taking them all.
pub proof fn run_in_two<L, T, V>(
    s: RecvState,
    first: Seq<RecvEvent<L, T, V>>,
    second: Seq<RecvEvent<L, T, V>>,
)
    ensures
        run(s, first + second) == (
            run(run(s, first).0, second).0,
            run(s, first).1 + run(run(s, first).0, second).1,
        ),
    decreases second.len(),
{
    if second.len() > 0 {
        assert((first + second).drop_last() == first + second.drop_last());
        run_in_two(s, first, second.drop_last());
    }
}

/// The audio events of two batches of messages are those of the first, then
/// those of the second.
pub proof fn audio_events_of_both<L, T, V>(early: Seq<Output<L, T, V>>, late: Seq<Output<L, T, V>>)
    ensures
        audio_events(early + late) == audio_events(early) + audio_events(late),
    decreases late.len(),
{
    if late.len() > 0 {
        assert((early + late).drop_last() == early + late.drop_last());
        audio_events_of_both(early, late.drop_last());
        match late.last() {
            Output::Audio(event) => {
                assert((audio_events(early) + audio_events(late.drop_last())).push(event)
                    == audio_events(early) + audio_events(late.drop_last()).push(event));
            },
            _ => {},
        }
    }
}

/// A run of voice frames leaves the state alone and reaches the audio task
/// frame by frame, in order.
pub proof fn voice_frames_pass_through<L, T, V>(s: RecvState, frames: Seq<V>)
    ensures
        run(s, voice_frames::<L, T, V>(frames)).0 == s,
        audio_events(run(s, voice_frames::<L, T, V>(frames)).1) == Seq::new(
            frames.len(),
            |i: int| AudioEvent::VoiceFrame(frames[i]),
        ),
    decreases frames.len(),
{
    let events = voice_frames::<L, T, V>(frames);
    if frames.len() > 0 {
        let rest = frames.drop_last();
        assert(events.drop_last() == voice_frames::<L, T, V>(rest));
        voice_frames_pass_through::<L, T, V>(s, rest);
        let early = run(s, events.drop_last()).1;
        let late = seq![Output::<L, T, V>::Audio(AudioEvent::VoiceFrame(frames.last()))];
        audio_events_of_both(early, late);
        reveal_with_fuel(audio_events, 2);
    }
}

/// A decoder that was given a run of voice frames and nothing else has
/// decoded just these frames.
pub proof fn history_of_frames<V>(frames: Seq<V>)
    ensures
        decoder_history(schedule(Seq::new(frames.len(), |i: int| AudioEvent::VoiceFrame(frames[i]))))
            == frames,
    decreases frames.len(),
{
    let audio = Seq::new(frames.len(), |i: int| AudioEvent::VoiceFrame(frames[i]));
    if frames.len() > 0 {
        let rest = frames.drop_last();
        assert(audio.drop_last() == Seq::new(rest.len(), |i: int| AudioEvent::VoiceFrame(rest[i])));
        history_of_frames(rest);
        history_after_event(schedule(audio.drop_last()), audio.last());
    }
}

/// An event that makes the task switch to control tells the audio task once
/// that the transmission is over, and has no other event for it.
pub proof fn switch_ends_transmission_once<L, T, V>(s: RecvState, end: RecvEvent<L, T, V>)
    requires
        ends_call(end),
    ensures
        audio_events(s.handle(end).1) == seq![AudioEvent::<V>::EndTransmission],
{
    let retune = seq![
        Output::<L, T, V>::Hub(HubEvent::UpdateCurFreq(s.handle(end).0.curfreq)),
        Output::Sdr(ControlTaskEvent::SetFreq(s.handle(end).0.curfreq)),
        Output::Resync,
    ];
    let told = seq![Output::<L, T, V>::Audio(AudioEvent::EndTransmission)];
    assert(audio_events(retune) =~= Seq::<AudioEvent<V>>::empty()) by {
        reveal_with_fuel(audio_events, 4);
    }
    assert(audio_events(told) =~= seq![AudioEvent::<V>::EndTransmission]) by {
        reveal_with_fuel(audio_events, 2);
    }
    audio_events_of_both(told, retune);
    match end {
        RecvEvent::SetControlFreq(freq) => {
            let report = seq![
                Output::<L, T, V>::Hub(HubEvent::State(StateEvent::UpdateCtlFreq(freq))),
            ];
            assert(audio_events(report) =~= Seq::<AudioEvent<V>>::empty()) by {
                reveal_with_fuel(audio_events, 2);
            }
            audio_events_of_both(report, told + retune);
        },
        _ => {},
    }
}

/// Every call is decoded from a fresh start. Whatever the task has been
/// through, once an event has made it switch to control, the voice frames
/// that follow reach a decoder that has decoded nothing before them.
pub proof fn next_call_starts_afresh<L, T, V>(
    s: RecvState,
    before: Seq<RecvEvent<L, T, V>>,
    end: RecvEvent<L, T, V>,
    frames: Seq<V>,
)
    requires
        ends_call(end),
    ensures
        decoder_history(
            schedule(audio_events(run(s, before.push(end) + voice_frames(frames)).1)),
        ) == frames,
{
    let ended = before.push(end);
    let (mid, early) = run(s, ended);
    let late = run(mid, voice_frames::<L, T, V>(frames)).1;
    run_in_two(s, ended, voice_frames::<L, T, V>(frames));
    audio_events_of_both(early, late);
    voice_frames_pass_through::<L, T, V>(mid, frames);

    let (prior, sent) = run(s, before);
    let last = prior.handle(end).1;
    assert(ended.drop_last() == before);
    audio_events_of_both(sent, last);
    switch_ends_transmission_once(prior, end);
    assert(audio_events(sent) + seq![AudioEvent::<V>::EndTransmission] == audio_events(sent).push(
        AudioEvent::EndTransmission,
    ));

    let audio = Seq::new(frames.len(), |i: int| AudioEvent::VoiceFrame(frames[i]));
    end_of_transmission_isolates(audio_events(sent), audio);
    history_of_frames(frames);
}

/// What the monitoring consumer has been told of the receiver.
pub struct Monitor {
    /// Frequency (Hz) of the control channel.
    pub ctlfreq: u32,
    /// Frequency (Hz) that the receiver is tuned to.
    pub curfreq: u32,
    /// The talkgroup followed last.
    pub curgroup: TalkGroup,
}

/// What a monitor that knows all of state `s` has been told.
pub open spec fn informed(s: RecvState) -> Monitor {
    Monitor { ctlfreq: s.ctlfreq, curfreq: s.curfreq, curgroup: s.curgroup }
}

/// What the monitor has been told once the messages are delivered, having
/// been told `seen` before.
pub open spec fn monitor_after<L, T, V>(seen: Monitor, out: Seq<Output<L, T, V>>) -> Monitor
    decreases out.len(),
{
    if out.len() == 0 {
        seen
    } else {
        let earlier = monitor_after(seen, out.drop_last());
        match out.last() {
            Output::Hub(HubEvent::State(StateEvent::UpdateCtlFreq(freq))) => Monitor {
                ctlfreq: freq,
                ..earlier
            },
            Output::Hub(HubEvent::UpdateCurFreq(freq)) => Monitor { curfreq: freq, ..earlier },
            Output::Hub(HubEvent::UpdateTalkGroup(tg)) => Monitor { curgroup: tg, ..earlier },
            _ => earlier,
        }
    }
}

/// Messages delivered one batch after the other tell the monitor what the
/// second batch tells one who has taken in the first.
pub proof fn monitor_after_both<L, T, V>(
    seen: Monitor,
    early: Seq<Output<L, T, V>>,
    late: Seq<Output<L, T, V>>,
)
    ensures
        monitor_after(seen, early + late) == monitor_after(monitor_after(seen, early), late),
    decreases late.len(),
{
    if late.len() > 0 {
        assert((early + late).drop_last() == early + late.drop_last());
        monitor_after_both(seen, early, late.drop_last());
    }
}

/// Nothing changes behind the back of the monitor: a monitor that knew the
/// control channel, the current frequency and the talkgroup before an event
/// knows them after it, from the reports among its messages.
pub proof fn monitor_follows_state<L, T, V>(s: RecvState, event: RecvEvent<L, T, V>)
    ensures
        monitor_after(informed(s), s.handle(event).1) == informed(s.handle(event).0),
        forall|tg: TalkGroup, freq: Option<u32>|
            monitor_after(informed(s), #[trigger] s.use_talkgroup::<L, T, V>(tg, freq).1)
                == informed(s.use_talkgroup::<L, T, V>(tg, freq).0),
{
    reveal_with_fuel(monitor_after, 8);
    match event {
        RecvEvent::Message(MessageEvent::TrunkingControl(tc)) => {
            if tc.accepted() {
                match tc.opcode->Some_0 {
                    TsbkOpcode::GroupVoiceUpdate(updates) => {
                        first_usable_is_usable(s.encrypted, updates@);
                    },
                    _ => {},
                }
            }
        },
        _ => {},
    }
}

/// Through any events, a monitor that knew the state at the start knows it at
/// the end.
pub proof fn monitor_through<L, T, V>(s: RecvState, events: Seq<RecvEvent<L, T, V>>)
    ensures
        monitor_after(informed(s), run(s, events).1) == informed(run(s, events).0),
    decreases events.len(),
{
    if events.len() > 0 {
        let (mid, early) = run(s, events.drop_last());
        let late = mid.handle(events.last()).1;
        monitor_through(s, events.drop_last());
        monitor_follows_state(mid, events.last());
        monitor_after_both(informed(s), early, late);
    }
}

/// From its first message on, the monitor knows the control channel, the
/// current frequency and the talkgroup, whatever events the task takes.
pub proof fn monitor_is_never_stale<L, T, V>(freq: u32, events: Seq<RecvEvent<L, T, V>>)
    ensures
        ({
            let (first, told) = RecvState::start::<L, T, V>(freq);
            let (now, out) = run(first, events);
            monitor_after(informed(RecvState::blank()), told + out) == informed(now)
        }),
{
    let (first, told) = RecvState::start::<L, T, V>(freq);
    assert(monitor_after(informed(RecvState::blank()), told) == informed(first)) by {
        reveal_with_fuel(monitor_after, 8);
    }
    monitor_through(first, events);
    monitor_after_both(informed(RecvState::blank()), told, run(first, events).1);
}

} // verus!
