use p25rx::audio::{render, AudioCommand, AudioEvent};
use p25rx::hub::{HubEvent, StateEvent};
use p25rx::message::{
    Assignment, CryptoAlgorithm, DataUnit, MessageEvent, TalkGroup, TrunkingControl, TsbkOpcode,
};
use p25rx::recv::{Output, RecvEvent, RecvTask};
use p25rx::sdr::ControlTaskEvent;

type Out = Output<&'static str, u32, u8>;
type Msg = MessageEvent<&'static str, u32, u8>;

const CONTROL: u32 = 851_012_500;
const TRAFFIC_A: u32 = 852_375_000;
const TRAFFIC_B: u32 = 853_600_000;

fn started(freq: u32) -> RecvTask {
    let mut out: Vec<Out> = Vec::new();
    RecvTask::new(freq, &mut out)
}

fn feed(task: &mut RecvTask, event: Msg) -> Vec<Out> {
    let mut out: Vec<Out> = Vec::new();
    task.handle_message(event, &mut out);
    out
}

fn pair(talkgroup: TalkGroup, freq: Option<u32>) -> Assignment {
    Assignment { talkgroup, freq }
}

fn record(mfg: u8, crc_valid: bool, opcode: Option<TsbkOpcode>, record: u32) -> Msg {
    MessageEvent::TrunkingControl(TrunkingControl { mfg, crc_valid, opcode, record })
}

fn group_update(pairs: Vec<Assignment>, raw: u32) -> Msg {
    record(0, true, Some(TsbkOpcode::GroupVoiceUpdate(pairs)), raw)
}

fn retune(freq: u32) -> Vec<Out> {
    vec![
        Output::Hub(HubEvent::UpdateCurFreq(freq)),
        Output::Sdr(ControlTaskEvent::SetFreq(freq)),
        Output::Resync,
    ]
}

fn to_control(freq: u32) -> Vec<Out> {
    let mut out: Vec<Out> = vec![Output::Audio(AudioEvent::EndTransmission)];
    out.extend(retune(freq));
    out
}

fn followed(raw: u32, tg: TalkGroup, freq: u32) -> Vec<Out> {
    let mut out: Vec<Out> = vec![Output::Hub(HubEvent::TrunkingControl(raw))];
    out.extend(retune(freq));
    out.push(Output::Hub(HubEvent::UpdateTalkGroup(tg)));
    out
}

fn is_voice_frame(msg: &Out) -> bool {
    matches!(msg, Output::Audio(AudioEvent::VoiceFrame(_)))
}

#[test]
fn construction_switches_to_control() {
    let mut out: Vec<Out> = Vec::new();
    let task = RecvTask::new(CONTROL, &mut out);
    assert_eq!(
        out,
        vec![
            Output::Hub(HubEvent::State(StateEvent::UpdateCtlFreq(CONTROL))),
            Output::Audio(AudioEvent::EndTransmission),
            Output::Hub(HubEvent::UpdateCurFreq(CONTROL)),
            Output::Sdr(ControlTaskEvent::SetFreq(CONTROL)),
            Output::Resync,
        ]
    );
    let reports = out.iter().filter(|m| **m == Output::Hub(HubEvent::UpdateCurFreq(CONTROL)));
    assert_eq!(reports.count(), 1);
    let commands = out.iter().filter(|m| **m == Output::Sdr(ControlTaskEvent::SetFreq(CONTROL)));
    assert_eq!(commands.count(), 1);
    assert!(!out.iter().any(is_voice_frame));
    assert_eq!(task.ctlfreq(), CONTROL);
    assert_eq!(task.curfreq(), CONTROL);
    assert_eq!(task.curgroup(), TalkGroup::Default);
    assert!(task.on_control());
    assert!(!task.is_encrypted(0));
    assert!(!task.is_encrypted(1234));
}

#[test]
fn construction_appends_to_what_is_queued() {
    let mut out: Vec<Out> = vec![Output::Resync];
    let _task = RecvTask::new(CONTROL, &mut out);
    assert_eq!(out.len(), 6);
    assert_eq!(out[0], Output::Resync);
    assert_eq!(out[1], Output::Hub(HubEvent::State(StateEvent::UpdateCtlFreq(CONTROL))));
}

#[test]
fn override_ends_transmission_then_retunes() {
    let mut task = started(CONTROL);
    let mut out: Vec<Out> = Vec::new();
    task.handle(RecvEvent::SetControlFreq(TRAFFIC_B), &mut out);
    assert_eq!(
        out,
        vec![
            Output::Hub(HubEvent::State(StateEvent::UpdateCtlFreq(TRAFFIC_B))),
            Output::Audio(AudioEvent::EndTransmission),
            Output::Hub(HubEvent::UpdateCurFreq(TRAFFIC_B)),
            Output::Sdr(ControlTaskEvent::SetFreq(TRAFFIC_B)),
            Output::Resync,
        ]
    );
    assert_eq!(task.ctlfreq(), TRAFFIC_B);
    assert_eq!(task.curfreq(), TRAFFIC_B);
    assert!(task.on_control());
}

#[test]
fn override_while_on_traffic_returns_to_new_control() {
    let mut task = started(CONTROL);
    feed(&mut task, group_update(vec![pair(TalkGroup::Other(7), Some(TRAFFIC_A))], 1));
    assert!(!task.on_control());
    let mut out: Vec<Out> = Vec::new();
    task.set_control_freq(TRAFFIC_B, &mut out);
    assert_eq!(out[1], Output::Audio(AudioEvent::EndTransmission));
    assert_eq!(out[3], Output::Sdr(ControlTaskEvent::SetFreq(TRAFFIC_B)));
    assert_eq!(task.curfreq(), TRAFFIC_B);
    assert_eq!(task.curgroup(), TalkGroup::Other(7));
}

#[test]
fn first_pair_wins_over_later_pairs() {
    let mut task = started(CONTROL);
    let out = feed(
        &mut task,
        group_update(
            vec![pair(TalkGroup::Other(100), Some(TRAFFIC_A)), pair(TalkGroup::Other(200), Some(TRAFFIC_B))],
            0xabcd,
        ),
    );
    assert_eq!(out, followed(0xabcd, TalkGroup::Other(100), TRAFFIC_A));
    assert_eq!(task.curgroup(), TalkGroup::Other(100));
    assert_eq!(task.curfreq(), TRAFFIC_A);
    assert_eq!(task.ctlfreq(), CONTROL);
    assert!(!task.on_control());
}

#[test]
fn unresolvable_first_pair_falls_through() {
    let mut task = started(CONTROL);
    let out = feed(
        &mut task,
        group_update(
            vec![pair(TalkGroup::Other(100), None), pair(TalkGroup::Other(200), Some(TRAFFIC_B))],
            5,
        ),
    );
    assert_eq!(out, followed(5, TalkGroup::Other(200), TRAFFIC_B));
    assert_eq!(task.curgroup(), TalkGroup::Other(200));
    assert_eq!(task.curfreq(), TRAFFIC_B);
}

#[test]
fn encrypted_first_pair_falls_through() {
    let mut task = started(CONTROL);
    feed(&mut task, group_update(vec![pair(TalkGroup::Other(100), Some(TRAFFIC_A))], 1));
    feed(&mut task, MessageEvent::CryptoControl(CryptoAlgorithm::Encrypted));
    assert!(task.is_encrypted(100));
    let out = feed(
        &mut task,
        group_update(
            vec![pair(TalkGroup::Other(100), Some(TRAFFIC_A)), pair(TalkGroup::Other(200), Some(TRAFFIC_B))],
            2,
        ),
    );
    assert_eq!(out, followed(2, TalkGroup::Other(200), TRAFFIC_B));
    assert_eq!(task.curgroup(), TalkGroup::Other(200));
    assert_eq!(task.curfreq(), TRAFFIC_B);
}

#[test]
fn third_pair_is_reached_when_two_fail() {
    let mut task = started(CONTROL);
    let out = feed(
        &mut task,
        group_update(
            vec![
                pair(TalkGroup::Other(1), None),
                pair(TalkGroup::Default, None),
                pair(TalkGroup::Other(3), Some(TRAFFIC_A)),
                pair(TalkGroup::Other(4), Some(TRAFFIC_B)),
            ],
            9,
        ),
    );
    assert_eq!(out, followed(9, TalkGroup::Other(3), TRAFFIC_A));
}

#[test]
fn no_usable_pair_reports_record_only() {
    let mut task = started(CONTROL);
    let out = feed(
        &mut task,
        group_update(vec![pair(TalkGroup::Other(1), None), pair(TalkGroup::Other(2), None)], 77),
    );
    assert_eq!(out, vec![Output::Hub(HubEvent::TrunkingControl(77))]);
    assert_eq!(task.curfreq(), CONTROL);
    assert_eq!(task.curgroup(), TalkGroup::Default);
}

#[test]
fn empty_update_reports_record_only() {
    let mut task = started(CONTROL);
    let out = feed(&mut task, group_update(vec![], 78));
    assert_eq!(out, vec![Output::Hub(HubEvent::TrunkingControl(78))]);
    assert!(task.on_control());
}

#[test]
fn default_talkgroup_can_be_followed() {
    let mut task = started(CONTROL);
    let out = feed(&mut task, group_update(vec![pair(TalkGroup::Default, Some(TRAFFIC_A))], 3));
    assert_eq!(out, followed(3, TalkGroup::Default, TRAFFIC_A));
    assert_eq!(task.curgroup(), TalkGroup::Default);
    assert_eq!(task.curfreq(), TRAFFIC_A);
}

#[test]
fn encrypted_talkgroup_is_never_followed_again() {
    let mut task = started(CONTROL);
    feed(&mut task, group_update(vec![pair(TalkGroup::Other(42), Some(TRAFFIC_A))], 1));
    assert_eq!(task.curfreq(), TRAFFIC_A);
    feed(&mut task, MessageEvent::VoiceHeader(CryptoAlgorithm::Encrypted));
    assert!(task.is_encrypted(42));
    assert_eq!(task.curfreq(), CONTROL);

    let mut later: Vec<Out> = Vec::new();
    for round in 0..20u32 {
        let out = feed(
            &mut task,
            group_update(vec![pair(TalkGroup::Other(42), Some(TRAFFIC_A + round))], round),
        );
        assert_eq!(out, vec![Output::Hub(HubEvent::TrunkingControl(round))]);
        later.extend(out);
        later.extend(feed(&mut task, MessageEvent::VoiceFrame(3)));
        later.extend(feed(&mut task, MessageEvent::PacketNID(DataUnit::VoiceLCTerminator)));
        later.extend(feed(&mut task, MessageEvent::Error));
        let mut out: Vec<Out> = Vec::new();
        task.handle(RecvEvent::SetControlFreq(CONTROL), &mut out);
        later.extend(out);
        assert!(task.is_encrypted(42));
        assert_eq!(task.curfreq(), CONTROL);
    }
    for msg in later.iter() {
        if let Output::Sdr(ControlTaskEvent::SetFreq(freq)) = msg {
            assert_eq!(*freq, CONTROL);
        }
        assert_ne!(*msg, Output::Hub(HubEvent::UpdateTalkGroup(TalkGroup::Other(42))));
    }
}

#[test]
fn other_talkgroups_stay_usable_after_one_is_encrypted() {
    let mut task = started(CONTROL);
    feed(&mut task, group_update(vec![pair(TalkGroup::Other(42), Some(TRAFFIC_A))], 1));
    feed(&mut task, MessageEvent::CryptoControl(CryptoAlgorithm::Encrypted));
    assert!(task.is_encrypted(42));
    assert!(!task.is_encrypted(43));
    assert!(!task.is_encrypted(41));
    assert!(!task.is_encrypted(0));
    let out = feed(&mut task, group_update(vec![pair(TalkGroup::Other(43), Some(TRAFFIC_B))], 2));
    assert_eq!(out, followed(2, TalkGroup::Other(43), TRAFFIC_B));
}

#[test]
fn encryption_blacklists_and_returns_to_control() {
    let mut task = started(CONTROL);
    feed(&mut task, group_update(vec![pair(TalkGroup::Other(9), Some(TRAFFIC_A))], 1));
    assert!(!task.is_encrypted(9));
    let out = feed(&mut task, MessageEvent::CryptoControl(CryptoAlgorithm::Encrypted));
    assert_eq!(out, to_control(CONTROL));
    let end = out.iter().position(|m| *m == Output::Audio(AudioEvent::EndTransmission));
    let tune = out.iter().position(|m| *m == Output::Sdr(ControlTaskEvent::SetFreq(CONTROL)));
    assert_eq!(end, Some(0));
    assert_eq!(tune, Some(2));
    assert!(task.is_encrypted(9));
    assert_eq!(task.curfreq(), CONTROL);
    assert!(task.on_control());
    assert_eq!(task.curgroup(), TalkGroup::Other(9));
}

#[test]
fn encrypted_voice_header_acts_like_crypto_control() {
    let mut task = started(CONTROL);
    feed(&mut task, group_update(vec![pair(TalkGroup::Other(9), Some(TRAFFIC_A))], 1));
    let out = feed(&mut task, MessageEvent::VoiceHeader(CryptoAlgorithm::Encrypted));
    assert_eq!(out, to_control(CONTROL));
    assert!(task.is_encrypted(9));
    assert!(task.on_control());
}

#[test]
fn encryption_on_default_talkgroup_blacklists_nothing() {
    let mut task = started(CONTROL);
    feed(&mut task, group_update(vec![pair(TalkGroup::Default, Some(TRAFFIC_A))], 1));
    let out = feed(&mut task, MessageEvent::CryptoControl(CryptoAlgorithm::Encrypted));
    assert_eq!(out, to_control(CONTROL));
    assert!(task.on_control());
    for id in [0u16, 1, 9, 65535] {
        assert!(!task.is_encrypted(id));
    }
    let out = feed(&mut task, group_update(vec![pair(TalkGroup::Default, Some(TRAFFIC_B))], 2));
    assert_eq!(out, followed(2, TalkGroup::Default, TRAFFIC_B));
}

#[test]
fn unencrypted_transmission_changes_nothing() {
    let mut task = started(CONTROL);
    feed(&mut task, group_update(vec![pair(TalkGroup::Other(9), Some(TRAFFIC_A))], 1));
    assert_eq!(feed(&mut task, MessageEvent::VoiceHeader(CryptoAlgorithm::Unencrypted)), vec![]);
    assert_eq!(feed(&mut task, MessageEvent::CryptoControl(CryptoAlgorithm::Unencrypted)), vec![]);
    assert_eq!(task.curfreq(), TRAFFIC_A);
    assert!(!task.is_encrypted(9));
}

#[test]
fn terminators_return_to_control_with_one_end_of_transmission() {
    for unit in [DataUnit::VoiceLCTerminator, DataUnit::VoiceSimpleTerminator] {
        let mut task = started(CONTROL);
        feed(&mut task, group_update(vec![pair(TalkGroup::Other(9), Some(TRAFFIC_A))], 1));
        assert_eq!(task.curfreq(), TRAFFIC_A);
        assert!(unit.terminates());
        let out = feed(&mut task, MessageEvent::PacketNID(unit));
        assert_eq!(out, to_control(CONTROL));
        let ends = out.iter().filter(|m| **m == Output::Audio(AudioEvent::EndTransmission));
        assert_eq!(ends.count(), 1);
        assert_eq!(task.curfreq(), CONTROL);
        assert!(task.on_control());
        assert!(!task.is_encrypted(9));
        assert_eq!(task.curgroup(), TalkGroup::Other(9));
    }
}

#[test]
fn other_data_units_change_nothing() {
    let mut task = started(CONTROL);
    feed(&mut task, group_update(vec![pair(TalkGroup::Other(9), Some(TRAFFIC_A))], 1));
    assert!(!DataUnit::Other.terminates());
    assert_eq!(feed(&mut task, MessageEvent::PacketNID(DataUnit::Other)), vec![]);
    assert_eq!(task.curfreq(), TRAFFIC_A);
    assert!(!task.on_control());
}

#[test]
fn voice_frames_are_forwarded_in_order() {
    let mut task = started(CONTROL);
    let mut out: Vec<Out> = Vec::new();
    task.handle_message(MessageEvent::VoiceFrame(11), &mut out);
    task.handle_message(MessageEvent::VoiceFrame(12), &mut out);
    task.handle_message(MessageEvent::PacketNID(DataUnit::VoiceSimpleTerminator), &mut out);
    task.handle_message(MessageEvent::VoiceFrame(13), &mut out);
    let audio: Vec<&Out> = out.iter().filter(|m| matches!(m, Output::Audio(_))).collect();
    assert_eq!(
        audio,
        vec![
            &Output::Audio(AudioEvent::VoiceFrame(11)),
            &Output::Audio(AudioEvent::VoiceFrame(12)),
            &Output::Audio(AudioEvent::EndTransmission),
            &Output::Audio(AudioEvent::VoiceFrame(13)),
        ]
    );
}

#[test]
fn recognized_link_control_is_reported() {
    let mut task = started(CONTROL);
    let out = feed(&mut task, MessageEvent::LinkControl { recognized: true, record: "lc" });
    assert_eq!(out, vec![Output::Hub(HubEvent::LinkControl("lc"))]);
    assert!(task.on_control());
}

#[test]
fn unrecognized_link_control_is_dropped() {
    let mut task = started(CONTROL);
    let out = feed(&mut task, MessageEvent::LinkControl { recognized: false, record: "lc" });
    assert_eq!(out, vec![]);
}

#[test]
fn errors_fragments_and_terminator_link_control_are_ignored() {
    let mut task = started(CONTROL);
    feed(&mut task, group_update(vec![pair(TalkGroup::Other(9), Some(TRAFFIC_A))], 1));
    assert_eq!(feed(&mut task, MessageEvent::Error), vec![]);
    assert_eq!(feed(&mut task, MessageEvent::LowSpeedDataFragment), vec![]);
    assert_eq!(feed(&mut task, MessageEvent::VoiceTerm), vec![]);
    assert_eq!(task.curfreq(), TRAFFIC_A);
    assert_eq!(task.curgroup(), TalkGroup::Other(9));
}

#[test]
fn vendor_specific_record_is_dropped() {
    let mut task = started(CONTROL);
    let pairs = vec![pair(TalkGroup::Other(9), Some(TRAFFIC_A))];
    let out = feed(&mut task, record(0x90, true, Some(TsbkOpcode::GroupVoiceUpdate(pairs)), 1));
    assert_eq!(out, vec![]);
    assert!(task.on_control());
    assert_eq!(task.curgroup(), TalkGroup::Default);
}

#[test]
fn record_with_bad_checksum_is_dropped() {
    let mut task = started(CONTROL);
    let pairs = vec![pair(TalkGroup::Other(9), Some(TRAFFIC_A))];
    let out = feed(&mut task, record(0, false, Some(TsbkOpcode::GroupVoiceUpdate(pairs)), 1));
    assert_eq!(out, vec![]);
    assert!(task.on_control());
    assert_eq!(feed(&mut task, record(0, false, Some(TsbkOpcode::ChannelParamsUpdate), 2)), vec![]);
}

#[test]
fn record_with_unknown_operation_is_dropped() {
    let mut task = started(CONTROL);
    assert_eq!(feed(&mut task, record(0, true, None, 1)), vec![]);
    assert!(task.on_control());
}

#[test]
fn channel_parameters_are_merged_and_reported() {
    let mut task = started(CONTROL);
    let out = feed(&mut task, record(0, true, Some(TsbkOpcode::ChannelParamsUpdate), 0x3d));
    assert_eq!(
        out,
        vec![
            Output::Hub(HubEvent::TrunkingControl(0x3d)),
            Output::MergeChannelParams(0x3d),
            Output::Hub(HubEvent::State(StateEvent::UpdateChannelParams(0x3d))),
        ]
    );
    assert!(task.on_control());
    assert_eq!(task.curgroup(), TalkGroup::Default);
}

#[test]
fn other_operations_are_reported_only() {
    let mut task = started(CONTROL);
    let out = feed(&mut task, record(0, true, Some(TsbkOpcode::Other), 0x3a));
    assert_eq!(out, vec![Output::Hub(HubEvent::TrunkingControl(0x3a))]);
    assert!(task.on_control());
}

#[test]
fn use_talkgroup_reports_success_and_failure() {
    let mut task = started(CONTROL);
    let mut out: Vec<Out> = Vec::new();
    assert!(!task.use_talkgroup(TalkGroup::Other(5), None, &mut out));
    assert_eq!(out, vec![]);
    assert_eq!(task.curgroup(), TalkGroup::Default);
    assert!(task.use_talkgroup(TalkGroup::Other(5), Some(TRAFFIC_A), &mut out));
    let mut expected = retune(TRAFFIC_A);
    expected.push(Output::Hub(HubEvent::UpdateTalkGroup(TalkGroup::Other(5))));
    assert_eq!(out, expected);
    assert_eq!(task.curgroup(), TalkGroup::Other(5));
    assert_eq!(task.curfreq(), TRAFFIC_A);

    feed(&mut task, MessageEvent::CryptoControl(CryptoAlgorithm::Encrypted));
    let mut out: Vec<Out> = Vec::new();
    assert!(!task.use_talkgroup(TalkGroup::Other(5), Some(TRAFFIC_A), &mut out));
    assert_eq!(out, vec![]);
    assert_eq!(task.curfreq(), CONTROL);
}

#[test]
fn tuner_commands_follow_the_current_frequency() {
    let mut task = started(CONTROL);
    let events: Vec<Msg> = vec![
        group_update(vec![pair(TalkGroup::Other(1), Some(TRAFFIC_A))], 1),
        MessageEvent::VoiceFrame(1),
        MessageEvent::PacketNID(DataUnit::VoiceLCTerminator),
        record(0, true, Some(TsbkOpcode::ChannelParamsUpdate), 2),
        group_update(vec![pair(TalkGroup::Other(2), Some(TRAFFIC_B))], 3),
        MessageEvent::CryptoControl(CryptoAlgorithm::Encrypted),
        group_update(vec![pair(TalkGroup::Other(2), Some(TRAFFIC_B))], 4),
    ];
    let mut tuner = task.curfreq();
    for event in events {
        let out = feed(&mut task, event);
        for (i, msg) in out.iter().enumerate() {
            if let Output::Sdr(ControlTaskEvent::SetFreq(freq)) = msg {
                tuner = *freq;
                assert_eq!(out[i - 1], Output::Hub(HubEvent::UpdateCurFreq(*freq)));
                assert_eq!(out[i + 1], Output::Resync);
            }
        }
        assert_eq!(tuner, task.curfreq());
    }
    assert_eq!(tuner, CONTROL);
}

#[test]
fn queue_event_with_message_is_handled_as_the_message() {
    let mut task = started(CONTROL);
    let mut out: Vec<Out> = Vec::new();
    task.handle(
        RecvEvent::Message(group_update(vec![pair(TalkGroup::Other(8), Some(TRAFFIC_A))], 6)),
        &mut out,
    );
    assert_eq!(out, followed(6, TalkGroup::Other(8), TRAFFIC_A));
}

#[test]
fn replay_takes_only_voice_frames() {
    let frame: Msg = MessageEvent::VoiceFrame(21);
    assert_eq!(frame.voice_frame(), Some(21));
    let others: Vec<Msg> = vec![
        MessageEvent::Error,
        MessageEvent::PacketNID(DataUnit::VoiceLCTerminator),
        MessageEvent::VoiceHeader(CryptoAlgorithm::Encrypted),
        MessageEvent::LinkControl { recognized: true, record: "lc" },
        MessageEvent::CryptoControl(CryptoAlgorithm::Unencrypted),
        MessageEvent::LowSpeedDataFragment,
        record(0, true, Some(TsbkOpcode::Other), 1),
        MessageEvent::VoiceTerm,
    ];
    for event in others {
        assert_eq!(event.voice_frame(), None);
    }
}

#[test]
fn each_call_is_rendered_from_a_reset() {
    let mut task = started(CONTROL);
    let events: Vec<Msg> = vec![
        group_update(vec![pair(TalkGroup::Other(1), Some(TRAFFIC_A))], 1),
        MessageEvent::VoiceFrame(1),
        MessageEvent::VoiceFrame(2),
        MessageEvent::PacketNID(DataUnit::VoiceSimpleTerminator),
        group_update(vec![pair(TalkGroup::Other(2), Some(TRAFFIC_B))], 2),
        MessageEvent::VoiceFrame(3),
        MessageEvent::VoiceFrame(4),
        MessageEvent::VoiceFrame(5),
    ];
    let mut commands: Vec<AudioCommand<u8>> = Vec::new();
    for event in events {
        for msg in feed(&mut task, event) {
            if let Output::Audio(audio) = msg {
                commands.extend(render(audio));
            }
        }
    }
    assert_eq!(
        commands,
        vec![
            AudioCommand::Play(1),
            AudioCommand::Play(2),
            AudioCommand::Flush,
            AudioCommand::Reset,
            AudioCommand::Play(3),
            AudioCommand::Play(4),
            AudioCommand::Play(5),
        ]
    );
}

#[test]
fn later_pairs_are_not_tried_after_a_success() {
    let mut task = started(CONTROL);
    let out = feed(
        &mut task,
        group_update(
            vec![
                pair(TalkGroup::Other(1), Some(TRAFFIC_A)),
                pair(TalkGroup::Other(2), Some(TRAFFIC_B)),
                pair(TalkGroup::Other(3), Some(CONTROL)),
            ],
            4,
        ),
    );
    let tunes = out.iter().filter(|m| matches!(m, Output::Sdr(_))).count();
    assert_eq!(tunes, 1);
    let reports = out.iter().filter(|m| matches!(m, Output::Hub(HubEvent::UpdateTalkGroup(_))));
    assert_eq!(reports.count(), 1);
    assert_eq!(task.curgroup(), TalkGroup::Other(1));
    assert_eq!(task.curfreq(), TRAFFIC_A);
}

#[test]
fn reports_keep_the_monitor_informed() {
    let mut out: Vec<Out> = Vec::new();
    let mut task = RecvTask::new(CONTROL, &mut out);
    let events: Vec<RecvEvent<&'static str, u32, u8>> = vec![
        RecvEvent::Message(group_update(vec![pair(TalkGroup::Other(1), Some(TRAFFIC_A))], 1)),
        RecvEvent::Message(MessageEvent::VoiceFrame(1)),
        RecvEvent::SetControlFreq(TRAFFIC_B),
        RecvEvent::Message(group_update(vec![pair(TalkGroup::Default, Some(TRAFFIC_A))], 2)),
        RecvEvent::Message(MessageEvent::VoiceHeader(CryptoAlgorithm::Encrypted)),
        RecvEvent::Message(MessageEvent::LinkControl { recognized: true, record: "lc" }),
    ];
    let mut ctlfreq = u32::MAX;
    let mut curfreq = u32::MAX;
    let mut curgroup = TalkGroup::Default;
    let mut pending = events.into_iter();
    loop {
        for msg in out.drain(..) {
            match msg {
                Output::Hub(HubEvent::State(StateEvent::UpdateCtlFreq(freq))) => ctlfreq = freq,
                Output::Hub(HubEvent::UpdateCurFreq(freq)) => curfreq = freq,
                Output::Hub(HubEvent::UpdateTalkGroup(tg)) => curgroup = tg,
                _ => {},
            }
        }
        assert_eq!(ctlfreq, task.ctlfreq());
        assert_eq!(curfreq, task.curfreq());
        assert_eq!(curgroup, task.curgroup());
        match pending.next() {
            Some(event) => task.handle(event, &mut out),
            None => break,
        }
    }
    assert_eq!(task.ctlfreq(), TRAFFIC_B);
    assert_eq!(task.curfreq(), TRAFFIC_B);
    assert_eq!(task.curgroup(), TalkGroup::Default);
}
