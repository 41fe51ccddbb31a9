//! The audio task: what it does with each voice event, and how samples are
//! laid out on the output stream.
//!
//! The task owns one voice decoder and one output stream. Decoding a frame
//! changes the decoder, so its output for a frame depends on the frames that
//! this decoder instance decoded before. The functions here decide when frames
//! are played and when the decoder is replaced; the decoding itself is not
//! part of this module.

use vstd::prelude::*;

verus! {

/// An event in the queue of the audio task.
#[derive(Clone, Debug, PartialEq, Eq)]
pub enum AudioEvent<V> {
    /// A voice frame to decode and play.
    VoiceFrame(V),
    /// The transmission is over.
    EndTransmission,
}

/// One operation on the audio output.
#[derive(Clone, Debug, PartialEq, Eq)]
pub enum AudioCommand<V> {
    /// Decode the frame with the current decoder and write its samples.
    Play(V),
    /// Write out whatever the stream still buffers.
    Flush,
    /// Discard the decoder and continue with a new one.
    Reset,
}

/// The operations that an event asks for, in the order they are performed.
pub open spec fn commands<V>(event: AudioEvent<V>) -> Seq<AudioCommand<V>> {
    match event {
        AudioEvent::VoiceFrame(frame) => seq![AudioCommand::Play(frame)],
        AudioEvent::EndTransmission => seq![AudioCommand::Flush, AudioCommand::Reset],
    }
}

/// The operations performed for a queue of events taken in order.
pub open spec fn schedule<V>(events: Seq<AudioEvent<V>>) -> Seq<AudioCommand<V>>
    decreases events.len(),
{
    if events.len() == 0 {
        Seq::empty()
    } else {
        schedule(events.drop_last()) + commands(events.last())
    }
}

/// The frames decoded by the decoder that is in use once `cmds` are done:
/// those played since the last reset, oldest first.
pub open spec fn decoder_history<V>(cmds: Seq<AudioCommand<V>>) -> Seq<V>
    decreases cmds.len(),
{
    if cmds.len() == 0 {
        Seq::empty()
    } else {
        match cmds.last() {
            AudioCommand::Play(frame) => decoder_history(cmds.drop_last()).push(frame),
            AudioCommand::Flush => decoder_history(cmds.drop_last()),
            AudioCommand::Reset => Seq::empty(),
        }
    }
}

/// Turns one event into the operations to perform on the audio output.
///
/// A voice frame is played. At the end of a transmission the stream is flushed
/// and then the decoder is replaced.
pub fn render<V>(event: AudioEvent<V>) -> (cmds: Vec<AudioCommand<V>>)
    ensures
        cmds@ == commands(event),
{
    let mut cmds: Vec<AudioCommand<V>> = Vec::new();
    match event {
        AudioEvent::VoiceFrame(frame) => {
            cmds.push(AudioCommand::Play(frame));
        },
        AudioEvent::EndTransmission => {
            cmds.push(AudioCommand::Flush);
            cmds.push(AudioCommand::Reset);
        },
    }
    cmds
}

/// The schedule of a queue followed by one more event.
pub proof fn schedule_push<V>(events: Seq<AudioEvent<V>>, event: AudioEvent<V>)
    ensures
        schedule(events.push(event)) == schedule(events) + commands(event),
{
    assert(events.push(event).drop_last() == events);
}

/// Playing one more event extends the history of the current decoder by a
/// voice frame, and empties it at the end of a transmission.
pub proof fn history_after_event<V>(cmds: Seq<AudioCommand<V>>, event: AudioEvent<V>)
    ensures
        decoder_history(cmds + commands(event)) == match event {
            AudioEvent::VoiceFrame(frame) => decoder_history(cmds).push(frame),
            AudioEvent::EndTransmission => Seq::empty(),
        },
{
    let all = cmds + commands(event);
    match event {
        AudioEvent::VoiceFrame(frame) => {
            assert(all.drop_last() == cmds);
        },
        AudioEvent::EndTransmission => {},
    }
}

/// After the end of a transmission the decoder starts afresh: whatever was
/// played before, the decoder that handles the events after it has decoded
/// exactly the frames it would have decoded had the task started with them.
pub proof fn end_of_transmission_isolates<V>(
    before: Seq<AudioEvent<V>>,
    after: Seq<AudioEvent<V>>,
)
    ensures
        decoder_history(schedule(before.push(AudioEvent::EndTransmission) + after))
            == decoder_history(schedule(after)),
    decreases after.len(),
{
    let ended = before.push(AudioEvent::EndTransmission);
    if after.len() == 0 {
        schedule_push(before, AudioEvent::EndTransmission);
        history_after_event(schedule(before), AudioEvent::<V>::EndTransmission);
    } else {
        let event = after.last();
        let rest = after.drop_last();
        assert(after == rest.push(event));
        schedule_push(ended + rest, event);
        schedule_push(rest, event);
        history_after_event(schedule(ended + rest), event);
        history_after_event(schedule(rest), event);
        end_of_transmission_isolates(before, rest);
    }
}

/// A transmission played after another is decoded frame by frame as if it
/// were played alone: at each of its frames, the decoder has decoded the same
/// frames in both cases, so it gives the same samples.
pub proof fn frames_are_decoded_as_if_alone<V>(
    first: Seq<AudioEvent<V>>,
    second: Seq<AudioEvent<V>>,
    k: int,
)
    requires
        0 <= k <= second.len(),
    ensures
        decoder_history(schedule(first.push(AudioEvent::EndTransmission) + second.take(k)))
            == decoder_history(schedule(second.take(k))),
{
    end_of_transmission_isolates(first, second.take(k));
}

/// Byte `k` (0 to 3, least significant first) of a 32-bit sample.
pub open spec fn sample_byte(sample: u32, k: int) -> u8 {
    if k == 0 {
        (sample % 256) as u8
    } else if k == 1 {
        (sample / 256 % 256) as u8
    } else if k == 2 {
        (sample / 65536 % 256) as u8
    } else {
        (sample / 16777216) as u8
    }
}

/// The 32-bit sample whose bytes are `b0` to `b3`, least significant first.
pub open spec fn sample_of(b0: u8, b1: u8, b2: u8, b3: u8) -> u32 {
    (b0 + 256 * b1 + 65536 * b2 + 16777216 * b3) as u32
}

/// The output stream for a block of samples: four bytes per sample, least
/// significant byte first, samples in order, nothing in between.
pub open spec fn stream_of(samples: Seq<u32>) -> Seq<u8> {
    Seq::new(4 * samples.len(), |i: int| sample_byte(samples[i / 4], i % 4))
}

/// The samples held by a stretch of stream: one for every four bytes, a
/// trailing group of fewer than four bytes is left out.
pub open spec fn samples_of(bytes: Seq<u8>) -> Seq<u32> {
    Seq::new(
        bytes.len() / 4,
        |i: int| sample_of(bytes[4 * i], bytes[4 * i + 1], bytes[4 * i + 2], bytes[4 * i + 3]),
    )
}

/// Lays out a block of samples, each given by the bits of its 32-bit float,
/// for the output stream.
pub fn sample_bytes(samples: &[u32]) -> (bytes: Vec<u8>)
    ensures
        bytes@ == stream_of(samples@),
{
    let mut bytes: Vec<u8> = Vec::new();
    let mut i: usize = 0;
    while i < samples.len()
        invariant
            i <= samples.len(),
            bytes@ == stream_of(samples@.take(i as int)),
        decreases samples.len() - i,
    {
        let sample: u32 = samples[i];
        bytes.push((sample % 256) as u8);
        bytes.push((sample / 256 % 256) as u8);
        bytes.push((sample / 65536 % 256) as u8);
        bytes.push((sample / 16777216) as u8);
        assert(bytes@ =~= stream_of(samples@.take(i as int + 1)));
        i += 1;
    }
    bytes
}

/// Reads the samples back from a stretch of stream, each as the bits of its
/// 32-bit float. Bytes after the last whole sample are ignored.
pub fn sample_bits(bytes: &[u8]) -> (samples: Vec<u32>)
    ensures
        samples@ == samples_of(bytes@),
{
    let mut samples: Vec<u32> = Vec::new();
    let count: usize = bytes.len() / 4;
    let mut i: usize = 0;
    while i < count
        invariant
            count == bytes.len() / 4,
            i <= count,
            samples@.len() == i,
            forall|j: int| 0 <= j < i ==> samples@[j] == samples_of(bytes@)[j],
        decreases count - i,
    {
        let b0: u32 = bytes[4 * i] as u32;
        let b1: u32 = bytes[4 * i + 1] as u32;
        let b2: u32 = bytes[4 * i + 2] as u32;
        let b3: u32 = bytes[4 * i + 3] as u32;
        samples.push(b0 + 256 * b1 + 65536 * b2 + 16777216 * b3);
        i += 1;
    }
    samples
}

/// Reading back what was laid out gives the samples that went in.
pub proof fn stream_round_trip(samples: Seq<u32>)
    ensures
        samples_of(stream_of(samples)) == samples,
{
    assert(samples_of(stream_of(samples)) =~= samples);
}

} // verus!
