//! Decisions of the producer, the thread that decodes packets, hands the
//! samples to the audio output and publishes its position on the clock. The
//! thread itself performs each action and reports back what happened.

use vstd::prelude::*;

use crate::clock::{
    elapsed_at, elapsed_le, elapsed_of, ClockValue, Elapsed, LifecycleFlag, PlaybackClock, TimeBase,
};
use crate::metadata::Track;
use crate::text::text_eq;

verus! {

/// Why the decoder could not hand over the next packet or decode one.
#[derive(Clone, Debug)]
pub enum DecoderFailure {
    /// The media source failed to read; `unexpected_eof` when the read ran
    /// past the end of the source.
    Io { unexpected_eof: bool, message: String },
    /// One packet held corrupt data.
    Decode { message: String },
    /// The track list changed during the stream.
    ResetRequired,
    /// Any other failure: an unsupported feature, a limit, a failed seek.
    Other { message: String },
}

/// Why the producer stopped before the end of the stream.
#[derive(Clone, Debug)]
pub enum ProducerError {
    /// Reading the next packet failed.
    Read(DecoderFailure),
    /// Decoding a packet failed in a way that is not limited to that packet.
    Decode(DecoderFailure),
    /// The audio output could not be opened or written.
    Output,
    /// The shared clock became unreachable.
    ClockUnavailable,
}

/// The end of the stream, which the decoder reports as an unexpected end of
/// file with the message "end of stream".
pub open spec fn is_end_of_stream_spec(f: DecoderFailure) -> bool {
    match f {
        DecoderFailure::Io { unexpected_eof, message } => unexpected_eof && message@
            == "end of stream"@,
        _ => false,
    }
}

pub fn is_end_of_stream(f: &DecoderFailure) -> (r: bool)
    ensures
        r == is_end_of_stream_spec(*f),
{
    match f {
        DecoderFailure::Io { unexpected_eof, message } => *unexpected_eof && text_eq(
            message.as_str(),
            "end of stream",
        ),
        _ => false,
    }
}

/// What happened since the producer's last action.
#[derive(Clone, Debug)]
pub enum ProducerEvent {
    /// The decoder handed over a packet of track `track_id`.
    Packet { track_id: u32 },
    /// The packet was decoded into a block of samples.
    Decoded,
    /// The packet could not be decoded.
    DecodeFailed(DecoderFailure),
    /// The block starting at `ts` and lasting `dur` ticks was written to
    /// the audio output.
    Written { ts: u64, dur: u64 },
    /// The decoder could not hand over a packet.
    ReadFailed(DecoderFailure),
    /// The audio output could not be opened or written.
    OutputFailed,
    /// The shared clock could not be locked.
    ClockUnavailable,
}

/// What the producer asks its thread to do next.
#[derive(Debug)]
pub enum ProducerAction {
    /// Read the next packet.
    NextPacket,
    /// Decode the packet just read.
    Decode,
    /// Write the decoded block to the audio output, opening it first when
    /// `open_device` is set.
    Output { open_device: bool },
    /// Write this value to the clock, then read the next packet.
    WriteClock { position: u64, elapsed: Elapsed },
    /// Set the lifecycle flag to finished and end the thread with this result.
    Finish(Result<(), ProducerError>),
}

/// State of the producer of one track.
#[derive(Clone, Copy, Debug)]
pub struct Producer {
    /// The track being played; packets of other tracks are skipped.
    pub track_id: u32,
    /// The track's time base, without which no elapsed time can be given.
    pub time_base: Option<TimeBase>,
    /// Whether the audio output has been opened.
    pub output_open: bool,
    /// Whether the producer has finished; it takes no event after that.
    pub finished: bool,
}

impl Producer {
    pub open spec fn wf(&self) -> bool {
        match self.time_base {
            Some(tb) => tb.wf(),
            None => true,
        }
    }

    pub fn new(track_id: u32, time_base: Option<TimeBase>) -> (r: Producer)
        requires
            time_base matches Some(tb) ==> tb.wf(),
        ensures
            r == (Producer { track_id, time_base, output_open: false, finished: false }),
            r.wf(),
    {
        Producer { track_id, time_base, output_open: false, finished: false }
    }
}

/// End of a block on the timeline, saturating at the largest timestamp.
pub open spec fn block_end(ts: u64, dur: u64) -> u64 {
    if ts + dur <= u64::MAX {
        (ts + dur) as u64
    } else {
        u64::MAX
    }
}

/// Whether an event ends the producer's work.
pub open spec fn is_final_event(e: ProducerEvent) -> bool {
    match e {
        ProducerEvent::Packet { .. } | ProducerEvent::Decoded | ProducerEvent::Written { .. } => false,
        ProducerEvent::DecodeFailed(f) => !(f matches DecoderFailure::Decode { .. }),
        _ => true,
    }
}

/// The producer's state and action after event `e`.
pub open spec fn producer_next(s: Producer, e: ProducerEvent) -> (Producer, ProducerAction) {
    let done = Producer { finished: true, ..s };
    match e {
        ProducerEvent::Packet { track_id } => if track_id == s.track_id {
            (s, ProducerAction::Decode)
        } else {
            (s, ProducerAction::NextPacket)
        },
        ProducerEvent::Decoded => (
            Producer { output_open: true, ..s },
            ProducerAction::Output { open_device: !s.output_open },
        ),
        ProducerEvent::DecodeFailed(f) => if f is Decode {
            (s, ProducerAction::NextPacket)
        } else if is_end_of_stream_spec(f) {
            (done, ProducerAction::Finish(Ok(())))
        } else {
            (done, ProducerAction::Finish(Err(ProducerError::Decode(f))))
        },
        ProducerEvent::Written { ts, dur } => match s.time_base {
            Some(tb) => (
                s,
                ProducerAction::WriteClock {
                    position: block_end(ts, dur),
                    elapsed: elapsed_of(block_end(ts, dur), tb),
                },
            ),
            None => (s, ProducerAction::NextPacket),
        },
        ProducerEvent::ReadFailed(f) => if is_end_of_stream_spec(f) {
            (done, ProducerAction::Finish(Ok(())))
        } else {
            (done, ProducerAction::Finish(Err(ProducerError::Read(f))))
        },
        ProducerEvent::OutputFailed => (done, ProducerAction::Finish(Err(ProducerError::Output))),
        ProducerEvent::ClockUnavailable => (
            done,
            ProducerAction::Finish(Err(ProducerError::ClockUnavailable)),
        ),
    }
}

impl Producer {
    /// Takes one event and returns what to do next. The producer finishes
    /// exactly when the action is `Finish`.
    pub fn step(&mut self, event: ProducerEvent) -> (r: ProducerAction)
        requires
            old(self).wf(),
            !old(self).finished,
        ensures
            (*final(self), r) == producer_next(*old(self), event),
            final(self).wf(),
            final(self).finished <==> r is Finish,
            final(self).finished <==> is_final_event(event),
            r matches ProducerAction::WriteClock { elapsed, .. } ==> elapsed.wf(),
    {
        match event {
            ProducerEvent::Packet { track_id } => {
                if track_id == self.track_id {
                    ProducerAction::Decode
                } else {
                    ProducerAction::NextPacket
                }
            },
            ProducerEvent::Decoded => {
                let open_device = !self.output_open;
                self.output_open = true;
                ProducerAction::Output { open_device }
            },
            ProducerEvent::DecodeFailed(f) => {
                if let DecoderFailure::Decode { .. } = f {
                    ProducerAction::NextPacket
                } else {
                    self.finished = true;
                    if is_end_of_stream(&f) {
                        ProducerAction::Finish(Ok(()))
                    } else {
                        ProducerAction::Finish(Err(ProducerError::Decode(f)))
                    }
                }
            },
            ProducerEvent::Written { ts, dur } => {
                match self.time_base {
                    Some(tb) => {
                        let position = if ts <= u64::MAX - dur {
                            ts + dur
                        } else {
                            u64::MAX
                        };
                        ProducerAction::WriteClock { position, elapsed: elapsed_at(position, tb) }
                    },
                    None => ProducerAction::NextPacket,
                }
            },
            ProducerEvent::ReadFailed(f) => {
                self.finished = true;
                if is_end_of_stream(&f) {
                    ProducerAction::Finish(Ok(()))
                } else {
                    ProducerAction::Finish(Err(ProducerError::Read(f)))
                }
            },
            ProducerEvent::OutputFailed => {
                self.finished = true;
                ProducerAction::Finish(Err(ProducerError::Output))
            },
            ProducerEvent::ClockUnavailable => {
                self.finished = true;
                ProducerAction::Finish(Err(ProducerError::ClockUnavailable))
            },
        }
    }
}

/// Index of the first track whose codec is known.
pub fn first_supported_track(tracks: &Vec<Track>) -> (r: Option<usize>)
    ensures
        r matches Some(i) ==> i < tracks@.len() && tracks@[i as int].codec_params.codec_known
            && forall|k: int| 0 <= k < i ==> !(#[trigger] tracks@[k]).codec_params.codec_known,
        r is None ==> forall|k: int| 0 <= k < tracks@.len() ==> !(#[trigger] tracks@[k]).codec_params.codec_known,
{
    let mut i: usize = 0;
    while i < tracks.len()
        invariant
            i <= tracks@.len(),
            forall|k: int| 0 <= k < i ==> !(#[trigger] tracks@[k]).codec_params.codec_known,
        decreases tracks@.len() - i,
    {
        if tracks[i].codec_params.codec_known {
            return Some(i);
        }
        i = i + 1;
    }
    None
}

/// Exit code from the decoder's verification of the stream: 0 when it
/// passed or was not made, 1 when it failed.
pub fn verification_code(verify_ok: Option<bool>) -> (r: i32)
    ensures
        r == (if verify_ok == Some(false) { 1i32 } else { 0i32 }),
{
    match verify_ok {
        Some(is_ok) => if is_ok { 0 } else { 1 },
        None => 0,
    }
}

/// The clock and the flag once the producer thread has carried out
/// `action`: a clock write goes through the clock's rule, the finish takes
/// the flag down, other actions leave both alone.
pub open spec fn shared_after(clock: ClockValue, running: bool, action: ProducerAction) -> (ClockValue, bool) {
    match action {
        ProducerAction::WriteClock { position, elapsed } => (
            if clock.sample_index <= position && elapsed_le(clock.elapsed, elapsed) {
                ClockValue { sample_index: position, elapsed }
            } else {
                clock
            },
            running,
        ),
        ProducerAction::Finish(_) => (clock, false),
        _ => (clock, running),
    }
}

/// Carries out the part of `action` that touches the shared state: writes
/// the clock, or sets the lifecycle flag to finished.
pub fn apply_action(action: &ProducerAction, clock: &mut PlaybackClock, flag: &mut LifecycleFlag)
    requires
        old(clock).wf(),
        action matches ProducerAction::WriteClock { elapsed, .. } ==> elapsed.wf(),
    ensures
        (final(clock)@, final(flag)@) == shared_after(old(clock)@, old(flag)@, *action),
        final(clock).wf(),
{
    match action {
        ProducerAction::WriteClock { position, elapsed } => {
            clock.write(*position, *elapsed);
        },
        ProducerAction::Finish(_) => flag.set_finished(),
        _ => {},
    }
}

/// The producer's state, the clock and the flag after the thread has taken
/// `events` in order and carried out each action, stopping at the finish.
pub open spec fn shared_run(s: Producer, clock: ClockValue, running: bool, events: Seq<ProducerEvent>) -> (Producer, ClockValue, bool)
    decreases events.len(),
{
    if events.len() == 0 || s.finished {
        (s, clock, running)
    } else {
        let (next, action) = producer_next(s, events[0]);
        let (c, r) = shared_after(clock, running, action);
        shared_run(next, c, r, events.drop_first())
    }
}

/// Carried out by its thread, the producer sets the lifecycle flag to
/// finished over any sequence of events that holds the end of the stream or
/// a fatal failure, whatever the renderer does; along the way the clock's
/// position never goes back.
pub proof fn lemma_run_sets_flag(s: Producer, clock: ClockValue, running: bool, events: Seq<ProducerEvent>, k: int)
    requires
        0 <= k < events.len(),
        is_final_event(events[k]),
        !s.finished,
    ensures
        !shared_run(s, clock, running, events).2,
        clock.sample_index <= shared_run(s, clock, running, events).1.sample_index,
    decreases events.len(),
{
    let (next, action) = producer_next(s, events[0]);
    let (c, r) = shared_after(clock, running, action);
    if k == 0 {
        assert(next.finished);
        assert(shared_run(next, c, r, events.drop_first()) == (next, c, r));
    } else if next.finished {
        assert(shared_run(next, c, r, events.drop_first()) == (next, c, r));
        assert(!r);
    } else {
        lemma_run_sets_flag(next, c, r, events.drop_first(), k - 1);
    }
}

/// The producer's state after taking `events` in order, stopping at its finish.
pub open spec fn producer_run(s: Producer, events: Seq<ProducerEvent>) -> Producer
    decreases events.len(),
{
    if events.len() == 0 || s.finished {
        s
    } else {
        producer_run(producer_next(s, events[0]).0, events.drop_first())
    }
}

/// The producer depends on nothing but the decoder and the audio output: a
/// renderer that never reads the clock cannot hold it up. Over any sequence of
/// events that holds the end of the stream or a fatal failure, the producer
/// reaches its finish, where it sets the lifecycle flag.
pub proof fn lemma_producer_always_finishes(s: Producer, events: Seq<ProducerEvent>, k: int)
    requires
        0 <= k < events.len(),
        is_final_event(events[k]),
    ensures
        producer_run(s, events).finished,
    decreases events.len(),
{
    if !s.finished {
        let next = producer_next(s, events[0]).0;
        if k == 0 {
            assert(next.finished);
            assert(producer_run(next, events.drop_first()) == next);
        } else {
            lemma_producer_always_finishes(next, events.drop_first(), k - 1);
        }
    }
}

} // verus!
