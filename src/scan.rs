//! Decisions of a decoding pass without audio output, which hands every
//! block of one track to a consumer, numbered from 1.

use vstd::prelude::*;

use crate::producer::{is_end_of_stream, is_end_of_stream_spec, DecoderFailure};

verus! {

/// What happened since the scan's last action.
#[derive(Clone, Debug)]
pub enum ScanEvent {
    /// The decoder handed over a packet of track `track_id`.
    Packet { track_id: u32 },
    /// The packet was decoded into a block of samples.
    Decoded,
    /// The packet could not be decoded.
    DecodeFailed(DecoderFailure),
    /// The decoder could not hand over a packet.
    ReadFailed(DecoderFailure),
}

/// What the scan asks its caller to do next.
#[derive(Debug)]
pub enum ScanAction {
    /// Read the next packet.
    NextPacket,
    /// Decode the packet just read.
    Decode,
    /// Hand the decoded block to the consumer as block number `index`, then
    /// read the next packet.
    Deliver { index: u64 },
    /// Stop: the stream ended, or decoding failed.
    Finish(Result<(), DecoderFailure>),
}

/// State of a scan of one track.
#[derive(Clone, Copy, Debug)]
pub struct BlockScan {
    pub track_id: u32,
    /// Number of blocks handed over so far, saturating at the largest count.
    pub delivered: u64,
    pub finished: bool,
}

/// The scan's state and action after event `e`. Unlike playback, a scan
/// stops at the first packet that cannot be decoded; the end of the stream,
/// whether reading or decoding reports it, ends it with success.
pub open spec fn scan_next(s: BlockScan, e: ScanEvent) -> (BlockScan, ScanAction) {
    let done = BlockScan { finished: true, ..s };
    match e {
        ScanEvent::Packet { track_id } => if track_id == s.track_id {
            (s, ScanAction::Decode)
        } else {
            (s, ScanAction::NextPacket)
        },
        ScanEvent::Decoded => {
            let index = if s.delivered < u64::MAX {
                (s.delivered + 1) as u64
            } else {
                s.delivered
            };
            (BlockScan { delivered: index, ..s }, ScanAction::Deliver { index })
        },
        ScanEvent::DecodeFailed(f) | ScanEvent::ReadFailed(f) => if is_end_of_stream_spec(f) {
            (done, ScanAction::Finish(Ok(())))
        } else {
            (done, ScanAction::Finish(Err(f)))
        },
    }
}

impl BlockScan {
    pub fn new(track_id: u32) -> (r: BlockScan)
        ensures
            r == (BlockScan { track_id, delivered: 0, finished: false }),
    {
        BlockScan { track_id, delivered: 0, finished: false }
    }

    /// Takes one event and returns what to do next. The scan finishes exactly
    /// when the action is `Finish`.
    pub fn step(&mut self, event: ScanEvent) -> (r: ScanAction)
        requires
            !old(self).finished,
        ensures
            (*final(self), r) == scan_next(*old(self), event),
            final(self).finished <==> r is Finish,
    {
        match event {
            ScanEvent::Packet { track_id } => {
                if track_id == self.track_id {
                    ScanAction::Decode
                } else {
                    ScanAction::NextPacket
                }
            },
            ScanEvent::Decoded => {
                if self.delivered < u64::MAX {
                    self.delivered = self.delivered + 1;
                }
                ScanAction::Deliver { index: self.delivered }
            },
            ScanEvent::DecodeFailed(f) | ScanEvent::ReadFailed(f) => {
                self.finished = true;
                if is_end_of_stream(&f) {
                    ScanAction::Finish(Ok(()))
                } else {
                    ScanAction::Finish(Err(f))
                }
            },
        }
    }
}

} // verus!
