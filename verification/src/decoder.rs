//! The seekable byte source and the frame decoder's bookkeeping.
//!
//! The byte source wraps a fully buffered download and gives the container
//! demuxer random access with a known total length — some container probes
//! disable seeking when the length is unknown. The decode loop's decisions
//! (skipping foreign packets, bounded retry on transient frame errors, when
//! to give up) and the interleaved sample buffer's cursor live here as pure
//! state machines; the demuxer and codec calls stand outside and hand their
//! outcomes in.

use vstd::prelude::*;

verus! {

/// An in-memory byte buffer with read-at-cursor and seek-to-offset
/// semantics and a queryable total length. The cursor may stand past the
/// end; reads from there yield nothing.
#[derive(Debug)]
pub struct SeekableSource {
    /// The buffered bytes.
    pub data: Vec<u8>,
    /// The cursor.
    pub pos: u64,
}

impl SeekableSource {
    /// Wrap a fully buffered byte array, cursor at the start.
    pub fn new(data: Vec<u8>) -> (s: SeekableSource)
        ensures
            s.data == data,
            s.pos == 0,
    {
        SeekableSource { data, pos: 0 }
    }

    /// The total length in bytes: always known, never "unknown".
    pub fn byte_len(&self) -> (n: u64)
        ensures
            n == self.data@.len(),
    {
        proof {
            broadcast use vstd::std_specs::vec::axiom_spec_len;

            assert(vstd::std_specs::vec::spec_vec_len(&self.data) == self.data@.len());
        }
        self.data.len() as u64
    }

    /// This source always supports random access.
    pub fn is_seekable(&self) -> (r: bool)
        ensures
            r,
    {
        true
    }

    /// Read up to `max` bytes at the cursor, advancing it past what was
    /// read: exactly the bytes from the cursor to the end of the buffer or
    /// to `max` bytes on, whichever comes first.
    pub fn read(&mut self, max: usize) -> (out: Vec<u8>)
        ensures
            final(self).data == old(self).data,
            ({
                let len = old(self).data@.len() as int;
                let start = if old(self).pos <= len {
                    old(self).pos as int
                } else {
                    len
                };
                let end = if start + max <= len {
                    start + max
                } else {
                    len
                };
                out@ == old(self).data@.subrange(start, end) && final(self).pos == end
            }),
    {
        let len = self.data.len();
        let start: usize = if self.pos <= len as u64 {
            self.pos as usize
        } else {
            len
        };
        let end: usize = if max <= len - start {
            start + max
        } else {
            len
        };
        let mut out: Vec<u8> = Vec::new();
        let mut i = start;
        while i < end
            invariant
                start <= i <= end <= self.data@.len(),
                out@ == self.data@.subrange(start as int, i as int),
            decreases end - i,
        {
            out.push(self.data[i]);
            proof {
                assert(out@ =~= self.data@.subrange(start as int, i + 1));
            }
            i += 1;
        }
        self.pos = end as u64;
        out
    }

    /// Seek to an absolute offset, which may stand past the end.
    pub fn seek_to(&mut self, offset: u64) -> (new_pos: u64)
        ensures
            final(self).data == old(self).data,
            final(self).pos == offset,
            new_pos == offset,
    {
        self.pos = offset;
        offset
    }

    /// Seek relative to the cursor. A move before the start of the buffer,
    /// or past the cursor's range, fails and leaves the cursor in place.
    pub fn seek_by(&mut self, delta: i64) -> (new_pos: Option<u64>)
        ensures
            final(self).data == old(self).data,
            ({
                let target = old(self).pos + delta;
                if 0 <= target <= u64::MAX {
                    final(self).pos == target && new_pos == Some(target as u64)
                } else {
                    final(self).pos == old(self).pos && new_pos == None::<u64>
                }
            }),
    {
        if delta >= 0 {
            let step = delta as u64;
            if step <= u64::MAX - self.pos {
                self.pos = self.pos + step;
                Some(self.pos)
            } else {
                None
            }
        } else {
            // The magnitude of `delta`, computed without negating i64::MIN.
            let step = ((-(delta + 1)) as u64) + 1;
            if step <= self.pos {
                self.pos = self.pos - step;
                Some(self.pos)
            } else {
                None
            }
        }
    }

    /// Seek relative to the end of the buffer. A move before the start, or
    /// past the cursor's range, fails and leaves the cursor in place.
    pub fn seek_from_end(&mut self, delta: i64) -> (new_pos: Option<u64>)
        ensures
            final(self).data == old(self).data,
            ({
                let target = old(self).data@.len() + delta;
                if 0 <= target <= u64::MAX {
                    final(self).pos == target && new_pos == Some(target as u64)
                } else {
                    final(self).pos == old(self).pos && new_pos == None::<u64>
                }
            }),
    {
        let len = self.byte_len();
        if delta >= 0 {
            let step = delta as u64;
            if step <= u64::MAX - len {
                self.pos = len + step;
                Some(self.pos)
            } else {
                None
            }
        } else {
            // The magnitude of `delta`, computed without negating i64::MIN.
            let step = ((-(delta + 1)) as u64) + 1;
            if step <= len {
                self.pos = len - step;
                Some(self.pos)
            } else {
                None
            }
        }
    }
}

/// What pulling and decoding one packet of the container produced: the
/// demuxer ran out of packets (end of stream or a fatal container error),
/// the packet belonged to another track, the packet decoded into a buffer
/// of so many interleaved samples, or the decode of this packet failed.
#[derive(Debug, Clone, Copy, PartialEq, Eq, Structural)]
pub enum PacketOutcome {
    NoMorePackets,
    OtherTrack,
    Decoded(usize),
    DecodeFailed,
}

/// What the decode loop does next: accept the decoded frame and return with
/// success, pull another packet, or give up and report end of decode.
#[derive(Debug, Clone, Copy, PartialEq, Eq, Structural)]
pub enum DecodeStep {
    Accepted,
    TryAgain,
    GiveUp,
}

/// Transient per-packet decode errors are retried up to this bound;
/// isolated corrupt frames are common at container boundaries and must not
/// abort playback of the rest of the track.
pub const MAX_DECODE_RETRIES: u32 = 3;

/// The retry count after one packet outcome: only a failed decode of a
/// packet of our own track consumes a retry.
pub open spec fn retries_after(retries: u32, outcome: PacketOutcome) -> u32 {
    match outcome {
        PacketOutcome::DecodeFailed => (retries + 1) as u32,
        _ => retries,
    }
}

/// The decision after one packet outcome: accept a decoded frame; skip a
/// foreign packet without consuming a retry; give up when the demuxer ran
/// dry or the retry bound is reached; retry otherwise.
pub open spec fn decode_decision(retries: u32, outcome: PacketOutcome) -> DecodeStep {
    match outcome {
        PacketOutcome::NoMorePackets => DecodeStep::GiveUp,
        PacketOutcome::OtherTrack => DecodeStep::TryAgain,
        PacketOutcome::Decoded(len) => DecodeStep::Accepted,
        PacketOutcome::DecodeFailed => if retries + 1 >= MAX_DECODE_RETRIES {
            DecodeStep::GiveUp
        } else {
            DecodeStep::TryAgain
        },
    }
}

/// The decode loop's state across the packets of one frame request.
#[derive(Debug)]
pub struct DecodeLoop {
    /// Transient decode failures seen in this frame request.
    pub retries: u32,
}

impl DecodeLoop {
    /// A fresh frame request: no retries consumed.
    pub fn new() -> (d: DecodeLoop)
        ensures
            d.retries == 0,
    {
        DecodeLoop { retries: 0 }
    }

    /// Decide on one packet outcome.
    pub fn on_packet(&mut self, outcome: PacketOutcome) -> (step: DecodeStep)
        requires
            old(self).retries < MAX_DECODE_RETRIES,
        ensures
            final(self).retries == retries_after(old(self).retries, outcome),
            step == decode_decision(old(self).retries, outcome),
            step == DecodeStep::TryAgain ==> final(self).retries < MAX_DECODE_RETRIES,
    {
        match outcome {
            PacketOutcome::NoMorePackets => DecodeStep::GiveUp,
            PacketOutcome::OtherTrack => DecodeStep::TryAgain,
            PacketOutcome::Decoded(_) => DecodeStep::Accepted,
            PacketOutcome::DecodeFailed => {
                self.retries = self.retries + 1;
                if self.retries >= MAX_DECODE_RETRIES {
                    DecodeStep::GiveUp
                } else {
                    DecodeStep::TryAgain
                }
            },
        }
    }
}

/// The loop state after a run of packet outcomes that all kept it going.
pub open spec fn retries_after_all(retries: u32, outcomes: Seq<PacketOutcome>) -> u32
    decreases outcomes.len(),
{
    if outcomes.len() == 0 {
        retries
    } else {
        retries_after_all(
            retries_after(retries, outcomes[0]),
            outcomes.subrange(1, outcomes.len() as int),
        )
    }
}

/// The retry bound holds: a run of consecutive failed decodes reaches the
/// give-up decision exactly at the configured bound — two failures are
/// retried, the third ends the frame request.
pub proof fn lemma_decode_gives_up_at_bound(outcomes: Seq<PacketOutcome>)
    requires
        forall|i: int| 0 <= i < outcomes.len() ==> outcomes[i] == PacketOutcome::DecodeFailed,
        outcomes.len() <= MAX_DECODE_RETRIES,
    ensures
        retries_after_all(0, outcomes) == outcomes.len(),
        outcomes.len() > 0 ==> decode_decision(
            (outcomes.len() - 1) as u32,
            PacketOutcome::DecodeFailed,
        ) == (if outcomes.len() == MAX_DECODE_RETRIES {
            DecodeStep::GiveUp
        } else {
            DecodeStep::TryAgain
        }),
{
    lemma_failed_run(0, outcomes);
}

/// Helper: a run of failures adds its length to the retry count.
proof fn lemma_failed_run(retries: u32, outcomes: Seq<PacketOutcome>)
    requires
        forall|i: int| 0 <= i < outcomes.len() ==> outcomes[i] == PacketOutcome::DecodeFailed,
        retries + outcomes.len() <= MAX_DECODE_RETRIES,
    ensures
        retries_after_all(retries, outcomes) == retries + outcomes.len(),
    decreases outcomes.len(),
{
    if outcomes.len() > 0 {
        lemma_failed_run(
            retries_after(retries, outcomes[0]),
            outcomes.subrange(1, outcomes.len() as int),
        );
    }
}

/// The interleaved sample buffer's cursor: how much of the current decoded
/// frame has been handed out, one sample at a time.
#[derive(Debug, Clone, Copy, PartialEq, Eq, Structural)]
pub struct FrameCursor {
    /// Samples in the current buffer.
    pub len: usize,
    /// Samples already handed out.
    pub offset: usize,
}

impl FrameCursor {
    /// An empty buffer: the first sample request must decode a frame.
    pub fn new() -> (c: FrameCursor)
        ensures
            c.len == 0,
            c.offset == 0,
    {
        FrameCursor { len: 0, offset: 0 }
    }

    /// A freshly decoded frame of `len` samples replaces the buffer.
    pub fn refill(&mut self, len: usize)
        ensures
            final(self).len == len,
            final(self).offset == 0,
    {
        self.len = len;
        self.offset = 0;
    }

    /// Whether the buffer is exhausted and the next sample needs a decode.
    pub fn needs_refill(&self) -> (r: bool)
        ensures
            r == (self.offset >= self.len),
    {
        self.offset >= self.len
    }

    /// Hand out the next sample's index and advance, or nothing when the
    /// buffer is exhausted.
    pub fn take(&mut self) -> (r: Option<usize>)
        ensures
            old(self).offset < old(self).len ==> r == Some(old(self).offset) && final(self).offset
                == old(self).offset + 1 && final(self).len == old(self).len,
            old(self).offset >= old(self).len ==> r is None && *final(self) == *old(self),
    {
        if self.offset < self.len {
            let i = self.offset;
            self.offset = self.offset + 1;
            Some(i)
        } else {
            None
        }
    }

    /// Samples left in the current frame.
    pub fn current_frame_len(&self) -> (r: usize)
        ensures
            r == if self.offset <= self.len {
                self.len - self.offset
            } else {
                0int
            },
    {
        if self.offset <= self.len {
            self.len - self.offset
        } else {
            0
        }
    }
}

} // verus!
