//! A loopback raw stream: the simplest completion-style engine.
//!
//! Writes append to a byte queue and reads drain it from the front,
//! so whatever goes in comes out byte-for-byte and in order.  It
//! stands in for a raw transport underneath the I/O bridge, and the
//! driver functions here show the bridge's contracts composing end to
//! end: a full write-then-read round trip returns exactly the bytes
//! written.

use vstd::prelude::*;

use crate::bridge::{Bridge, ReadOutcome, ReadPoll, WriteOutcome, WritePoll};
use crate::errors::IoErrorKind;

verus! {

/// A raw in-memory byte stream with completion-style submit calls.
#[derive(Debug)]
pub struct LoopbackStream {
    pub queue: Vec<u8>,
}

impl LoopbackStream {
    /// An empty stream.
    pub fn new() -> (r: LoopbackStream)
        ensures
            r.queue@ == Seq::<u8>::empty(),
    {
        LoopbackStream { queue: Vec::new() }
    }

    /// Completes a write: the staged bytes are appended, all of them.
    pub fn submit_write(&mut self, staged: Vec<u8>) -> (n: usize)
        ensures
            final(self).queue@ == old(self).queue@ + staged@,
            n == staged@.len(),
    {
        let n = staged.len();
        let mut i: usize = 0;
        while i < staged.len()
            invariant
                i <= staged@.len(),
                n == staged@.len(),
                self.queue@ == old(self).queue@ + staged@.take(i as int),
            decreases staged@.len() - i,
        {
            self.queue.push(staged[i]);
            i = i + 1;
            proof {
                assert(old(self).queue@ + staged@.take(i as int) =~= (old(self).queue@
                    + staged@.take(i - 1)).push(staged@[i - 1]));
            }
        }
        proof {
            assert(staged@.take(staged@.len() as int) =~= staged@);
        }
        n
    }

    /// Completes a read of capacity `max`: hands out the first
    /// `min(max, queued)` bytes and keeps the rest, in order.
    pub fn submit_read(&mut self, max: usize) -> (r: Vec<u8>)
        ensures
            r@ == old(self).queue@.take(vstd::math::min(max as int, old(self).queue@.len() as int)),
            final(self).queue@ == old(self).queue@.skip(r@.len() as int),
    {
        let k: usize = if max <= self.queue.len() {
            max
        } else {
            self.queue.len()
        };
        let mut out: Vec<u8> = Vec::new();
        let mut i: usize = 0;
        while i < k
            invariant
                i <= k,
                k <= self.queue@.len(),
                self.queue@ == old(self).queue@,
                out@ == self.queue@.take(i as int),
            decreases k - i,
        {
            out.push(self.queue[i]);
            i = i + 1;
            proof {
                assert(self.queue@.take(i as int) =~= self.queue@.take(i - 1).push(
                    self.queue@[i - 1]));
            }
        }
        let mut rest: Vec<u8> = Vec::new();
        let mut j: usize = k;
        while j < self.queue.len()
            invariant
                k <= j <= self.queue@.len(),
                self.queue@ == old(self).queue@,
                rest@ == self.queue@.subrange(k as int, j as int),
            decreases self.queue@.len() - j,
        {
            rest.push(self.queue[j]);
            j = j + 1;
            proof {
                assert(self.queue@.subrange(k as int, j as int) =~= self.queue@.subrange(
                    k as int, j - 1).push(self.queue@[j - 1]));
            }
        }
        proof {
            assert(rest@ =~= self.queue@.skip(k as int));
        }
        self.queue = rest;
        out
    }
}

/// Drives one full write through the bridge onto the raw stream: the
/// caller's bytes are staged, submitted, completed and reported
/// flushed, and the stream has gained exactly those bytes, in order,
/// after anything it already held.
pub fn bridge_write(b: &mut Bridge, s: &mut LoopbackStream, data: &Vec<u8>) -> (r: Result<
    usize,
    IoErrorKind,
>)
    requires
        old(b).write_state is Idle,
    ensures
        final(s).queue@ == old(s).queue@ + data@,
        final(b).write_state is Idle,
        final(b).read_state == old(b).read_state,
        r matches Ok(n) && n == data@.len(),
{
    let first = b.poll_write(data);
    match first {
        WritePoll::Submitted { staged } => {
            let n = s.submit_write(staged);
            b.on_write_complete(WriteOutcome::Written { n });
            let second = b.poll_write(data);
            match second {
                WritePoll::Flushed { written } => Ok(written),
                _ => {
                    proof {
                        assert(false);
                    }
                    Err(IoErrorKind::Other)
                },
            }
        },
        _ => {
            proof {
                assert(false);
            }
            Err(IoErrorKind::Other)
        },
    }
}

/// Drives one full read of capacity `want` through the bridge: a
/// completion read is submitted, completed and delivered.  The bytes
/// returned are exactly the stream's first `min(want, queued)` bytes,
/// in order; an empty result is the end-of-stream signal.
pub fn bridge_read(b: &mut Bridge, s: &mut LoopbackStream, want: usize) -> (r: Result<
    Vec<u8>,
    IoErrorKind,
>)
    requires
        old(b).read_state is Idle,
    ensures
        r matches Ok(d) && d@ == old(s).queue@.take(vstd::math::min(want as int, old(
            s,
        ).queue@.len() as int)),
        final(s).queue@ == old(s).queue@.skip(vstd::math::min(want as int, old(
            s,
        ).queue@.len() as int)),
        r matches Ok(d) && d@.len() > 0 ==> final(b).read_state is Idle,
        r matches Ok(d) && d@.len() == 0 ==> final(b).read_state is Closed,
        final(b).write_state == old(b).write_state,
{
    let first = b.poll_read(want);
    match first {
        ReadPoll::Submitted { .. } => {
            let data = s.submit_read(want);
            b.on_read_complete(ReadOutcome::Bytes { data });
            let second = b.poll_read(want);
            match second {
                ReadPoll::Ready { data } => Ok(data),
                ReadPoll::Eof => Ok(Vec::new()),
                _ => {
                    proof {
                        assert(false);
                    }
                    Err(IoErrorKind::Other)
                },
            }
        },
        _ => {
            proof {
                assert(false);
            }
            Err(IoErrorKind::Other)
        },
    }
}

/// Round trip of the I/O bridge over a loopback raw stream: bytes
/// written through one bridged connection and read back through
/// another are received byte-for-byte and in order, whatever their
/// number.
pub fn loopback_round_trip(data: &Vec<u8>) -> (r: Vec<u8>)
    ensures
        r@ == data@,
{
    let mut writer = Bridge::new();
    let mut reader = Bridge::new();
    let mut stream = LoopbackStream::new();
    let _flushed = bridge_write(&mut writer, &mut stream, data);
    let got = bridge_read(&mut reader, &mut stream, data.len());
    match got {
        Ok(d) => {
            proof {
                assert(d@ =~= data@);
            }
            d
        },
        Err(_) => {
            proof {
                assert(false);
            }
            Vec::new()
        },
    }
}

/// Writes issued in sequence complete and are read back in issuance
/// order: two writes come back as the first's bytes followed by the
/// second's, with no reordering across the bridge.
pub fn loopback_ordered_writes(d1: &Vec<u8>, d2: &Vec<u8>) -> (r: Vec<u8>)
    requires
        d1@.len() + d2@.len() <= usize::MAX,
    ensures
        r@ == d1@ + d2@,
{
    let mut writer = Bridge::new();
    let mut reader = Bridge::new();
    let mut stream = LoopbackStream::new();
    let _first = bridge_write(&mut writer, &mut stream, d1);
    let _second = bridge_write(&mut writer, &mut stream, d2);
    let want = d1.len() + d2.len();
    let got = bridge_read(&mut reader, &mut stream, want);
    match got {
        Ok(d) => {
            proof {
                assert(d@ =~= d1@ + d2@);
            }
            d
        },
        Err(_) => {
            proof {
                assert(false);
            }
            Vec::new()
        },
    }
}

} // verus!
