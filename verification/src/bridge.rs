//! Completion-to-readiness I/O bridge.
//!
//! A completion-style stream takes ownership of a buffer and signals
//! later that the operation finished; readiness-style callers poll
//! with a borrowed buffer and are told "ready" or "not yet".  The
//! bridge adapts the former to the latter, one connection at a time,
//! with at most one in-flight operation per direction.
//!
//! Buffer-ownership discipline: the staging buffer of a direction is
//! owned either by the caller (between polls) or by the completion
//! engine (while an operation is in flight) — never both, never
//! neither.  A completed read's bytes are handed back to the caller
//! in full before the bridge reports "ready".  Dropping the polling
//! caller's interest detaches the in-flight operation: it keeps
//! running against the engine-owned staging buffer, and its outcome
//! is consumed by the next poll.

use vstd::prelude::*;

use crate::errors::IoErrorKind;

verus! {

/// Which side owns a direction's staging buffer.
#[derive(Clone, Copy, PartialEq, Eq, Structural, Debug)]
pub enum BufferOwner {
    Caller,
    Engine,
}

/// State of the read direction of one bridged connection.
#[derive(Debug)]
pub enum ReadState {
    /// No operation in flight; the caller owns all buffers.
    Idle,
    /// A completion-style read into a staging buffer of capacity
    /// `len` is running; the engine owns that buffer.
    InFlight { len: usize },
    /// The operation finished with bytes not yet handed to the caller.
    Complete { data: Vec<u8> },
    /// The operation finished with zero bytes: end of stream, not yet
    /// reported to the caller.
    CompleteEof,
    /// The operation failed; the error has not yet been surfaced.
    CompleteErr { error: IoErrorKind },
    /// End of stream was reported; the bridge never submits again.
    Closed,
    /// An error was surfaced; the stream is unusable thereafter.
    Dead { error: IoErrorKind },
}

/// State of the write direction of one bridged connection.
#[derive(Debug)]
pub enum WriteState {
    /// No operation in flight; the caller owns all buffers.
    Idle,
    /// A completion-style write of `len` staged bytes is running; the
    /// engine owns the staging buffer.
    InFlight { len: usize },
    /// The operation finished, `written` bytes accepted, not yet
    /// reported to the caller.
    Complete { written: usize },
    /// The operation failed; the error has not yet been surfaced.
    CompleteErr { error: IoErrorKind },
    /// An error was surfaced; the stream is unusable thereafter.
    Dead { error: IoErrorKind },
}

/// What one poll of the read direction tells the caller.
#[derive(Debug)]
pub enum ReadPoll {
    /// A completion-style read of capacity `len` must be submitted to
    /// the engine; the caller is told "not yet".
    Submitted { len: usize },
    /// The in-flight operation has not completed; nothing resubmitted.
    Pending,
    /// Completed bytes, restored to the caller in full.
    Ready { data: Vec<u8> },
    /// End of stream.
    Eof,
    /// The engine failed; the stream is unusable from here on.
    Failed { error: IoErrorKind },
}

/// What one poll of the write direction tells the caller.
#[derive(Debug)]
pub enum WritePoll {
    /// The caller's bytes were copied into an engine-owned staging
    /// buffer, which must be submitted; the caller is told "not yet".
    Submitted { staged: Vec<u8> },
    /// The in-flight operation has not completed; nothing resubmitted.
    Pending,
    /// The engine accepted `written` bytes of the staged buffer.
    Flushed { written: usize },
    /// The engine failed; the stream is unusable from here on.
    Failed { error: IoErrorKind },
}

/// Outcome the completion engine reports for a finished read.
#[derive(Debug)]
pub enum ReadOutcome {
    /// The filled prefix of the staging buffer; empty means end of
    /// stream.
    Bytes { data: Vec<u8> },
    /// The operation failed.
    Failure { error: IoErrorKind },
}

/// Outcome the completion engine reports for a finished write.
#[derive(Debug)]
pub enum WriteOutcome {
    /// How many staged bytes the engine accepted.
    Written { n: usize },
    /// The operation failed.
    Failure { error: IoErrorKind },
}

/// Per-connection adapter state: one read slot and one write slot,
/// each with at most one in-flight completion-style operation.
#[derive(Debug)]
pub struct Bridge {
    pub read_state: ReadState,
    pub write_state: WriteState,
}

impl Bridge {
    /// Who owns the read direction's staging buffer now.
    pub open spec fn read_buffer_owner(self) -> BufferOwner {
        if self.read_state is InFlight {
            BufferOwner::Engine
        } else {
            BufferOwner::Caller
        }
    }

    /// Who owns the write direction's staging buffer now.
    pub open spec fn write_buffer_owner(self) -> BufferOwner {
        if self.write_state is InFlight {
            BufferOwner::Engine
        } else {
            BufferOwner::Caller
        }
    }

    /// A fresh bridge: nothing in flight, both buffers with the caller.
    pub fn new() -> (r: Bridge)
        ensures
            r.read_state is Idle,
            r.write_state is Idle,
            r.read_buffer_owner() == BufferOwner::Caller,
            r.write_buffer_owner() == BufferOwner::Caller,
    {
        Bridge { read_state: ReadState::Idle, write_state: WriteState::Idle }
    }

    /// Polls the read direction with a caller region of `want` bytes.
    ///
    /// On the first poll with nothing in flight a completion read of
    /// capacity `want` is handed to the engine and the caller is told
    /// "not yet"; while it runs, further polls report `Pending`
    /// without resubmitting; once it completes, the next poll hands
    /// the caller every completed byte, the end-of-stream signal, or
    /// the error, each exactly once.  After an error the stream is
    /// unusable; after end of stream nothing is ever submitted again.
    pub fn poll_read(&mut self, want: usize) -> (r: ReadPoll)
        ensures
            old(self).read_state is Idle ==> {
                &&& r matches ReadPoll::Submitted { len } && len == want
                &&& final(self).read_state matches ReadState::InFlight { len } && len == want
            },
            old(self).read_state matches ReadState::InFlight { len } ==> {
                &&& r is Pending
                &&& final(self).read_state matches ReadState::InFlight { len: l2 } && l2 == len
            },
            old(self).read_state matches ReadState::Complete { data } ==> {
                &&& r matches ReadPoll::Ready { data: d } && d@ == data@
                &&& final(self).read_state is Idle
            },
            old(self).read_state is CompleteEof ==> r is Eof && final(self).read_state
                is Closed,
            old(self).read_state matches ReadState::CompleteErr { error } ==> {
                &&& r matches ReadPoll::Failed { error: e } && e == error
                &&& final(self).read_state matches ReadState::Dead { error: e2 } && e2 == error
            },
            old(self).read_state is Closed ==> r is Eof && final(self).read_state is Closed,
            old(self).read_state matches ReadState::Dead { error } ==> {
                &&& r matches ReadPoll::Failed { error: e } && e == error
                &&& final(self).read_state matches ReadState::Dead { error: e2 } && e2 == error
            },
            final(self).write_state == old(self).write_state,
            r is Ready || r is Eof || r is Failed ==> final(self).read_buffer_owner()
                == BufferOwner::Caller,
    {
        let mut state = ReadState::Idle;
        core::mem::swap(&mut state, &mut self.read_state);
        match state {
            ReadState::Idle => {
                self.read_state = ReadState::InFlight { len: want };
                ReadPoll::Submitted { len: want }
            },
            ReadState::InFlight { len } => {
                self.read_state = ReadState::InFlight { len };
                ReadPoll::Pending
            },
            ReadState::Complete { data } => {
                self.read_state = ReadState::Idle;
                ReadPoll::Ready { data }
            },
            ReadState::CompleteEof => {
                self.read_state = ReadState::Closed;
                ReadPoll::Eof
            },
            ReadState::CompleteErr { error } => {
                self.read_state = ReadState::Dead { error };
                ReadPoll::Failed { error }
            },
            ReadState::Closed => {
                self.read_state = ReadState::Closed;
                ReadPoll::Eof
            },
            ReadState::Dead { error } => {
                self.read_state = ReadState::Dead { error };
                ReadPoll::Failed { error }
            },
        }
    }

    /// Records the completion of the in-flight read.
    ///
    /// Zero completed bytes signal end of stream; the signal, the
    /// bytes or the error are stored to be delivered by the next poll,
    /// exactly once.  The engine may fill at most the staging capacity
    /// it was handed.
    pub fn on_read_complete(&mut self, outcome: ReadOutcome)
        requires
            old(self).read_state is InFlight,
            outcome matches ReadOutcome::Bytes { data } ==> data@.len()
                <= old(self).read_state->InFlight_len,
        ensures
            outcome matches ReadOutcome::Bytes { data } ==> {
                &&& data@.len() > 0 ==> final(self).read_state == (ReadState::Complete { data })
                &&& data@.len() == 0 ==> final(self).read_state is CompleteEof
            },
            outcome matches ReadOutcome::Failure { error } ==> final(self).read_state == (
            ReadState::CompleteErr { error }),
            final(self).write_state == old(self).write_state,
            final(self).read_buffer_owner() == BufferOwner::Caller,
    {
        match outcome {
            ReadOutcome::Bytes { data } => {
                if data.len() == 0 {
                    self.read_state = ReadState::CompleteEof;
                } else {
                    self.read_state = ReadState::Complete { data };
                }
            },
            ReadOutcome::Failure { error } => {
                self.read_state = ReadState::CompleteErr { error };
            },
        }
    }

    /// Drops the polling caller's interest in a pending read.
    ///
    /// The in-flight operation is detached, not torn down: the engine
    /// keeps the staging buffer for as long as the operation runs, so
    /// cancellation never frees a buffer the engine still writes into,
    /// and the bridge's state is exactly what it was.  Returns whether
    /// an operation stays detached in flight.
    pub fn cancel_read(&mut self) -> (detached: bool)
        ensures
            *final(self) == *old(self),
            detached == (old(self).read_buffer_owner() == BufferOwner::Engine),
    {
        match &self.read_state {
            ReadState::InFlight { .. } => true,
            _ => false,
        }
    }

    /// Polls the write direction with the caller's bytes.
    ///
    /// On the first poll the caller's bytes are copied, byte for byte,
    /// into a staging buffer the engine will own for the operation's
    /// whole duration; completion is then reported exactly once, as
    /// for reads.
    pub fn poll_write(&mut self, data: &Vec<u8>) -> (r: WritePoll)
        ensures
            old(self).write_state is Idle ==> {
                &&& r matches WritePoll::Submitted { staged } && staged@ == data@
                &&& final(self).write_state matches WriteState::InFlight { len } && len
                    == data@.len()
            },
            old(self).write_state matches WriteState::InFlight { len } ==> {
                &&& r is Pending
                &&& final(self).write_state matches WriteState::InFlight { len: l2 } && l2
                    == len
            },
            old(self).write_state matches WriteState::Complete { written } ==> {
                &&& r matches WritePoll::Flushed { written: w } && w == written
                &&& final(self).write_state is Idle
            },
            old(self).write_state matches WriteState::CompleteErr { error } ==> {
                &&& r matches WritePoll::Failed { error: e } && e == error
                &&& final(self).write_state matches WriteState::Dead { error: e2 } && e2
                    == error
            },
            old(self).write_state matches WriteState::Dead { error } ==> {
                &&& r matches WritePoll::Failed { error: e } && e == error
                &&& final(self).write_state matches WriteState::Dead { error: e2 } && e2
                    == error
            },
            final(self).read_state == old(self).read_state,
    {
        let mut state = WriteState::Idle;
        core::mem::swap(&mut state, &mut self.write_state);
        match state {
            WriteState::Idle => {
                let staged = data.clone();
                self.write_state = WriteState::InFlight { len: staged.len() };
                WritePoll::Submitted { staged }
            },
            WriteState::InFlight { len } => {
                self.write_state = WriteState::InFlight { len };
                WritePoll::Pending
            },
            WriteState::Complete { written } => {
                self.write_state = WriteState::Idle;
                WritePoll::Flushed { written }
            },
            WriteState::CompleteErr { error } => {
                self.write_state = WriteState::Dead { error };
                WritePoll::Failed { error }
            },
            WriteState::Dead { error } => {
                self.write_state = WriteState::Dead { error };
                WritePoll::Failed { error }
            },
        }
    }

    /// Records the completion of the in-flight write.
    pub fn on_write_complete(&mut self, outcome: WriteOutcome)
        requires
            old(self).write_state is InFlight,
            outcome matches WriteOutcome::Written { n } ==> n
                <= old(self).write_state->InFlight_len,
        ensures
            outcome matches WriteOutcome::Written { n } ==> final(self).write_state == (
            WriteState::Complete { written: n }),
            outcome matches WriteOutcome::Failure { error } ==> final(self).write_state == (
            WriteState::CompleteErr { error }),
            final(self).read_state == old(self).read_state,
            final(self).write_buffer_owner() == BufferOwner::Caller,
    {
        match outcome {
            WriteOutcome::Written { n } => {
                self.write_state = WriteState::Complete { written: n };
            },
            WriteOutcome::Failure { error } => {
                self.write_state = WriteState::CompleteErr { error };
            },
        }
    }
}

/// Copies as much of `src` as fits into the caller's borrowed region
/// `out`, from its start, leaving the region's length unchanged;
/// returns the count copied.  This is the final hand-back step of a
/// completed read: the bytes reach the caller unaltered and in order.
pub fn copy_into(out: &mut Vec<u8>, src: &Vec<u8>) -> (n: usize)
    ensures
        n == if src@.len() <= old(out)@.len() {
            src@.len()
        } else {
            old(out)@.len()
        },
        final(out)@.len() == old(out)@.len(),
        final(out)@ == src@.take(n as int) + old(out)@.skip(n as int),
{
    let n: usize = if src.len() <= out.len() {
        src.len()
    } else {
        out.len()
    };
    let mut i: usize = 0;
    while i < n
        invariant
            i <= n,
            n <= src@.len(),
            n <= out@.len(),
            out@.len() == old(out)@.len(),
            forall|j: int| 0 <= j < i ==> out@[j] == src@[j],
            forall|j: int| i <= j < out@.len() ==> out@[j] == old(out)@[j],
        decreases n - i,
    {
        let b = src[i];
        out.set(i, b);
        i = i + 1;
    }
    proof {
        assert(out@ =~= src@.take(n as int) + old(out)@.skip(n as int));
    }
    n
}

} // verus!
