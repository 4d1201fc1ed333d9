//! The copy loop: the unidirectional read-then-write cycle.
//!
//! A copy loop repeatedly reads up to `buffer_size` bytes from its
//! source and writes exactly what it read to its sink, until a clean
//! end-of-stream or an I/O error ends it. Termination is final and
//! local to the loop: the sibling loop of the session is never told.
//!
//! The transport itself lives outside the library. The driver reads
//! and writes on the real connections and reports each outcome as a
//! [`LoopEvent`]; [`loop_step`] decides, for every state and event,
//! the next state and the action to perform. [`relay_direction`]
//! is the loop's data path on a modelled source: it shows that the
//! chunked forwarding delivers the source byte-for-byte.

use vstd::prelude::*;
use crate::chunk::relayed;
use crate::chunk::lemma_relay_exact;

verus! {

/// Why a copy loop terminated.
#[derive(Clone, Copy, Debug, PartialEq, Eq, Structural)]
pub enum LoopEnd {
    /// The source reported zero bytes with no error: clean end-of-stream.
    EndOfStream,
    /// A read on the source failed.
    ReadError,
    /// A write on the sink failed.
    WriteError,
}

/// The state of one copy loop.
///
/// `Reading` and `Writing` refine the running state: a running loop is
/// either waiting on a read or holding `n` freshly read bytes that it
/// must write. `Terminated` is final: no transition leaves it.
#[derive(Clone, Copy, Debug, PartialEq, Eq, Structural)]
pub enum LoopState {
    /// Waiting for the next read on the source.
    Reading,
    /// Holding `n` bytes that must be written to the sink.
    Writing(usize),
    /// The loop has ended, for the recorded reason, and never resumes.
    Terminated(LoopEnd),
}

/// What the transport reported to the loop.
#[derive(Clone, Copy, Debug, PartialEq, Eq, Structural)]
pub enum LoopEvent {
    /// A read returned `n` bytes; `0` means end-of-stream.
    ReadOk(usize),
    /// A read failed.
    ReadFailed,
    /// The pending bytes were written in full.
    WriteOk,
    /// The write failed or was partial.
    WriteFailed,
}

/// What the driver must do next.
#[derive(Clone, Copy, Debug, PartialEq, Eq, Structural)]
pub enum LoopAction {
    /// Read up to `buffer_size` bytes from the source.
    Read,
    /// Write the first `n` bytes of the transfer buffer to the sink.
    Write(usize),
    /// Release both endpoints; the loop is over.
    Stop,
}

/// Whether `event` is one the transport can report in `state`: read
/// outcomes answer a pending read, write outcomes a pending write.
/// A terminated loop awaits nothing, but absorbs any stray outcome.
pub open spec fn admissible(state: LoopState, event: LoopEvent) -> bool {
    match state {
        LoopState::Reading => event is ReadOk || event is ReadFailed,
        LoopState::Writing(_) => event is WriteOk || event is WriteFailed,
        LoopState::Terminated(_) => true,
    }
}

/// The transition of one copy loop on one transport outcome.
pub open spec fn step_spec(state: LoopState, event: LoopEvent) -> (LoopState, LoopAction) {
    match (state, event) {
        (LoopState::Reading, LoopEvent::ReadOk(n)) => if n == 0 {
            (LoopState::Terminated(LoopEnd::EndOfStream), LoopAction::Stop)
        } else {
            (LoopState::Writing(n), LoopAction::Write(n))
        },
        (LoopState::Reading, _) => (LoopState::Terminated(LoopEnd::ReadError), LoopAction::Stop),
        (LoopState::Writing(_), LoopEvent::WriteOk) => (LoopState::Reading, LoopAction::Read),
        (LoopState::Writing(_), _) => (
            LoopState::Terminated(LoopEnd::WriteError),
            LoopAction::Stop,
        ),
        (LoopState::Terminated(r), _) => (LoopState::Terminated(r), LoopAction::Stop),
    }
}

/// Decides the copy loop's next state and action from the outcome the
/// transport reported: zero bytes read end the loop cleanly, `n > 0`
/// bytes read demand a write of exactly those `n` bytes, a completed
/// write resumes reading, and any read or write failure terminates the
/// loop at once, with no retry.
pub fn loop_step(state: LoopState, event: LoopEvent) -> (r: (LoopState, LoopAction))
    requires
        admissible(state, event),
    ensures
        r == step_spec(state, event),
{
    match (state, event) {
        (LoopState::Reading, LoopEvent::ReadOk(n)) => if n == 0 {
            (LoopState::Terminated(LoopEnd::EndOfStream), LoopAction::Stop)
        } else {
            (LoopState::Writing(n), LoopAction::Write(n))
        },
        (LoopState::Reading, _) => (LoopState::Terminated(LoopEnd::ReadError), LoopAction::Stop),
        (LoopState::Writing(_), LoopEvent::WriteOk) => (LoopState::Reading, LoopAction::Read),
        (LoopState::Writing(_), _) => (
            LoopState::Terminated(LoopEnd::WriteError),
            LoopAction::Stop,
        ),
        (LoopState::Terminated(r), _) => (LoopState::Terminated(r), LoopAction::Stop),
    }
}

/// Termination is final and unconditional: no event moves a terminated
/// loop out of `Terminated`, its reason never changes, and the only
/// action it ever demands is `Stop`. There is no retry and no backoff.
pub proof fn lemma_terminated_is_final(reason: LoopEnd, event: LoopEvent)
    ensures
        step_spec(LoopState::Terminated(reason), event).0 == LoopState::Terminated(reason),
        step_spec(LoopState::Terminated(reason), event).1 == LoopAction::Stop,
{
}

/// The data path of one copy loop over a modelled source: reads the
/// source chunk by chunk through a transfer buffer of `buffer_size`
/// bytes and writes each chunk to the returned sink. The sink receives
/// exactly the source, byte-for-byte and in order, whatever the buffer
/// size: the relay alters nothing.
pub fn relay_direction(source: &Vec<u8>, buffer_size: usize) -> (delivered: Vec<u8>)
    requires
        buffer_size >= 1,
    ensures
        delivered@ == source@,
        delivered@ == relayed(source@, buffer_size as nat),
{
    let mut delivered: Vec<u8> = Vec::new();
    let mut pos: usize = 0;
    while pos < source.len()
        invariant
            buffer_size >= 1,
            pos <= source.len(),
            delivered@ == source@.take(pos as int),
        decreases source.len() - pos,
    {
        let remaining = source.len() - pos;
        let take = if remaining < buffer_size {
            remaining
        } else {
            buffer_size
        };
        let mut buffer: Vec<u8> = Vec::new();
        let mut i: usize = 0;
        while i < take
            invariant
                pos + take <= source.len(),
                i <= take,
                buffer@ == source@.subrange(pos as int, pos + i),
            decreases take - i,
        {
            buffer.push(source[pos + i]);
            assert(buffer@ =~= source@.subrange(pos as int, pos + i + 1));
            i += 1;
        }
        let mut j: usize = 0;
        while j < take
            invariant
                pos + take <= source.len(),
                j <= take,
                take == buffer@.len(),
                buffer@ == source@.subrange(pos as int, pos + take as int),
                delivered@ == source@.take(pos + j),
            decreases take - j,
        {
            delivered.push(buffer[j]);
            assert(delivered@ =~= source@.take(pos + j + 1));
            j += 1;
        }
        pos += take;
    }
    proof {
        assert(delivered@ =~= source@);
        lemma_relay_exact(source@, buffer_size as nat);
    }
    delivered
}

} // verus!
