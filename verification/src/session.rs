//! Session establishment and the paired copy loops of one session.
//!
//! A session pairs one inbound connection with one outbound connection
//! under a single identifier. Establishing it proceeds in five steps:
//! split the inbound connection into a read handle and a write handle,
//! connect to the target, split the outbound connection the same way,
//! start the forward copy loop (inbound read to outbound write), and
//! start the backward copy loop (outbound read to inbound write). Any
//! failure aborts the establishment: in particular, a failed connect
//! leaves no copy loop started. A failed session never halts the
//! acceptor; it is abandoned and the next connection is served.
//!
//! Once established, the two copy loops run independently: an event on
//! one direction never moves the other, so a half-closed session keeps
//! draining the still-open direction.

use vstd::prelude::*;
use crate::copy::LoopEvent;
use crate::copy::LoopState;
use crate::copy::admissible;
use crate::copy::step_spec;

verus! {

/// Why establishing a session failed.
#[derive(Clone, Copy, Debug, PartialEq, Eq, Structural)]
pub enum SessionError {
    /// Splitting a connection into its read and write handles failed.
    SplitFailed,
    /// The outbound connection to the target could not be opened.
    ConnectFailed,
    /// Starting a copy loop's worker failed.
    SpawnFailed,
}

/// How far establishing a session has come.
///
/// The phases follow the five steps in order; `Failed` records the
/// step that went wrong and is final.
#[derive(Clone, Copy, Debug, PartialEq, Eq, Structural)]
pub enum SetupPhase {
    /// Nothing done yet; the inbound connection was just handed over.
    Start,
    /// The inbound connection is split into read and write handles.
    InboundSplit,
    /// The outbound connection to the target is open.
    Connected,
    /// The outbound connection is split into read and write handles.
    OutboundSplit,
    /// The forward copy loop (inbound to outbound) is running.
    ForwardStarted,
    /// Both copy loops are running; establishment returned success.
    Established,
    /// Establishment aborted at the recorded step.
    Failed(SessionError),
}

/// How many copy loops have been started in this phase.
pub open spec fn loops_started(phase: SetupPhase) -> nat {
    match phase {
        SetupPhase::ForwardStarted => 1,
        SetupPhase::Established => 2,
        SetupPhase::Failed(e) => if e is SpawnFailed {
            1
        } else {
            0
        },
        _ => 0,
    }
}

/// Whether `phase` still has a step to perform.
pub open spec fn setup_pending(phase: SetupPhase) -> bool {
    match phase {
        SetupPhase::Established | SetupPhase::Failed(_) => false,
        _ => true,
    }
}

/// The transition of the establishment protocol: from `phase`, the
/// pending step either succeeded (`ok`) or failed.
pub open spec fn advance_spec(phase: SetupPhase, ok: bool) -> SetupPhase {
    match phase {
        SetupPhase::Start => if ok {
            SetupPhase::InboundSplit
        } else {
            SetupPhase::Failed(SessionError::SplitFailed)
        },
        SetupPhase::InboundSplit => if ok {
            SetupPhase::Connected
        } else {
            SetupPhase::Failed(SessionError::ConnectFailed)
        },
        SetupPhase::Connected => if ok {
            SetupPhase::OutboundSplit
        } else {
            SetupPhase::Failed(SessionError::SplitFailed)
        },
        SetupPhase::OutboundSplit => if ok {
            SetupPhase::ForwardStarted
        } else {
            SetupPhase::Failed(SessionError::SpawnFailed)
        },
        SetupPhase::ForwardStarted => if ok {
            SetupPhase::Established
        } else {
            SetupPhase::Failed(SessionError::SpawnFailed)
        },
        phase => phase,
    }
}

/// Advances the establishment protocol by one step: the driver
/// performs the pending operation on the transport and reports whether
/// it succeeded. A failure aborts establishment with the error of that
/// step; a copy loop is only ever started after the outbound connect
/// and both splits have succeeded.
pub fn setup_advance(phase: SetupPhase, ok: bool) -> (next: SetupPhase)
    requires
        setup_pending(phase),
    ensures
        next == advance_spec(phase, ok),
{
    match phase {
        SetupPhase::Start => if ok {
            SetupPhase::InboundSplit
        } else {
            SetupPhase::Failed(SessionError::SplitFailed)
        },
        SetupPhase::InboundSplit => if ok {
            SetupPhase::Connected
        } else {
            SetupPhase::Failed(SessionError::ConnectFailed)
        },
        SetupPhase::Connected => if ok {
            SetupPhase::OutboundSplit
        } else {
            SetupPhase::Failed(SessionError::SplitFailed)
        },
        SetupPhase::OutboundSplit => if ok {
            SetupPhase::ForwardStarted
        } else {
            SetupPhase::Failed(SessionError::SpawnFailed)
        },
        SetupPhase::ForwardStarted => if ok {
            SetupPhase::Established
        } else {
            SetupPhase::Failed(SessionError::SpawnFailed)
        },
        phase => phase,
    }
}

/// The establishment outcome as the acceptor sees it: an error while
/// the session was still being set up, or success once both loops run.
/// In every other phase the outcome is still pending.
pub fn setup_result(phase: SetupPhase) -> (r: Option<Result<(), SessionError>>)
    ensures
        phase is Established ==> r == Some(Result::<(), SessionError>::Ok(())),
        phase matches SetupPhase::Failed(e) ==> r == Some(Result::<(), SessionError>::Err(e)),
        setup_pending(phase) ==> r is None,
{
    match phase {
        SetupPhase::Established => Some(Ok(())),
        SetupPhase::Failed(e) => Some(Err(e)),
        _ => None,
    }
}

/// The number of copy-loop workers started by the time establishment
/// stands in `phase`, for the driver's diagnostics.
pub fn started_loops(phase: SetupPhase) -> (n: u64)
    ensures
        n == loops_started(phase),
{
    match phase {
        SetupPhase::ForwardStarted => 1,
        SetupPhase::Established => 2,
        SetupPhase::Failed(SessionError::SpawnFailed) => 1,
        _ => 0,
    }
}

/// An unreachable target spawns no copy loop: when the outbound
/// connect fails, establishment ends at once with `ConnectFailed`,
/// with both copy loops unstarted, and every step before the connect
/// leaves the count at zero as well.
pub proof fn lemma_unreachable_target_spawns_nothing()
    ensures
        advance_spec(advance_spec(SetupPhase::Start, true), false) == SetupPhase::Failed(
            SessionError::ConnectFailed,
        ),
        loops_started(advance_spec(advance_spec(SetupPhase::Start, true), false)) == 0,
        forall|ok: bool| loops_started(#[trigger] advance_spec(SetupPhase::Start, ok)) == 0,
        forall|ok: bool| loops_started(#[trigger] advance_spec(SetupPhase::InboundSplit, ok)) == 0,
        forall|ok: bool| loops_started(#[trigger] advance_spec(SetupPhase::Connected, ok)) == 0,
{
}

/// A failed establishment is final: no further step moves it, so an
/// abandoned session never starts a loop later.
pub proof fn lemma_failed_setup_is_final(e: SessionError, ok: bool)
    ensures
        advance_spec(SetupPhase::Failed(e), ok) == SetupPhase::Failed(e),
        loops_started(SetupPhase::Failed(e)) == if e is SpawnFailed {
            1nat
        } else {
            0nat
        },
{
}

/// The two copy loops of one established session.
///
/// `forward` moves bytes from the inbound connection to the outbound
/// one; `backward` moves them the opposite way. The two share nothing:
/// each owns its transfer buffer and its pair of handles.
#[derive(Clone, Copy, Debug, PartialEq, Eq, Structural)]
pub struct SessionLoops {
    /// State of the inbound-to-outbound copy loop.
    pub forward: LoopState,
    /// State of the outbound-to-inbound copy loop.
    pub backward: LoopState,
}

impl SessionLoops {
    /// Both loops of a fresh session start waiting on a read.
    pub fn establish() -> (s: SessionLoops)
        ensures
            s.forward == LoopState::Reading,
            s.backward == LoopState::Reading,
    {
        SessionLoops { forward: LoopState::Reading, backward: LoopState::Reading }
    }

    /// Steps the forward loop on a transport outcome. The backward
    /// loop is untouched: the directions are independent.
    pub fn forward_step(&mut self, event: LoopEvent)
        requires
            admissible(old(self).forward, event),
        ensures
            final(self).forward == step_spec(old(self).forward, event).0,
            final(self).backward == old(self).backward,
    {
        let (next, _) = crate::copy::loop_step(self.forward, event);
        self.forward = next;
    }

    /// Steps the backward loop on a transport outcome. The forward
    /// loop is untouched: the directions are independent.
    pub fn backward_step(&mut self, event: LoopEvent)
        requires
            admissible(old(self).backward, event),
        ensures
            final(self).backward == step_spec(old(self).backward, event).0,
            final(self).forward == old(self).forward,
    {
        let (next, _) = crate::copy::loop_step(self.backward, event);
        self.backward = next;
    }
}

/// The session-level transition: one direction of `s` takes one
/// transport outcome; the other direction is left as it is.
pub open spec fn session_step(s: SessionLoops, forward: bool, event: LoopEvent) -> SessionLoops {
    if forward {
        SessionLoops { forward: step_spec(s.forward, event).0, backward: s.backward }
    } else {
        SessionLoops { forward: s.forward, backward: step_spec(s.backward, event).0 }
    }
}

/// Half-close: after the forward loop has terminated — the client
/// closed its write side — the backward loop still takes every
/// admissible event exactly as the copy loop alone would, and keeps
/// delivering until the target itself closes; and no event on the
/// backward loop revives the terminated forward loop. The two
/// directions terminate independently.
pub proof fn lemma_half_close_keeps_draining(s: SessionLoops, event: LoopEvent)
    requires
        s.forward is Terminated,
        admissible(s.backward, event),
    ensures
        session_step(s, false, event).backward == step_spec(s.backward, event).0,
        session_step(s, false, event).forward == s.forward,
{
}

/// Independence of the two directions, in general: a step of either
/// direction changes only that direction, whatever the state of the
/// other, and the moved direction follows the copy loop's own
/// transition exactly.
pub proof fn lemma_directions_independent(s: SessionLoops, forward: bool, event: LoopEvent)
    ensures
        forward ==> session_step(s, forward, event).backward == s.backward,
        !forward ==> session_step(s, forward, event).forward == s.forward,
        forward ==> session_step(s, forward, event).forward == step_spec(s.forward, event).0,
        !forward ==> session_step(s, forward, event).backward == step_spec(s.backward, event).0,
{
}

} // verus!
