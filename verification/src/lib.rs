//! Core logic of a transparent TCP relay.
//!
//! The relay pairs each accepted client connection with one outbound
//! connection to a fixed target and shuttles bytes in both directions.
//! This crate holds the verified core: the byte-transparency of the
//! chunked copy loop, the copy-loop state machine, the session
//! establishment protocol, and the acceptor's id assignment. The
//! network transport, threads and logging live outside the library and
//! drive it through these types.

mod chunk;
mod copy;
mod session;
mod accept;

pub use chunk::chunks_of;
pub use chunk::concat_of;
pub use chunk::relayed;
pub use chunk::views_of;
pub use chunk::chunk_bytes;
pub use chunk::lemma_relay_exact;
pub use chunk::lemma_buffer_size_invisible;
pub use chunk::lemma_chunk_sizes;
pub use chunk::lemma_no_cross_contamination;
pub use copy::LoopEnd;
pub use copy::LoopState;
pub use copy::LoopEvent;
pub use copy::LoopAction;
pub use copy::admissible;
pub use copy::step_spec;
pub use copy::loop_step;
pub use copy::lemma_terminated_is_final;
pub use copy::relay_direction;
pub use session::SessionError;
pub use session::SetupPhase;
pub use session::loops_started;
pub use session::setup_pending;
pub use session::advance_spec;
pub use session::setup_advance;
pub use session::setup_result;
pub use session::started_loops;
pub use session::lemma_unreachable_target_spawns_nothing;
pub use session::lemma_failed_setup_is_final;
pub use session::SessionLoops;
pub use session::session_step;
pub use session::lemma_half_close_keeps_draining;
pub use session::lemma_directions_independent;
pub use accept::Acceptor;
pub use accept::ids_up_to;
pub use accept::lemma_ids_unique_and_increasing;
