//! Per-connection session engine for a conversational socket service.
//!
//! A session owns an append-only transcript of role-tagged turns, seeded with
//! a system prompt, and drives a protocol state machine: inbound text frames
//! become user turns, each answered by a text-generation backend; a periodic
//! heartbeat frame is owed while the session is active; a peer close or a
//! backend failure closes the session. The engine here is pure: a driver
//! performs the network and backend calls and feeds events back in.

use vstd::prelude::*;

pub mod frames;
pub mod laws;
pub mod session;
pub mod transcript;

pub use frames::heartbeat_frame;
pub use frames::is_benign;
pub use frames::reply_frame;
pub use frames::ErrorClass;
pub use session::Action;
pub use session::Event;
pub use session::Frame;
pub use session::GenError;
pub use session::GenReply;
pub use session::Phase;
pub use session::Session;
pub use transcript::Role;
pub use transcript::Transcript;
pub use transcript::Turn;

verus! {

/// Milliseconds between heartbeat frames on an active session.
pub const HEARTBEAT_INTERVAL_MS: u64 = 1000;

} // verus!
