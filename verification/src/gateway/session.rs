//! The session state shared between a shard and its processor.
use vstd::prelude::*;

use std::sync::atomic::AtomicU8;
use std::sync::atomic::Ordering;

use super::session_state::SessionState;

verus! {

/// A session's state, stored as one byte that several tasks may read and
/// write at once.
pub struct Session {
    state: AtomicU8,
}

impl Session {
    /// A session that starts out disconnected.
    pub fn new() -> (s: Session) {
        Session { state: AtomicU8::new(SessionState::Disconnected.to_u8()) }
    }

    /// The state last stored, decoded with
    /// [`SessionState::from_u8_or_default`]. Another task may store a
    /// state at any time, so no clause ties the result to an earlier
    /// [`Session::set_state`].
    pub fn get_state(&self) -> (s: SessionState) {
        SessionState::from_u8_or_default(self.state.load(Ordering::Relaxed))
    }

    /// Stores the encoding of `state` ([`SessionState::to_u8`]).
    pub fn set_state(&self, state: SessionState) {
        self.state.store(state.to_u8(), Ordering::Release);
    }
}

} // verus!
