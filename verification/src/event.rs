//! The event handle given to middleware and handlers.
use vstd::prelude::*;

use std::sync::Arc;

verus! {

/// A Discord event, with access to the state that middleware and handlers
/// share between events.
pub struct Event<State> {
    state: Arc<State>,
}

impl<State> Event<State> {
    pub closed spec fn shared_state(&self) -> Arc<State> {
        self.state
    }

    pub(crate) fn new(state: Arc<State>) -> (e: Event<State>)
        ensures
            e.shared_state() == state,
    {
        Event { state }
    }
}

} // verus!
