//! The gateway: shards, their sessions, and the routing of the events they
//! receive through interceptors to the middleware stack.
use vstd::prelude::*;

use std::sync::Arc;

use futures::future::AbortHandle;

pub mod connection;
pub mod event;
pub mod session;
pub mod session_state;
pub mod shard_processor;
pub mod zlib;

use self::event::{event_type_text, Dispatch, GatewayAction};
use self::session::Session;
use self::session_state::SessionState;
use crate::interceptors::{
    intercept, intercepted_by, interceptor_views, possible_sends, retained_list, Interceptor, InterceptorView,
};

verus! {

#[verifier::external_type_specification]
#[verifier::external_body]
pub struct ExAbortHandle(AbortHandle);

/// Stops the task behind an abort handle, `futures::future::AbortHandle::abort`.
#[verifier::external_body]
fn abort_task(handle: &AbortHandle) {
    handle.abort()
}

/// A connected shard: its number, the handle that stops its processor
/// task, and the session it shares with that task.
pub struct Shard {
    id: i32,
    processor_handle: AbortHandle,
    session: Arc<Session>,
    stop_requested: Ghost<bool>,
}

impl Shard {
    pub closed spec fn shard_id(&self) -> i32 {
        self.id
    }

    /// The handle that stops the shard's processor task.
    pub closed spec fn abort_handle(&self) -> AbortHandle {
        self.processor_handle
    }

    /// The session shared with the processor task.
    pub closed spec fn session(&self) -> Arc<Session> {
        self.session
    }

    /// Whether the shard's processor task was asked, through its abort
    /// handle, to stop.
    pub closed spec fn stop_requested(&self) -> bool {
        self.stop_requested@
    }

    /// A shard whose processor runs behind `processor_handle`.
    pub fn new(id: i32, processor_handle: AbortHandle, session: Arc<Session>) -> (s: Shard)
        ensures
            s.shard_id() == id,
            s.abort_handle() == processor_handle,
            s.session() == session,
            !s.stop_requested(),
    {
        Shard { id, processor_handle, session, stop_requested: Ghost(false) }
    }

    /// Stops the shard's processor: asks its task to stop through the abort
    /// handle.
    pub fn shutdown(&mut self)
        ensures
            final(self).shard_id() == old(self).shard_id(),
            final(self).abort_handle() == old(self).abort_handle(),
            final(self).session() == old(self).session(),
            final(self).stop_requested(),
    {
        abort_task(&self.processor_handle);
        proof {
            self.stop_requested@ = true;
        }
    }
}

/// The part of a gateway that decides what happens to actions and events:
/// its shards and the interceptors that middleware registered.
pub struct GatewayCore {
    shards: Vec<Shard>,
    interceptors: Vec<Interceptor>,
}

/// The numbers of a list of shards.
pub open spec fn shard_ids(shards: Seq<Shard>) -> Seq<i32> {
    shards.map_values(|s: Shard| s.shard_id())
}

impl GatewayCore {
    /// The registered interceptors, in order of registration.
    pub closed spec fn interceptor_list(&self) -> Seq<Interceptor> {
        self.interceptors@
    }

    /// The filters and counts of the registered interceptors.
    pub open spec fn interceptors(&self) -> Seq<InterceptorView> {
        interceptor_views(self.interceptor_list())
    }

    /// The shards, in order.
    pub closed spec fn shard_list(&self) -> Seq<Shard> {
        self.shards@
    }

    /// The numbers of the shards, in order.
    pub open spec fn shard_numbers(&self) -> Seq<i32> {
        shard_ids(self.shard_list())
    }

    /// No shards and no interceptors.
    pub fn new() -> (g: GatewayCore)
        ensures
            g.interceptor_list() == Seq::<Interceptor>::empty(),
            g.shard_numbers() == Seq::<i32>::empty(),
    {
        let g = GatewayCore { shards: Vec::new(), interceptors: Vec::new() };
        assert(g.shard_numbers() =~= Seq::<i32>::empty());
        g
    }

    /// Replaces the shards with the ones just connected.
    pub fn set_shards(&mut self, shards: Vec<Shard>)
        ensures
            final(self).shard_numbers() == shard_ids(shards@),
            final(self).interceptor_list() == old(self).interceptor_list(),
    {
        self.shards = shards;
    }

    /// Carries out an action that middleware sent: an interceptor is added
    /// after those already registered.
    pub fn handle_action(&mut self, action: GatewayAction)
        ensures
            final(self).shard_numbers() == old(self).shard_numbers(),
            match action {
                GatewayAction::AddInterceptor(i) => final(self).interceptor_list() == old(self).interceptor_list().push(i),
            },
    {
        match action {
            GatewayAction::AddInterceptor(interceptor) => {
                self.interceptors.push(interceptor);
            },
        }
    }

    /// Offers a dispatch to the interceptors, as [`intercept`] does, when
    /// there are any: each one whose filter matches is sent the event.
    /// Returns whether the event is still to go through the middleware
    /// stack: exactly when no interceptor whose filter matches accepted it.
    pub fn handle_event(&mut self, event: &Dispatch) -> (to_middleware: bool)
        ensures
            final(self).shard_numbers() == old(self).shard_numbers(),
            exists|accepted: Seq<bool>, sent: Seq<Interceptor>|
                #[trigger] possible_sends(
                    old(self).interceptor_list(),
                    event_type_text(event.event_type),
                    *event.event,
                    accepted,
                    sent,
                )
                    && final(self).interceptor_list() == retained_list(
                    old(self).interceptor_list(),
                    event_type_text(event.event_type),
                    accepted,
                    sent,
                ) && to_middleware == !intercepted_by(
                    old(self).interceptors(),
                    event_type_text(event.event_type),
                    accepted,
                ),
    {
        if self.interceptors.len() == 0 {
            let ghost t = event_type_text(event.event_type);
            assert(possible_sends(self.interceptor_list(), t, *event.event, Seq::<bool>::empty(), Seq::<Interceptor>::empty()));
            assert(retained_list(self.interceptor_list(), t, Seq::<bool>::empty(), Seq::<Interceptor>::empty())
                =~= self.interceptor_list());
            return true;
        }
        let intercepted = intercept(&mut self.interceptors, event);
        proof {
            let t = event_type_text(event.event_type);
            let is = old(self).interceptors@;
            let (accepted, sent) = choose|accepted: Seq<bool>, sent: Seq<Interceptor>|
                #[trigger] possible_sends(is, t, *event.event, accepted, sent) && self.interceptors@ == retained_list(is, t, accepted, sent)
                    && intercepted == intercepted_by(interceptor_views(is), t, accepted);
            assert(possible_sends(old(self).interceptor_list(), t, *event.event, accepted, sent));
        }
        !intercepted
    }

    /// Stops every shard's processor: each shard's task is asked to stop.
    pub fn shutdown(&mut self)
        ensures
            final(self).shard_numbers() == old(self).shard_numbers(),
            final(self).interceptor_list() == old(self).interceptor_list(),
            forall|i: int| 0 <= i < final(self).shard_list().len() ==> #[trigger] final(self).shard_list()[i].stop_requested(),
    {
        let n = self.shards.len();
        let mut i: usize = 0;
        let mut shards: Vec<Shard> = Vec::new();
        std::mem::swap(&mut shards, &mut self.shards);
        let ghost orig = shards@;
        while i < n
            invariant
                n == orig.len(),
                i <= n,
                shards@ == orig.subrange(i as int, n as int),
                shard_ids(self.shards@) == shard_ids(orig.take(i as int)),
                self.shards@.len() == i,
                forall|j: int| 0 <= j < i ==> #[trigger] self.shards@[j].stop_requested(),
                self.interceptors == old(self).interceptors,
            decreases n - i,
        {
            let mut shard = shards.remove(0);
            shard.shutdown();
            let ghost before = self.shards@;
            self.shards.push(shard);
            assert(shard_ids(self.shards@) =~= shard_ids(orig.take(i + 1))) by {
                assert(shard_ids(self.shards@) =~= shard_ids(before).push(shard.shard_id()));
                assert(orig.take(i + 1) =~= orig.take(i as int).push(orig[i as int]));
            }
            i = i + 1;
        }
        assert(orig.take(n as int) =~= orig);
    }

    /// The number and session state of each shard, in order. The states are
    /// read from sessions that the shards' tasks update, so no clause says
    /// which ones they are.
    pub fn get_shard_status(&self) -> (r: Vec<(i32, SessionState)>)
        ensures
            r@.len() == self.shard_numbers().len(),
            forall|i: int| 0 <= i < r@.len() ==> #[trigger] r@[i].0 == self.shard_numbers()[i],
    {
        let mut r: Vec<(i32, SessionState)> = Vec::new();
        let n = self.shards.len();
        let mut i: usize = 0;
        while i < n
            invariant
                n == self.shards@.len(),
                i <= n,
                r@.len() == i,
                forall|j: int| 0 <= j < i ==> #[trigger] r@[j].0 == self.shards@[j].shard_id(),
            decreases n - i,
        {
            let shard = &self.shards[i];
            r.push((shard.id, shard.session.get_state()));
            i = i + 1;
        }
        r
    }
}

} // verus!
