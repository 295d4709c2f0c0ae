//! Interceptors: middleware asks the gateway to hand it the events that
//! match a filter; an event that an interceptor takes skips the
//! middleware stack.
//!
//! An interceptor is removed from the gateway's list once it refuses an
//! event: when it has taken more than its filter's maximum, or when its
//! receiving end is gone.
use vstd::prelude::*;

use std::sync::Arc;

use futures::channel::mpsc::{channel, Receiver, Sender};
use twilight_model::gateway::event::DispatchEvent;

use crate::gateway::event::{event_type_text, Dispatch, GatewayAction};
use crate::text::str_equals;

verus! {

#[verifier::external_type_specification]
#[verifier::external_body]
#[verifier::reject_recursive_types(T)]
pub struct ExSender<T>(Sender<T>);

#[verifier::external_type_specification]
#[verifier::external_body]
#[verifier::reject_recursive_types(T)]
pub struct ExReceiver<T>(Receiver<T>);

/// Creates a bounded channel, `futures::channel::mpsc::channel`, which
/// panics for a buffer of a quarter of the address space or more.
#[verifier::external_body]
pub(crate) fn bounded_channel<T>(buffer: usize) -> (Sender<T>, Receiver<T>)
    requires
        buffer < usize::MAX / 4,
{
    channel(buffer)
}

/// Tries to queue a message without waiting, `Sender::try_send`; true when
/// it was queued. Whether it is depends on the channel's fill and on
/// whether the receiver still exists, which is not stated.
#[verifier::external_body]
pub(crate) fn try_send<T>(tx: &mut Sender<T>, msg: T) -> bool {
    tx.try_send(msg).is_ok()
}

/// A copy of a dispatch event, by its derived `Clone`, which copies every
/// field.
#[verifier::external_body]
fn clone_event(event: &DispatchEvent) -> (r: DispatchEvent)
    ensures
        r == *event,
{
    event.clone()
}

/// The event that a shared pointer points to.
pub open spec fn shared_event(a: Arc<DispatchEvent>) -> DispatchEvent {
    *a
}

/// The kind of event that a filter looks for.
#[derive(Clone, Copy, Debug, PartialEq, Eq, Structural)]
pub enum FilterEvent {
    Reaction,
}

/// The event type name of a reaction being added.
pub open spec fn reaction_add_type() -> Seq<char> {
    "MESSAGE_REACTION_ADD"@
}

/// Whether a dispatch of the given event type is of the kind that a filter
/// looks for.
pub open spec fn event_kind_matches(kind: FilterEvent, event_type: Option<Seq<char>>) -> bool {
    match kind {
        FilterEvent::Reaction => event_type == Some(reaction_add_type()),
    }
}

/// Which events an interceptor takes, and how many.
#[derive(Clone, Copy, Debug, PartialEq, Eq, Structural)]
pub struct Filter {
    guild_id: Option<u64>,
    channel_id: Option<u64>,
    message_id: Option<u64>,
    event_type: FilterEvent,
    max: usize,
}

impl Filter {
    #[verifier::type_invariant]
    closed spec fn max_is_bounded(&self) -> bool {
        self.max < usize::MAX
    }

    pub closed spec fn kind(&self) -> FilterEvent {
        self.event_type
    }

    pub closed spec fn max_count(&self) -> usize {
        self.max
    }

    pub closed spec fn ids(&self) -> (Option<u64>, Option<u64>, Option<u64>) {
        (self.guild_id, self.channel_id, self.message_id)
    }

    /// A filter for events of the given kind, in any guild, channel or
    /// message, with a maximum of one.
    pub fn new(event_type: FilterEvent) -> (f: Filter)
        ensures
            f.kind() == event_type,
            f.max_count() == 1,
            f.ids() == (None::<u64>, None::<u64>, None::<u64>),
    {
        Filter { guild_id: None, channel_id: None, message_id: None, max: 1, event_type }
    }

    /// Whether the filter takes the event.
    pub fn matches(&self, event: &Dispatch) -> (r: bool)
        ensures
            r == event_kind_matches(self.kind(), event_type_text(event.event_type)),
    {
        match self.event_type {
            FilterEvent::Reaction => match &event.event_type {
                Some(t) => {
                    proof {
                        reveal_strlit("MESSAGE_REACTION_ADD");
                    }
                    str_equals(t.as_str(), "MESSAGE_REACTION_ADD")
                },
                None => false,
            },
        }
    }
}

/// What this library reads of an interceptor: its filter and how many
/// events it has taken.
pub struct InterceptorView {
    pub filter: Filter,
    pub current: nat,
}

/// Takes the events that match its filter and hands them to whoever holds
/// the receiving end of its channel.
pub struct Interceptor {
    tx: Sender<Arc<DispatchEvent>>,
    filter: Filter,
    current: usize,
    offers: Ghost<Seq<(DispatchEvent, bool)>>,
}

impl View for Interceptor {
    type V = InterceptorView;

    closed spec fn view(&self) -> InterceptorView {
        InterceptorView { filter: self.filter, current: self.current as nat }
    }
}

impl Interceptor {
    /// The sending end of the interceptor's channel.
    pub closed spec fn sender(&self) -> Sender<Arc<DispatchEvent>> {
        self.tx
    }

    /// The events handed to the interceptor's channel so far, in order,
    /// each with the channel's answer.
    pub closed spec fn offers(&self) -> Seq<(DispatchEvent, bool)> {
        self.offers@
    }

    /// An interceptor that has taken nothing yet, sending on `tx`.
    pub fn new(tx: Sender<Arc<DispatchEvent>>, filter: Filter) -> (i: Interceptor)
        ensures
            i@ == (InterceptorView { filter, current: 0 }),
            i.sender() == tx,
            i.offers() == Seq::<(DispatchEvent, bool)>::empty(),
    {
        Interceptor { tx, filter, current: 0, offers: Ghost(Seq::empty()) }
    }

    /// Whether the interceptor's filter takes the event.
    pub fn matches(&self, event: &Dispatch) -> (r: bool)
        ensures
            r == event_kind_matches(self@.filter.kind(), event_type_text(event.event_type)),
    {
        self.filter.matches(event)
    }

    /// Hands an event to the interceptor. It refuses, without touching its
    /// channel, when it has already taken more events than its filter's
    /// maximum; otherwise it offers the event to its channel, and refuses
    /// when the channel does not take it, or counts the event and accepts.
    pub fn send(&mut self, event: Arc<DispatchEvent>) -> (accepted: bool)
        ensures
            sent_as_stated(*old(self), *final(self), *event, accepted),
    {
        proof {
            use_type_invariant(&self.filter);
        }
        if self.current > self.filter.max {
            return false;
        }
        let ghost offered = shared_event(event);
        let queued = try_send(&mut self.tx, event);
        proof {
            self.offers@ = self.offers@.push((offered, queued));
        }
        if !queued {
            return false;
        }
        self.current = self.current + 1;
        true
    }
}

/// The receiving end of an interceptor for reactions.
pub struct ReactionFilter {
    pub rx: Receiver<Arc<DispatchEvent>>,
    registration: Ghost<Interceptor>,
}

impl ReactionFilter {
    /// The interceptor that was handed to the gateway for this receiver.
    pub closed spec fn registration(&self) -> Interceptor {
        self.registration@
    }

    /// Creates an interceptor for reactions, with a channel of 100 events,
    /// and asks the gateway to add it; should the gateway's queue refuse
    /// the request, the receiver never gets an event. The interceptor
    /// handed over takes reactions in any guild, channel or message, at
    /// most one, and has taken and been offered nothing yet.
    pub fn new(gateway: &mut Sender<Box<GatewayAction>>) -> (r: ReactionFilter)
        ensures
            r.registration()@.filter.kind() == FilterEvent::Reaction,
            r.registration()@.filter.max_count() == 1,
            r.registration()@.filter.ids() == (None::<u64>, None::<u64>, None::<u64>),
            r.registration()@.current == 0,
            r.registration().offers() == Seq::<(DispatchEvent, bool)>::empty(),
    {
        let (tx, rx) = bounded_channel(100);
        let interceptor = Interceptor::new(tx, Filter::new(FilterEvent::Reaction));
        let ghost registration = interceptor;
        let _ = try_send(gateway, Box::new(GatewayAction::AddInterceptor(interceptor)));
        ReactionFilter { rx, registration: Ghost(registration) }
    }
}

} // verus!

verus! {

/// Whether an interceptor's filter takes a dispatch of the given type.
pub open spec fn interceptor_takes(v: InterceptorView, event_type: Option<Seq<char>>) -> bool {
    event_kind_matches(v.filter.kind(), event_type)
}

/// What the interceptors read of a list of interceptors.
pub open spec fn interceptor_views(s: Seq<Interceptor>) -> Seq<InterceptorView> {
    s.map_values(|i: Interceptor| i@)
}

/// What [`Interceptor::send`] states of an interceptor before and after
/// it was offered `event`, and its answer: the filter stays; an
/// interceptor over its maximum refuses and is left exactly as it was; one
/// within its maximum hands the event to its channel, records the
/// channel's answer, and answers the same; one that accepts counts one
/// more event; one that refuses keeps its count.
pub open spec fn sent_as_stated(before: Interceptor, after: Interceptor, event: DispatchEvent, accepted: bool) -> bool {
    &&& after@.filter == before@.filter
    &&& (before@.current > before@.filter.max_count() ==> !accepted && after == before)
    &&& (before@.current <= before@.filter.max_count() ==> after.offers() == before.offers().push((event, accepted)))
    &&& (accepted ==> after@.current == before@.current + 1 && before@.current <= before@.filter.max_count())
    &&& (!accepted ==> after@.current == before@.current)
}

/// Whether `accepted` and `sent` are a possible record of offering an
/// event, of the given type, to each interceptor in turn: each one whose
/// filter matches is sent `event`, with its answer and its state after the
/// offer as [`sent_as_stated`] says; one whose filter does not match is
/// offered nothing and accepts nothing.
pub open spec fn possible_sends(
    is: Seq<Interceptor>,
    event_type: Option<Seq<char>>,
    event: DispatchEvent,
    accepted: Seq<bool>,
    sent: Seq<Interceptor>,
) -> bool {
    &&& accepted.len() == is.len()
    &&& sent.len() == is.len()
    &&& forall|i: int|
        0 <= i < is.len() && interceptor_takes(is[i]@, event_type) ==> #[trigger] sent_as_stated(
            is[i],
            sent[i],
            event,
            accepted[i],
        )
    &&& forall|i: int| 0 <= i < is.len() && #[trigger] accepted[i] ==> interceptor_takes(is[i]@, event_type)
}

/// The interceptors left after an event was offered to each in turn: one
/// whose filter does not match stays exactly as it was; one that matched
/// stays, as its offer left it, if it accepted, and is dropped otherwise.
/// The order is kept.
pub open spec fn retained_list(is: Seq<Interceptor>, event_type: Option<Seq<char>>, accepted: Seq<bool>, sent: Seq<Interceptor>) -> Seq<Interceptor>
    decreases is.len(),
{
    if is.len() == 0 {
        Seq::empty()
    } else {
        let i = is.len() - 1;
        let rest = retained_list(is.drop_last(), event_type, accepted, sent);
        if interceptor_takes(is[i]@, event_type) {
            if accepted[i] {
                rest.push(sent[i])
            } else {
                rest
            }
        } else {
            rest.push(is[i])
        }
    }
}

/// Whether `accepted` is a possible record of which interceptors took an
/// event: one entry each, and only one whose filter matches and that has
/// not gone over its maximum can have taken it.
pub open spec fn possible_acceptance(vs: Seq<InterceptorView>, event_type: Option<Seq<char>>, accepted: Seq<bool>) -> bool {
    &&& accepted.len() == vs.len()
    &&& forall|i: int|
        0 <= i < vs.len() && #[trigger] accepted[i] ==> interceptor_takes(vs[i], event_type) && vs[i].current
            <= vs[i].filter.max_count()
}

/// The interceptors left after an event was offered to each in turn: one
/// that did not match stays as it was; one that matched stays, with one
/// more event counted, if it accepted, and is dropped otherwise. The order
/// is kept.
pub open spec fn retained(vs: Seq<InterceptorView>, event_type: Option<Seq<char>>, accepted: Seq<bool>) -> Seq<InterceptorView>
    decreases vs.len(),
{
    if vs.len() == 0 {
        Seq::empty()
    } else {
        let i = vs.len() - 1;
        let rest = retained(vs.drop_last(), event_type, accepted);
        if interceptor_takes(vs[i], event_type) {
            if accepted[i] {
                rest.push(InterceptorView { filter: vs[i].filter, current: vs[i].current + 1 })
            } else {
                rest
            }
        } else {
            rest.push(vs[i])
        }
    }
}

/// Whether the event counts as intercepted: some interceptor whose filter
/// matches it accepted it.
pub open spec fn intercepted_by(vs: Seq<InterceptorView>, event_type: Option<Seq<char>>, accepted: Seq<bool>) -> bool {
    exists|i: int| 0 <= i < vs.len() && interceptor_takes(vs[i], event_type) && #[trigger] accepted[i]
}

/// `retained` and `intercepted_by` read only the entries of `accepted`
/// that belong to the interceptors given.
proof fn lemma_acceptance_prefix(vs: Seq<InterceptorView>, event_type: Option<Seq<char>>, a: Seq<bool>, b: Seq<bool>)
    requires
        vs.len() <= a.len(),
        vs.len() <= b.len(),
        forall|j: int| 0 <= j < vs.len() ==> a[j] == b[j],
    ensures
        retained(vs, event_type, a) == retained(vs, event_type, b),
        intercepted_by(vs, event_type, a) == intercepted_by(vs, event_type, b),
    decreases vs.len(),
{
    if vs.len() > 0 {
        lemma_acceptance_prefix(vs.drop_last(), event_type, a, b);
    }
    if intercepted_by(vs, event_type, a) {
        let j = choose|j: int| 0 <= j < vs.len() && interceptor_takes(vs[j], event_type) && #[trigger] a[j];
        assert(b[j]);
    }
    if intercepted_by(vs, event_type, b) {
        let j = choose|j: int| 0 <= j < vs.len() && interceptor_takes(vs[j], event_type) && #[trigger] b[j];
        assert(a[j]);
    }
}

/// Offering the event to one more interceptor: it is intercepted after
/// that offer exactly when it was before, or the new interceptor matched
/// it and accepted.
proof fn lemma_intercepted_step(vs: Seq<InterceptorView>, event_type: Option<Seq<char>>, accepted: Seq<bool>, ok: bool)
    requires
        vs.len() > 0,
        accepted.len() == vs.len() - 1,
    ensures
        intercepted_by(vs, event_type, accepted.push(ok)) == (intercepted_by(vs.drop_last(), event_type, accepted) || (
        interceptor_takes(vs[vs.len() - 1], event_type) && ok)),
{
    let a2 = accepted.push(ok);
    let n = vs.len() - 1;
    if intercepted_by(vs.drop_last(), event_type, accepted) {
        let j = choose|j: int|
            0 <= j < vs.drop_last().len() && interceptor_takes(vs.drop_last()[j], event_type) && #[trigger] accepted[j];
        assert(a2[j]);
    }
    if intercepted_by(vs, event_type, a2) {
        let j = choose|j: int| 0 <= j < vs.len() && interceptor_takes(vs[j], event_type) && #[trigger] a2[j];
        if j < n {
            assert(accepted[j]);
            assert(vs.drop_last()[j] == vs[j]);
        }
    }
    if interceptor_takes(vs[n], event_type) && ok {
        assert(a2[n]);
    }
}

/// `retained_list` reads only the entries of `accepted` and `sent` that
/// belong to the interceptors given.
proof fn lemma_sends_prefix(
    is: Seq<Interceptor>,
    event_type: Option<Seq<char>>,
    a: Seq<bool>,
    b: Seq<bool>,
    s: Seq<Interceptor>,
    t: Seq<Interceptor>,
)
    requires
        is.len() <= a.len(),
        is.len() <= b.len(),
        is.len() <= s.len(),
        is.len() <= t.len(),
        forall|j: int| 0 <= j < is.len() ==> a[j] == b[j] && s[j] == t[j],
    ensures
        retained_list(is, event_type, a, s) == retained_list(is, event_type, b, t),
    decreases is.len(),
{
    if is.len() > 0 {
        lemma_sends_prefix(is.drop_last(), event_type, a, b, s, t);
    }
}

/// A possible record of offers is a possible record of answers, and the
/// interceptors it keeps are, by filter and count, those that `retained`
/// keeps.
pub proof fn lemma_sends_refine_acceptance(
    is: Seq<Interceptor>,
    event_type: Option<Seq<char>>,
    event: DispatchEvent,
    accepted: Seq<bool>,
    sent: Seq<Interceptor>,
)
    requires
        possible_sends(is, event_type, event, accepted, sent),
    ensures
        possible_acceptance(interceptor_views(is), event_type, accepted),
        interceptor_views(retained_list(is, event_type, accepted, sent)) == retained(
            interceptor_views(is),
            event_type,
            accepted,
        ),
    decreases is.len(),
{
    let vs = interceptor_views(is);
    assert forall|i: int| 0 <= i < vs.len() && #[trigger] accepted[i] implies interceptor_takes(vs[i], event_type)
        && vs[i].current <= vs[i].filter.max_count() by {
        assert(sent_as_stated(is[i], sent[i], event, accepted[i]));
    }
    if is.len() > 0 {
        let n = is.len() - 1;
        let a2 = accepted.drop_last();
        let s2 = sent.drop_last();
        assert(possible_sends(is.drop_last(), event_type, event, a2, s2)) by {
            assert forall|i: int| 0 <= i < is.drop_last().len() && interceptor_takes(is.drop_last()[i]@, event_type)
                implies #[trigger] sent_as_stated(is.drop_last()[i], s2[i], event, a2[i]) by {
                assert(sent_as_stated(is[i], sent[i], event, accepted[i]));
            }
            assert forall|i: int| 0 <= i < is.drop_last().len() && #[trigger] a2[i]
                implies interceptor_takes(is.drop_last()[i]@, event_type) by {
                assert(accepted[i]);
            }
        }
        lemma_sends_refine_acceptance(is.drop_last(), event_type, event, a2, s2);
        lemma_sends_prefix(is.drop_last(), event_type, accepted, a2, sent, s2);
        lemma_acceptance_prefix(vs.drop_last(), event_type, accepted, a2);
        assert(interceptor_views(is.drop_last()) =~= vs.drop_last());
        let rl = retained_list(is.drop_last(), event_type, accepted, sent);
        if interceptor_takes(is[n]@, event_type) {
            assert(sent_as_stated(is[n], sent[n], event, accepted[n]));
            if accepted[n] {
                assert(interceptor_views(rl.push(sent[n])) =~= interceptor_views(rl).push(sent[n]@));
            }
        } else {
            assert(interceptor_views(rl.push(is[n])) =~= interceptor_views(rl).push(is[n]@));
        }
    }
}

/// Offers an event to each interceptor in turn, in order: each one whose
/// filter matches is sent the event. Keeps those whose filter does not
/// match, untouched, and those that accepted it, as their offer left them.
/// Returns whether the event was intercepted: some interceptor that
/// matched accepted it.
pub fn intercept(interceptors: &mut Vec<Interceptor>, event: &Dispatch) -> (intercepted: bool)
    ensures
        exists|accepted: Seq<bool>, sent: Seq<Interceptor>|
            #[trigger] possible_sends(old(interceptors)@, event_type_text(event.event_type), *event.event, accepted, sent)
                && final(interceptors)@ == retained_list(old(interceptors)@, event_type_text(event.event_type), accepted, sent)
                && intercepted == intercepted_by(
                interceptor_views(old(interceptors)@),
                event_type_text(event.event_type),
                accepted,
            ),
{
    let ghost t = event_type_text(event.event_type);
    let ghost offered: DispatchEvent = *event.event;
    let mut rest: Vec<Interceptor> = Vec::new();
    std::mem::swap(&mut rest, interceptors);
    let ghost orig = rest@;
    let ghost vs = interceptor_views(orig);
    let ghost mut accepted: Seq<bool> = Seq::empty();
    let ghost mut sent: Seq<Interceptor> = Seq::empty();
    let n = rest.len();
    let mut intercepted = false;
    let mut i: usize = 0;
    while i < n
        invariant
            n == orig.len(),
            vs == interceptor_views(orig),
            i <= n,
            rest@ == orig.subrange(i as int, n as int),
            possible_sends(orig.take(i as int), t, offered, accepted, sent),
            interceptors@ == retained_list(orig.take(i as int), t, accepted, sent),
            intercepted == intercepted_by(vs.take(i as int), t, accepted),
            t == event_type_text(event.event_type),
            offered == *event.event,
        decreases n - i,
    {
        let mut it = rest.remove(0);
        let ghost before = it;
        assert(it == orig[i as int]);
        assert(it@ == vs[i as int]);
        let ok;
        if it.matches(event) {
            ok = it.send(Arc::new(clone_event(&event.event)));
            intercepted = intercepted || ok;
            if ok {
                interceptors.push(it);
            }
        } else {
            ok = false;
            interceptors.push(it);
        }
        proof {
            let acc2 = accepted.push(ok);
            let sent2 = sent.push(it);
            let prev = orig.take(i as int);
            let next = orig.take(i + 1);
            assert(next.drop_last() =~= prev);
            assert(vs.take(i + 1).drop_last() =~= vs.take(i as int));
            lemma_sends_prefix(prev, t, accepted, acc2, sent, sent2);
            lemma_acceptance_prefix(vs.take(i as int), t, accepted, acc2);
            lemma_intercepted_step(vs.take(i + 1), t, accepted, ok);
            assert(next[i as int] == before);
            assert(interceptor_views(next)[i as int] == before@);
            assert(vs.take(i + 1) == interceptor_views(next)) by {
                assert(vs.take(i + 1) =~= interceptor_views(next));
            }
            assert(possible_sends(next, t, offered, acc2, sent2)) by {
                assert forall|j: int| 0 <= j < next.len() && interceptor_takes(next[j]@, t)
                    implies #[trigger] sent_as_stated(next[j], sent2[j], offered, acc2[j]) by {
                    if j < i {
                        assert(next[j] == prev[j]);
                        assert(sent_as_stated(prev[j], sent[j], offered, accepted[j]));
                    }
                }
                assert forall|j: int| 0 <= j < next.len() && #[trigger] acc2[j] implies interceptor_takes(next[j]@, t) by {
                    if j < i {
                        assert(accepted[j]);
                        assert(next[j] == prev[j]);
                    }
                }
            }
            accepted = acc2;
            sent = sent2;
        }
        i = i + 1;
    }
    assert(orig.take(n as int) =~= orig);
    assert(vs.take(n as int) =~= vs);
    assert(possible_sends(orig, t, offered, accepted, sent));
    intercepted
}

} // verus!

verus! {

/// An interceptor that has counted more events than its filter's maximum
/// refuses a matching event, and is then dropped.
pub proof fn lemma_exhausted_interceptor_refuses(
    vs: Seq<InterceptorView>,
    event_type: Option<Seq<char>>,
    accepted: Seq<bool>,
    i: int,
)
    requires
        possible_acceptance(vs, event_type, accepted),
        0 <= i < vs.len(),
        vs[i].current > vs[i].filter.max_count(),
    ensures
        !accepted[i],
{
}

/// No interceptor ever counts more than one event past its filter's
/// maximum: if none has before an event is offered, none has after.
pub proof fn lemma_counts_stay_bounded(vs: Seq<InterceptorView>, event_type: Option<Seq<char>>, accepted: Seq<bool>)
    requires
        possible_acceptance(vs, event_type, accepted),
        forall|i: int| 0 <= i < vs.len() ==> #[trigger] vs[i].current <= vs[i].filter.max_count() + 1,
    ensures
        forall|i: int|
            0 <= i < retained(vs, event_type, accepted).len() ==> #[trigger] retained(vs, event_type, accepted)[i].current
                <= retained(vs, event_type, accepted)[i].filter.max_count() + 1,
    decreases vs.len(),
{
    if vs.len() > 0 {
        let n = vs.len() - 1;
        assert(possible_acceptance(vs.drop_last(), event_type, accepted.drop_last()));
        lemma_acceptance_prefix(vs.drop_last(), event_type, accepted, accepted.drop_last());
        lemma_counts_stay_bounded(vs.drop_last(), event_type, accepted.drop_last());
    }
}

/// An event that no interceptor's filter matches leaves every interceptor
/// as it was and is not intercepted.
pub proof fn lemma_unmatched_event_passes(vs: Seq<InterceptorView>, event_type: Option<Seq<char>>, accepted: Seq<bool>)
    requires
        accepted.len() == vs.len(),
        forall|i: int| 0 <= i < vs.len() ==> !#[trigger] interceptor_takes(vs[i], event_type),
    ensures
        retained(vs, event_type, accepted) == vs,
        !intercepted_by(vs, event_type, accepted),
    decreases vs.len(),
{
    if vs.len() > 0 {
        lemma_acceptance_prefix(vs.drop_last(), event_type, accepted, accepted.drop_last());
        lemma_unmatched_event_passes(vs.drop_last(), event_type, accepted.drop_last());
        assert(retained(vs, event_type, accepted) =~= vs);
    }
}

} // verus!
