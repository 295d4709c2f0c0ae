use std::sync::Arc;

use async_discord::gateway::event::{Dispatch, GatewayAction};
use async_discord::gateway::session::Session;
use async_discord::gateway::session_state::SessionState;
use async_discord::gateway::{GatewayCore, Shard};
use async_discord::interceptors::{intercept, Filter, FilterEvent, Interceptor, ReactionFilter};
use futures::channel::mpsc::channel;
use futures::future::AbortHandle;
use twilight_model::gateway::event::DispatchEvent;

fn reaction() -> Dispatch {
    Dispatch { event_type: Some("MESSAGE_REACTION_ADD".to_string()), event: Box::new(DispatchEvent::GiftCodeUpdate) }
}

fn other() -> Dispatch {
    Dispatch { event_type: Some("RESUMED".to_string()), event: Box::new(DispatchEvent::Resumed) }
}

#[test]
fn reaction_filter_matches_reaction_adds_only() {
    let f = Filter::new(FilterEvent::Reaction);
    assert!(f.matches(&reaction()));
    assert!(!f.matches(&other()));
    assert!(!f.matches(&Dispatch { event_type: None, event: Box::new(DispatchEvent::Resumed) }));
}

#[test]
fn interceptor_takes_one_past_its_maximum_then_refuses() {
    let (tx, mut rx) = channel(100);
    let mut i = Interceptor::new(tx, Filter::new(FilterEvent::Reaction));
    assert!(i.matches(&reaction()));
    assert!(i.send(Arc::new(DispatchEvent::Resumed)));
    assert!(i.send(Arc::new(DispatchEvent::Resumed)));
    assert!(!i.send(Arc::new(DispatchEvent::Resumed)));
    assert!(rx.try_next().unwrap().is_some());
    assert!(rx.try_next().unwrap().is_some());
    assert!(rx.try_next().is_err());
}

#[test]
fn interceptor_with_closed_receiver_refuses() {
    let (tx, rx) = channel(100);
    drop(rx);
    let mut i = Interceptor::new(tx, Filter::new(FilterEvent::Reaction));
    assert!(!i.send(Arc::new(DispatchEvent::Resumed)));
}

#[test]
fn intercept_keeps_order_and_drops_refusing_interceptors() {
    let (tx1, mut rx1) = channel(100);
    let (tx2, rx2) = channel(100);
    drop(rx2);
    let mut list = vec![
        Interceptor::new(tx1, Filter::new(FilterEvent::Reaction)),
        Interceptor::new(tx2, Filter::new(FilterEvent::Reaction)),
    ];
    // Not a reaction: nobody matches, nothing changes.
    assert!(!intercept(&mut list, &other()));
    assert_eq!(list.len(), 2);
    // The first takes the event; the second's receiver is gone, so it
    // refuses and is dropped. One interceptor took it: it is intercepted.
    assert!(intercept(&mut list, &reaction()));
    assert_eq!(list.len(), 1);
    assert!(rx1.try_next().unwrap().is_some());
    // Now only the first is left: it takes the event.
    assert!(intercept(&mut list, &reaction()));
    assert_eq!(list.len(), 1);
    // It has taken two events: the third is refused and it is dropped.
    assert!(!intercept(&mut list, &reaction()));
    assert_eq!(list.len(), 0);
}

#[test]
fn a_later_refusal_does_not_undo_an_interception() {
    let (tx1, rx1) = channel(100);
    let (tx2, mut rx2) = channel(100);
    drop(rx1);
    let mut list = vec![
        Interceptor::new(tx1, Filter::new(FilterEvent::Reaction)),
        Interceptor::new(tx2, Filter::new(FilterEvent::Reaction)),
    ];
    // The first refuses (its receiver is gone), the second takes it.
    assert!(intercept(&mut list, &reaction()));
    assert_eq!(list.len(), 1);
    assert!(rx2.try_next().unwrap().is_some());
}

#[test]
fn every_matching_interceptor_is_sent_the_event() {
    let (tx1, mut rx1) = channel(100);
    let (tx2, mut rx2) = channel(100);
    let (tx3, mut rx3) = channel(100);
    let mut list = vec![
        Interceptor::new(tx1, Filter::new(FilterEvent::Reaction)),
        Interceptor::new(tx2, Filter::new(FilterEvent::Reaction)),
        Interceptor::new(tx3, Filter::new(FilterEvent::Reaction)),
    ];
    assert!(intercept(&mut list, &reaction()));
    assert_eq!(list.len(), 3);
    assert!(rx1.try_next().unwrap().is_some());
    assert!(rx2.try_next().unwrap().is_some());
    assert!(rx3.try_next().unwrap().is_some());
}

#[test]
fn gateway_core_routes_events() {
    let mut core = GatewayCore::new();
    // Without interceptors every event goes to the middleware.
    assert!(core.handle_event(&reaction()));
    let (mut gateway_tx, mut gateway_rx) = channel::<Box<GatewayAction>>(100);
    let mut filter = ReactionFilter::new(&mut gateway_tx);
    let action = gateway_rx.try_next().unwrap().expect("the filter asked to be added");
    core.handle_action(*action);
    assert!(core.handle_event(&other()));
    assert!(!core.handle_event(&reaction()));
    assert!(filter.rx.try_next().unwrap().is_some());
    assert!(!core.handle_event(&reaction()));
    // Past its maximum the interceptor is dropped and events flow on.
    assert!(core.handle_event(&reaction()));
    assert!(core.handle_event(&reaction()));
}

#[test]
fn gateway_core_reports_shards() {
    let mut core = GatewayCore::new();
    assert!(core.get_shard_status().is_empty());
    let s0 = Arc::new(Session::new());
    let s1 = Arc::new(Session::new());
    s1.set_state(SessionState::Connected);
    let (h0, _r0) = AbortHandle::new_pair();
    let (h1, _r1) = AbortHandle::new_pair();
    let (w0, w1) = (h0.clone(), h1.clone());
    core.set_shards(vec![Shard::new(0, h0, s0), Shard::new(1, h1, s1)]);
    assert_eq!(
        core.get_shard_status(),
        vec![(0, SessionState::Disconnected), (1, SessionState::Connected)]
    );
    assert!(!w0.is_aborted() && !w1.is_aborted());
    core.shutdown();
    assert!(w0.is_aborted() && w1.is_aborted());
    assert_eq!(core.get_shard_status().len(), 2);
}

#[test]
fn shard_shutdown_aborts_its_processor() {
    let (h, _r) = AbortHandle::new_pair();
    let watch = h.clone();
    let mut shard = Shard::new(3, h, Arc::new(Session::new()));
    assert!(!watch.is_aborted());
    shard.shutdown();
    assert!(watch.is_aborted());
}

#[test]
fn exhausted_interceptor_sends_nothing_more() {
    let (tx, mut rx) = channel(100);
    let mut list = vec![Interceptor::new(tx, Filter::new(FilterEvent::Reaction))];
    assert!(intercept(&mut list, &reaction()));
    assert!(intercept(&mut list, &reaction()));
    assert!(rx.try_next().unwrap().is_some());
    assert!(rx.try_next().unwrap().is_some());
    // Over its maximum: refused, dropped, and nothing reaches the channel.
    assert!(!intercept(&mut list, &reaction()));
    assert!(list.is_empty());
    // The dropped interceptor's sender is gone: the channel is closed empty.
    assert!(matches!(rx.try_next(), Ok(None)));
}
