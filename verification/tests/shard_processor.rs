use std::sync::Arc;

use async_discord::client::ClientBuilder;
use async_discord::gateway::event::{decode_text_event, Dispatch, ReceivedEvent};
use async_discord::gateway::session::Session;
use async_discord::gateway::session_state::SessionState;
use async_discord::gateway::shard_processor::{identify_client_name, IncomingMessage, OutgoingMessage, ProcessorAction, ShardProcessor};
use async_discord::http::get_gateway::GetGateway;
use flate2::{Compress, Compression, FlushCompress};
use twilight_model::gateway::event::DispatchEvent;

const MS: u64 = 1_000_000;

fn processor(start: u64) -> (ShardProcessor, Arc<Session>) {
    let mut builder = ClientBuilder::new("bot-token".to_string());
    builder.set_guild_subscriptions(false);
    let client = builder.create(GetGateway { url: "wss://g".to_string() });
    let session = Arc::new(Session::new());
    (ShardProcessor::new(client, session.clone(), start), session)
}

fn event(text: &str) -> ReceivedEvent {
    decode_text_event(text).expect("payload decodes")
}

#[test]
fn timer_is_quiet_within_the_default_interval() {
    let (p, _) = processor(1_000);
    assert_eq!(p.check_internal_timers(1_000), None);
    assert_eq!(p.check_internal_timers(1_000 + 15_000 * MS), None);
    assert_eq!(p.check_internal_timers(1_000 + 15_000 * MS + 1), Some(ProcessorAction::ShouldHeartbeat));
    // A clock reading before the last heartbeat counts as no time passed.
    assert_eq!(p.check_internal_timers(0), None);
}

#[test]
fn unacknowledged_heartbeat_leads_to_reconnect() {
    let (mut p, _) = processor(0);
    let sent = 20_000 * MS;
    assert_eq!(p.check_internal_timers(sent), Some(ProcessorAction::ShouldHeartbeat));
    match p.process_processor_action(ProcessorAction::ShouldHeartbeat, sent) {
        Some(OutgoingMessage::Heartbeat { seq: 0 }) => {}
        _ => panic!("expected a heartbeat"),
    }
    assert_eq!(p.check_internal_timers(sent + 15_000 * MS), None);
    assert_eq!(p.check_internal_timers(sent + 15_001 * MS), Some(ProcessorAction::ShouldReconnect));
}

#[test]
fn acknowledged_heartbeat_repeats() {
    let (mut p, _) = processor(0);
    let sent = 16_000 * MS;
    p.process_processor_action(ProcessorAction::ShouldHeartbeat, sent);
    let (fwd, action) = p.process_gateway_event(event(r#"{"op":11,"d":null}"#), sent + 10 * MS);
    assert!(fwd.is_none());
    assert_eq!(action, None);
    assert_eq!(p.check_internal_timers(sent + 16_000 * MS), Some(ProcessorAction::ShouldHeartbeat));
}

#[test]
fn hello_sets_interval_and_asks_to_identify() {
    let (mut p, session) = processor(0);
    let (fwd, action) = p.process_gateway_event(event(r#"{"op":10,"d":{"heartbeat_interval":1000}}"#), 0);
    assert!(fwd.is_none());
    assert_eq!(action, Some(ProcessorAction::ShouldIdentify));
    assert_eq!(session.get_state(), SessionState::Identifying);
    assert_eq!(p.check_internal_timers(1_001 * MS), Some(ProcessorAction::ShouldHeartbeat));
    match p.process_processor_action(ProcessorAction::ShouldIdentify, 0) {
        Some(OutgoingMessage::Identify { token, guild_subscriptions }) => {
            assert_eq!(token, "bot-token");
            assert!(!guild_subscriptions);
        }
        _ => panic!("expected an identify"),
    }
}

#[test]
fn hello_while_resuming_only_sets_interval() {
    let (mut p, session) = processor(0);
    session.set_state(SessionState::Resuming);
    let (_, action) = p.process_gateway_event(event(r#"{"op":10,"d":{"heartbeat_interval":500}}"#), 0);
    assert_eq!(action, None);
    assert_eq!(session.get_state(), SessionState::Resuming);
    assert_eq!(p.check_internal_timers(501 * MS), Some(ProcessorAction::ShouldHeartbeat));
}

#[test]
fn apply_gateway_event_with_given_session_state() {
    let (mut p, session) = processor(0);
    let o = p.apply_gateway_event(ReceivedEvent::Hello(100), SessionState::Connected, 0);
    assert_eq!(o.session_state, Some(SessionState::Identifying));
    assert_eq!(o.action, Some(ProcessorAction::ShouldIdentify));
    assert!(o.forward.is_none());
    // apply does not touch the shared session itself.
    assert_eq!(session.get_state(), SessionState::Disconnected);
    let o = p.apply_gateway_event(ReceivedEvent::Hello(100), SessionState::Resuming, 0);
    assert_eq!(o.session_state, None);
    assert_eq!(o.action, None);
    let o = p.apply_gateway_event(ReceivedEvent::Reconnect, SessionState::Connected, 0);
    assert!(o.session_state.is_none() && o.action.is_none() && o.forward.is_none());
}

#[test]
fn dispatch_is_forwarded_and_its_sequence_goes_into_heartbeats() {
    let (mut p, _) = processor(0);
    let (fwd, action) = p.process_gateway_event(event(r#"{"t":"RESUMED","s":42,"op":0,"d":{}}"#), 0);
    assert_eq!(action, None);
    let d = fwd.expect("dispatch forwarded");
    assert_eq!(d.event_type.as_deref(), Some("RESUMED"));
    assert_eq!(*d.event, DispatchEvent::Resumed);
    match p.process_processor_action(ProcessorAction::ShouldHeartbeat, 1) {
        Some(OutgoingMessage::Heartbeat { seq: 42 }) => {}
        _ => panic!("expected a heartbeat with the last sequence"),
    }
    let custom = ReceivedEvent::Dispatch(
        43,
        Dispatch { event_type: Some("GIFT_CODE_UPDATE".to_string()), event: Box::new(DispatchEvent::GiftCodeUpdate) },
    );
    let (fwd, _) = p.process_gateway_event(custom, 2);
    assert!(fwd.is_some());
    match p.process_processor_action(ProcessorAction::ShouldHeartbeat, 3) {
        Some(OutgoingMessage::Heartbeat { seq: 43 }) => {}
        _ => panic!("expected a heartbeat with the last sequence"),
    }
}

#[test]
fn reconnect_and_resume_actions_send_nothing() {
    let (mut p, _) = processor(0);
    assert!(p.process_processor_action(ProcessorAction::ShouldReconnect, 5).is_none());
    assert!(p.process_processor_action(ProcessorAction::ShouldResume, 5).is_none());
    // Neither counts as a heartbeat.
    assert_eq!(p.check_internal_timers(15_001 * MS), Some(ProcessorAction::ShouldHeartbeat));
}

#[test]
fn text_frames_decode_and_control_frames_give_nothing() {
    let (mut p, _) = processor(0);
    assert!(matches!(
        p.receive(IncomingMessage::Text(r#"{"op":11,"d":null}"#.to_string())),
        Some(ReceivedEvent::HeartbeatAck)
    ));
    assert!(p.receive(IncomingMessage::Text("garbage".to_string())).is_none());
    assert!(p.receive(IncomingMessage::Ping).is_none());
    assert!(p.receive(IncomingMessage::Pong).is_none());
    assert!(p.receive(IncomingMessage::Close).is_none());
}

#[test]
fn binary_frames_are_gathered_until_the_marker() {
    let mut c = Compress::new(Compression::default(), true);
    let mut first = Vec::with_capacity(1024);
    c.compress_vec(br#"{"op":10,"d":{"heartbeat_interval":41250}}"#, &mut first, FlushCompress::Sync).unwrap();
    let mut second = Vec::with_capacity(1024);
    c.compress_vec(br#"{"op":11,"d":null}"#, &mut second, FlushCompress::Sync).unwrap();

    let (mut p, _) = processor(0);
    let split = first.len() / 2;
    assert!(p.receive(IncomingMessage::Binary(first[..split].to_vec())).is_none());
    assert!(matches!(
        p.receive(IncomingMessage::Binary(first[split..].to_vec())),
        Some(ReceivedEvent::Hello(41250))
    ));
    assert!(matches!(p.receive(IncomingMessage::Binary(second)), Some(ReceivedEvent::HeartbeatAck)));
}

#[test]
fn outgoing_opcodes_and_client_name() {

    assert_eq!(OutgoingMessage::Heartbeat { seq: 3 }.opcode(), 1);
    assert_eq!(OutgoingMessage::Identify { token: "t".to_string(), guild_subscriptions: true }.opcode(), 2);
    assert_eq!(identify_client_name(), "andrewvy/async-discord");
}

#[test]
fn binary_frame_with_trailing_garbage_is_cleared_and_gives_nothing() {
    let mut c = Compress::new(Compression::default(), true);
    let mut first = Vec::with_capacity(1024);
    c.compress_vec(br#"not json"#, &mut first, FlushCompress::Sync).unwrap();
    let mut second = Vec::with_capacity(1024);
    c.compress_vec(br#"{"op":11,"d":null}"#, &mut second, FlushCompress::Sync).unwrap();
    let (mut p, _) = processor(0);
    assert!(p.receive(IncomingMessage::Binary(first)).is_none());
    // The buffer was cleared, so the next message decodes on its own.
    assert!(matches!(p.receive(IncomingMessage::Binary(second)), Some(ReceivedEvent::HeartbeatAck)));
}
