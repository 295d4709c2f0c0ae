use async_discord::gateway::event::{decode_bytes_event, decode_text_event, ReceivedEvent};

#[test]
fn hello_is_decoded_with_its_interval() {
    match decode_text_event(r#"{"op":10,"d":{"heartbeat_interval":41250},"s":null,"t":null}"#) {
        Some(ReceivedEvent::Hello(41250)) => {}
        _ => panic!("expected a hello"),
    }
}

#[test]
fn acknowledgement_and_control_events_are_decoded() {
    assert!(matches!(decode_text_event(r#"{"op":11,"d":null}"#), Some(ReceivedEvent::HeartbeatAck)));
    assert!(matches!(decode_text_event(r#"{"op":1,"d":42}"#), Some(ReceivedEvent::Heartbeat(42))));
    assert!(matches!(decode_text_event(r#"{"op":7,"d":null}"#), Some(ReceivedEvent::Reconnect)));
    assert!(matches!(
        decode_text_event(r#"{"op":9,"d":true}"#),
        Some(ReceivedEvent::InvalidateSession(true))
    ));
}

#[test]
fn dispatch_keeps_its_sequence_and_event_type() {
    match decode_text_event(r#"{"t":"RESUMED","s":7,"op":0,"d":{"_trace":[]}}"#) {
        Some(ReceivedEvent::Dispatch(7, d)) => {
            assert_eq!(d.event_type.as_deref(), Some("RESUMED"));
        }
        _ => panic!("expected a dispatch"),
    }
}

#[test]
fn malformed_payloads_give_nothing() {
    assert!(decode_text_event("not json").is_none());
    assert!(decode_text_event(r#"{"d":null}"#).is_none());
    assert!(decode_text_event(r#"{"op":2,"d":{}}"#).is_none());
}

#[test]
fn bytes_must_be_utf8() {
    assert!(matches!(decode_bytes_event(br#"{"op":11,"d":null}"#), Some(ReceivedEvent::HeartbeatAck)));
    assert!(decode_bytes_event(&[0xff, 0xfe, 0x7b]).is_none());
}

#[test]
fn trailing_input_is_refused() {
    assert!(decode_text_event(r#"{"op":11,"d":null}   "#).is_some());
    assert!(decode_text_event(r#"{"op":11,"d":null} x"#).is_none());
    assert!(decode_text_event(r#"{"op":11,"d":null}{}"#).is_none());
}
