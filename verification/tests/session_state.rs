use std::convert::TryFrom;
use std::sync::Arc;

use async_discord::gateway::session::Session;
use async_discord::gateway::session_state::{SessionState, SessionStateConversionError};

#[test]
fn session_state_decodes_each_byte_in_declaration_order() {
    assert_eq!(SessionState::from_u8(0), Ok(SessionState::Disconnected));
    assert_eq!(SessionState::from_u8(1), Ok(SessionState::Handshaking));
    assert_eq!(SessionState::from_u8(2), Ok(SessionState::Identifying));
    assert_eq!(SessionState::from_u8(3), Ok(SessionState::Connected));
    assert_eq!(SessionState::from_u8(4), Ok(SessionState::Resuming));
}

#[test]
fn session_state_refuses_bytes_past_four() {
    assert_eq!(
        SessionState::from_u8(5),
        Err(SessionStateConversionError::InvalidInteger { value: 5 })
    );
    assert_eq!(
        SessionState::from_u8(255),
        Err(SessionStateConversionError::InvalidInteger { value: 255 })
    );
}

#[test]
fn session_state_try_from_matches_from_u8() {
    for n in 0..=255u8 {
        assert_eq!(SessionState::try_from(n), SessionState::from_u8(n));
    }
}

#[test]
fn session_state_encoding_round_trips() {
    let all = [
        SessionState::Disconnected,
        SessionState::Handshaking,
        SessionState::Identifying,
        SessionState::Connected,
        SessionState::Resuming,
    ];
    for (i, s) in all.iter().enumerate() {
        assert_eq!(s.to_u8() as usize, i);
        assert_eq!(SessionState::from_u8(s.to_u8()), Ok(*s));
        assert_eq!(SessionState::from_u8_or_default(s.to_u8()), *s);
    }
}

#[test]
fn session_state_unknown_byte_falls_back_to_default() {
    assert_eq!(SessionState::from_u8_or_default(9), SessionState::Disconnected);
    assert_eq!(SessionState::default(), SessionState::Disconnected);
}

#[test]
fn session_state_names() {
    assert_eq!(SessionState::Disconnected.as_str(), "Disconnected");
    assert_eq!(SessionState::Handshaking.as_str(), "Handshaking");
    assert_eq!(SessionState::Identifying.as_str(), "Identifying");
    assert_eq!(SessionState::Connected.as_str(), "Connected");
    assert_eq!(SessionState::Resuming.as_str(), "Resuming");
}

#[test]
fn conversion_error_message_names_the_byte() {
    let e = SessionStateConversionError::InvalidInteger { value: 7 };
    assert_eq!(e.message(), "The integer 7 is not a valid SessionState.");
    let e = SessionStateConversionError::InvalidInteger { value: 200 };
    assert_eq!(e.message(), "The integer 200 is not a valid SessionState.");
}

#[test]
fn session_starts_disconnected_and_keeps_what_is_stored() {
    let session = Arc::new(Session::new());
    assert_eq!(session.get_state(), SessionState::Disconnected);
    session.set_state(SessionState::Resuming);
    assert_eq!(session.get_state(), SessionState::Resuming);
    session.set_state(SessionState::Connected);
    assert_eq!(session.get_state(), SessionState::Connected);
}
