//! The connection state of a gateway session and its one-byte encoding.
use vstd::prelude::*;

use crate::text::{decimal, push_decimal};

verus! {

/// Where a shard's session is in its connection lifecycle.
#[derive(Clone, Copy, Debug, PartialEq, Eq, Hash, PartialOrd, Ord, Structural)]
pub enum SessionState {
    Disconnected,
    Handshaking,
    Identifying,
    Connected,
    Resuming,
}

/// Raised when a byte does not encode a [`SessionState`].
#[derive(Clone, Debug, PartialEq, Eq, Structural)]
pub enum SessionStateConversionError {
    InvalidInteger { value: u8 },
}

/// The byte that encodes a session state: its position in the declaration.
pub open spec fn state_code(s: SessionState) -> u8 {
    match s {
        SessionState::Disconnected => 0,
        SessionState::Handshaking => 1,
        SessionState::Identifying => 2,
        SessionState::Connected => 3,
        SessionState::Resuming => 4,
    }
}

/// The session state that a byte encodes, if any.
pub open spec fn state_of_code(n: u8) -> Option<SessionState> {
    if n == 0 {
        Some(SessionState::Disconnected)
    } else if n == 1 {
        Some(SessionState::Handshaking)
    } else if n == 2 {
        Some(SessionState::Identifying)
    } else if n == 3 {
        Some(SessionState::Connected)
    } else if n == 4 {
        Some(SessionState::Resuming)
    } else {
        None
    }
}

/// The state that a stored byte stands for, falling back to the default
/// state for a byte that encodes none.
pub open spec fn state_or_default(n: u8) -> SessionState {
    match state_of_code(n) {
        Some(s) => s,
        None => SessionState::Disconnected,
    }
}

/// The human-readable name of a state.
pub open spec fn state_name(s: SessionState) -> Seq<char> {
    match s {
        SessionState::Disconnected => "Disconnected"@,
        SessionState::Handshaking => "Handshaking"@,
        SessionState::Identifying => "Identifying"@,
        SessionState::Connected => "Connected"@,
        SessionState::Resuming => "Resuming"@,
    }
}

/// The message of a conversion error for the byte `value`.
pub open spec fn conversion_error_message(value: u8) -> Seq<char> {
    "The integer "@ + decimal(value as nat) + " is not a valid SessionState."@
}

impl SessionState {
    /// Decodes a byte; the bytes 0 to 4 stand for the states in the order
    /// in which they are declared, every other byte is refused.
    pub fn from_u8(num: u8) -> (r: Result<SessionState, SessionStateConversionError>)
        ensures
            match r {
                Ok(s) => state_of_code(num) == Some(s),
                Err(e) => state_of_code(num) is None && e == (SessionStateConversionError::InvalidInteger { value: num }),
            },
    {
        match num {
            0 => Ok(SessionState::Disconnected),
            1 => Ok(SessionState::Handshaking),
            2 => Ok(SessionState::Identifying),
            3 => Ok(SessionState::Connected),
            4 => Ok(SessionState::Resuming),
            unknown => Err(SessionStateConversionError::InvalidInteger { value: unknown }),
        }
    }

    /// Encodes the state as the byte that [`SessionState::from_u8`] decodes.
    pub fn to_u8(&self) -> (n: u8)
        ensures
            n == state_code(*self),
    {
        match self {
            SessionState::Disconnected => 0,
            SessionState::Handshaking => 1,
            SessionState::Identifying => 2,
            SessionState::Connected => 3,
            SessionState::Resuming => 4,
        }
    }

    /// Decodes a byte, falling back to the default state when it encodes none.
    pub fn from_u8_or_default(num: u8) -> (s: SessionState)
        ensures
            s == state_or_default(num),
    {
        match SessionState::from_u8(num) {
            Ok(s) => s,
            Err(_) => SessionState::default(),
        }
    }

    /// The name of the state, as it is displayed.
    pub fn as_str(&self) -> (r: &'static str)
        ensures
            r@ == state_name(*self),
    {
        match self {
            SessionState::Disconnected => "Disconnected",
            SessionState::Handshaking => "Handshaking",
            SessionState::Identifying => "Identifying",
            SessionState::Connected => "Connected",
            SessionState::Resuming => "Resuming",
        }
    }
}

/// The decoding of a byte as a result, as `TryFrom` returns it.
pub open spec fn decode_state(n: u8) -> Result<SessionState, SessionStateConversionError> {
    match state_of_code(n) {
        Some(s) => Ok(s),
        None => Err(SessionStateConversionError::InvalidInteger { value: n }),
    }
}

impl TryFrom<u8> for SessionState {
    type Error = SessionStateConversionError;

    fn try_from(num: u8) -> (r: Result<SessionState, SessionStateConversionError>) {
        SessionState::from_u8(num)
    }
}

impl vstd::std_specs::convert::TryFromSpecImpl<u8> for SessionState {
    open spec fn obeys_try_from_spec() -> bool {
        true
    }

    open spec fn try_from_spec(num: u8) -> Result<SessionState, SessionStateConversionError> {
        decode_state(num)
    }
}

impl Default for SessionState {
    fn default() -> (s: SessionState)
        ensures
            s == SessionState::Disconnected,
    {
        SessionState::Disconnected
    }
}

impl SessionStateConversionError {
    /// The text of the error, as it is displayed.
    pub fn message(&self) -> (r: String)
        ensures
            r@ == conversion_error_message(self->value),
    {
        match self {
            SessionStateConversionError::InvalidInteger { value } => {
                let mut s = String::new();
                s.append("The integer ");
                push_decimal(&mut s, *value as u64);
                s.append(" is not a valid SessionState.");
                s
            },
        }
    }
}

/// Encoding a state and decoding the byte gives the state back.
pub proof fn lemma_state_code_round_trip(s: SessionState)
    ensures
        state_of_code(state_code(s)) == Some(s),
        state_or_default(state_code(s)) == s,
{
}

/// A byte decodes to a state exactly when it is below 5, and then
/// encoding that state gives the byte back.
pub proof fn lemma_state_code_decoding(n: u8)
    ensures
        state_of_code(n) is Some <==> n < 5,
        state_of_code(n) matches Some(s) ==> state_code(s) == n,
{
}

/// Distinct states have distinct codes.
pub proof fn lemma_state_code_injective(a: SessionState, b: SessionState)
    ensures
        state_code(a) == state_code(b) <==> a == b,
{
}

} // verus!
