//! Errors of the WebPush WebSocket handler, and the Close frame that ends a
//! session on each of them.
use vstd::prelude::*;

use crate::unidentified::ClientStateError;

verus! {

#[verifier::external_type_specification]
#[verifier::external_body]
pub struct ExJsonError(serde_json::Error);

#[verifier::external_type_specification]
#[verifier::external_body]
pub struct ExProtocolError(actix_ws::ProtocolError);

#[verifier::external_type_specification]
#[verifier::external_body]
pub struct ExClosed(actix_ws::Closed);

/// The status code of a WebSocket Close frame.
#[derive(PartialEq, Eq, Structural, Clone, Copy, Debug)]
pub enum CloseCode {
    Normal,
    Away,
    Protocol,
    Unsupported,
    Abnormal,
    Invalid,
    Policy,
    Size,
    Extension,
    Error,
    Restart,
    Again,
}

/// WebPush WebSocket handler errors.
#[derive(Debug)]
pub enum WSError {
    /// State machine error.
    SM(ClientStateError),
    /// Couldn't parse WebSocket message JSON.
    Json(serde_json::Error),
    /// WebSocket protocol error.
    Protocol(actix_ws::ProtocolError),
    /// WebSocket session unexpectedly closed.
    SessionClosed(actix_ws::Closed),
    /// Unsupported WebSocket message.
    UnsupportedMessage(String),
    /// WebSocket stream unexpectedly closed.
    StreamClosed,
    /// Timeout waiting for handshake.
    HandshakeTimeout,
    /// ClientRegistry unexpectedly disconnected.
    RegistryDisconnected,
    /// ClientRegistry disconnect unexpectedly failed (Client not connected).
    RegistryNotConnected,
}

/// The name of the variant of `e`.
pub open spec fn variant_name(e: WSError) -> Seq<char> {
    match e {
        WSError::SM(_) => "SM"@,
        WSError::Json(_) => "Json"@,
        WSError::Protocol(_) => "Protocol"@,
        WSError::SessionClosed(_) => "SessionClosed"@,
        WSError::UnsupportedMessage(_) => "UnsupportedMessage"@,
        WSError::StreamClosed => "StreamClosed"@,
        WSError::HandshakeTimeout => "HandshakeTimeout"@,
        WSError::RegistryDisconnected => "RegistryDisconnected"@,
        WSError::RegistryNotConnected => "RegistryNotConnected"@,
    }
}

/// The status code that ends a session on the state machine error `e`:
/// none of them is a normal closure, so each is `Error`.
pub open spec fn client_close_code(e: ClientStateError) -> CloseCode {
    CloseCode::Error
}

/// The status code that ends a session on the handler error `e`: that of
/// the state machine error for one, `Unsupported` for an unsupported
/// message, `Error` for everything else.
pub open spec fn ws_close_code(e: WSError) -> CloseCode {
    match e {
        WSError::SM(sm) => client_close_code(sm),
        WSError::UnsupportedMessage(_) => CloseCode::Unsupported,
        _ => CloseCode::Error,
    }
}

impl ClientStateError {
    /// The status code for the Close frame of a session that ends on this
    /// error.
    pub fn close_code(&self) -> (r: CloseCode)
        ensures
            r == client_close_code(*self),
    {
        CloseCode::Error
    }
}

impl WSError {
    /// The status code for the session's Close frame: the state machine
    /// error's own, `Unsupported` for an unsupported message, `Error` for
    /// everything else.
    pub fn close_code(&self) -> (r: CloseCode)
        ensures
            r == ws_close_code(*self),
    {
        match self {
            WSError::SM(e) => e.close_code(),
            WSError::UnsupportedMessage(_) => CloseCode::Unsupported,
            _ => CloseCode::Error,
        }
    }

    /// The description for the session's Close frame: the name of the
    /// variant, which fits in the 125 bytes of a control frame.
    pub fn close_description(&self) -> (r: &'static str)
        ensures
            r@ == variant_name(*self),
            r@.len() <= 125,
    {
        proof {
            reveal_strlit("SM");
            reveal_strlit("Json");
            reveal_strlit("Protocol");
            reveal_strlit("SessionClosed");
            reveal_strlit("UnsupportedMessage");
            reveal_strlit("StreamClosed");
            reveal_strlit("HandshakeTimeout");
            reveal_strlit("RegistryDisconnected");
            reveal_strlit("RegistryNotConnected");
        }
        match self {
            WSError::SM(_) => "SM",
            WSError::Json(_) => "Json",
            WSError::Protocol(_) => "Protocol",
            WSError::SessionClosed(_) => "SessionClosed",
            WSError::UnsupportedMessage(_) => "UnsupportedMessage",
            WSError::StreamClosed => "StreamClosed",
            WSError::HandshakeTimeout => "HandshakeTimeout",
            WSError::RegistryDisconnected => "RegistryDisconnected",
            WSError::RegistryNotConnected => "RegistryNotConnected",
        }
    }
}

} // verus!
