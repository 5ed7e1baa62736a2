use autopush::unidentified::ClientStateError;
use autopush::ws_error::{CloseCode, WSError};

fn all_errors() -> Vec<WSError> {
    vec![
        WSError::SM(ClientStateError::AlreadyConnected),
        WSError::Json(serde_json::from_str::<u32>("x").unwrap_err()),
        WSError::SessionClosed(actix_ws::Closed),
        WSError::UnsupportedMessage("binary".to_owned()),
        WSError::StreamClosed,
        WSError::HandshakeTimeout,
        WSError::RegistryDisconnected,
        WSError::RegistryNotConnected,
    ]
}

#[test]
fn close_codes() {
    for e in all_errors() {
        let expected = match e {
            WSError::UnsupportedMessage(_) => CloseCode::Unsupported,
            _ => CloseCode::Error,
        };
        assert_eq!(e.close_code(), expected);
    }
}

#[test]
fn close_descriptions() {
    let names: Vec<&str> = all_errors().iter().map(|e| e.close_description()).collect();
    assert_eq!(
        names,
        vec![
            "SM",
            "Json",
            "SessionClosed",
            "UnsupportedMessage",
            "StreamClosed",
            "HandshakeTimeout",
            "RegistryDisconnected",
            "RegistryNotConnected"
        ]
    );
    for n in names {
        assert!(n.len() <= 125);
    }
    let p = WSError::Protocol(actix_ws::ProtocolError::BadOpCode);
    assert_eq!(p.close_description(), "Protocol");
    assert_eq!(p.close_code(), CloseCode::Error);
}

#[test]
fn state_machine_errors_close_with_their_own_code() {
    for e in [
        ClientStateError::AlreadyConnected,
        ClientStateError::Database("down".to_owned()),
        ClientStateError::InvalidClientMessage(String::new()),
    ] {
        let own = e.close_code();
        assert_eq!(own, CloseCode::Error);
        assert_eq!(WSError::SM(e).close_code(), own);
    }
}
