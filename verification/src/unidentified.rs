//! The first state of a WebPush WebSocket connection: the client has not
//! said who it is yet. Its only acceptable message is a WebPush `Hello`.
//!
//! The handshake asks the message store about the client between reading
//! the `Hello` and answering it, so it is split in two steps: the first
//! turns the client's message into the request for the store, the second
//! turns the store's answer into the server's `Hello`.
use vstd::prelude::*;

use crate::protocol::{ClientMessage, HelloResponse, ServerMessage};
use crate::uaid::{parse_uuid, simple_form, simple_string, uuid_parse};

verus! {

/// Errors that may occur in the WebPush WebSocket state machine.
#[derive(Debug)]
pub enum ClientStateError {
    /// The message store failed; the text describes how.
    Database(String),
    /// The client sent a message that is not acceptable here.
    InvalidClientMessage(String),
    /// The client is connected to another node.
    AlreadyConnected,
}

/// The question for the message store that a `Hello` leads to.
#[derive(Debug)]
pub struct HelloRequest {
    /// The identifier the client presented, if any.
    pub uaid: Option<u128>,
    /// The router URL recorded for the client.
    pub router_url: String,
    /// Whether the store should not write a record for the client yet: so it
    /// is for a client without an identifier.
    pub defer_registration: bool,
}

/// A client connection before the handshake.
#[derive(Debug)]
pub struct UnidentifiedClient {
    /// The client's User-Agent.
    pub ua: String,
}

/// The identifier text of a WebPush `Hello`: `None` for any other message,
/// `Some(None)` for a `Hello` without an identifier.
pub open spec fn webpush_hello_uaid(msg: ClientMessage) -> Option<Option<Seq<char>>> {
    match msg {
        ClientMessage::Hello { uaid, use_webpush, .. } => {
            if use_webpush == Some(true) {
                Some(
                    match uaid {
                        Some(s) => Some(s@),
                        None => None,
                    },
                )
            } else {
                None
            }
        },
        _ => None,
    }
}

/// The identifier text of a WebPush `Hello` is its `uaid` field, whatever
/// its channels and broadcasts hold; a `Hello` without `use_webpush:
/// Some(true)` and every other message have none.
pub proof fn lemma_webpush_hello_uaid(msg: ClientMessage)
    ensures
        msg matches ClientMessage::Hello { uaid: Some(s), use_webpush: Some(true), .. }
            ==> webpush_hello_uaid(msg) == Some(Some(s@)),
        msg matches ClientMessage::Hello { uaid: None, use_webpush: Some(true), .. }
            ==> webpush_hello_uaid(msg) == Some(None::<Seq<char>>),
        !(msg matches ClientMessage::Hello { use_webpush: Some(true), .. }) ==> webpush_hello_uaid(
            msg,
        ) is None,
{
}

/// The router URL that a hello records.
pub open spec fn hello_router_url() -> Seq<char> {
    "https://cnn.com/"@
}

/// Whether `r` is the refusal of an unacceptable client message, with the
/// text `m`.
pub open spec fn is_invalid_message(r: Result<HelloRequest, ClientStateError>, m: Seq<char>) -> bool {
    r matches Err(ClientStateError::InvalidClientMessage(t)) && t@ == m
}

/// Whether `r` is the request for a client that presented `uaid`.
pub open spec fn is_request_for(r: Result<HelloRequest, ClientStateError>, uaid: Option<u128>) -> bool {
    r matches Ok(req) && req.uaid == uaid && req.defer_registration == (uaid is None)
        && req.router_url@ == hello_router_url()
}

/// The request for the store once the client's identifier text has been
/// parsed: `parsed` is `None` where the client gave no identifier, and
/// `Some(None)` where its text is not an identifier.
pub fn hello_request(parsed: Option<Option<u128>>) -> (r: Result<HelloRequest, ClientStateError>)
    ensures
        match parsed {
            None => is_request_for(r, None),
            Some(None) => is_invalid_message(r, "XXX"@),
            Some(Some(u)) => is_request_for(r, Some(u)),
        },
{
    let uaid = match parsed {
        None => None,
        Some(None) => {
            proof {
                reveal_strlit("XXX");
            }
            return Err(ClientStateError::InvalidClientMessage("XXX".to_owned()));
        },
        Some(Some(u)) => Some(u),
    };
    let defer_registration = uaid.is_none();
    proof {
        reveal_strlit("https://cnn.com/");
    }
    Ok(HelloRequest { uaid, router_url: "https://cnn.com/".to_owned(), defer_registration })
}

impl UnidentifiedClient {
    /// A connection from a client with User-Agent `ua`.
    pub fn new(ua: &str) -> (r: Self)
        ensures
            r.ua@ == ua@,
    {
        UnidentifiedClient { ua: ua.to_owned() }
    }

    /// The first step of the handshake: a WebPush `Hello` becomes the
    /// request for the store; any other message is refused.
    pub fn on_client_message(&self, msg: ClientMessage) -> (r: Result<HelloRequest, ClientStateError>)
        ensures
            match webpush_hello_uaid(msg) {
                None => is_invalid_message(r, ""@),
                Some(None) => is_request_for(r, None),
                Some(Some(s)) => match uuid_parse(s) {
                    None => is_invalid_message(r, "XXX"@),
                    Some(u) => is_request_for(r, Some(u)),
                },
            },
            // A client that presents the simple form of an identifier is
            // taken as that existing client.
            forall|u: u128|
                webpush_hello_uaid(msg) == Some(Some(#[trigger] simple_form(u))) ==> is_request_for(
                    r,
                    Some(u),
                ),
            // Read from the message's own fields: a WebPush Hello is looked
            // up by the identifier its text parses to, whatever channels and
            // broadcasts it carries; one without an identifier is a new
            // client; any other message is refused.
            msg matches ClientMessage::Hello { uaid: Some(s), use_webpush: Some(true), .. } ==> (
            match uuid_parse(s@) {
                Some(u) => r matches Ok(req) && req.uaid == Some(u) && !req.defer_registration,
                None => r matches Err(ClientStateError::InvalidClientMessage(_)),
            }),
            msg matches ClientMessage::Hello { uaid: None, use_webpush: Some(true), .. } ==> (r matches Ok(
                req,
            ) && req.uaid is None && req.defer_registration),
            !(msg matches ClientMessage::Hello { use_webpush: Some(true), .. }) ==> (r matches Err(
                ClientStateError::InvalidClientMessage(_),
            )),
    {
        let uaid = match msg {
            ClientMessage::Hello { uaid, use_webpush: Some(true), .. } => uaid,
            _ => {
                proof {
                    reveal_strlit("");
                }
                return Err(ClientStateError::InvalidClientMessage("".to_owned()));
            },
        };
        let parsed = match uaid {
            None => None,
            Some(s) => Some(parse_uuid(s.as_str())),
        };
        hello_request(parsed)
    }

    /// The second step of the handshake: the store's answer becomes the
    /// server's `Hello`, or the refusal of a client connected elsewhere.
    pub fn on_hello_response(&self, resp: &HelloResponse) -> (r: Result<ServerMessage, ClientStateError>)
        ensures
            match resp.uaid {
                None => r matches Err(ClientStateError::AlreadyConnected),
                Some(u) => r matches Ok(ServerMessage::Hello { uaid, status, use_webpush, broadcasts })
                    && uaid@ == simple_form(u) && status == 200 && use_webpush == Some(true)
                    && broadcasts@.len() == 0,
            },
    {
        match resp.uaid {
            None => Err(ClientStateError::AlreadyConnected),
            Some(u) => Ok(
                ServerMessage::Hello {
                    uaid: simple_string(u),
                    status: 200,
                    use_webpush: Some(true),
                    broadcasts: Vec::new(),
                },
            ),
        }
    }
}

} // verus!
