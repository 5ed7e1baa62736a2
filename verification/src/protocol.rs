//! Messages of the WebPush WebSocket protocol that the handshake reads and
//! writes, and the answer of the message store to a hello.
use vstd::prelude::*;

verus! {

/// A message from the client.
#[derive(Debug, Clone)]
pub enum ClientMessage {
    /// The handshake: the client's identifier if it has one, the channels it
    /// knows, whether it speaks WebPush, and the broadcasts it follows.
    Hello {
        uaid: Option<String>,
        channel_ids: Option<Vec<String>>,
        use_webpush: Option<bool>,
        broadcasts: Option<Vec<(String, String)>>,
    },
    /// Registration of a new channel.
    Register { channel_id: String, key: Option<String> },
    /// Keep-alive.
    Ping,
}

/// A message from the server.
#[derive(Debug, Clone)]
pub enum ServerMessage {
    /// The answer to the handshake.
    Hello {
        uaid: String,
        status: u32,
        use_webpush: Option<bool>,
        broadcasts: Vec<(String, String)>,
    },
}

/// What the message store answers to a hello.
#[derive(Debug, Clone)]
pub struct HelloResponse {
    /// The client's identifier; `None` when the client is connected to
    /// another node.
    pub uaid: Option<u128>,
    pub message_month: String,
    pub check_storage: bool,
    pub reset_uaid: bool,
    pub rotate_message_table: bool,
    pub connected_at: u64,
}

} // verus!
