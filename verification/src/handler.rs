//! Decisions of the WebPush WebSocket handler: the User-Agent it records for
//! a connection, the handshake's first message, and what the session loop
//! does on each event.
//!
//! The handler itself awaits the client's messages and a ping interval; it
//! hands each event to `next_action` and performs the action.
use vstd::prelude::*;

use crate::text::string_push;

verus! {

/// Whether `b` is a visible ASCII byte or a tab, as header values must be
/// to read as text.
pub open spec fn is_visible_ascii(b: u8) -> bool {
    (32 <= b && b < 127) || b == 9
}

/// The visible ASCII bytes are 0x20 (space) to 0x7e, and tab is allowed
/// beside them.
pub proof fn lemma_visible_ascii(b: u8)
    ensures
        is_visible_ascii(b) <==> (0x20 <= b <= 0x7e || b == 0x09),
{
}

/// The User-Agent text of a request whose User-Agent header holds
/// `header`: empty when there is no such header or when it is not visible
/// ASCII text.
pub open spec fn user_agent_text(header: Option<Seq<u8>>) -> Seq<char> {
    match header {
        None => Seq::empty(),
        Some(b) => if forall|i: int| 0 <= i < b.len() ==> is_visible_ascii(#[trigger] b[i]) {
            b.map_values(|x: u8| x as char)
        } else {
            Seq::empty()
        },
    }
}

/// The User-Agent of a request, from the bytes of its User-Agent header.
pub fn user_agent(header: Option<&[u8]>) -> (r: String)
    ensures
        r@ == user_agent_text(
            match header {
                Some(b) => Some(b@),
                None => None,
            },
        ),
        // A header of the bytes 0x20..=0x7e and tab is taken as it is,
        // spaces included; any other byte, or no header, gives nothing.
        match header {
            Some(b) => (forall|i: int|
                0 <= i < b@.len() ==> (0x20 <= #[trigger] b@[i] <= 0x7e || b@[i] == 0x09)) ==> r@
                == b@.map_values(|x: u8| x as char),
            None => r@.len() == 0,
        },
        match header {
            Some(b) => (exists|i: int|
                0 <= i < b@.len() && !(0x20 <= #[trigger] b@[i] <= 0x7e || b@[i] == 0x09)) ==> r@.len()
                == 0,
            None => true,
        },
{
    let mut r = String::new();
    match header {
        None => r,
        Some(b) => {
            let mut i: usize = 0;
            while i < b.len()
                invariant
                    header == Some(b),
                    0 <= i <= b.len(),
                    r@ == b@.take(i as int).map_values(|x: u8| x as char),
                    forall|k: int| 0 <= k < i ==> is_visible_ascii(#[trigger] b@[k]),
                decreases b.len() - i,
            {
                let x = b[i];
                if !((32 <= x && x < 127) || x == 9) {
                    assert(!is_visible_ascii(b@[i as int]));
                    return String::new();
                }
                string_push(&mut r, x as char);
                assert(b@.take(i + 1).map_values(|x: u8| x as char) =~= b@.take(i as int).map_values(
                    |x: u8| x as char,
                ).push(x as char));
                i = i + 1;
            }
            assert(b@.take(b@.len() as int) =~= b@);
            r
        },
    }
}

/// What the client's message stream yields when polled.
#[derive(PartialEq, Eq, Structural, Clone, Copy, Debug)]
pub enum StreamItem {
    /// The stream has ended.
    End,
    /// A frame that could not be read.
    Failed,
    /// A message.
    Message,
}

/// An event of an established session.
#[derive(PartialEq, Eq, Structural, Clone, Copy, Debug)]
pub enum WsEvent {
    /// The message stream yielded an item.
    Stream(StreamItem),
    /// The ping interval elapsed.
    Tick,
}

/// What the session loop does next.
#[derive(PartialEq, Eq, Structural, Clone, Copy, Debug)]
pub enum WsAction {
    /// Wait for the next event.
    Continue,
    /// Send a Ping frame, then wait for the next event.
    Ping,
    /// Leave the loop: the session is over.
    Stop,
}

/// The seconds between two pings of an established session.
pub const PING_INTERVAL_SECS: u64 = 3;

/// The handshake's check of the first item of the stream: the session goes
/// on only after a message.
pub fn first_message(item: StreamItem) -> (r: Result<(), String>)
    ensures
        r is Ok <==> item is Message,
        r matches Err(e) ==> e@ == "doh"@,
{
    match item {
        StreamItem::Message => Ok(()),
        _ => {
            proof {
                reveal_strlit("doh");
            }
            Err("doh".to_owned())
        },
    }
}

/// The session loop's answer to an event: it stops when the stream ends,
/// pings on every tick, and otherwise waits.
pub fn next_action(event: WsEvent) -> (r: WsAction)
    ensures
        r == (match event {
            WsEvent::Stream(StreamItem::End) => WsAction::Stop,
            WsEvent::Stream(_) => WsAction::Continue,
            WsEvent::Tick => WsAction::Ping,
        }),
{
    match event {
        WsEvent::Stream(StreamItem::End) => WsAction::Stop,
        WsEvent::Stream(_) => WsAction::Continue,
        WsEvent::Tick => WsAction::Ping,
    }
}

} // verus!
