//! The I/O object of an accepted connection whose first bytes were already
//! read to route it. Reads replay those bytes before any new data of the
//! socket, so the WebSocket library parses the request headers again.
use vstd::prelude::*;

use bytes::BytesMut;

verus! {

#[verifier::external_type_specification]
#[verifier::external_body]
pub struct ExBytesMut(BytesMut);

/// The bytes that a `BytesMut` holds, in order.
pub uninterp spec fn bytes_mut_contents(b: BytesMut) -> Seq<u8>;

/// Views the bytes of `b` as a slice (`Deref` of `BytesMut`).
#[verifier::external_body]
fn bytes_mut_as_slice(b: &BytesMut) -> (r: &[u8])
    ensures
        r@ == bytes_mut_contents(*b),
{
    &b[..]
}

/// Calls `BytesMut::split_to`, which moves the first `at` bytes into a new
/// buffer and panics when there are fewer.
#[verifier::external_body]
fn bytes_mut_split_to(b: &mut BytesMut, at: usize) -> (r: BytesMut)
    requires
        at <= bytes_mut_contents(*old(b)).len(),
    ensures
        bytes_mut_contents(r) == bytes_mut_contents(*old(b)).take(at as int),
        bytes_mut_contents(*final(b)) == bytes_mut_contents(*old(b)).skip(at as int),
{
    b.split_to(at)
}

/// A connection of type `S` together with the header bytes that were read
/// from it before.
pub struct WebpushIo<S> {
    tcp: S,
    header_to_read: Option<BytesMut>,
}

/// The smaller of `a` and `b`.
pub open spec fn min_nat(a: nat, b: nat) -> nat {
    if a <= b {
        a
    } else {
        b
    }
}

/// One read's replay: with `pending` header bytes and a buffer of `room`
/// bytes, the number of header bytes handed out (`None` when the read goes
/// to the connection) and the header bytes still pending afterwards.
pub open spec fn replay_step(pending: Option<Seq<u8>>, room: nat) -> (Option<nat>, Option<Seq<u8>>) {
    match pending {
        None => (None, None),
        Some(h) => {
            let n = min_nat(h.len(), room);
            if room == 0 || n > 0 {
                (Some(n), Some(h.skip(n as int)))
            } else {
                (None, None)
            }
        },
    }
}

/// The header bytes handed out by successive reads into buffers of
/// `rooms` bytes, starting with `pending` header bytes, in order.
pub open spec fn replay_served(pending: Option<Seq<u8>>, rooms: Seq<nat>) -> Seq<u8>
    decreases rooms.len(),
{
    if rooms.len() == 0 {
        Seq::empty()
    } else {
        let step = replay_step(pending, rooms[0]);
        let here = match (pending, step.0) {
            (Some(h), Some(n)) => h.take(n as int),
            _ => Seq::empty(),
        };
        here + replay_served(step.1, rooms.drop_first())
    }
}

/// The header bytes still pending after successive reads into buffers of
/// `rooms` bytes, starting with `pending`.
pub open spec fn replay_left(pending: Option<Seq<u8>>, rooms: Seq<nat>) -> Option<Seq<u8>>
    decreases rooms.len(),
{
    if rooms.len() == 0 {
        pending
    } else {
        replay_left(replay_step(pending, rooms[0]).1, rooms.drop_first())
    }
}

/// Over any sequence of reads, the header is replayed whole, in order and
/// once: what was handed out followed by what is still pending is the
/// header, and once a read goes to the connection the whole header has been
/// handed out and no header byte is handed out any more.
pub proof fn lemma_replay_sequence(pending: Option<Seq<u8>>, rooms: Seq<nat>)
    ensures
        match pending {
            None => replay_served(pending, rooms) == Seq::<u8>::empty() && replay_left(
                pending,
                rooms,
            ) is None,
            Some(h) => match replay_left(pending, rooms) {
                Some(p) => replay_served(pending, rooms) + p == h,
                None => replay_served(pending, rooms) == h,
            },
        },
        forall|room: nat| (#[trigger] replay_step(pending, room)).0 is None ==> (match pending {
            Some(h) => h.len() == 0,
            None => true,
        }),
    decreases rooms.len(),
{
    if rooms.len() > 0 {
        let step = replay_step(pending, rooms[0]);
        lemma_replay_sequence(step.1, rooms.drop_first());
        match pending {
            None => {
                assert(replay_served(pending, rooms) =~= Seq::<u8>::empty());
            },
            Some(h) => {
                match step.0 {
                    Some(n) => {
                        let rest = h.skip(n as int);
                        assert(step.1 == Some(rest));
                        match replay_left(pending, rooms) {
                            Some(p) => {
                                assert(replay_served(step.1, rooms.drop_first()) + p == rest);
                                assert(h.take(n as int) + (replay_served(step.1, rooms.drop_first())
                                    + p) =~= h);
                            },
                            None => {
                                assert(replay_served(step.1, rooms.drop_first()) == rest);
                                assert(h.take(n as int) + rest =~= h);
                            },
                        }
                    },
                    None => {
                        assert(h.len() == 0);
                        assert(replay_served(pending, rooms) =~= h);
                    },
                }
            },
        }
    } else {
        if let Some(h) = pending {
            assert(replay_served(pending, rooms) + h =~= h);
        }
    }
}

impl<S> WebpushIo<S> {
    /// The connection.
    pub closed spec fn conn(&self) -> S {
        self.tcp
    }

    /// The header bytes still to be replayed; `None` once reads go to the
    /// connection.
    pub closed spec fn pending(&self) -> Option<Seq<u8>> {
        match self.header_to_read {
            Some(h) => Some(bytes_mut_contents(h)),
            None => None,
        }
    }

    /// The connection `tcp`, with the bytes `header` already read from it.
    pub fn new(tcp: S, header: BytesMut) -> (r: Self)
        ensures
            r.conn() == tcp,
            r.pending() == Some(bytes_mut_contents(header)),
    {
        WebpushIo { tcp, header_to_read: Some(header) }
    }

    /// The connection, to read from and write to once the header has been
    /// replayed.
    pub fn tcp_mut(&mut self) -> (r: &mut S)
        ensures
            *r == old(self).conn(),
            final(self).conn() == *final(r),
            final(self).pending() == old(self).pending(),
    {
        &mut self.tcp
    }

    /// Start of a read into `buf`: copies as many pending header bytes as
    /// fit and returns their number. Returns `None`, and stops replaying,
    /// when the header is used up and `buf` has room: the read then goes to
    /// the connection.
    pub fn replay_header(&mut self, buf: &mut [u8]) -> (r: Option<usize>)
        ensures
            final(self).conn() == old(self).conn(),
            ((match r {
                Some(n) => Some(n as nat),
                None => None,
            }), final(self).pending()) == replay_step(old(self).pending(), old(buf)@.len()),
            match old(self).pending() {
                None => r is None && final(self).pending() is None && final(buf)@ == old(buf)@,
                Some(h) => {
                    let n = min_nat(h.len(), old(buf)@.len());
                    &&& final(buf)@ == h.take(n as int) + old(buf)@.skip(n as int)
                    &&& if old(buf)@.len() == 0 || n > 0 {
                        r == Some(n as usize) && final(self).pending() == Some(h.skip(n as int))
                    } else {
                        r is None && final(self).pending() is None
                    }
                },
            },
    {
        let ghost buf0 = buf@;
        let served: Option<usize> = match &mut self.header_to_read {
            None => None,
            Some(header) => {
                let ghost h = bytes_mut_contents(*header);
                let n: usize;
                {
                    let src = bytes_mut_as_slice(header);
                    n = if src.len() <= buf.len() {
                        src.len()
                    } else {
                        buf.len()
                    };
                    let mut i: usize = 0;
                    while i < n
                        invariant
                            0 <= i <= n,
                            n <= src@.len(),
                            n <= buf@.len(),
                            buf@.len() == buf0.len(),
                            forall|k: int| 0 <= k < i ==> buf@[k] == src@[k],
                            forall|k: int| i <= k < buf0.len() ==> buf@[k] == buf0[k],
                        decreases n - i,
                    {
                        buf[i] = src[i];
                        i = i + 1;
                    }
                    assert(buf@ =~= src@.take(n as int) + buf0.skip(n as int));
                }
                let _ = bytes_mut_split_to(header, n);
                if buf.len() == 0 || n > 0 {
                    Some(n)
                } else {
                    None
                }
            },
        };
        match served {
            Some(n) => Some(n),
            None => {
                self.header_to_read = None;
                None
            },
        }
    }
}

} // verus!
