//! Splitting a serialised message into datagrams and putting it back together.
//!
//! A buffer is sent as consecutive chunks of exactly `MAX_UDP_SEND_SIZE`
//! bytes followed by one shorter chunk (possibly empty), so the receiver knows
//! a message is complete at the first datagram shorter than the limit, and
//! no length needs to travel on the wire.

use vstd::prelude::*;
use vstd::slice::slice_subrange;
use vstd::slice::slice_to_vec;

verus! {

/// The largest payload that one datagram carries.
pub const MAX_UDP_SEND_SIZE: usize = 65507;

/// The datagrams that carry `b`, in the order they are sent.
pub open spec fn fragments(b: Seq<u8>) -> Seq<Seq<u8>>
    decreases b.len(),
{
    if b.len() < MAX_UDP_SEND_SIZE {
        seq![b]
    } else {
        seq![b.subrange(0, MAX_UDP_SEND_SIZE as int)] + fragments(
            b.subrange(MAX_UDP_SEND_SIZE as int, b.len() as int),
        )
    }
}

/// What a receiver rebuilds from the datagrams `ds` that arrive in turn: the
/// bytes of each, up to and including the first one shorter than the limit;
/// `None` while no such datagram has come.
pub open spec fn reassembled(ds: Seq<Seq<u8>>) -> Option<Seq<u8>>
    decreases ds.len(),
{
    if ds.len() == 0 {
        None
    } else if ds[0].len() < MAX_UDP_SEND_SIZE {
        Some(ds[0])
    } else {
        match reassembled(ds.drop_first()) {
            Some(rest) => Some(ds[0] + rest),
            None => None,
        }
    }
}

/// Splits `bytes` into the datagrams that carry it.
pub fn split_for_sending(bytes: &[u8]) -> (r: Vec<Vec<u8>>)
    ensures
        r@.len() == fragments(bytes@).len(),
        forall|i: int| 0 <= i < r@.len() ==> #[trigger] r@[i]@ == fragments(bytes@)[i],
{
    let mut r: Vec<Vec<u8>> = Vec::new();
    let mut pos: usize = 0;
    proof {
        assert(bytes@.subrange(0, bytes.len() as int) =~= bytes@);
        assert(r@.map_values(|v: Vec<u8>| v@) =~= Seq::<Seq<u8>>::empty());
    }
    while bytes.len() - pos >= MAX_UDP_SEND_SIZE
        invariant
            pos <= bytes.len(),
            ({
                let done = r@.map_values(|v: Vec<u8>| v@);
                done + fragments(bytes@.subrange(pos as int, bytes.len() as int)) == fragments(bytes@)
            }),
        decreases bytes.len() - pos,
    {
        let ghost old_done = r@.map_values(|v: Vec<u8>| v@);
        let ghost rest = bytes@.subrange(pos as int, bytes.len() as int);
        let chunk = slice_to_vec(slice_subrange(bytes, pos, pos + MAX_UDP_SEND_SIZE));
        r.push(chunk);
        pos = pos + MAX_UDP_SEND_SIZE;
        proof {
            let done = r@.map_values(|v: Vec<u8>| v@);
            assert(done =~= old_done.push(chunk@));
            assert(chunk@ =~= rest.subrange(0, MAX_UDP_SEND_SIZE as int));
            assert(rest.subrange(MAX_UDP_SEND_SIZE as int, rest.len() as int)
                =~= bytes@.subrange(pos as int, bytes.len() as int));
            assert(done + fragments(bytes@.subrange(pos as int, bytes.len() as int))
                =~= old_done + fragments(rest));
        }
    }
    let ghost old_done = r@.map_values(|v: Vec<u8>| v@);
    let last = slice_to_vec(slice_subrange(bytes, pos, bytes.len()));
    r.push(last);
    proof {
        let done = r@.map_values(|v: Vec<u8>| v@);
        assert(done =~= old_done.push(last@));
        assert(done =~= fragments(bytes@));
        assert forall|i: int| 0 <= i < r@.len() implies #[trigger] r@[i]@ == fragments(bytes@)[i] by {
            assert(done[i] == r@[i]@);
        }
    }
    r
}

/// Reassembling the datagrams that a buffer is split into gives the buffer
/// back, whatever its length: every datagram but the last is full, the last
/// is shorter than the limit, and together they hold the buffer's bytes.
pub proof fn lemma_fragment_round_trip(b: Seq<u8>)
    ensures
        fragments(b).len() == b.len() as int / (MAX_UDP_SEND_SIZE as int) + 1,
        forall|i: int|
            0 <= i < fragments(b).len() - 1 ==> #[trigger] fragments(b)[i].len() == MAX_UDP_SEND_SIZE,
        fragments(b).last().len() < MAX_UDP_SEND_SIZE,
        reassembled(fragments(b)) == Some(b),
    decreases b.len(),
{
    if b.len() >= MAX_UDP_SEND_SIZE {
        let head = b.subrange(0, MAX_UDP_SEND_SIZE as int);
        let tail = b.subrange(MAX_UDP_SEND_SIZE as int, b.len() as int);
        lemma_fragment_round_trip(tail);
        let fs = fragments(b);
        assert(fs.drop_first() =~= fragments(tail));
        assert(head + tail =~= b);
        assert forall|i: int| 0 <= i < fs.len() - 1 implies #[trigger] fs[i].len() == MAX_UDP_SEND_SIZE by {
            if i > 0 {
                assert(fs[i] == fragments(tail)[i - 1]);
            }
        }
        assert(fs.last() == fragments(tail).last());
    }
}

/// A message being put back together from its datagrams.
pub struct Reassembly {
    data: Vec<u8>,
    complete: bool,
}

impl Reassembly {
    /// The bytes taken so far.
    pub closed spec fn collected(&self) -> Seq<u8> {
        self.data@
    }

    /// Whether the last datagram of the message has been taken.
    pub closed spec fn is_complete(&self) -> bool {
        self.complete
    }

    /// Nothing taken yet.
    pub fn new() -> (r: Reassembly)
        ensures
            r.collected() == Seq::<u8>::empty(),
            !r.is_complete(),
    {
        Reassembly { data: Vec::new(), complete: false }
    }

    /// Whether the last datagram of the message has been taken.
    pub fn complete(&self) -> (r: bool)
        ensures
            r == self.is_complete(),
    {
        self.complete
    }

    /// Takes one datagram, of which `received` bytes at the front of `buffer`
    /// arrived; the rest of `buffer` is not part of it. Returns whether this
    /// was the last datagram of the message.
    pub fn push_datagram(&mut self, buffer: &[u8], received: usize) -> (done: bool)
        requires
            !old(self).is_complete(),
            received <= buffer.len(),
        ensures
            final(self).collected() == old(self).collected() + buffer@.subrange(0, received as int),
            done == (received < MAX_UDP_SEND_SIZE),
            final(self).is_complete() == done,
    {
        let mut part = slice_to_vec(slice_subrange(buffer, 0, received));
        self.data.append(&mut part);
        self.complete = received < MAX_UDP_SEND_SIZE;
        self.complete
    }

    /// The bytes taken, handed out.
    pub fn into_bytes(self) -> (r: Vec<u8>)
        ensures
            r@ == self.collected(),
    {
        self.data
    }
}

} // verus!
