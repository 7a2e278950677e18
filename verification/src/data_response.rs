use vstd::prelude::*;
use vstd::slice::slice_subrange;

use tinyvec::ArrayVec;

use crate::comm::Reply;
use crate::status::{spec_status_value, StatusWord};

verus! {

/// Fixed capacity of the response buffer: it bounds the largest data
/// object (a certificate) the card returns in one logical reply.
pub const RESP_BUF_CAPACITY: usize = 1024;

/// Largest number of payload bytes one physical response packet carries;
/// the status word reports pending bytes only up to this window.
pub const APDU_MAX_CHUNK_SIZE: usize = 255;

#[verifier::external_type_specification]
#[verifier::external_body]
#[verifier::reject_recursive_types(A)]
pub struct ExArrayVec<A>(ArrayVec<A>);

/// The bytes held by the buffer's backing vector, in order.
pub uninterp spec fn av_bytes(v: ArrayVec<[u8; RESP_BUF_CAPACITY]>) -> Seq<u8>;

/// Relies on tinyvec::ArrayVec::new: a freshly made vector is empty.
#[verifier::external_body]
fn av_new() -> (r: ArrayVec<[u8; RESP_BUF_CAPACITY]>)
    ensures
        av_bytes(r) == Seq::<u8>::empty(),
{
    ArrayVec::new()
}

/// Relies on tinyvec::ArrayVec::len: the number of items held.
#[verifier::external_body]
fn av_len(v: &ArrayVec<[u8; RESP_BUF_CAPACITY]>) -> (n: usize)
    ensures
        n == av_bytes(*v).len(),
{
    v.len()
}

/// Relies on tinyvec::ArrayVec::clear: removes every item.
#[verifier::external_body]
fn av_clear(v: &mut ArrayVec<[u8; RESP_BUF_CAPACITY]>)
    ensures
        av_bytes(*final(v)) == Seq::<u8>::empty(),
{
    v.clear()
}

/// Relies on tinyvec::ArrayVec::extend_from_slice: appends the slice's
/// bytes in order.  It panics above the fixed capacity, which the
/// precondition rules out.
#[verifier::external_body]
fn av_extend_from_slice(v: &mut ArrayVec<[u8; RESP_BUF_CAPACITY]>, s: &[u8])
    requires
        av_bytes(*old(v)).len() + s@.len() <= RESP_BUF_CAPACITY,
    ensures
        av_bytes(*final(v)) == av_bytes(*old(v)) + s@,
{
    v.extend_from_slice(s)
}

/// Relies on tinyvec::ArrayVec::as_slice: a view of the items in order.
#[verifier::external_body]
fn av_get(v: &ArrayVec<[u8; RESP_BUF_CAPACITY]>, i: usize) -> (b: u8)
    requires
        i < av_bytes(*v).len(),
    ensures
        b == av_bytes(*v)[i as int],
{
    v.as_slice()[i]
}

/// How many bytes the next send yields: all pending bytes, capped at the
/// one-packet window.
pub open spec fn spec_chunk_size(len: int, cur: int) -> int {
    if len - cur < 255 {
        len - cur
    } else {
        255
    }
}

/// The payload of a send performed on contents `b` at cursor `cur`.
pub open spec fn spec_send_payload(b: Seq<u8>, cur: int) -> Seq<u8>
    recommends
        0 <= cur <= b.len(),
{
    b.subrange(cur, cur + spec_chunk_size(b.len() as int, cur))
}

/// The cursor after a send performed on contents `b` at cursor `cur`.
pub open spec fn spec_send_cursor(b: Seq<u8>, cur: int) -> int {
    cur + spec_chunk_size(b.len() as int, cur)
}

/// The status word of a send performed on contents `b` at cursor `cur`:
/// success when the buffer is drained, else the pending count truncated
/// to the one-packet reporting window.
pub open spec fn spec_send_status(b: Seq<u8>, cur: int) -> u16 {
    let next = spec_send_cursor(b, cur);
    if b.len() - next > 0 {
        (0x6100 + spec_chunk_size(b.len() as int, next)) as u16
    } else {
        0x9000u16
    }
}

/// What `set` keeps of its input: the whole input, truncated to the
/// buffer's capacity.
pub open spec fn spec_set_contents(d: Seq<u8>) -> Seq<u8> {
    if d.len() <= RESP_BUF_CAPACITY {
        d
    } else {
        d.take(RESP_BUF_CAPACITY as int)
    }
}

/// What `extend` appends of its input: the longest prefix that still fits
/// beside the bytes already held.
pub open spec fn spec_extend_appended(held: int, d: Seq<u8>) -> Seq<u8> {
    if d.len() <= RESP_BUF_CAPACITY - held {
        d
    } else {
        d.take(RESP_BUF_CAPACITY - held)
    }
}

/// Owns one logical reply that may exceed a single response packet, and
/// the cursor up to which the host has read it.  When a reply is split
/// across packets, the pending count travels in the status word and the
/// host keeps issuing continue commands until the buffer is drained.
pub struct DataResponseBuffer {
    data: ArrayVec<[u8; RESP_BUF_CAPACITY]>,
    read_cnt: usize,
}

impl DataResponseBuffer {
    /// The pending reply bytes.
    pub closed spec fn bytes(&self) -> Seq<u8> {
        av_bytes(self.data)
    }

    /// How many of the pending bytes were already read.
    pub closed spec fn cursor(&self) -> int {
        self.read_cnt as int
    }

    /// The cursor never passes the contents, which never pass the capacity.
    pub open spec fn wf(&self) -> bool {
        0 <= self.cursor() <= self.bytes().len() && self.bytes().len() <= RESP_BUF_CAPACITY
    }

    /// How many bytes are still unread.
    pub open spec fn spec_remaining(&self) -> int {
        self.bytes().len() - self.cursor()
    }

    /// A fresh, empty buffer.
    pub fn new() -> (r: DataResponseBuffer)
        ensures
            r.wf(),
            r.bytes() == Seq::<u8>::empty(),
            r.cursor() == 0,
    {
        DataResponseBuffer { data: av_new(), read_cnt: 0 }
    }

    fn remaining_length(&self) -> (n: usize)
        requires
            self.wf(),
        ensures
            n == self.spec_remaining(),
    {
        av_len(&self.data) - self.read_cnt
    }

    /// Replaces the whole contents with `data` (truncated to capacity) and
    /// resets the cursor.  This is the only mutation a data-producing
    /// handler performs.
    pub fn set(&mut self, data: &[u8])
        ensures
            final(self).wf(),
            final(self).cursor() == 0,
            final(self).bytes() == spec_set_contents(data@),
    {
        let copied_length: usize = if data.len() < RESP_BUF_CAPACITY {
            data.len()
        } else {
            RESP_BUF_CAPACITY
        };
        av_clear(&mut self.data);
        let prefix = slice_subrange(data, 0, copied_length);
        av_extend_from_slice(&mut self.data, prefix);
        self.read_cnt = 0;
        proof {
            assert(self.bytes() =~= spec_set_contents(data@));
        }
    }

    /// Appends `data` after the bytes already held, keeping only what the
    /// capacity still admits; the cursor is unchanged.
    pub fn extend(&mut self, data: &[u8])
        requires
            old(self).wf(),
        ensures
            final(self).wf(),
            final(self).cursor() == old(self).cursor(),
            final(self).bytes() == old(self).bytes() + spec_extend_appended(
                old(self).bytes().len() as int,
                data@,
            ),
    {
        let held = av_len(&self.data);
        let room = RESP_BUF_CAPACITY - held;
        let copied_length: usize = if data.len() < room {
            data.len()
        } else {
            room
        };
        let prefix = slice_subrange(data, 0, copied_length);
        av_extend_from_slice(&mut self.data, prefix);
        proof {
            assert(prefix@ =~= spec_extend_appended(old(self).bytes().len() as int, data@));
        }
    }

    fn get_next_chunk_size(&self) -> (n: usize)
        requires
            self.wf(),
        ensures
            n == spec_chunk_size(self.bytes().len() as int, self.cursor()),
    {
        let rem = self.remaining_length();
        if rem < APDU_MAX_CHUNK_SIZE {
            rem
        } else {
            APDU_MAX_CHUNK_SIZE
        }
    }

    fn read_next_chunk(&mut self) -> (chunk: Vec<u8>)
        requires
            old(self).wf(),
        ensures
            final(self).wf(),
            final(self).bytes() == old(self).bytes(),
            final(self).cursor() == spec_send_cursor(old(self).bytes(), old(self).cursor()),
            chunk@ == spec_send_payload(old(self).bytes(), old(self).cursor()),
    {
        let read_length = self.get_next_chunk_size();
        let mut chunk: Vec<u8> = Vec::new();
        let mut i: usize = 0;
        while i < read_length
            invariant
                self.wf(),
                self.bytes() == old(self).bytes(),
                self.cursor() == old(self).cursor(),
                read_length == spec_chunk_size(self.bytes().len() as int, self.cursor()),
                i <= read_length,
                chunk@ == self.bytes().subrange(self.cursor(), self.cursor() + i),
            decreases read_length - i,
        {
            let b = av_get(&self.data, self.read_cnt + i);
            chunk.push(b);
            i += 1;
        }
        self.read_cnt = self.read_cnt + read_length;
        chunk
    }

    /// Performs one send step: yields the next chunk of pending bytes (or
    /// nothing when drained) together with the status word that reports
    /// whether, and how much, data is still pending.
    pub fn send(&mut self) -> (r: Reply)
        requires
            old(self).wf(),
        ensures
            final(self).wf(),
            final(self).bytes() == old(self).bytes(),
            final(self).cursor() == spec_send_cursor(old(self).bytes(), old(self).cursor()),
            r.payload@ == spec_send_payload(old(self).bytes(), old(self).cursor()),
            r.status == spec_send_status(old(self).bytes(), old(self).cursor()),
    {
        if self.get_next_chunk_size() == 0 {
            let r = Reply::success(Vec::new());
            proof {
                assert(r.payload@ =~= spec_send_payload(self.bytes(), self.cursor()));
            }
            return r;
        }
        let chunk = self.read_next_chunk();
        let next_size = self.get_next_chunk_size();
        if next_size > 0 {
            Reply { payload: chunk, status: u16::from(StatusWord::MoreDataAvailable(next_size as u8)) }
        } else {
            Reply { payload: chunk, status: 0x9000 }
        }
    }
}

/// The concatenation of every chunk yielded by sending repeatedly, from
/// cursor `cur` until the buffer is drained.
pub open spec fn spec_drain(b: Seq<u8>, cur: int) -> Seq<u8>
    recommends
        0 <= cur <= b.len(),
    decreases b.len() - cur,
    when 0 <= cur <= b.len()
{
    if cur >= b.len() {
        Seq::<u8>::empty()
    } else {
        spec_send_payload(b, cur) + spec_drain(b, spec_send_cursor(b, cur))
    }
}

/// Law: repeatedly sending until the buffer is drained yields exactly the
/// unread bytes, in order, with no duplication or loss.
pub proof fn lemma_drain_reconstructs(b: Seq<u8>, cur: int)
    requires
        0 <= cur <= b.len(),
    ensures
        spec_drain(b, cur) == b.subrange(cur, b.len() as int),
    decreases b.len() - cur,
{
    if cur >= b.len() {
        assert(spec_drain(b, cur) =~= b.subrange(cur, b.len() as int));
    } else {
        let next = spec_send_cursor(b, cur);
        lemma_drain_reconstructs(b, next);
        assert(spec_send_payload(b, cur) + b.subrange(next, b.len() as int) =~= b.subrange(
            cur,
            b.len() as int,
        ));
    }
}

/// Law: after `set`, draining the whole buffer reconstructs exactly the
/// bytes that were set.
pub proof fn lemma_drain_reconstructs_all(b: Seq<u8>)
    ensures
        spec_drain(b, 0) == b,
{
    lemma_drain_reconstructs(b, 0);
    assert(b.subrange(0, b.len() as int) =~= b);
}

/// Law: a send that leaves bytes pending makes progress, and its status
/// word reports the pending count truncated to the one-packet window; a
/// send that drains the buffer reports plain success.
pub proof fn lemma_send_status_reports_remaining(b: Seq<u8>, cur: int)
    requires
        0 <= cur <= b.len(),
    ensures
        ({
            let next = spec_send_cursor(b, cur);
            &&& cur < b.len() ==> next > cur
            &&& b.len() - next > 0 ==> spec_send_status(b, cur) == 0x6100 + spec_chunk_size(
                b.len() as int,
                next,
            )
            &&& b.len() - next == 0 ==> spec_send_status(b, cur) == 0x9000
        }),
{
}

/// Law: a send on a drained buffer is an idempotent no-op: it yields no
/// bytes, reports plain success, and leaves the state unchanged, however
/// often it is repeated.
pub proof fn lemma_send_on_empty_idempotent(b: Seq<u8>, cur: int)
    requires
        0 <= cur,
        cur == b.len(),
    ensures
        spec_send_payload(b, cur) == Seq::<u8>::empty(),
        spec_send_cursor(b, cur) == cur,
        spec_send_status(b, cur) == 0x9000,
{
    assert(spec_send_payload(b, cur) =~= Seq::<u8>::empty());
}

} // verus!
