//! The wire envelope: a byte payload with its side list of handles, the
//! message header, and the primitive reads and writes that generated
//! marshalling code uses.
use vstd::prelude::*;

use crate::error::{Error, Result};

verus! {

/// Size of the header of a one-way request.
pub const HEADER_SIZE: usize = 16;

/// Size of the header of a message that carries a transaction id.
pub const HEADER_WITH_ID_SIZE: usize = 24;

/// Header flag: the sender waits for a response.
pub const FLAG_EXPECTS_RESPONSE: u32 = 1;

/// Header flag: the message is a response.
pub const FLAG_IS_RESPONSE: u32 = 2;

/// Wire slot of a nullable handle that is absent.
pub const NULL_HANDLE_SLOT: u32 = 0xffff_ffff;

/// Raw value of a handle slot that holds no handle.
pub const INVALID_HANDLE_RAW: u32 = 0;

/// The kind of a message, as its header tells it.
#[derive(Debug, Clone, Copy, PartialEq, Eq, Structural)]
pub enum MsgType {
    Request,
    RequestExpectsResponse,
    Response,
}

/// An owned kernel handle, held by its raw value.
#[derive(Debug, PartialEq, Eq, Structural)]
pub struct Handle {
    raw: u32,
}

impl Handle {
    pub closed spec fn raw_spec(&self) -> u32 {
        self.raw
    }

    /// Takes ownership of the handle with the given raw value.
    pub fn from_raw(raw: u32) -> (r: Handle)
        ensures
            r.raw_spec() == raw,
    {
        Handle { raw }
    }

    /// The placeholder left where a handle was moved out.
    pub fn invalid() -> (r: Handle)
        ensures
            r.raw_spec() == INVALID_HANDLE_RAW,
    {
        Handle { raw: INVALID_HANDLE_RAW }
    }

    pub fn raw(&self) -> (r: u32)
        ensures
            r == self.raw_spec(),
    {
        self.raw
    }

    pub fn into_raw(self) -> (r: u32)
        ensures
            r == self.raw_spec(),
    {
        self.raw
    }

    pub open spec fn is_valid(&self) -> bool {
        self.raw_spec() != INVALID_HANDLE_RAW
    }
}

/// The byte of `v` at little-endian position `k`.
pub open spec fn byte_of_u32(v: u32, k: u32) -> u8 {
    ((v >> (8 * k)) & 0xff) as u8
}

pub open spec fn byte_of_u64(v: u64, k: u64) -> u8 {
    ((v >> (8 * k)) & 0xff) as u8
}

/// The little-endian 32-bit value of four bytes.
pub open spec fn le_u32(b0: u8, b1: u8, b2: u8, b3: u8) -> u32 {
    (b0 as u32) | ((b1 as u32) << 8) | ((b2 as u32) << 16) | ((b3 as u32) << 24)
}

pub open spec fn le_u64(b0: u8, b1: u8, b2: u8, b3: u8, b4: u8, b5: u8, b6: u8, b7: u8) -> u64 {
    (le_u32(b0, b1, b2, b3) as u64) | ((le_u32(b4, b5, b6, b7) as u64) << 32)
}

/// The 16-bit value stored at `off` in `s`.
pub open spec fn u16_at(s: Seq<u8>, off: int) -> u16 {
    ((s[off] as u16) | ((s[off + 1] as u16) << 8)) as u16
}

/// The 32-bit value stored at `off` in `s`.
pub open spec fn u32_at(s: Seq<u8>, off: int) -> u32 {
    le_u32(s[off], s[off + 1], s[off + 2], s[off + 3])
}

/// The 64-bit value stored at `off` in `s`.
pub open spec fn u64_at(s: Seq<u8>, off: int) -> u64 {
    le_u64(s[off], s[off + 1], s[off + 2], s[off + 3], s[off + 4], s[off + 5], s[off + 6], s[off + 7])
}

/// `s` with the little-endian bytes of `v` written at `off`.
pub open spec fn put_u32(s: Seq<u8>, off: int, v: u32) -> Seq<u8> {
    Seq::new(s.len(), |i: int|
        if off <= i < off + 4 { byte_of_u32(v, (i - off) as u32) } else { s[i] })
}

pub open spec fn put_u64(s: Seq<u8>, off: int, v: u64) -> Seq<u8> {
    Seq::new(s.len(), |i: int|
        if off <= i < off + 8 { byte_of_u64(v, (i - off) as u64) } else { s[i] })
}

pub proof fn lemma_u32_bytes(v: u32)
    ensures
        le_u32(byte_of_u32(v, 0), byte_of_u32(v, 1), byte_of_u32(v, 2), byte_of_u32(v, 3)) == v,
{
    assert(le_u32(
        ((v >> 0) & 0xff) as u8,
        ((v >> 8) & 0xff) as u8,
        ((v >> 16) & 0xff) as u8,
        ((v >> 24) & 0xff) as u8,
    ) == v) by (bit_vector);
}

pub proof fn lemma_u64_bytes(v: u64)
    ensures
        le_u64(
            byte_of_u64(v, 0), byte_of_u64(v, 1), byte_of_u64(v, 2), byte_of_u64(v, 3),
            byte_of_u64(v, 4), byte_of_u64(v, 5), byte_of_u64(v, 6), byte_of_u64(v, 7),
        ) == v,
{
    assert(le_u64(
        ((v >> 0) & 0xff) as u8,
        ((v >> 8) & 0xff) as u8,
        ((v >> 16) & 0xff) as u8,
        ((v >> 24) & 0xff) as u8,
        ((v >> 32) & 0xff) as u8,
        ((v >> 40) & 0xff) as u8,
        ((v >> 48) & 0xff) as u8,
        ((v >> 56) & 0xff) as u8,
    ) == v) by (bit_vector);
}

/// Reading back a 32-bit value gives what was written.
pub proof fn lemma_put_u32_read(s: Seq<u8>, off: int, v: u32)
    requires
        0 <= off,
        off + 4 <= s.len(),
    ensures
        u32_at(put_u32(s, off, v), off) == v,
        put_u32(s, off, v).len() == s.len(),
{
    lemma_u32_bytes(v);
}

/// Reading back a 64-bit value gives what was written.
pub proof fn lemma_put_u64_read(s: Seq<u8>, off: int, v: u64)
    requires
        0 <= off,
        off + 8 <= s.len(),
    ensures
        u64_at(put_u64(s, off, v), off) == v,
        put_u64(s, off, v).len() == s.len(),
{
    lemma_u64_bytes(v);
}

/// `n` zero bytes.
pub open spec fn zeros(n: nat) -> Seq<u8> {
    Seq::new(n, |i: int| 0u8)
}

/// The header of a one-way request for method `ordinal`.
pub open spec fn request_header(ordinal: u32) -> Seq<u8> {
    put_u32(put_u32(zeros(HEADER_SIZE as nat), 0, HEADER_SIZE as u32), 8, ordinal)
}

/// The header of a message that carries a transaction id (still zero).
pub open spec fn header_with_id(ordinal: u32, flags: u32) -> Seq<u8> {
    put_u32(
        put_u32(
            put_u32(put_u32(zeros(HEADER_WITH_ID_SIZE as nat), 0, HEADER_WITH_ID_SIZE as u32), 4, 1),
            8,
            ordinal,
        ),
        12,
        flags,
    )
}

/// The kind of message that the received bytes `s` hold, or `None` when
/// the header is malformed: shorter than its declared size, a size below
/// the header's own, or flags that name no kind.
pub open spec fn header_kind(s: Seq<u8>) -> Option<MsgType> {
    if s.len() < HEADER_SIZE {
        None
    } else {
        let size = u32_at(s, 0) as int;
        let flags = u32_at(s, 12);
        if size < HEADER_SIZE || size > s.len() {
            None
        } else if flags == 0 {
            Some(MsgType::Request)
        } else if size < HEADER_WITH_ID_SIZE {
            None
        } else if flags == FLAG_EXPECTS_RESPONSE {
            Some(MsgType::RequestExpectsResponse)
        } else if flags == FLAG_IS_RESPONSE {
            Some(MsgType::Response)
        } else {
            None
        }
    }
}

/// The transaction id of a message whose header carries one.
pub open spec fn message_id(s: Seq<u8>) -> u64 {
    u64_at(s, 16)
}

proof fn lemma_put_u32_elsewhere(s: Seq<u8>, off: int, v: u32, other: int)
    requires
        0 <= off,
        off + 4 <= s.len(),
        0 <= other,
        other + 4 <= s.len(),
        other + 4 <= off || off + 4 <= other,
    ensures
        u32_at(put_u32(s, off, v), other) == u32_at(s, other),
{
}

proof fn lemma_put_u64_elsewhere(s: Seq<u8>, v: u64, other: int)
    requires
        24 <= s.len(),
        0 <= other,
        other + 4 <= 16,
    ensures
        u32_at(put_u64(s, 16, v), other) == u32_at(s, other),
        put_u64(s, 16, v).len() == s.len(),
{
}

proof fn lemma_zero_words()
    ensures
        le_u32(0, 0, 0, 0) == 0,
        le_u64(0, 0, 0, 0, 0, 0, 0, 0) == 0,
{
    assert(le_u32(0, 0, 0, 0) == 0) by (bit_vector);
    assert(le_u64(0, 0, 0, 0, 0, 0, 0, 0) == 0) by (bit_vector);
}

/// Each header that `EncodeBuf` builds is classified back as its own kind
/// and holds its ordinal at offset 8; a header that carries an id starts
/// with id zero, and stamping an id changes neither kind nor ordinal.
pub proof fn lemma_header_round_trip(ordinal: u32, id: u64)
    ensures
        header_kind(request_header(ordinal)) == Some(MsgType::Request),
        header_kind(header_with_id(ordinal, FLAG_EXPECTS_RESPONSE)) == Some(MsgType::RequestExpectsResponse),
        header_kind(header_with_id(ordinal, FLAG_IS_RESPONSE)) == Some(MsgType::Response),
        u32_at(request_header(ordinal), 8) == ordinal,
        u32_at(header_with_id(ordinal, FLAG_EXPECTS_RESPONSE), 8) == ordinal,
        u32_at(header_with_id(ordinal, FLAG_IS_RESPONSE), 8) == ordinal,
        message_id(header_with_id(ordinal, FLAG_EXPECTS_RESPONSE)) == 0,
        forall|s: Seq<u8>| s.len() >= HEADER_WITH_ID_SIZE ==> {
            &&& #[trigger] header_kind(put_u64(s, 16, id)) == header_kind(s)
            &&& u32_at(put_u64(s, 16, id), 8) == u32_at(s, 8)
            &&& message_id(put_u64(s, 16, id)) == id
        },
{
    lemma_zero_words();
    let z16 = zeros(HEADER_SIZE as nat);
    let a = put_u32(z16, 0, HEADER_SIZE as u32);
    lemma_put_u32_read(z16, 0, HEADER_SIZE as u32);
    lemma_put_u32_read(a, 8, ordinal);
    lemma_put_u32_elsewhere(a, 8, ordinal, 0);
    lemma_put_u32_elsewhere(a, 8, ordinal, 12);
    lemma_put_u32_elsewhere(z16, 0, HEADER_SIZE as u32, 12);
    assert(u32_at(z16, 12) == le_u32(0, 0, 0, 0));
    assert forall|flags: u32| flags == FLAG_EXPECTS_RESPONSE || flags == FLAG_IS_RESPONSE implies {
        &&& u32_at(#[trigger] header_with_id(ordinal, flags), 0) == HEADER_WITH_ID_SIZE
        &&& u32_at(header_with_id(ordinal, flags), 12) == flags
        &&& u32_at(header_with_id(ordinal, flags), 8) == ordinal
        &&& message_id(header_with_id(ordinal, flags)) == 0
    } by {
        let z = zeros(HEADER_WITH_ID_SIZE as nat);
        let b0 = put_u32(z, 0, HEADER_WITH_ID_SIZE as u32);
        let b1 = put_u32(b0, 4, 1);
        let b2 = put_u32(b1, 8, ordinal);
        lemma_put_u32_read(z, 0, HEADER_WITH_ID_SIZE as u32);
        lemma_put_u32_read(b0, 4, 1);
        lemma_put_u32_read(b1, 8, ordinal);
        lemma_put_u32_read(b2, 12, flags);
        lemma_put_u32_elsewhere(b0, 4, 1, 0);
        lemma_put_u32_elsewhere(b1, 8, ordinal, 0);
        lemma_put_u32_elsewhere(b2, 12, flags, 0);
        lemma_put_u32_elsewhere(b2, 12, flags, 8);
        let b3 = put_u32(b2, 12, flags);
        assert(message_id(b3) == le_u64(0, 0, 0, 0, 0, 0, 0, 0));
    }
    assert forall|s: Seq<u8>| s.len() >= HEADER_WITH_ID_SIZE implies {
        &&& #[trigger] header_kind(put_u64(s, 16, id)) == header_kind(s)
        &&& u32_at(put_u64(s, 16, id), 8) == u32_at(s, 8)
        &&& message_id(put_u64(s, 16, id)) == id
    } by {
        lemma_put_u64_elsewhere(s, id, 0);
        lemma_put_u64_elsewhere(s, id, 8);
        lemma_put_u64_elsewhere(s, id, 12);
        lemma_put_u64_read(s, 16, id);
    }
}

/// An outbound message under construction: its bytes and the handles that
/// travel with it.
pub struct EncodeBuf {
    buf: Vec<u8>,
    handles: Vec<Handle>,
}

impl EncodeBuf {
    pub closed spec fn bytes(&self) -> Seq<u8> {
        self.buf@
    }

    pub closed spec fn handle_list(&self) -> Seq<Handle> {
        self.handles@
    }

    /// An empty buffer.
    pub fn new() -> (r: EncodeBuf)
        ensures
            r.bytes() == Seq::<u8>::empty(),
            r.handle_list() == Seq::<Handle>::empty(),
    {
        EncodeBuf { buf: Vec::new(), handles: Vec::new() }
    }

    fn with_header(size: usize) -> (r: EncodeBuf)
        ensures
            r.bytes() == zeros(size as nat),
            r.handle_list() == Seq::<Handle>::empty(),
    {
        let mut r = EncodeBuf::new();
        r.claim(size);
        assert(r.buf@ =~= zeros(size as nat));
        r
    }

    /// A one-way request for method `ordinal`.
    pub fn new_request(ordinal: u32) -> (r: EncodeBuf)
        ensures
            r.bytes() == request_header(ordinal),
            r.handle_list() == Seq::<Handle>::empty(),
    {
        let mut r = EncodeBuf::with_header(HEADER_SIZE);
        r.write_u32(0, HEADER_SIZE as u32);
        r.write_u32(8, ordinal);
        r
    }

    /// A request for method `ordinal` that waits for a response; its
    /// transaction id is zero until the caller assigns one.
    pub fn new_request_expecting_response(ordinal: u32) -> (r: EncodeBuf)
        ensures
            r.bytes() == header_with_id(ordinal, FLAG_EXPECTS_RESPONSE),
            r.handle_list() == Seq::<Handle>::empty(),
    {
        EncodeBuf::new_with_id(ordinal, FLAG_EXPECTS_RESPONSE)
    }

    /// A response for method `ordinal`; the transaction id is stamped
    /// once the response is matched to its request.
    pub fn new_response(ordinal: u32) -> (r: EncodeBuf)
        ensures
            r.bytes() == header_with_id(ordinal, FLAG_IS_RESPONSE),
            r.handle_list() == Seq::<Handle>::empty(),
    {
        EncodeBuf::new_with_id(ordinal, FLAG_IS_RESPONSE)
    }

    fn new_with_id(ordinal: u32, flags: u32) -> (r: EncodeBuf)
        ensures
            r.bytes() == header_with_id(ordinal, flags),
            r.handle_list() == Seq::<Handle>::empty(),
    {
        let mut r = EncodeBuf::with_header(HEADER_WITH_ID_SIZE);
        r.write_u32(0, HEADER_WITH_ID_SIZE as u32);
        r.write_u32(4, 1);
        r.write_u32(8, ordinal);
        r.write_u32(12, flags);
        r
    }

    /// Appends `n` zero bytes and returns the offset where they start.
    pub fn claim(&mut self, n: usize) -> (r: usize)
        requires
            old(self).bytes().len() + n <= usize::MAX,
        ensures
            r == old(self).bytes().len(),
            final(self).bytes() == old(self).bytes() + zeros(n as nat),
            final(self).handle_list() == old(self).handle_list(),
    {
        let start = self.buf.len();
        let mut i: usize = 0;
        while i < n
            invariant
                i <= n,
                start + n <= usize::MAX,
                self.buf@ == old(self).buf@ + zeros(i as nat),
                self.handles@ == old(self).handles@,
                start == old(self).buf@.len(),
            decreases n - i,
        {
            self.buf.push(0u8);
            i = i + 1;
            assert(self.buf@ =~= old(self).buf@ + zeros(i as nat));
        }
        start
    }

    /// Writes one byte at `offset`.
    pub fn write_u8(&mut self, offset: usize, v: u8)
        requires
            offset < old(self).bytes().len(),
        ensures
            final(self).bytes() == old(self).bytes().update(offset as int, v),
            final(self).handle_list() == old(self).handle_list(),
    {
        self.buf.set(offset, v);
    }

    /// Writes `v` little-endian at `offset`.
    pub fn write_u16(&mut self, offset: usize, v: u16)
        requires
            offset + 2 <= old(self).bytes().len(),
        ensures
            final(self).bytes() == old(self).bytes().update(offset as int, (v & 0xff) as u8).update(
                offset + 1,
                (v >> 8u16) as u8,
            ),
            u16_at(final(self).bytes(), offset as int) == v,
            final(self).handle_list() == old(self).handle_list(),
    {
        let n = self.buf.len();
        assert(offset + 2 <= n);
        self.buf.set(offset, (v & 0xff) as u8);
        self.buf.set(offset + 1, (v >> 8u16) as u8);
        assert(((((v & 0xff) as u8) as u16) | ((((v >> 8u16) as u8) as u16) << 8)) as u16 == v)
            by (bit_vector);
    }

    /// Writes `v` little-endian at `offset`.
    pub fn write_u32(&mut self, offset: usize, v: u32)
        requires
            offset + 4 <= old(self).bytes().len(),
        ensures
            final(self).bytes() == put_u32(old(self).bytes(), offset as int, v),
            final(self).handle_list() == old(self).handle_list(),
    {
        let n = self.buf.len();
        assert(offset + 4 <= n);
        self.buf.set(offset, (v & 0xff) as u8);
        self.buf.set(offset + 1, ((v >> 8u32) & 0xff) as u8);
        self.buf.set(offset + 2, ((v >> 16u32) & 0xff) as u8);
        self.buf.set(offset + 3, ((v >> 24u32) & 0xff) as u8);
        assert(byte_of_u32(v, 0) == (v & 0xff) as u8) by {
            assert(v >> 0 == v) by (bit_vector);
        }
        assert(self.buf@ =~= put_u32(old(self).buf@, offset as int, v));
    }

    /// Writes `v` little-endian at `offset`.
    pub fn write_u64(&mut self, offset: usize, v: u64)
        requires
            offset + 8 <= old(self).bytes().len(),
        ensures
            final(self).bytes() == put_u64(old(self).bytes(), offset as int, v),
            final(self).handle_list() == old(self).handle_list(),
    {
        let n = self.buf.len();
        assert(offset + 8 <= n);
        self.buf.set(offset, (v & 0xff) as u8);
        self.buf.set(offset + 1, ((v >> 8u64) & 0xff) as u8);
        self.buf.set(offset + 2, ((v >> 16u64) & 0xff) as u8);
        self.buf.set(offset + 3, ((v >> 24u64) & 0xff) as u8);
        self.buf.set(offset + 4, ((v >> 32u64) & 0xff) as u8);
        self.buf.set(offset + 5, ((v >> 40u64) & 0xff) as u8);
        self.buf.set(offset + 6, ((v >> 48u64) & 0xff) as u8);
        self.buf.set(offset + 7, ((v >> 56u64) & 0xff) as u8);
        assert(byte_of_u64(v, 0) == (v & 0xff) as u8) by {
            assert(v >> 0 == v) by (bit_vector);
        }
        assert(self.buf@ =~= put_u64(old(self).buf@, offset as int, v));
    }

    /// Stamps the transaction id of a message whose header carries one.
    pub fn set_message_id(&mut self, id: u64)
        requires
            old(self).bytes().len() >= HEADER_WITH_ID_SIZE,
        ensures
            final(self).bytes() == put_u64(old(self).bytes(), 16, id),
            final(self).handle_list() == old(self).handle_list(),
    {
        self.write_u64(16, id);
    }

    /// Moves `handle` into the handle list and writes its index into the
    /// 4-byte slot at `offset`.
    pub fn encode_handle(&mut self, handle: Handle, offset: usize)
        requires
            offset + 4 <= old(self).bytes().len(),
            old(self).handle_list().len() < NULL_HANDLE_SLOT,
        ensures
            final(self).handle_list() == old(self).handle_list().push(handle),
            final(self).bytes() == put_u32(
                old(self).bytes(),
                offset as int,
                old(self).handle_list().len() as u32,
            ),
    {
        let index = self.handles.len() as u32;
        self.write_u32(offset, index);
        self.handles.push(handle);
    }

    /// Writes the absent marker into the 4-byte slot at `offset`.
    pub fn encode_null_handle(&mut self, offset: usize)
        requires
            offset + 4 <= old(self).bytes().len(),
        ensures
            final(self).handle_list() == old(self).handle_list(),
            final(self).bytes() == put_u32(old(self).bytes(), offset as int, NULL_HANDLE_SLOT),
    {
        self.write_u32(offset, NULL_HANDLE_SLOT);
    }

    /// The bytes written so far.
    pub fn get_bytes(&self) -> (r: &[u8])
        ensures
            r@ == self.bytes(),
    {
        self.buf.as_slice()
    }

    /// The handles moved in so far.
    pub fn get_handles(&self) -> (r: &[Handle])
        ensures
            r@ == self.handle_list(),
    {
        self.handles.as_slice()
    }

    /// The finished message: its bytes and its handles.
    pub fn into_content(self) -> (r: (Vec<u8>, Vec<Handle>))
        ensures
            r.0@ == self.bytes(),
            r.1@ == self.handle_list(),
    {
        (self.buf, self.handles)
    }
}

/// How a non-nullable handle slot decodes: the handle's index into
/// `handles`, or the error.
pub open spec fn handle_slot_result(s: Seq<u8>, handles: Seq<Handle>, offset: int) -> Result<int> {
    if offset + 4 > s.len() {
        Err(Error::OutOfRange)
    } else if u32_at(s, offset) == NULL_HANDLE_SLOT {
        Err(Error::NotNullable)
    } else if u32_at(s, offset) as int >= handles.len() || !handles[u32_at(s, offset) as int].is_valid() {
        Err(Error::InvalidHandle)
    } else {
        Ok(u32_at(s, offset) as int)
    }
}

/// A received message: its bytes and the handles that came with it. The
/// buffer is refilled in place for each message.
pub struct DecodeBuf {
    buf: Vec<u8>,
    handles: Vec<Handle>,
}

impl DecodeBuf {
    pub closed spec fn bytes(&self) -> Seq<u8> {
        self.buf@
    }

    pub closed spec fn handle_list(&self) -> Seq<Handle> {
        self.handles@
    }

    /// An empty buffer.
    pub fn new() -> (r: DecodeBuf)
        ensures
            r.bytes() == Seq::<u8>::empty(),
            r.handle_list() == Seq::<Handle>::empty(),
    {
        DecodeBuf { buf: Vec::new(), handles: Vec::new() }
    }

    /// Replaces the content with a newly received message, reusing the
    /// byte storage.
    pub fn fill(&mut self, bytes: &[u8], handles: Vec<Handle>)
        ensures
            final(self).bytes() == bytes@,
            final(self).handle_list() == handles@,
    {
        self.buf.clear();
        let mut i: usize = 0;
        while i < bytes.len()
            invariant
                i <= bytes@.len(),
                self.buf@ == bytes@.subrange(0, i as int),
            decreases bytes@.len() - i,
        {
            self.buf.push(bytes[i]);
            i = i + 1;
            assert(self.buf@ =~= bytes@.subrange(0, i as int));
        }
        assert(self.buf@ =~= bytes@);
        self.handles = handles;
    }

    /// The received bytes.
    pub fn get_bytes(&self) -> (r: &[u8])
        ensures
            r@ == self.bytes(),
    {
        self.buf.as_slice()
    }

    /// Reads the byte at `offset`, or fails with `OutOfRange` past the
    /// received bytes.
    pub fn read_u8(&self, offset: usize) -> (r: Result<u8>)
        ensures
            offset + 1 > self.bytes().len() <==> r is Err,
            r is Err ==> r == Err::<u8, Error>(Error::OutOfRange),
            r is Ok ==> r == Ok::<u8, Error>(self.bytes()[offset as int]),
    {
        if offset >= self.buf.len() {
            return Err(Error::OutOfRange);
        }
        Ok(self.buf[offset])
    }

    /// Reads the little-endian 16-bit value at `offset`, or fails with
    /// `OutOfRange` when it does not lie within the received bytes.
    pub fn read_u16(&self, offset: usize) -> (r: Result<u16>)
        ensures
            offset + 2 > self.bytes().len() <==> r is Err,
            r is Err ==> r == Err::<u16, Error>(Error::OutOfRange),
            r is Ok ==> r == Ok::<u16, Error>(u16_at(self.bytes(), offset as int)),
    {
        let n = self.buf.len();
        if offset > n || n - offset < 2 {
            return Err(Error::OutOfRange);
        }
        Ok((self.buf[offset] as u16) | ((self.buf[offset + 1] as u16) << 8u16))
    }

    /// Reads the little-endian 32-bit value at `offset`, or fails with
    /// `OutOfRange` when it does not lie within the received bytes.
    pub fn read_u32(&self, offset: usize) -> (r: Result<u32>)
        ensures
            offset + 4 > self.bytes().len() <==> r is Err,
            r is Err ==> r == Err::<u32, Error>(Error::OutOfRange),
            r is Ok ==> r == Ok::<u32, Error>(u32_at(self.bytes(), offset as int)),
    {
        let n = self.buf.len();
        if offset > n || n - offset < 4 {
            return Err(Error::OutOfRange);
        }
        let b = &self.buf;
        Ok((b[offset] as u32) | ((b[offset + 1] as u32) << 8u32) | ((b[offset + 2] as u32) << 16u32)
            | ((b[offset + 3] as u32) << 24u32))
    }

    /// Reads the little-endian 64-bit value at `offset`, or fails with
    /// `OutOfRange` when it does not lie within the received bytes.
    pub fn read_u64(&self, offset: usize) -> (r: Result<u64>)
        ensures
            offset + 8 > self.bytes().len() <==> r is Err,
            r is Err ==> r == Err::<u64, Error>(Error::OutOfRange),
            r is Ok ==> r == Ok::<u64, Error>(u64_at(self.bytes(), offset as int)),
    {
        let n = self.buf.len();
        if offset > n || n - offset < 8 {
            return Err(Error::OutOfRange);
        }
        let b = &self.buf;
        let lo = (b[offset] as u32) | ((b[offset + 1] as u32) << 8u32) | ((b[offset + 2] as u32) << 16u32)
            | ((b[offset + 3] as u32) << 24u32);
        let hi = (b[offset + 4] as u32) | ((b[offset + 5] as u32) << 8u32) | ((b[offset + 6] as u32)
            << 16u32) | ((b[offset + 7] as u32) << 24u32);
        Ok((lo as u64) | ((hi as u64) << 32u64))
    }

    /// Classifies the received message by its header.
    pub fn decode_message_header(&self) -> (r: Option<MsgType>)
        ensures
            r == header_kind(self.bytes()),
    {
        let n = self.buf.len();
        if n < HEADER_SIZE {
            return None;
        }
        let size = match self.read_u32(0) {
            Ok(v) => v,
            Err(_) => return None,
        };
        let flags = match self.read_u32(12) {
            Ok(v) => v,
            Err(_) => return None,
        };
        if (size as usize) < HEADER_SIZE || (size as usize) > n {
            None
        } else if flags == 0 {
            Some(MsgType::Request)
        } else if (size as usize) < HEADER_WITH_ID_SIZE {
            None
        } else if flags == FLAG_EXPECTS_RESPONSE {
            Some(MsgType::RequestExpectsResponse)
        } else if flags == FLAG_IS_RESPONSE {
            Some(MsgType::Response)
        } else {
            None
        }
    }

    /// The transaction id of a message whose header carries one.
    pub fn get_message_id(&self) -> (r: u64)
        requires
            self.bytes().len() >= HEADER_WITH_ID_SIZE,
        ensures
            r == message_id(self.bytes()),
    {
        match self.read_u64(16) {
            Ok(v) => v,
            Err(_) => 0,
        }
    }

    fn take_handle(&mut self, index: usize) -> (r: Handle)
        requires
            index < old(self).handle_list().len(),
        ensures
            r == old(self).handle_list()[index as int],
            final(self).bytes() == old(self).bytes(),
            final(self).handle_list() == old(self).handle_list().update(
                index as int,
                final(self).handle_list()[index as int],
            ),
            !final(self).handle_list()[index as int].is_valid(),
    {
        let h = self.handles.remove(index);
        self.handles.insert(index, Handle::invalid());
        assert(self.handles@ =~= old(self).handles@.update(index as int, self.handles@[index as int]));
        h
    }

    /// Moves out the handle whose index the 4-byte slot at `offset` holds,
    /// leaving an invalid handle in its place.
    pub fn decode_handle(&mut self, offset: usize) -> (r: Result<Handle>)
        ensures
            final(self).bytes() == old(self).bytes(),
            match handle_slot_result(old(self).bytes(), old(self).handle_list(), offset as int) {
                Ok(i) => r == Ok::<Handle, Error>(old(self).handle_list()[i])
                    && final(self).handle_list() == old(self).handle_list().update(
                        i,
                        final(self).handle_list()[i],
                    ) && !final(self).handle_list()[i].is_valid(),
                Err(e) => r == Err::<Handle, Error>(e) && final(self).handle_list()
                    == old(self).handle_list(),
            },
    {
        let slot = match self.read_u32(offset) {
            Ok(v) => v,
            Err(e) => return Err(e),
        };
        if slot == NULL_HANDLE_SLOT {
            return Err(Error::NotNullable);
        }
        if slot as usize >= self.handles.len() || self.handles[slot as usize].raw() == INVALID_HANDLE_RAW {
            return Err(Error::InvalidHandle);
        }
        Ok(self.take_handle(slot as usize))
    }

    /// Like `decode_handle`, but a slot holding the absent marker decodes
    /// to `None` and leaves the handle list as it is.
    pub fn decode_nullable_handle(&mut self, offset: usize) -> (r: Result<Option<Handle>>)
        ensures
            final(self).bytes() == old(self).bytes(),
            offset + 4 <= old(self).bytes().len() && u32_at(old(self).bytes(), offset as int)
                == NULL_HANDLE_SLOT ==> r == Ok::<Option<Handle>, Error>(None) && final(self).handle_list()
                == old(self).handle_list(),
            !(offset + 4 <= old(self).bytes().len() && u32_at(old(self).bytes(), offset as int)
                == NULL_HANDLE_SLOT) ==> match handle_slot_result(
                old(self).bytes(),
                old(self).handle_list(),
                offset as int,
            ) {
                Ok(i) => r == Ok::<Option<Handle>, Error>(Some(old(self).handle_list()[i]))
                    && final(self).handle_list() == old(self).handle_list().update(
                        i,
                        final(self).handle_list()[i],
                    ) && !final(self).handle_list()[i].is_valid(),
                Err(e) => r == Err::<Option<Handle>, Error>(e) && final(self).handle_list()
                    == old(self).handle_list(),
            },
    {
        match self.read_u32(offset) {
            Ok(v) => {
                if v == NULL_HANDLE_SLOT {
                    return Ok(None);
                }
            },
            Err(e) => return Err(e),
        }
        match self.decode_handle(offset) {
            Ok(h) => Ok(Some(h)),
            Err(e) => Err(e),
        }
    }
}

} // verus!
