//! Typed endpoints of a connection: one side of a channel, tagged with the
//! interface that it speaks.
use vstd::prelude::*;

use core::marker::PhantomData;

use crate::error::{Error, Result};
use crate::wire::{
    handle_slot_result, lemma_put_u32_read, put_u32, u32_at, DecodeBuf, EncodeBuf, Handle, NULL_HANDLE_SLOT,
};

verus! {

/// One side of a bidirectional channel, owned by its handle.
#[derive(Debug)]
pub struct Channel {
    handle: Handle,
}

impl Channel {
    pub closed spec fn handle(&self) -> Handle {
        self.handle
    }

    pub fn from_handle(handle: Handle) -> (r: Channel)
        ensures
            r.handle() == handle,
    {
        Channel { handle }
    }

    pub fn into_handle(self) -> (r: Handle)
        ensures
            r == self.handle(),
    {
        self.handle
    }

    pub fn as_handle_ref(&self) -> (r: &Handle)
        ensures
            *r == self.handle(),
    {
        &self.handle
    }
}

/// Whether the slot at `off` lies within `s` and holds the absent marker.
pub open spec fn is_null_slot(s: Seq<u8>, off: int) -> bool {
    off + 4 <= s.len() && u32_at(s, off) == NULL_HANDLE_SLOT
}

/// Encoding a valid handle into a slot and decoding that slot from the
/// same bytes and handle list yields that very handle; an absent endpoint
/// leaves the all-ones pattern in its slot, adds no handle, and decodes as
/// absent.
pub proof fn lemma_endpoint_round_trip(bytes: Seq<u8>, handles: Seq<Handle>, off: int, h: Handle)
    requires
        0 <= off,
        off + 4 <= bytes.len(),
        handles.len() < NULL_HANDLE_SLOT,
        h.is_valid(),
    ensures
        handle_slot_result(put_u32(bytes, off, handles.len() as u32), handles.push(h), off)
            == Ok::<int, Error>(handles.len() as int),
        handles.push(h)[handles.len() as int] == h,
        !is_null_slot(put_u32(bytes, off, handles.len() as u32), off),
        is_null_slot(put_u32(bytes, off, NULL_HANDLE_SLOT), off),
        u32_at(put_u32(bytes, off, NULL_HANDLE_SLOT), off) == 0xffff_ffffu32,
{
    lemma_put_u32_read(bytes, off, handles.len() as u32);
    lemma_put_u32_read(bytes, off, NULL_HANDLE_SLOT);
}

/// The position `base + offset`, or `None` when it overflows; it then lies
/// past every received byte.
fn slot_index(buf: &DecodeBuf, base: usize, offset: usize) -> (r: Option<usize>)
    ensures
        r is Some ==> r->Some_0 == slot_offset(base, offset),
        r is None ==> slot_offset(base, offset) + 4 > buf.bytes().len(),
{
    match base.checked_add(offset) {
        Some(at) => Some(at),
        None => {
            let received = buf.get_bytes().len();
            assert(received < slot_offset(base, offset));
            None
        },
    }
}

/// Size of the wire slot of an endpoint.
pub const ENDPOINT_SLOT_SIZE: usize = 4;

/// Where the slot of an endpoint lies within a message.
pub open spec fn slot_offset(base: usize, offset: usize) -> int {
    base + offset
}

/// The client end of a connection that speaks interface `T`.
pub struct ClientEnd<T> {
    inner: Channel,
    phantom: PhantomData<T>,
}

impl<T> ClientEnd<T> {
    pub closed spec fn channel(&self) -> Channel {
        self.inner
    }

    pub fn new(inner: Channel) -> (r: Self)
        ensures
            r.channel() == inner,
    {
        ClientEnd { inner, phantom: PhantomData }
    }

    pub fn as_handle_ref(&self) -> (r: &Handle)
        ensures
            *r == self.channel().handle(),
    {
        self.inner.as_handle_ref()
    }

    pub fn into_handle(self) -> (r: Handle)
        ensures
            r == self.channel().handle(),
    {
        self.inner.into_handle()
    }

    pub fn from_handle(handle: Handle) -> (r: Self)
        ensures
            r.channel().handle() == handle,
    {
        ClientEnd { inner: Channel::from_handle(handle), phantom: PhantomData }
    }

    /// Bytes that an endpoint takes on the wire.
    pub fn size() -> (r: usize)
        ensures
            r == ENDPOINT_SLOT_SIZE,
    {
        ENDPOINT_SLOT_SIZE
    }

    /// The slot value of an absent endpoint.
    pub fn null_value() -> (r: u32)
        ensures
            r == NULL_HANDLE_SLOT,
    {
        NULL_HANDLE_SLOT
    }

    /// Moves the handle into `buf` and writes its index at `base + offset`.
    pub fn encode(self, buf: &mut EncodeBuf, base: usize, offset: usize)
        requires
            base + offset <= usize::MAX,
            slot_offset(base, offset) + 4 <= old(buf).bytes().len(),
            old(buf).handle_list().len() < NULL_HANDLE_SLOT,
        ensures
            final(buf).handle_list() == old(buf).handle_list().push(self.channel().handle()),
            final(buf).bytes() == put_u32(
                old(buf).bytes(),
                slot_offset(base, offset),
                old(buf).handle_list().len() as u32,
            ),
    {
        buf.encode_handle(self.into_handle(), base + offset);
    }

    /// Encodes a present endpoint as `encode` does, an absent one as the
    /// absent marker with no handle.
    pub fn encode_nullable(value: Option<Self>, buf: &mut EncodeBuf, base: usize, offset: usize)
        requires
            base + offset <= usize::MAX,
            slot_offset(base, offset) + 4 <= old(buf).bytes().len(),
            old(buf).handle_list().len() < NULL_HANDLE_SLOT,
        ensures
            value is None ==> final(buf).handle_list() == old(buf).handle_list()
                && final(buf).bytes() == put_u32(old(buf).bytes(), slot_offset(base, offset), NULL_HANDLE_SLOT),
            value is Some ==> final(buf).handle_list() == old(buf).handle_list().push(
                value->Some_0.channel().handle(),
            ) && final(buf).bytes() == put_u32(
                old(buf).bytes(),
                slot_offset(base, offset),
                old(buf).handle_list().len() as u32,
            ),
    {
        match value {
            Some(end) => end.encode(buf, base, offset),
            None => buf.encode_null_handle(base + offset),
        }
    }

    /// Moves the handle whose index lies at `base + offset` out of `buf`.
    pub fn decode(buf: &mut DecodeBuf, base: usize, offset: usize) -> (r: Result<Self>)
        ensures
            final(buf).bytes() == old(buf).bytes(),
            match handle_slot_result(old(buf).bytes(), old(buf).handle_list(), slot_offset(base, offset)) {
                Ok(i) => r is Ok && r->Ok_0.channel().handle() == old(buf).handle_list()[i]
                    && final(buf).handle_list() == old(buf).handle_list().update(i, final(buf).handle_list()[i])
                    && !final(buf).handle_list()[i].is_valid(),
                Err(e) => r is Err && r->Err_0 == e && final(buf).handle_list() == old(buf).handle_list(),
            },
    {
        let at = match slot_index(buf, base, offset) {
            Some(at) => at,
            None => return Err(Error::OutOfRange),
        };
        match buf.decode_handle(at) {
            Ok(h) => Ok(ClientEnd::from_handle(h)),
            Err(e) => Err(e),
        }
    }

    /// Like `decode`, but a slot holding the absent marker decodes to
    /// `None` and takes no handle.
    pub fn decode_nullable(buf: &mut DecodeBuf, base: usize, offset: usize) -> (r: Result<Option<Self>>)
        ensures
            final(buf).bytes() == old(buf).bytes(),
            is_null_slot(old(buf).bytes(), slot_offset(base, offset)) ==> r is Ok && r->Ok_0 is None
                && final(buf).handle_list() == old(buf).handle_list(),
            !is_null_slot(old(buf).bytes(), slot_offset(base, offset)) ==> match handle_slot_result(
                old(buf).bytes(),
                old(buf).handle_list(),
                slot_offset(base, offset),
            ) {
                Ok(i) => r is Ok && r->Ok_0 is Some && r->Ok_0->Some_0.channel().handle() == old(buf).handle_list()[i]
                    && final(buf).handle_list() == old(buf).handle_list().update(i, final(buf).handle_list()[i])
                    && !final(buf).handle_list()[i].is_valid(),
                Err(e) => r is Err && r->Err_0 == e && final(buf).handle_list() == old(buf).handle_list(),
            },
    {
        let at = match slot_index(buf, base, offset) {
            Some(at) => at,
            None => return Err(Error::OutOfRange),
        };
        match buf.decode_nullable_handle(at) {
            Ok(Some(h)) => Ok(Some(ClientEnd::from_handle(h))),
            Ok(None) => Ok(None),
            Err(e) => Err(e),
        }
    }
}

/// The server end of a connection that speaks interface `T`.
pub struct ServerEnd<T> {
    inner: Channel,
    phantom: PhantomData<T>,
}

impl<T> ServerEnd<T> {
    pub closed spec fn channel(&self) -> Channel {
        self.inner
    }

    pub fn new(inner: Channel) -> (r: Self)
        ensures
            r.channel() == inner,
    {
        ServerEnd { inner, phantom: PhantomData }
    }

    /// The plain channel that this end wraps.
    pub fn into_channel(self) -> (r: Channel)
        ensures
            r == self.channel(),
    {
        self.inner
    }

    pub fn as_handle_ref(&self) -> (r: &Handle)
        ensures
            *r == self.channel().handle(),
    {
        self.inner.as_handle_ref()
    }

    pub fn into_handle(self) -> (r: Handle)
        ensures
            r == self.channel().handle(),
    {
        self.inner.into_handle()
    }

    pub fn from_handle(handle: Handle) -> (r: Self)
        ensures
            r.channel().handle() == handle,
    {
        ServerEnd { inner: Channel::from_handle(handle), phantom: PhantomData }
    }

    /// Bytes that an endpoint takes on the wire.
    pub fn size() -> (r: usize)
        ensures
            r == ENDPOINT_SLOT_SIZE,
    {
        ENDPOINT_SLOT_SIZE
    }

    /// The slot value of an absent endpoint.
    pub fn null_value() -> (r: u32)
        ensures
            r == NULL_HANDLE_SLOT,
    {
        NULL_HANDLE_SLOT
    }

    /// Moves the handle into `buf` and writes its index at `base + offset`.
    pub fn encode(self, buf: &mut EncodeBuf, base: usize, offset: usize)
        requires
            base + offset <= usize::MAX,
            slot_offset(base, offset) + 4 <= old(buf).bytes().len(),
            old(buf).handle_list().len() < NULL_HANDLE_SLOT,
        ensures
            final(buf).handle_list() == old(buf).handle_list().push(self.channel().handle()),
            final(buf).bytes() == put_u32(
                old(buf).bytes(),
                slot_offset(base, offset),
                old(buf).handle_list().len() as u32,
            ),
    {
        buf.encode_handle(self.into_handle(), base + offset);
    }

    /// Encodes a present endpoint as `encode` does, an absent one as the
    /// absent marker with no handle.
    pub fn encode_nullable(value: Option<Self>, buf: &mut EncodeBuf, base: usize, offset: usize)
        requires
            base + offset <= usize::MAX,
            slot_offset(base, offset) + 4 <= old(buf).bytes().len(),
            old(buf).handle_list().len() < NULL_HANDLE_SLOT,
        ensures
            value is None ==> final(buf).handle_list() == old(buf).handle_list()
                && final(buf).bytes() == put_u32(old(buf).bytes(), slot_offset(base, offset), NULL_HANDLE_SLOT),
            value is Some ==> final(buf).handle_list() == old(buf).handle_list().push(
                value->Some_0.channel().handle(),
            ) && final(buf).bytes() == put_u32(
                old(buf).bytes(),
                slot_offset(base, offset),
                old(buf).handle_list().len() as u32,
            ),
    {
        match value {
            Some(end) => end.encode(buf, base, offset),
            None => buf.encode_null_handle(base + offset),
        }
    }

    /// Moves the handle whose index lies at `base + offset` out of `buf`.
    pub fn decode(buf: &mut DecodeBuf, base: usize, offset: usize) -> (r: Result<Self>)
        ensures
            final(buf).bytes() == old(buf).bytes(),
            match handle_slot_result(old(buf).bytes(), old(buf).handle_list(), slot_offset(base, offset)) {
                Ok(i) => r is Ok && r->Ok_0.channel().handle() == old(buf).handle_list()[i]
                    && final(buf).handle_list() == old(buf).handle_list().update(i, final(buf).handle_list()[i])
                    && !final(buf).handle_list()[i].is_valid(),
                Err(e) => r is Err && r->Err_0 == e && final(buf).handle_list() == old(buf).handle_list(),
            },
    {
        let at = match slot_index(buf, base, offset) {
            Some(at) => at,
            None => return Err(Error::OutOfRange),
        };
        match buf.decode_handle(at) {
            Ok(h) => Ok(ServerEnd::from_handle(h)),
            Err(e) => Err(e),
        }
    }

    /// Like `decode`, but a slot holding the absent marker decodes to
    /// `None` and takes no handle.
    pub fn decode_nullable(buf: &mut DecodeBuf, base: usize, offset: usize) -> (r: Result<Option<Self>>)
        ensures
            final(buf).bytes() == old(buf).bytes(),
            is_null_slot(old(buf).bytes(), slot_offset(base, offset)) ==> r is Ok && r->Ok_0 is None
                && final(buf).handle_list() == old(buf).handle_list(),
            !is_null_slot(old(buf).bytes(), slot_offset(base, offset)) ==> match handle_slot_result(
                old(buf).bytes(),
                old(buf).handle_list(),
                slot_offset(base, offset),
            ) {
                Ok(i) => r is Ok && r->Ok_0 is Some && r->Ok_0->Some_0.channel().handle() == old(buf).handle_list()[i]
                    && final(buf).handle_list() == old(buf).handle_list().update(i, final(buf).handle_list()[i])
                    && !final(buf).handle_list()[i].is_valid(),
                Err(e) => r is Err && r->Err_0 == e && final(buf).handle_list() == old(buf).handle_list(),
            },
    {
        let at = match slot_index(buf, base, offset) {
            Some(at) => at,
            None => return Err(Error::OutOfRange),
        };
        match buf.decode_nullable_handle(at) {
            Ok(Some(h)) => Ok(Some(ServerEnd::from_handle(h))),
            Ok(None) => Ok(None),
            Err(e) => Err(e),
        }
    }
}

} // verus!
