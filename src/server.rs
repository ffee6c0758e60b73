//! The decisions of a server for a fidl interface: how each received
//! message is routed to the stub, which transaction ids await a response,
//! and how a finished response is matched back to its request. Running the
//! channel and the pending responses is left to the caller.
use vstd::prelude::*;

use crate::error::{Error, Result};
use crate::wire::{
    header_kind, lemma_header_round_trip, lemma_put_u64_read, message_id, put_u64, DecodeBuf, EncodeBuf, Handle, MsgType,
    HEADER_WITH_ID_SIZE,
};

verus! {

/// What a service implementation provides: a synchronous one-way dispatch,
/// and a two-way dispatch whose result is a pending response that
/// eventually resolves to an `EncodeBuf` or an error.
pub trait Stub {
    type Pending;

    fn dispatch_with_response(&mut self, request: &mut DecodeBuf) -> Self::Pending;

    fn dispatch(&mut self, request: &mut DecodeBuf) -> Result<()>;
}

/// The state of a server: its stub, the reused receive buffer, and the
/// transaction ids of the requests whose responses are still pending, in
/// the order they were recorded. `dispatched` records, for each call into
/// the stub, the kind of message and the bytes of the buffer handed to it.
pub struct ServerState<S: Stub> {
    stub: S,
    buf: DecodeBuf,
    pending: Vec<u64>,
    dispatched: Ghost<Seq<(MsgType, Seq<u8>)>>,
}

impl<S: Stub> ServerState<S> {
    pub closed spec fn pending_ids(&self) -> Seq<u64> {
        self.pending@
    }

    pub closed spec fn stub_spec(&self) -> S {
        self.stub
    }

    pub closed spec fn request_bytes(&self) -> Seq<u8> {
        self.buf.bytes()
    }

    pub closed spec fn request_handles(&self) -> Seq<Handle> {
        self.buf.handle_list()
    }

    /// The messages handed to the stub so far, oldest first: the kind of
    /// dispatch and the bytes of the request buffer at the call.
    pub closed spec fn dispatch_log(&self) -> Seq<(MsgType, Seq<u8>)> {
        self.dispatched@
    }

    pub fn new(stub: S) -> (r: Self)
        ensures
            r.stub_spec() == stub,
            r.pending_ids() == Seq::<u64>::empty(),
            r.request_bytes() == Seq::<u8>::empty(),
            r.request_handles() == Seq::<Handle>::empty(),
            r.dispatch_log() == Seq::<(MsgType, Seq<u8>)>::empty(),
    {
        ServerState {
            stub,
            buf: DecodeBuf::new(),
            pending: Vec::new(),
            dispatched: Ghost(Seq::empty()),
        }
    }

    /// The service implementation.
    pub fn stub(&self) -> (r: &S)
        ensures
            *r == self.stub_spec(),
    {
        &self.stub
    }

    /// Number of responses still pending.
    pub fn num_pending(&self) -> (r: usize)
        ensures
            r == self.pending_ids().len(),
    {
        self.pending.len()
    }

    /// Transaction id of the pending response at `index`.
    pub fn pending_id(&self, index: usize) -> (r: u64)
        requires
            index < self.pending_ids().len(),
        ensures
            r == self.pending_ids()[index as int],
    {
        self.pending[index]
    }

    /// Takes in a received message, overwriting the previous one.
    pub fn receive(&mut self, bytes: &[u8], handles: Vec<Handle>)
        ensures
            final(self).request_bytes() == bytes@,
            final(self).request_handles() == handles@,
            final(self).pending_ids() == old(self).pending_ids(),
            final(self).stub_spec() == old(self).stub_spec(),
            final(self).dispatch_log() == old(self).dispatch_log(),
    {
        self.buf.fill(bytes, handles);
    }

    /// Routes the received message. A one-way request goes to the stub's
    /// synchronous dispatch and yields nothing to send; a request that
    /// expects a response goes to the two-way dispatch, its transaction id
    /// is recorded last among the pending ones, and the pending response is
    /// handed back to be kept at that same position. Either dispatch is
    /// handed the received buffer as it stands. Any other header fails with
    /// `InvalidHeader` and leaves the stub and the buffer untouched.
    pub fn handle_request(&mut self) -> (r: Result<Option<S::Pending>>)
        ensures
            match header_kind(old(self).request_bytes()) {
                Some(MsgType::Request) => final(self).pending_ids() == old(self).pending_ids()
                    && final(self).dispatch_log() == old(self).dispatch_log().push(
                        (MsgType::Request, old(self).request_bytes()),
                    ) && (r is Ok ==> r->Ok_0 is None),
                Some(MsgType::RequestExpectsResponse) => final(self).pending_ids()
                    == old(self).pending_ids().push(message_id(old(self).request_bytes()))
                    && final(self).dispatch_log() == old(self).dispatch_log().push(
                        (MsgType::RequestExpectsResponse, old(self).request_bytes()),
                    ) && r is Ok && r->Ok_0 is Some,
                _ => final(self).pending_ids() == old(self).pending_ids()
                    && final(self).dispatch_log() == old(self).dispatch_log()
                    && final(self).stub_spec() == old(self).stub_spec()
                    && final(self).request_bytes() == old(self).request_bytes()
                    && final(self).request_handles() == old(self).request_handles()
                    && r is Err && r->Err_0 == Error::InvalidHeader,
            },
    {
        match self.buf.decode_message_header() {
            Some(MsgType::Request) => {
                self.dispatched = Ghost(self.dispatched@.push((MsgType::Request, self.buf.bytes())));
                match self.stub.dispatch(&mut self.buf) {
                    Ok(()) => Ok(None),
                    Err(e) => Err(e),
                }
            },
            Some(MsgType::RequestExpectsResponse) => {
                let id = self.buf.get_message_id();
                self.dispatched = Ghost(
                    self.dispatched@.push((MsgType::RequestExpectsResponse, self.buf.bytes())),
                );
                let pending = self.stub.dispatch_with_response(&mut self.buf);
                self.pending.push(id);
                Ok(Some(pending))
            },
            _ => Err(Error::InvalidHeader),
        }
    }

    /// The pending response at `index` has resolved to `result`: its entry
    /// is removed, and a response is stamped with the transaction id of the
    /// request it answers, ready to be sent. A failed dispatch hands its
    /// error on; a response too short to carry an id fails with `Invalid`.
    pub fn complete(&mut self, index: usize, result: Result<EncodeBuf>) -> (r: Result<EncodeBuf>)
        requires
            index < old(self).pending_ids().len(),
        ensures
            final(self).pending_ids() == old(self).pending_ids().remove(index as int),
            final(self).request_bytes() == old(self).request_bytes(),
            final(self).request_handles() == old(self).request_handles(),
            final(self).stub_spec() == old(self).stub_spec(),
            final(self).dispatch_log() == old(self).dispatch_log(),
            match result {
                Ok(b) => if b.bytes().len() >= HEADER_WITH_ID_SIZE {
                    r is Ok && r->Ok_0.bytes() == put_u64(b.bytes(), 16, old(self).pending_ids()[index as int])
                        && r->Ok_0.handle_list() == b.handle_list()
                } else {
                    r is Err && r->Err_0 == Error::Invalid
                },
                Err(e) => r is Err && r->Err_0 == e,
            },
    {
        let id = self.pending.remove(index);
        match result {
            Ok(mut b) => {
                if b.get_bytes().len() < HEADER_WITH_ID_SIZE {
                    return Err(Error::Invalid);
                }
                b.set_message_id(id);
                Ok(b)
            },
            Err(e) => Err(e),
        }
    }
}

/// A response stamped with the transaction id of a request that expects
/// one carries exactly that id, and stays the kind of message it was.
pub proof fn lemma_response_matches_request(request: Seq<u8>, response: Seq<u8>)
    requires
        header_kind(request) == Some(MsgType::RequestExpectsResponse),
        response.len() >= HEADER_WITH_ID_SIZE,
    ensures
        message_id(put_u64(response, 16, message_id(request))) == message_id(request),
        header_kind(put_u64(response, 16, message_id(request))) == header_kind(response),
        put_u64(response, 16, message_id(request)).len() == response.len(),
{
    lemma_put_u64_read(response, 16, message_id(request));
    lemma_header_round_trip(0, message_id(request));
}

/// Pending responses may complete in any order: once the entry at `i`
/// is removed, every other request's transaction id is still recorded, at
/// its position shifted past `i`, so its own response is stamped with it.
pub proof fn lemma_completion_keeps_other_ids(pending: Seq<u64>, i: int, j: int)
    requires
        0 <= i < pending.len(),
        0 <= j < pending.len(),
        j != i,
    ensures
        pending.remove(i)[if j < i { j } else { j - 1 }] == pending[j],
        pending.remove(i).len() == pending.len() - 1,
{
}

} // verus!
