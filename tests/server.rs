use fidl::server::{ServerState, Stub};
use fidl::wire::{DecodeBuf, EncodeBuf};
use fidl::{Error, Result};

struct DummyDispatcher {
    one_way_calls: usize,
}

impl Stub for DummyDispatcher {
    type Pending = Result<EncodeBuf>;

    fn dispatch_with_response(&mut self, _request: &mut DecodeBuf) -> Result<EncodeBuf> {
        Ok(EncodeBuf::new_response(43))
    }

    fn dispatch(&mut self, request: &mut DecodeBuf) -> Result<()> {
        let b = request.get_bytes();
        let ordinal = u32::from_le_bytes([b[8], b[9], b[10], b[11]]);
        assert_eq!(ordinal, 42);
        self.one_way_calls += 1;
        Ok(())
    }
}

/// Answers each two-way request with a response whose ordinal is the
/// request's ordinal plus 100.
struct Echo;

impl Stub for Echo {
    type Pending = Result<EncodeBuf>;

    fn dispatch_with_response(&mut self, request: &mut DecodeBuf) -> Result<EncodeBuf> {
        let ordinal = request.read_u32(8)?;
        Ok(EncodeBuf::new_response(ordinal + 100))
    }

    fn dispatch(&mut self, _request: &mut DecodeBuf) -> Result<()> {
        Err(Error::UnknownOrdinal)
    }
}

fn server() -> ServerState<DummyDispatcher> {
    ServerState::new(DummyDispatcher { one_way_calls: 0 })
}

#[test]
fn simple_server() {
    let req = EncodeBuf::new_request(42);
    let mut state = server();
    state.receive(req.get_bytes(), Vec::new());
    let r = state.handle_request();
    assert!(matches!(r, Ok(None)));
    assert_eq!(state.stub().one_way_calls, 1);
    assert_eq!(state.num_pending(), 0);
}

#[test]
fn simple_response_server() {
    let req = EncodeBuf::new_request_expecting_response(43);
    let mut state = server();
    state.receive(req.get_bytes(), Vec::new());
    let pending = match state.handle_request() {
        Ok(Some(p)) => p,
        _ => panic!("two-way request was not dispatched"),
    };
    assert_eq!(state.num_pending(), 1);
    let out = state.complete(0, pending).unwrap();
    assert_eq!(state.num_pending(), 0);
    let bytes = &[24, 0, 0, 0, 1, 0, 0, 0, 43, 0, 0, 0, 2, 0, 0, 0, 0, 0, 0, 0, 0, 0, 0, 0];
    println!("{:?}", out.get_bytes());
    assert_eq!(&bytes[..], out.get_bytes());
    assert_eq!(state.stub().one_way_calls, 0);
}

fn two_way_request(ordinal: u32, id: u64) -> EncodeBuf {
    let mut req = EncodeBuf::new_request_expecting_response(ordinal);
    req.set_message_id(id);
    req
}

#[test]
fn later_response_may_be_sent_first() {
    let mut state = ServerState::new(Echo);
    let mut futures = Vec::new();
    for (ordinal, id) in [(5u32, 1u64), (6u32, 2u64)] {
        let req = two_way_request(ordinal, id);
        state.receive(req.get_bytes(), Vec::new());
        futures.push(state.handle_request().unwrap().unwrap());
    }
    assert_eq!(state.num_pending(), 2);
    assert_eq!(state.pending_id(0), 1);
    assert_eq!(state.pending_id(1), 2);

    // The dispatch of request 2 resolves first.
    let second = futures.remove(1);
    let out2 = state.complete(1, second).unwrap();
    let first = futures.remove(0);
    let out1 = state.complete(0, first).unwrap();

    let mut check = DecodeBuf::new();
    check.fill(out2.get_bytes(), Vec::new());
    assert_eq!(check.get_message_id(), 2);
    assert_eq!(check.read_u32(8).unwrap(), 106);
    check.fill(out1.get_bytes(), Vec::new());
    assert_eq!(check.get_message_id(), 1);
    assert_eq!(check.read_u32(8).unwrap(), 105);
    assert_eq!(state.num_pending(), 0);
}

#[test]
fn one_way_request_records_nothing() {
    let mut state = server();
    for _ in 0..3 {
        let req = EncodeBuf::new_request(42);
        state.receive(req.get_bytes(), Vec::new());
        assert!(matches!(state.handle_request(), Ok(None)));
    }
    assert_eq!(state.num_pending(), 0);
    assert_eq!(state.stub().one_way_calls, 3);
}

#[test]
fn one_way_dispatch_error_is_returned() {
    let mut state = ServerState::new(Echo);
    let req = EncodeBuf::new_request(7);
    state.receive(req.get_bytes(), Vec::new());
    assert!(matches!(state.handle_request(), Err(Error::UnknownOrdinal)));
    assert_eq!(state.num_pending(), 0);
}

#[test]
fn response_header_is_rejected() {
    let mut state = server();
    let msg = EncodeBuf::new_response(9);
    state.receive(msg.get_bytes(), Vec::new());
    assert!(matches!(state.handle_request(), Err(Error::InvalidHeader)));
    assert_eq!(state.num_pending(), 0);
    assert_eq!(state.stub().one_way_calls, 0);
}

#[test]
fn truncated_header_is_rejected() {
    let mut state = server();
    let req = EncodeBuf::new_request(42);
    state.receive(&req.get_bytes()[..12], Vec::new());
    assert!(matches!(state.handle_request(), Err(Error::InvalidHeader)));
    state.receive(&[], Vec::new());
    assert!(matches!(state.handle_request(), Err(Error::InvalidHeader)));
    assert_eq!(state.stub().one_way_calls, 0);
}

#[test]
fn failed_dispatch_is_removed_and_reported() {
    let mut state = server();
    let req = two_way_request(43, 8);
    state.receive(req.get_bytes(), Vec::new());
    let _ = state.handle_request().unwrap().unwrap();
    let r = state.complete(0, Err(Error::RemoteClosed));
    assert!(matches!(r, Err(Error::RemoteClosed)));
    assert_eq!(state.num_pending(), 0);
}

#[test]
fn short_response_is_invalid() {
    let mut state = server();
    let req = two_way_request(43, 8);
    state.receive(req.get_bytes(), Vec::new());
    let _ = state.handle_request().unwrap().unwrap();
    let r = state.complete(0, Ok(EncodeBuf::new_request(1)));
    assert!(matches!(r, Err(Error::Invalid)));
    assert_eq!(state.num_pending(), 0);
}

/// Takes the handle that a one-way request carries in its first body slot.
struct Taker {
    taken: Vec<u32>,
}

impl Stub for Taker {
    type Pending = Result<EncodeBuf>;

    fn dispatch_with_response(&mut self, _request: &mut DecodeBuf) -> Result<EncodeBuf> {
        Err(Error::UnknownOrdinal)
    }

    fn dispatch(&mut self, request: &mut DecodeBuf) -> Result<()> {
        let h = request.decode_handle(16)?;
        self.taken.push(h.into_raw());
        Ok(())
    }
}

#[test]
fn received_handles_reach_the_stub() {
    let mut req = EncodeBuf::new_request(3);
    req.claim(4);
    req.encode_handle(fidl::wire::Handle::from_raw(61), 16);
    let (bytes, handles) = req.into_content();
    let mut state = ServerState::new(Taker { taken: Vec::new() });
    state.receive(&bytes, handles);
    assert!(matches!(state.handle_request(), Ok(None)));
    assert_eq!(state.stub().taken, vec![61]);
}
