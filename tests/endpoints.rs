use fidl::endpoints::{Channel, ClientEnd, ServerEnd};
use fidl::wire::{DecodeBuf, EncodeBuf, Handle};
use fidl::Error;

struct Echo;

fn envelope() -> EncodeBuf {
    let mut b = EncodeBuf::new_request(1);
    b.claim(16);
    b
}

fn received(b: EncodeBuf) -> DecodeBuf {
    let (bytes, handles) = b.into_content();
    let mut d = DecodeBuf::new();
    d.fill(&bytes, handles);
    d
}

#[test]
fn client_end_round_trip() {
    let mut b = envelope();
    ClientEnd::<Echo>::new(Channel::from_handle(Handle::from_raw(41))).encode(&mut b, 16, 4);
    assert_eq!(&b.get_bytes()[20..24], &[0, 0, 0, 0][..]);
    let mut d = received(b);
    let end = ClientEnd::<Echo>::decode(&mut d, 16, 4).unwrap();
    assert_eq!(end.as_handle_ref().raw(), 41);
    assert_eq!(end.into_handle().into_raw(), 41);
}

#[test]
fn server_end_round_trip() {
    let mut b = envelope();
    ServerEnd::<Echo>::new(Channel::from_handle(Handle::from_raw(9))).encode(&mut b, 16, 0);
    ServerEnd::<Echo>::from_handle(Handle::from_raw(10)).encode(&mut b, 20, 0);
    assert_eq!(&b.get_bytes()[16..24], &[0, 0, 0, 0, 1, 0, 0, 0][..]);
    let mut d = received(b);
    let second = ServerEnd::<Echo>::decode(&mut d, 20, 0).unwrap();
    let first = ServerEnd::<Echo>::decode(&mut d, 16, 0).unwrap();
    assert_eq!(second.as_handle_ref().raw(), 10);
    assert_eq!(first.into_channel().into_handle().into_raw(), 9);
}

#[test]
fn absent_endpoint_round_trip() {
    let mut b = envelope();
    ClientEnd::<Echo>::encode_nullable(None, &mut b, 16, 8);
    ServerEnd::<Echo>::encode_nullable(
        Some(ServerEnd::new(Channel::from_handle(Handle::from_raw(5)))),
        &mut b,
        16,
        12,
    );
    assert_eq!(&b.get_bytes()[24..32], &[0xff, 0xff, 0xff, 0xff, 0, 0, 0, 0][..]);
    assert_eq!(b.get_handles().len(), 1);
    let mut d = received(b);
    assert!(matches!(ClientEnd::<Echo>::decode_nullable(&mut d, 16, 8), Ok(None)));
    assert!(matches!(ClientEnd::<Echo>::decode(&mut d, 16, 8), Err(Error::NotNullable)));
    let present = ServerEnd::<Echo>::decode_nullable(&mut d, 16, 12).unwrap().unwrap();
    assert_eq!(present.into_handle().raw(), 5);
}

#[test]
fn endpoint_slot_size_and_null_value() {
    assert_eq!(ClientEnd::<Echo>::size(), 4);
    assert_eq!(ServerEnd::<Echo>::size(), 4);
    assert_eq!(ClientEnd::<Echo>::null_value(), 0xffff_ffff);
    assert_eq!(ServerEnd::<Echo>::null_value(), !0u32);
}

#[test]
fn decoding_past_the_end_is_out_of_range() {
    let mut d = received(envelope());
    assert!(matches!(ClientEnd::<Echo>::decode(&mut d, 28, 2), Err(Error::OutOfRange)));
    assert!(matches!(ServerEnd::<Echo>::decode_nullable(&mut d, 30, 0), Err(Error::OutOfRange)));
}

#[test]
fn overflowing_slot_position_is_out_of_range() {
    let mut b = envelope();
    ClientEnd::<Echo>::from_handle(Handle::from_raw(3)).encode(&mut b, 16, 0);
    let mut d = received(b);
    assert!(matches!(ClientEnd::<Echo>::decode(&mut d, usize::MAX, 17), Err(Error::OutOfRange)));
    assert!(matches!(ServerEnd::<Echo>::decode(&mut d, 17, usize::MAX), Err(Error::OutOfRange)));
    assert!(matches!(ClientEnd::<Echo>::decode_nullable(&mut d, usize::MAX, 1), Err(Error::OutOfRange)));
    assert!(matches!(ServerEnd::<Echo>::decode_nullable(&mut d, 2, usize::MAX), Err(Error::OutOfRange)));
    // The handle list was left as it was.
    assert_eq!(ClientEnd::<Echo>::decode(&mut d, 16, 0).unwrap().into_handle().raw(), 3);
}
