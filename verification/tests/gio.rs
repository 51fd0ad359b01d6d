use fg_uds::gio::{UnixSocketAddressType, UnixSocketStream};

#[test]
fn address_types_have_the_numbers_of_gio() {
    assert_eq!(UnixSocketAddressType::Invalid.to_glib(), 0);
    assert_eq!(UnixSocketAddressType::Anonymous.to_glib(), 1);
    assert_eq!(UnixSocketAddressType::Path.to_glib(), 2);
    assert_eq!(UnixSocketAddressType::Abstract.to_glib(), 3);
    assert_eq!(UnixSocketAddressType::AbstractPadded.to_glib(), 4);
}

#[test]
fn text_becomes_an_address() {
    let stream =
        UnixSocketStream::new_with_type("/tmp/caf\u{e9}".as_bytes(), UnixSocketAddressType::Path).unwrap();
    assert_eq!(stream.path, "/tmp/caf\u{e9}");
    assert_eq!(stream.path_len, 10);
    assert_eq!(stream.address_type, 2);
}

#[test]
fn empty_text_becomes_an_address() {
    let stream = UnixSocketStream::new_with_type(b"", UnixSocketAddressType::Anonymous).unwrap();
    assert_eq!((stream.path.as_str(), stream.path_len, stream.address_type), ("", 0, 1));
}

#[test]
fn bytes_that_are_not_text_have_no_address() {
    let typ = UnixSocketAddressType::Path;
    assert_eq!(UnixSocketStream::new_with_type(&[b'a', 0xff], typ), None);
    assert_eq!(UnixSocketStream::new_with_type(&[0xed, 0xa0, 0x80], typ), None);
}

#[test]
fn zero_byte_has_no_address() {
    assert_eq!(UnixSocketStream::new_with_type(b"\0name", UnixSocketAddressType::Abstract), None);
    assert_eq!(UnixSocketStream::new_with_type(b"a\0", UnixSocketAddressType::Path), None);
}
