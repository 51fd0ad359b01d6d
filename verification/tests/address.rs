use fg_uds::address::{self, sun_path_offset};
use fg_uds::error::{cvt, ErrorKind, PathError, StreamError};

fn bytes_of(addr: &libc::sockaddr_un) -> Vec<u8> {
    addr.sun_path.iter().map(|c| *c as u8).collect()
}

#[test]
fn pathname_is_copied_and_ended_by_zero() {
    let (addr, len) = address::sockaddr_un(b"/tmp/named.socket").unwrap();
    assert_eq!(addr.sun_family as i32, libc::AF_UNIX);
    let bytes = bytes_of(&addr);
    assert_eq!(&bytes[..17], b"/tmp/named.socket");
    assert!(bytes[17..].iter().all(|b| *b == 0));
    assert_eq!(len, 2 + 17 + 1);
}

#[test]
fn abstract_name_counts_without_an_end() {
    let (addr, len) = address::sockaddr_un(b"\0named-socket").unwrap();
    assert_eq!(&bytes_of(&addr)[..14], b"\0named-socket\0");
    assert_eq!(len, 2 + 13);
}

#[test]
fn empty_path_is_the_bare_family() {
    let (addr, len) = address::sockaddr_un(b"").unwrap();
    assert_eq!(addr.sun_family, 1);
    assert!(bytes_of(&addr).iter().all(|b| *b == 0));
    assert_eq!(len, 2);
}

#[test]
fn high_bytes_survive() {
    let (addr, len) = address::sockaddr_un(&[0xff, 0x80, 0x7f]).unwrap();
    assert_eq!(&bytes_of(&addr)[..4], &[0xff, 0x80, 0x7f, 0]);
    assert_eq!(len, 6);
}

#[test]
fn longest_path_leaves_one_byte() {
    let path = vec![b'a'; 107];
    let (addr, len) = address::sockaddr_un(&path).unwrap();
    assert_eq!(bytes_of(&addr)[106], b'a');
    assert_eq!(bytes_of(&addr)[107], 0);
    assert_eq!(len as usize, std::mem::size_of::<libc::sockaddr_un>());
}

#[test]
fn path_that_fills_the_room_is_refused() {
    for n in [108, 109, 200] {
        let error = address::sockaddr_un(&vec![b'a'; n]).unwrap_err();
        assert_eq!(error, PathError::FillsRoom);
        assert_eq!(error.message(), "path must be shorter than SUN_LEN");
        assert_eq!(error.kind(), ErrorKind::InvalidInput);
    }
}

#[test]
fn abstract_name_may_fill_the_room() {
    let mut path = vec![b'n'; 108];
    path[0] = 0;
    for n in [107, 108] {
        let (addr, len) = address::sockaddr_un(&path[..n]).unwrap();
        assert_eq!(addr.sun_family as i32, libc::AF_UNIX);
        assert_eq!(&bytes_of(&addr)[..n], &path[..n]);
        assert_eq!(len as usize, 2 + n);
    }
    let (addr, len) = address::sockaddr_un(&vec![0; 108]).unwrap();
    assert_eq!(bytes_of(&addr), vec![0; 108]);
    assert_eq!(len, 110);
}

#[test]
fn abstract_name_that_is_too_long_is_refused() {
    for n in [109, 110, 200] {
        let error = address::sockaddr_un(&vec![0; n]).unwrap_err();
        assert_eq!(error, PathError::LongerThanRoom);
        assert_eq!(error.message(), "path must be no longer than SUN_LEN");
        assert_eq!(error.kind(), ErrorKind::InvalidInput);
    }
}

#[test]
fn different_paths_have_different_addresses() {
    let a = address::sockaddr_un(b"a").unwrap();
    let b = address::sockaddr_un(b"a\0").unwrap();
    assert_eq!(bytes_of(&a.0), bytes_of(&b.0));
    assert_ne!(a.1, b.1);
}

#[test]
fn path_begins_behind_the_family() {
    let addr = address::sockaddr_un(b"").unwrap().0;
    assert_eq!(sun_path_offset(), std::mem::size_of_val(&addr) - addr.sun_path.len());
}

#[test]
fn minus_one_is_a_failure() {
    assert_eq!(cvt(-1, libc::EACCES), Err(libc::EACCES));
    assert_eq!(cvt(0, libc::EACCES), Ok(0));
    assert_eq!(cvt(7, 0), Ok(7));
    assert_eq!(cvt(-2, 5), Ok(-2));
}

#[test]
fn closed_stream_is_an_unexpected_end() {
    assert_eq!(StreamError::<()>::Closed.kind(), ErrorKind::UnexpectedEof);
}
