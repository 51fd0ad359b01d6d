use fg_uds::platform::Platform;
use fg_uds::socket::{NewSocket, NewSocketStage, Socket, SocketCall, Step};

fn platform() -> Platform {
    Platform {
        sock_stream: 1,
        sock_cloexec: 0x80000,
        sock_nonblock: 0x800,
        einval: 22,
        einprogress: 115,
        fioclex: 0x5451,
        fionbio: 0x5421,
    }
}

#[test]
fn new_socket_is_made_for_the_host() {
    let making = Socket::new(libc::SOCK_STREAM);
    assert_eq!(making.platform.sock_stream, libc::SOCK_STREAM);
    assert_eq!(making.platform.sock_cloexec, libc::SOCK_CLOEXEC);
    assert_eq!(making.platform.sock_nonblock, libc::SOCK_NONBLOCK);
    assert_eq!(making.platform.einval, libc::EINVAL);
    assert_eq!(making.platform.einprogress, libc::EINPROGRESS);
    assert_eq!(making.platform.fioclex, libc::FIOCLEX as u64);
    assert_eq!(making.platform.fionbio, libc::FIONBIO as u64);
    match making.call() {
        SocketCall::Socket { domain, ty, protocol } => {
            assert_eq!(domain, libc::AF_UNIX);
            assert_eq!(ty, libc::SOCK_STREAM | libc::SOCK_CLOEXEC | libc::SOCK_NONBLOCK);
            assert_eq!(protocol, 0);
        }
        call => panic!("{:?}", call),
    }
}

#[test]
fn socket_begins_with_the_constants_it_is_given() {
    let making = NewSocket::begin(platform(), 5);
    assert_eq!(making.platform, platform());
    assert_eq!(making.stage, NewSocketStage::Atomic { ty: 5 });
    let making = NewSocket::begin_fallback(platform(), 5);
    assert_eq!(making.platform, platform());
    assert_eq!(making.stage, NewSocketStage::Plain { ty: 5 });
}

#[test]
fn flags_are_joined() {
    let making = NewSocket::begin(platform(), 1);
    assert!(matches!(making.call(), SocketCall::Socket { domain: 1, ty: 0x80801, protocol: 0 }));
}

#[test]
fn first_reply_makes_the_socket() {
    let making = NewSocket { platform: platform(), stage: NewSocketStage::Atomic { ty: 1 } };
    assert_eq!(making.reply(5, 0), Step::Done(Ok(Socket { fd: 5 })));
}

#[test]
fn first_failure_is_final_unless_the_flags_are_unknown() {
    let making = NewSocket { platform: platform(), stage: NewSocketStage::Atomic { ty: 1 } };
    assert_eq!(making.reply(-1, 24), Step::Done(Err(24)));
    let plain = NewSocket { stage: NewSocketStage::Plain { ty: 1 }, ..making };
    assert_eq!(making.reply(-1, 22), Step::Next(plain));
    assert!(matches!(plain.call(), SocketCall::Socket { domain: 1, ty: 1, protocol: 0 }));
}

#[test]
fn fallback_takes_two_calls() {
    let plain = NewSocket { platform: platform(), ..Socket::fallback_new(2) };
    assert_eq!(plain.stage, NewSocketStage::Plain { ty: 2 });
    assert_eq!(plain.reply(-1, 22), Step::Done(Err(22)));
    let closing = match plain.reply(9, 0) {
        Step::Next(next) => next,
        Step::Done(result) => panic!("{:?}", result),
    };
    assert!(matches!(
        closing.call(),
        SocketCall::Ioctl { fd: 9, request: 0x5451, argument: None }
    ));
    assert_eq!(closing.reply(0, 0), Step::Done(Ok(Socket { fd: 9 })));
    assert_eq!(closing.reply(-1, 25), Step::Done(Err(25)));
}

#[test]
fn nonblocking_mode_is_a_request_with_an_argument() {
    let socket = Socket { fd: 4 };
    assert!(matches!(
        socket.set_nonblocking(&platform(), true),
        SocketCall::Ioctl { fd: 4, request: 0x5421, argument: Some(1) }
    ));
    assert!(matches!(
        socket.set_nonblocking(&platform(), false),
        SocketCall::Ioctl { fd: 4, request: 0x5421, argument: Some(0) }
    ));
}

#[test]
fn connect_call_names_socket_and_address() {
    match (Socket { fd: 4 }).connect(b"/run/x").unwrap() {
        SocketCall::Connect { fd, addr, len } => {
            assert_eq!(fd, 4);
            assert_eq!(addr.sun_family, 1);
            assert_eq!(addr.sun_path[5] as u8, b'x');
            assert_eq!(len, 9);
        }
        call => panic!("{:?}", call),
    }
    assert!((Socket { fd: 4 }).connect(&[b'x'; 108]).is_err());
}

#[test]
fn replies_without_a_value() {
    assert_eq!(Socket::reply(0, 5), Ok(()));
    assert_eq!(Socket::reply(3, 5), Ok(()));
    assert_eq!(Socket::reply(-1, 5), Err(5));
}

#[test]
fn descriptor_is_kept() {
    let socket = Socket { fd: 11 };
    assert_eq!((socket.fd(), socket.into_fd(), socket.into_raw_fd()), (11, 11, 11));
}
