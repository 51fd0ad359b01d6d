use fg_uds::condition::IoCondition;
use fg_uds::error::{ErrorKind, IoError};
use fg_uds::listener::{
    AcceptAction, AcceptEvent, BindAbstractEvent, BindEvent, Binding, BindingAbstract,
    IncomingAction,
};
use fg_uds::socket::Step;
use fg_uds::UnixListener;
use futures::Async;

const INPUT: IoCondition =
    IoCondition { input: true, output: false, hang_up: false, not_open: false };

type Event = AcceptEvent<u32, &'static str, &'static str>;

fn listener() -> UnixListener<u32> {
    UnixListener::from_fd(5)
}

fn would_block() -> IoError<&'static str> {
    IoError { kind: ErrorKind::WouldBlock, cause: "again" }
}

fn broken() -> IoError<&'static str> {
    IoError { kind: ErrorKind::Other, cause: "broken" }
}

fn next(step: Step<BindingAbstract, nix::Result<UnixListener<u32>>>) -> BindingAbstract {
    match step {
        Step::Next(next) => next,
        Step::Done(result) => panic!("{:?}", result),
    }
}

fn done(step: Step<BindingAbstract, nix::Result<UnixListener<u32>>>) -> nix::Result<UnixListener<u32>> {
    match step {
        Step::Next(_) => panic!("goes on"),
        Step::Done(result) => result,
    }
}

fn enoent() -> nix::Error {
    nix::Error::Sys(nix::Errno::ENOENT)
}

#[test]
fn fresh_listener_watches_for_input() {
    let l = listener();
    assert_eq!(l.as_raw_fd(), 5);
    assert_eq!(l.inner.active, INPUT);
    assert_eq!(l.inner.task, None);
    assert_eq!(l.inner.prepare(), (false, None));
}

#[test]
fn path_is_bound_and_made_nonblocking() {
    let binding = UnixListener::<u32>::bind(b"/run/x".to_vec());
    assert_eq!(binding, Binding::Bind { path: b"/run/x".to_vec() });
    let set = match binding.step::<u32, &str>(BindEvent::Bound(Ok(5))) {
        Step::Next(set) => set,
        Step::Done(result) => panic!("{:?}", result),
    };
    assert_eq!(set, Binding::SetNonblocking { fd: 5, nonblocking: true });
    assert_eq!(set.step::<u32, &str>(BindEvent::ModeSet(Ok(()))), Step::Done(Ok(listener())));
}

#[test]
fn failures_to_bind_are_passed_on() {
    let binding = Binding::Bind { path: Vec::new() };
    assert_eq!(binding.step::<u32, &str>(BindEvent::Bound(Err("taken"))), Step::Done(Err("taken")));
    let set = Binding::SetNonblocking { fd: 5, nonblocking: true };
    assert_eq!(set.step::<u32, &str>(BindEvent::ModeSet(Err("mode"))), Step::Done(Err("mode")));
}

#[test]
fn abstract_name_is_bound_and_listened_on() {
    let b = UnixListener::<u32>::bind_abstract(b"named-socket".to_vec());
    match &b {
        BindingAbstract::Socket { nonblocking, protocol, name } => {
            assert!(*nonblocking);
            assert_eq!(*protocol, 0);
            assert_eq!(name, b"named-socket");
        }
        _ => panic!("no socket"),
    }
    let b = next(b.step(BindAbstractEvent::Made(Ok(5))));
    match &b {
        BindingAbstract::Bind { fd, addr } => {
            assert_eq!(*fd, 5);
            assert_eq!(addr.0.sun_family as i32, libc::AF_UNIX);
            let bytes: Vec<u8> = addr.0.sun_path[..14].iter().map(|c| *c as u8).collect();
            assert_eq!(bytes, b"\0named-socket\0");
            assert_eq!(addr.1, 13);
        }
        _ => panic!("not bound"),
    }
    let b = next(b.step(BindAbstractEvent::Bound(Ok(()))));
    assert!(matches!(b, BindingAbstract::Listen { fd: 5, backlog: 128 }));
    assert_eq!(done(b.step(BindAbstractEvent::Listens(Ok(())))), Ok(listener()));
}

#[test]
fn abstract_name_has_the_address_of_its_path() {
    for n in [0, 1, 106, 107] {
        let b = UnixListener::<u32>::bind_abstract(vec![b'n'; n]);
        let mut path = vec![b'n'; n + 1];
        path[0] = 0;
        let (addr, len) = fg_uds::address::sockaddr_un(&path).unwrap();
        match next(b.step(BindAbstractEvent::Made(Ok(5)))) {
            BindingAbstract::Bind { addr: bound, .. } => {
                assert_eq!(bound.0.sun_family, addr.sun_family);
                assert_eq!(&bound.0.sun_path[..], &addr.sun_path[..]);
                assert_eq!(bound.1 + 2, len as usize);
            }
            _ => panic!("not bound"),
        }
    }
}

#[test]
fn abstract_name_without_room_is_refused() {
    let b = UnixListener::<u32>::bind_abstract(vec![b'n'; 107]);
    assert!(matches!(b.step::<u32>(BindAbstractEvent::Made(Ok(5))), Step::Next(_)));
    let b = UnixListener::<u32>::bind_abstract(vec![b'n'; 108]);
    assert_eq!(
        done(b.step(BindAbstractEvent::Made(Ok(5)))),
        Err(nix::Error::Sys(nix::Errno::ENAMETOOLONG))
    );
}

#[test]
fn failures_on_the_way_to_listening_are_passed_on() {
    let b = UnixListener::<u32>::bind_abstract(vec![b'n'; 108]);
    assert_eq!(done(b.step(BindAbstractEvent::Made(Err(enoent())))), Err(enoent()));
    let b = UnixListener::<u32>::bind_abstract(b"n".to_vec());
    let b = next(b.step(BindAbstractEvent::Made(Ok(5))));
    assert_eq!(done(b.step(BindAbstractEvent::Bound(Err(enoent())))), Err(enoent()));
    let b = BindingAbstract::Listen { fd: 5, backlog: 128 };
    assert_eq!(done(b.step(BindAbstractEvent::Listens(Err(enoent())))), Err(enoent()));
}

#[test]
fn accept_hands_out_a_nonblocking_stream() {
    let mut l = listener();
    assert_eq!(l.accept(Event::Start), AcceptAction::Accept);
    assert_eq!(
        l.accept(Event::Accepted(Ok((9, "peer")))),
        AcceptAction::SetNonblocking { fd: 9, addr: "peer", nonblocking: true }
    );
    match l.accept(Event::ModeSet { fd: 9, addr: "peer", result: Ok(()) }) {
        AcceptAction::Return { modify: None, result: Ok((stream, "peer")) } => {
            assert_eq!(stream.as_raw_fd(), 9);
            assert!(!stream.inner.channel.close_on_drop);
        }
        action => panic!("{:?}", action),
    }
    assert_eq!(
        l.accept(Event::ModeSet { fd: 9, addr: "peer", result: Err(broken()) }),
        AcceptAction::Return { modify: None, result: Err(broken()) }
    );
    assert_eq!(
        l.accept(Event::Accepted(Err(broken()))),
        AcceptAction::Return { modify: None, result: Err(broken()) }
    );
    assert_eq!(l, listener());
}

#[test]
fn accept_that_would_block_waits_for_a_connection() {
    let mut l = listener();
    l.inner.active = IoCondition::new();
    assert_eq!(l.accept(Event::Accepted(Err(would_block()))), AcceptAction::Park(would_block()));
    assert!(!l.inner.check(INPUT));
    assert_eq!(
        l.accept(Event::Parked(3, would_block())),
        AcceptAction::Return { modify: Some(INPUT), result: Err(would_block()) }
    );
    assert!(l.inner.check(INPUT));
    assert!(!l.inner.check(IoCondition::new().output(true)));
    assert_eq!(l.inner.dispatch(), (Some(3), true));
    assert_eq!(l.inner.dispatch(), (None, true));
    assert!(!l.inner.check(INPUT));
    assert_eq!(l.inner.active, INPUT);
}

#[test]
fn last_task_that_had_to_wait_is_woken() {
    let mut incoming = listener().incoming();
    incoming.poll(Event::Parked(3, would_block()));
    incoming.poll(Event::Accepted(Err(broken())));
    assert_eq!(
        incoming.poll(Event::Parked(4, would_block())),
        IncomingAction::Return { modify: Some(INPUT), result: Ok(Async::NotReady) }
    );
    assert!(incoming.listener.inner.check(INPUT));
    assert_eq!(incoming.listener.inner.dispatch(), (Some(4), true));
}

#[test]
fn mode_that_would_block_parks_nobody() {
    let mut incoming = listener().incoming();
    assert_eq!(
        incoming.poll(Event::ModeSet { fd: 9, addr: "peer", result: Err(would_block()) }),
        IncomingAction::Return { modify: None, result: Ok(Async::NotReady) }
    );
    assert_eq!(incoming.listener, listener());
}

#[test]
fn incoming_yields_connections_without_end() {
    let mut incoming = listener().incoming();
    assert_eq!(incoming.poll(Event::Start), IncomingAction::Accept(AcceptAction::Accept));
    assert_eq!(
        incoming.poll(Event::Accepted(Err(would_block()))),
        IncomingAction::Accept(AcceptAction::Park(would_block()))
    );
    assert_eq!(
        incoming.poll(Event::Parked(3, would_block())),
        IncomingAction::Return { modify: Some(INPUT), result: Ok(Async::NotReady) }
    );
    assert_eq!(incoming.listener.inner.task, Some(3));
    assert_eq!(
        incoming.poll(Event::Accepted(Err(broken()))),
        IncomingAction::Return { modify: None, result: Err(broken()) }
    );
    match incoming.poll(Event::ModeSet { fd: 9, addr: "peer", result: Ok(()) }) {
        IncomingAction::Return { modify: None, result: Ok(Async::Ready(Some((stream, "peer")))) } => {
            assert_eq!(stream.as_raw_fd(), 9);
        }
        action => panic!("{:?}", action),
    }
}
