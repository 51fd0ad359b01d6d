use fg_uds::condition::IoCondition;
use fg_uds::connect::{
    ConnectAction, ConnectError, ConnectEvent, ConnectStage, Connecting, WaitAction, WaitEvent,
};
use fg_uds::error::PathError;
use fg_uds::platform::Platform;
use fg_uds::socket::{NewSocketStage, SocketCall, Step};
use fg_uds::source::{new_source, CheckAction, CheckEvent};
use fg_uds::state::State;
use fg_uds::{UnixStream, UnixStreamConnect};
use futures::Async;

type Future = UnixStreamConnect<u32, &'static str>;

fn reply(value: i32, errno: i32) -> ConnectEvent<&'static str> {
    ConnectEvent::Reply { value, errno }
}

fn next(step: Step<Connecting, Future>) -> Connecting {
    match step {
        Step::Next(next) => next,
        Step::Done(future) => panic!("{:?}", future),
    }
}

fn done(step: Step<Connecting, Future>) -> Future {
    match step {
        Step::Next(next) => panic!("{:?}", next),
        Step::Done(future) => future,
    }
}

fn dialled(path: &[u8]) -> Connecting {
    let making = UnixStream::<u32>::connect(path.to_vec());
    let made = next(making.step(reply(6, 0)));
    next(made.step(reply(0, 0)))
}

#[test]
fn connection_is_made_call_by_call() {
    let c = UnixStream::<u32>::connect(b"/run/x".to_vec());
    assert_eq!(c.path, b"/run/x");
    match c.action() {
        ConnectAction::Call(SocketCall::Socket { domain, ty, protocol }) => {
            assert_eq!(domain, libc::AF_UNIX);
            assert_eq!(ty, libc::SOCK_STREAM | libc::SOCK_CLOEXEC | libc::SOCK_NONBLOCK);
            assert_eq!(protocol, 0);
        }
        action => panic!("{:?}", action),
    }
    let c = next(c.step(reply(6, 0)));
    match c.action() {
        ConnectAction::Call(SocketCall::Ioctl { fd, request, argument }) => {
            assert_eq!((fd, request, argument), (6, libc::FIONBIO as u64, Some(1)));
        }
        action => panic!("{:?}", action),
    }
    let c = next(c.step(reply(0, 0)));
    match c.action() {
        ConnectAction::Call(SocketCall::Connect { fd, addr, len }) => {
            assert_eq!((fd, addr.sun_family, len), (6, 1, 9));
            assert_eq!(addr.sun_path[1] as u8, b'r');
        }
        action => panic!("{:?}", action),
    }
    let c = next(c.step(reply(0, 0)));
    assert!(matches!(c.action(), ConnectAction::OpenChannel { fd: 6, close_on_drop: true }));
    let future = done(c.step(ConnectEvent::Opened(Ok(()))));
    let stream = future.state.unwrap().unwrap();
    assert_eq!(stream.as_raw_fd(), 6);
    assert!(stream.inner.channel.close_on_drop);
    assert!(!stream.inner.channel.buffered);
    assert_eq!(stream.inner.active, IoCondition::new().input(true).output(true));
}

#[test]
fn connection_begins_with_the_constants_it_is_given() {
    let platform = Platform {
        sock_stream: 2,
        sock_cloexec: 0x80000,
        sock_nonblock: 0x80,
        einval: 22,
        einprogress: 150,
        fioclex: 0x6601,
        fionbio: 0x667e,
    };
    let c = Connecting::begin(platform, b"x".to_vec());
    assert_eq!(c.platform, platform);
    assert_eq!(c.path, b"x");
    assert!(matches!(c.stage, ConnectStage::Create(NewSocketStage::Atomic { ty: 2 })));
    assert!(matches!(
        c.action(),
        ConnectAction::Call(SocketCall::Socket { domain: 1, ty: 0x80082, protocol: 0 })
    ));
    let c = next(c.step(reply(6, 0)));
    assert!(matches!(
        c.action(),
        ConnectAction::Call(SocketCall::Ioctl { fd: 6, request: 0x667e, argument: Some(1) })
    ));
    let c = next(c.step(reply(0, 0)));
    let c = next(c.step(reply(-1, 150)));
    assert!(matches!(c.stage, ConnectStage::OpenChannel { .. }));
}

#[test]
fn abstract_name_that_fills_the_room_is_called() {
    let mut path = vec![b'n'; 108];
    path[0] = 0;
    match dialled(&path).action() {
        ConnectAction::Call(SocketCall::Connect { fd, addr, len }) => {
            assert_eq!((fd, len), (6, 110));
            let bytes: Vec<u8> = addr.sun_path.iter().map(|c| *c as u8).collect();
            assert_eq!(bytes, path);
        }
        action => panic!("{:?}", action),
    }
}

#[test]
fn unknown_flags_are_left_out() {
    let c = UnixStream::<u32>::connect(b"x".to_vec());
    let c = next(c.step(reply(-1, libc::EINVAL)));
    assert!(matches!(
        c.action(),
        ConnectAction::Call(SocketCall::Socket { domain: 1, ty: libc::SOCK_STREAM, protocol: 0 })
    ));
    let c = next(c.step(reply(6, 0)));
    assert!(matches!(c.stage, ConnectStage::Create(NewSocketStage::CloseOnExec { fd: 6 })));
    let c = next(c.step(reply(0, 0)));
    assert!(matches!(c.stage, ConnectStage::SetNonblocking { .. }));
}

#[test]
fn failing_calls_end_the_connection() {
    let c = UnixStream::<u32>::connect(b"x".to_vec());
    assert_eq!(done(c.step(reply(-1, libc::EMFILE))).state, Some(Err(ConnectError::Os(libc::EMFILE))));
    let c = next(UnixStream::<u32>::connect(b"x".to_vec()).step(reply(6, 0)));
    assert_eq!(done(c.step(reply(-1, libc::ENOTTY))).state, Some(Err(ConnectError::Os(libc::ENOTTY))));
    let refused = done(dialled(b"x").step(reply(-1, libc::ECONNREFUSED)));
    assert_eq!(refused.state, Some(Err(ConnectError::Os(libc::ECONNREFUSED))));
}

#[test]
fn connection_in_progress_goes_on() {
    let c = next(dialled(b"x").step(reply(-1, libc::EINPROGRESS)));
    assert!(matches!(c.stage, ConnectStage::OpenChannel { .. }));
}

#[test]
fn bad_path_fails_once_there_is_a_socket() {
    let c = UnixStream::<u32>::connect(vec![b'x'; 108]);
    let c = next(c.step(reply(6, 0)));
    assert_eq!(done(c.step(reply(0, 0))).state, Some(Err(ConnectError::Path(PathError::FillsRoom))));
    let c = UnixStream::<u32>::connect(vec![0; 109]);
    let c = next(c.step(reply(6, 0)));
    assert_eq!(
        done(c.step(reply(0, 0))).state,
        Some(Err(ConnectError::Path(PathError::LongerThanRoom)))
    );
}

#[test]
fn channel_that_cannot_be_opened_fails() {
    let c = next(dialled(b"x").step(reply(0, 0)));
    let future = done(c.step(ConnectEvent::Opened(Err("encoding"))));
    assert_eq!(future.state, Some(Err(ConnectError::Channel("encoding"))));
}

#[test]
fn error_is_had_by_the_first_poll() {
    let mut future: Future = UnixStreamConnect { state: Some(Err(ConnectError::Os(2))) };
    assert_eq!(future.poll(WaitEvent::Start), WaitAction::Return(Err(ConnectError::Os(2))));
    assert_eq!(future.state, None);
}

#[test]
fn stream_is_had_once_it_is_writable() {
    let mut future: Future = UnixStreamConnect { state: Some(Ok(UnixStream { inner: new_source(6) })) };
    assert_eq!(future.poll(WaitEvent::Start), WaitAction::Park);
    assert_eq!(future.poll(WaitEvent::Parked(1)), WaitAction::Return(Ok(Async::NotReady)));
    assert_eq!(future.poll(WaitEvent::Parked(2)), WaitAction::Return(Ok(Async::NotReady)));
    let mut stream = future.state.take().unwrap().unwrap();
    assert_eq!(stream.inner.write, State::Blocked(2));
    assert_eq!(stream.inner.dispatch(IoCondition::new().output(true)).writer, Some(2));
    let mut future: Future = UnixStreamConnect { state: Some(Ok(stream)) };
    match future.poll(WaitEvent::Start) {
        WaitAction::Return(Ok(Async::Ready(stream))) => assert_eq!(stream.as_raw_fd(), 6),
        action => panic!("{:?}", action),
    }
    assert_eq!(future.state, None);
}

#[test]
fn stream_that_hung_up_is_not_handed_out() {
    let mut stream = UnixStream { inner: new_source(6) };
    stream.inner.write = State::Blocked(1);
    let over = IoCondition { hang_up: true, ..IoCondition::new().output(true) };
    assert_eq!(stream.inner.check(CheckEvent::Queried(over)), CheckAction::Close);
    assert_eq!(stream.inner.check(CheckEvent::Closed), CheckAction::Return(false));
    let mut future: Future = UnixStreamConnect { state: Some(Ok(stream)) };
    assert_eq!(future.poll(WaitEvent::Start), WaitAction::Park);
    assert_eq!(future.poll(WaitEvent::Parked(2)), WaitAction::Return(Ok(Async::NotReady)));
}

#[test]
fn stream_that_became_writable_while_parking_is_had() {
    let mut stream = UnixStream { inner: new_source(6) };
    stream.inner.write = State::Ready;
    let mut future: Future = UnixStreamConnect { state: Some(Ok(stream)) };
    assert!(matches!(future.poll(WaitEvent::Parked(1)), WaitAction::Return(Ok(Async::Ready(_)))));
}
