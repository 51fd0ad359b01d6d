use fg_uds::condition::IoCondition;
use fg_uds::error::{ErrorKind, IoError, StreamError};
use fg_uds::source::{new_source, CheckAction, CheckEvent};
use fg_uds::state::State;
use fg_uds::stream::{BufAction, BufEvent, IoAction, IoEvent, PollAction, PollEvent};
use fg_uds::UnixStream;
use futures::Async;

const INPUT: IoCondition =
    IoCondition { input: true, output: false, hang_up: false, not_open: false };
const OUTPUT: IoCondition =
    IoCondition { input: false, output: true, hang_up: false, not_open: false };
const BOTH: IoCondition = IoCondition { input: true, output: true, hang_up: false, not_open: false };

fn stream() -> UnixStream<u32> {
    UnixStream { inner: new_source(3) }
}

fn would_block() -> IoError<&'static str> {
    IoError { kind: ErrorKind::WouldBlock, cause: "again" }
}

fn broken() -> IoError<&'static str> {
    IoError { kind: ErrorKind::Other, cause: "broken" }
}

#[test]
fn block_picks_the_direction() {
    let mut s = stream();
    s.inner.active = IoCondition::new();
    assert_eq!(s.block(&INPUT, 1), INPUT);
    assert_eq!(s.inner.read, State::Blocked(1));
    assert_eq!(s.block(&OUTPUT, 2), BOTH);
    assert_eq!(s.inner.write, State::Blocked(2));
    assert_eq!(s.block(&IoCondition::new(), 3), BOTH);
    assert_eq!(s.inner.write, State::Blocked(3));
}

#[test]
fn read_passes_on_what_the_channel_says() {
    let mut s = stream();
    assert_eq!(s.read::<&str>(IoEvent::Start), IoAction::Transfer);
    assert_eq!(
        s.read::<&str>(IoEvent::Transferred(Ok(12))),
        IoAction::Return { modify: None, result: Ok(12) }
    );
    assert_eq!(
        s.read(IoEvent::Transferred(Err(broken()))),
        IoAction::Return { modify: None, result: Err(StreamError::Io(broken())) }
    );
    assert_eq!(s, stream());
}

#[test]
fn read_that_would_block_waits_for_input() {
    let mut s = stream();
    s.inner.active = IoCondition::new();
    assert_eq!(
        s.read(IoEvent::Transferred(Err(would_block()))),
        IoAction::Park(would_block())
    );
    assert_eq!(
        s.read(IoEvent::Parked(5, would_block())),
        IoAction::Return { modify: Some(INPUT), result: Err(StreamError::Io(would_block())) }
    );
    assert_eq!(s.inner.read, State::Blocked(5));
    assert_eq!(s.inner.check(CheckEvent::Queried(INPUT)), CheckAction::Return(true));
    assert_eq!(s.inner.dispatch(INPUT).reader, Some(5));
}

#[test]
fn read_of_a_closed_stream_fails_at_once() {
    let mut s = stream();
    s.inner.is_closed = true;
    assert_eq!(
        s.read::<&str>(IoEvent::Start),
        IoAction::Return { modify: None, result: Err(StreamError::Closed) }
    );
}

#[test]
fn write_that_would_block_waits_for_output() {
    let mut s = stream();
    s.inner.is_closed = true;
    assert_eq!(s.write::<&str>(IoEvent::Start), IoAction::Transfer);
    assert_eq!(
        s.write::<&str>(IoEvent::Transferred(Ok(3))),
        IoAction::Return { modify: None, result: Ok(3) }
    );
    s.inner.active = INPUT;
    assert_eq!(
        s.write(IoEvent::Transferred(Err(would_block()))),
        IoAction::Park(would_block())
    );
    assert_eq!(
        s.write(IoEvent::Parked(6, would_block())),
        IoAction::Return { modify: Some(BOTH), result: Err(StreamError::Io(would_block())) }
    );
    assert_eq!(s.inner.write, State::Blocked(6));
}

#[test]
fn flush_that_would_block_waits_for_output() {
    let mut s = stream();
    assert_eq!(
        s.flush::<&str>(IoEvent::Transferred(Ok(()))),
        IoAction::Return { modify: None, result: Ok(()) }
    );
    assert_eq!(
        s.flush(IoEvent::Parked(6, would_block())),
        IoAction::Return { modify: Some(BOTH), result: Err(StreamError::Io(would_block())) }
    );
    assert_eq!(s.inner.write, State::Blocked(6));
}

#[test]
fn poll_read_answers_or_schedules() {
    let mut s = stream();
    assert_eq!(s.poll_read(PollEvent::Start), PollAction::Query);
    assert_eq!(
        s.poll_read(PollEvent::Queried(INPUT)),
        PollAction::Return { modify: None, ready: Async::Ready(()) }
    );
    assert_eq!(s.poll_read(PollEvent::Queried(OUTPUT)), PollAction::Park);
    assert_eq!(
        s.poll_read(PollEvent::Parked(4)),
        PollAction::Return { modify: Some(BOTH), ready: Async::NotReady }
    );
    assert_eq!(s.inner.read, State::Blocked(4));
}

#[test]
fn poll_write_answers_or_schedules() {
    let mut s = stream();
    assert_eq!(
        s.poll_write(PollEvent::Queried(BOTH)),
        PollAction::Return { modify: None, ready: Async::Ready(()) }
    );
    assert_eq!(s.poll_write(PollEvent::Queried(INPUT)), PollAction::Park);
    s.inner.active = INPUT;
    assert_eq!(
        s.poll_write(PollEvent::Parked(4)),
        PollAction::Return { modify: Some(BOTH), ready: Async::NotReady }
    );
    assert_eq!(s.inner.write, State::Blocked(4));
    assert_eq!(s.inner.read, State::NotReady);
}

#[test]
fn poll_closes_a_stream_whose_other_end_is_gone() {
    let gone = IoCondition { hang_up: true, ..BOTH };
    let not_ready = || PollAction::Return { modify: None, ready: Async::NotReady };
    let mut s = stream();
    assert_eq!(s.poll_write(PollEvent::Queried(gone)), PollAction::Close);
    assert_eq!(s.poll_write(PollEvent::Closed), not_ready());
    assert!(s.inner.is_closed);
    assert_eq!(s.poll_read(PollEvent::Start), not_ready());
    assert_eq!(s.poll_write(PollEvent::Start), not_ready());
}

#[test]
fn read_buf_reads_when_ready() {
    let mut s = stream();
    assert!(!s.prepare_uninitialized_buffer());
    assert_eq!(s.read_buf::<&str>(BufEvent::Start), BufAction::Query);
    assert_eq!(s.read_buf::<&str>(BufEvent::Queried(INPUT)), BufAction::Transfer);
    assert_eq!(
        s.read_buf::<&str>(BufEvent::Transferred(Ok(10))),
        BufAction::Return { advance: 10, modify: None, result: Ok(Async::Ready(10)) }
    );
    assert_eq!(
        s.read_buf(BufEvent::Transferred(Err(broken()))),
        BufAction::Return { advance: 0, modify: None, result: Err(broken()) }
    );
}

#[test]
fn read_buf_waits_when_not_ready() {
    let mut s = stream();
    assert_eq!(s.read_buf::<&str>(BufEvent::Queried(OUTPUT)), BufAction::Park);
    assert_eq!(s.read_buf(BufEvent::Transferred(Err(would_block()))), BufAction::Park);
    assert_eq!(
        s.read_buf::<&str>(BufEvent::Parked(9)),
        BufAction::Return { advance: 0, modify: Some(BOTH), result: Ok(Async::NotReady) }
    );
    assert_eq!(s.inner.read, State::Blocked(9));
}

#[test]
fn read_buf_of_a_closed_stream_is_not_ready() {
    let not_ready =
        || BufAction::Return { advance: 0, modify: None, result: Ok(Async::NotReady) };
    let mut s = stream();
    let gone = IoCondition { not_open: true, ..IoCondition::new() };
    assert_eq!(s.read_buf::<&str>(BufEvent::Queried(gone)), BufAction::Close);
    assert_eq!(s.read_buf::<&str>(BufEvent::Closed), not_ready());
    assert_eq!(s.read_buf::<&str>(BufEvent::Start), not_ready());
}

#[test]
fn write_buf_writes_when_ready() {
    let mut s = stream();
    assert_eq!(s.write_buf::<&str>(BufEvent::Start), BufAction::Query);
    assert_eq!(s.write_buf::<&str>(BufEvent::Queried(OUTPUT)), BufAction::Transfer);
    assert_eq!(
        s.write_buf::<&str>(BufEvent::Transferred(Ok(4))),
        BufAction::Return { advance: 4, modify: None, result: Ok(Async::Ready(4)) }
    );
    assert_eq!(s.write_buf(BufEvent::Transferred(Err(would_block()))), BufAction::Park);
    assert_eq!(
        s.write_buf::<&str>(BufEvent::Parked(9)),
        BufAction::Return { advance: 0, modify: Some(BOTH), result: Ok(Async::NotReady) }
    );
    assert_eq!(s.inner.write, State::Blocked(9));
    assert_eq!(s.write_buf::<&str>(BufEvent::Queried(INPUT)), BufAction::Park);
    let gone = IoCondition { hang_up: true, ..IoCondition::new() };
    assert_eq!(s.write_buf::<&str>(BufEvent::Queried(gone)), BufAction::Close);
    assert_eq!(
        s.write_buf::<&str>(BufEvent::Closed),
        BufAction::Return { advance: 0, modify: None, result: Ok(Async::NotReady) }
    );
    assert!(s.inner.is_closed);
}

#[test]
fn shutdown_makes_of_a_flush_whether_it_is_done() {
    let mut s = stream();
    assert_eq!(s.shutdown(IoEvent::<u32, (), &str>::Start), IoAction::Transfer);
    assert_eq!(
        s.shutdown::<&str>(IoEvent::Transferred(Ok(()))),
        IoAction::Return { modify: None, result: Ok(Async::Ready(())) }
    );
    assert_eq!(
        s.shutdown(IoEvent::Transferred(Err(broken()))),
        IoAction::Return { modify: None, result: Err(StreamError::Io(broken())) }
    );
    assert_eq!(s, stream());
}

#[test]
fn shutdown_waits_for_a_flush_that_would_block() {
    let mut s = stream();
    s.inner.dispatch(IoCondition::new().output(true));
    assert!(!s.inner.active.output);
    assert_eq!(
        s.shutdown(IoEvent::Transferred(Err(would_block()))),
        IoAction::Park(would_block())
    );
    assert_eq!(
        s.shutdown(IoEvent::Parked(4, would_block())),
        IoAction::Return { modify: Some(s.inner.active), result: Ok(Async::NotReady) }
    );
    assert!(s.inner.active.output);
    assert_eq!(s.inner.write, State::Blocked(4));
    assert_eq!(s.inner.dispatch(IoCondition::new().output(true)).writer, Some(4));
}

#[test]
fn stream_knows_its_descriptor() {
    assert_eq!(stream().as_raw_fd(), 3);
}
