use fg_uds::condition::IoCondition;
use fg_uds::socket::Socket;
use fg_uds::source::{
    create_source, create_source_from_socket, new_source, Channel, CheckAction, CheckEvent,
    Dispatch, Inner,
};
use fg_uds::state::State;

const INPUT: IoCondition =
    IoCondition { input: true, output: false, hang_up: false, not_open: false };
const OUTPUT: IoCondition =
    IoCondition { input: false, output: true, hang_up: false, not_open: false };
const BOTH: IoCondition = IoCondition { input: true, output: true, hang_up: false, not_open: false };

fn source() -> Inner<u32> {
    new_source(3)
}

#[test]
fn conditions_are_set_one_by_one() {
    assert_eq!(IoCondition::new().input(true), INPUT);
    assert_eq!(IoCondition::new().output(true), OUTPUT);
    assert_eq!(BOTH.input(false), OUTPUT);
    assert_eq!(BOTH.output(false), INPUT);
}

#[test]
fn block_replaces_and_unblock_empties() {
    let mut state = State::NotReady;
    assert!(!state.is_blocked());
    assert!(state.block(1));
    assert!(state.block(2));
    assert!(state.is_blocked());
    assert_eq!(state.unblock(), Some(2));
    assert_eq!(state, State::Ready);
    assert_eq!(state.unblock(), None);
    assert!(!state.block(3));
    assert_eq!(state, State::Ready);
}

#[test]
fn unblock_before_anybody_waits() {
    let mut state: State<u32> = State::NotReady;
    assert_eq!(state.unblock(), None);
    assert_eq!(state, State::Ready);
}

#[test]
fn accepted_source_starts_fresh() {
    let s = source();
    assert_eq!(s.channel, Channel { fd: 3, close_on_drop: false, buffered: true });
    assert!(!s.is_closed);
    assert_eq!(s.active, BOTH);
    assert_eq!((&s.read, &s.write), (&State::NotReady, &State::NotReady));
    assert_eq!(s.prepare(), (false, None));
}

#[test]
fn connected_source_owns_its_descriptor() {
    let s: Inner<u32> = create_source_from_socket(Socket { fd: 8 });
    assert_eq!(s.channel, Channel { fd: 8, close_on_drop: true, buffered: false });
    assert_eq!(s.active, BOTH);
}

#[test]
fn source_watches_what_it_is_told() {
    let channel = Channel { fd: 1, close_on_drop: true, buffered: true };
    let s: Inner<u32> = create_source(channel, INPUT);
    assert_eq!((s.channel, s.active), (channel, INPUT));
}

#[test]
fn check_needs_somebody_who_waits() {
    let mut s = source();
    assert_eq!(s.check(CheckEvent::Start), CheckAction::Query);
    assert_eq!(s.check(CheckEvent::Queried(BOTH)), CheckAction::Return(false));
    s.read = State::Blocked(7);
    assert_eq!(s.check(CheckEvent::Queried(INPUT)), CheckAction::Return(true));
    assert_eq!(s.check(CheckEvent::Queried(OUTPUT)), CheckAction::Return(false));
    s.write = State::Blocked(8);
    assert_eq!(s.check(CheckEvent::Queried(OUTPUT)), CheckAction::Return(true));
}

#[test]
fn check_closes_a_stream_whose_other_end_is_gone() {
    for gone in [
        IoCondition { hang_up: true, ..BOTH },
        IoCondition { not_open: true, ..IoCondition::new() },
    ] {
        let mut s = source();
        s.read = State::Blocked(7);
        assert_eq!(s.check(CheckEvent::Queried(gone)), CheckAction::Close);
        assert!(!s.is_closed);
        assert_eq!(s.check(CheckEvent::Closed), CheckAction::Return(false));
        assert!(s.is_closed);
        assert_eq!(s.check(CheckEvent::Start), CheckAction::Return(false));
        assert_eq!(s.read, State::Blocked(7));
    }
}

#[test]
fn dispatch_wakes_both_directions() {
    let mut s = source();
    s.read = State::Blocked(1);
    s.write = State::Blocked(2);
    let expected =
        Dispatch { reader: Some(1), writer: Some(2), active: IoCondition::new(), keep: true };
    assert_eq!(s.dispatch(BOTH), expected);
    assert_eq!((&s.read, &s.write), (&State::Ready, &State::Ready));
    assert_eq!(s.check(CheckEvent::Queried(BOTH)), CheckAction::Return(false));
    let nobody = Dispatch { reader: None, writer: None, active: IoCondition::new(), keep: true };
    assert_eq!(s.dispatch(BOTH), nobody);
}

#[test]
fn dispatch_of_one_direction_leaves_the_other() {
    let mut s = source();
    s.read = State::Blocked(1);
    s.write = State::Blocked(2);
    let expected = Dispatch { reader: None, writer: Some(2), active: INPUT, keep: true };
    assert_eq!(s.dispatch(OUTPUT), expected);
    assert_eq!(s.read, State::Blocked(1));
    assert_eq!(s.active, INPUT);
    let nothing = Dispatch { reader: None, writer: None, active: INPUT, keep: true };
    assert_eq!(s.dispatch(IoCondition { hang_up: true, ..IoCondition::new() }), nothing);
}

#[test]
fn closed_source_stays_closed_whatever_follows() {
    let mut s = source();
    s.check(CheckEvent::Closed);
    let channel = s.channel;
    s.dispatch(BOTH);
    s.check(CheckEvent::Queried(BOTH));
    assert_eq!(s.check(CheckEvent::Start), CheckAction::Return(false));
    assert!(s.is_closed);
    assert_eq!(s.channel, channel);
}

#[test]
fn hang_up_leaves_the_waiting_tasks_waiting() {
    for over in [IoCondition { hang_up: true, ..BOTH }, IoCondition { not_open: true, ..BOTH }] {
        let mut s = source();
        s.read = State::Blocked(1);
        s.write = State::Blocked(2);
        assert_eq!(s.check(CheckEvent::Start), CheckAction::Query);
        assert_eq!(s.check(CheckEvent::Queried(over)), CheckAction::Close);
        assert_eq!(s.check(CheckEvent::Closed), CheckAction::Return(false));
        assert_eq!(s.read, State::Blocked(1));
        assert_eq!(s.write, State::Blocked(2));
        assert_eq!(s.check(CheckEvent::Start), CheckAction::Return(false));
    }
}

#[test]
fn task_waits_until_its_own_event() {
    let mut s = source();
    s.read = State::Blocked(1);
    s.write = State::Blocked(2);
    assert_eq!(s.dispatch(OUTPUT).writer, Some(2));
    s.write = State::Blocked(3);
    assert_eq!(s.dispatch(OUTPUT).reader, None);
    assert_eq!(s.read, State::Blocked(1));
    assert!(s.active.input);
    assert_eq!(s.check(CheckEvent::Queried(OUTPUT)), CheckAction::Return(false));
    assert_eq!(s.check(CheckEvent::Queried(INPUT)), CheckAction::Return(true));
    assert_eq!(s.dispatch(INPUT).reader, Some(1));
}
