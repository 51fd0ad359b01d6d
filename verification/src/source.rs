//! The part of a stream that the event loop drives.

use core::time::Duration;

use vstd::prelude::*;

use crate::condition::IoCondition;
use crate::socket::Socket;
use crate::state::State;

verus! {

/// A channel for raw bytes over a file descriptor, without any encoding.
#[derive(Clone, Copy, Debug, PartialEq, Eq, Structural)]
pub struct Channel {
    pub fd: i32,
    /// Whether the descriptor is closed along with the channel.
    pub close_on_drop: bool,
    /// Whether the channel keeps a buffer of its own.
    pub buffered: bool,
}

/// What the event loop knows of a stream. `T` is a handle on a task.
#[derive(Debug, PartialEq, Eq)]
pub struct Inner<T> {
    pub channel: Channel,
    /// Set for good once the other end is gone.
    pub is_closed: bool,
    /// What the event loop watches the descriptor for, as long as the stream is
    /// not closed.
    pub active: IoCondition,
    pub read: State<T>,
    pub write: State<T>,
}

/// What has come of the action that a check asked for.
#[derive(Clone, Copy, Debug, PartialEq, Eq, Structural)]
pub enum CheckEvent {
    /// Nothing has been asked for yet.
    Start,
    /// The conditions that the last poll reported.
    Queried(IoCondition),
    /// The channel is closed and its descriptor no longer watched.
    Closed,
}

/// What a check asks for next.
#[derive(Clone, Copy, Debug, PartialEq, Eq, Structural)]
pub enum CheckAction {
    /// Ask which conditions the last poll reported.
    Query,
    /// Flush and close the channel, and stop watching its descriptor.
    Close,
    /// The answer: whether there is anything to dispatch.
    Return(bool),
}

/// What a dispatch asks for.
#[derive(Debug, PartialEq, Eq)]
pub struct Dispatch<T> {
    /// The reading task to notify.
    pub reader: Option<T>,
    /// The writing task to notify, after the reading one.
    pub writer: Option<T>,
    /// What to watch the descriptor for from now on.
    pub active: IoCondition,
    /// Whether the event loop keeps the source.
    pub keep: bool,
}

impl<T> Inner<T> {
    /// The descriptor is watched for everything that an open stream still has to
    /// hear of: in a direction that is not known to be ready, for that direction.
    pub open spec fn wf(self) -> bool {
        &&& self.read is Ready || self.active.input
        &&& self.write is Ready || self.active.output
        &&& !self.active.hang_up
        &&& !self.active.not_open
    }

    /// A stream of which nothing is known yet.
    pub open spec fn fresh(channel: Channel, active: IoCondition) -> Self {
        Inner { channel, is_closed: false, active, read: State::NotReady, write: State::NotReady }
    }

    /// Whether a task waits for any of the conditions.
    pub open spec fn wakes(self, ready: IoCondition) -> bool {
        (ready.input && self.read is Blocked) || (ready.output && self.write is Blocked)
    }

    /// The stream once a task waits, for input if the condition has it and for
    /// output otherwise.
    pub open spec fn blocked(self, condition: IoCondition, task: T) -> Self {
        if condition.input {
            Inner {
                read: State::Blocked(task),
                active: IoCondition { input: true, ..self.active },
                ..self
            }
        } else {
            Inner {
                write: State::Blocked(task),
                active: IoCondition { output: true, ..self.active },
                ..self
            }
        }
    }

    /// The stream once a task waits for its connection.
    pub open spec fn connecting(self, task: T) -> Self {
        Inner { write: self.write.blocked(task), ..self }
    }

    /// The stream once it has heard of the conditions.
    pub open spec fn dispatched(self, ready: IoCondition) -> Self {
        Inner {
            read: if ready.input {
                State::Ready
            } else {
                self.read
            },
            write: if ready.output {
                State::Ready
            } else {
                self.write
            },
            active: IoCondition {
                input: self.active.input && !ready.input,
                output: self.active.output && !ready.output,
                ..self.active
            },
            ..self
        }
    }

    /// The stream once its channel is closed.
    pub open spec fn closed(self) -> Self {
        Inner { is_closed: true, ..self }
    }

    /// The reading task that the conditions wake.
    pub open spec fn woken_reader(self, ready: IoCondition) -> Option<T> {
        if ready.input {
            self.read.waiting()
        } else {
            None
        }
    }

    /// The writing task that the conditions wake.
    pub open spec fn woken_writer(self, ready: IoCondition) -> Option<T> {
        if ready.output {
            self.write.waiting()
        } else {
            None
        }
    }

    /// What a check makes of an event. A stream whose other end is gone is closed
    /// on the way, and never has anything to dispatch.
    pub open spec fn checked(self, event: CheckEvent) -> (Self, CheckAction) {
        match event {
            CheckEvent::Start => (
                self,
                if self.is_closed {
                    CheckAction::Return(false)
                } else {
                    CheckAction::Query
                },
            ),
            CheckEvent::Queried(ready) => (
                self,
                if ready.is_over() {
                    CheckAction::Close
                } else {
                    CheckAction::Return(self.wakes(ready))
                },
            ),
            CheckEvent::Closed => (self.closed(), CheckAction::Return(false)),
        }
    }

    /// What a whole check comes to where the last poll reported `ready`: the
    /// stream then, and whether there is anything to dispatch.
    pub open spec fn checked_through(self, ready: IoCondition) -> (Self, bool) {
        match self.checked(CheckEvent::Start) {
            (s, CheckAction::Return(found)) => (s, found),
            (s, _) => match s.checked(CheckEvent::Queried(ready)) {
                (s, CheckAction::Return(found)) => (s, found),
                (s, _) => {
                    let (s, action) = s.checked(CheckEvent::Closed);
                    (s, action == CheckAction::Return(true))
                },
            },
        }
    }

    /// A whole check on `ready` finds something to dispatch, unless the stream
    /// is closed, or `ready` says that the other end is gone: that closes it.
    pub open spec fn finds_unless_over(self, ready: IoCondition) -> bool {
        self.checked_through(ready) == (if self.is_closed {
            (self, false)
        } else if ready.is_over() {
            (self.closed(), false)
        } else {
            (self, true)
        })
    }

    /// How long the event loop may sleep: the source is never ready before it
    /// is polled, and sets no limit.
    pub fn prepare(&self) -> (ready: (bool, Option<Duration>))
        ensures
            ready == (false, None::<Duration>),
    {
        (false, None)
    }

    /// Finds out whether there is anything to dispatch. A stream whose other
    /// end is gone is closed on the way, and never has anything to dispatch.
    pub fn check(&mut self, event: CheckEvent) -> (action: CheckAction)
        ensures
            (*final(self), action) == old(self).checked(event),
            old(self).wf() ==> final(self).wf(),
    {
        match event {
            CheckEvent::Start => {
                if self.is_closed {
                    CheckAction::Return(false)
                } else {
                    CheckAction::Query
                }
            },
            CheckEvent::Queried(ready) => {
                if ready.hang_up || ready.not_open {
                    CheckAction::Close
                } else {
                    CheckAction::Return(
                        (ready.input && self.read.is_blocked()) || (ready.output
                            && self.write.is_blocked()),
                    )
                }
            },
            CheckEvent::Closed => {
                self.is_closed = true;
                CheckAction::Return(false)
            },
        }
    }

    /// Takes in the conditions that the last poll reported: the waiting tasks
    /// are handed out, and what they waited for is no longer watched.
    pub fn dispatch(&mut self, ready: IoCondition) -> (result: Dispatch<T>)
        ensures
            *final(self) == old(self).dispatched(ready),
            result.reader == old(self).woken_reader(ready),
            result.writer == old(self).woken_writer(ready),
            result.active == final(self).active,
            result.keep,
            old(self).wf() ==> final(self).wf(),
    {
        let mut reader: Option<T> = None;
        if ready.input {
            reader = self.read.unblock();
            self.active = self.active.input(false);
        }
        let mut writer: Option<T> = None;
        if ready.output {
            writer = self.write.unblock();
            self.active = self.active.output(false);
        }
        Dispatch { reader, writer, active: self.active, keep: true }
    }
}

/// Starts a source over a channel that is watched for `active`.
pub fn create_source<T>(channel: Channel, active: IoCondition) -> (source: Inner<T>)
    ensures
        source == Inner::<T>::fresh(channel, active),
        active.input && active.output && !active.is_over() ==> source.wf(),
{
    Inner { channel, is_closed: false, active, read: State::NotReady, write: State::NotReady }
}

/// The source of a socket that this side has connected: it owns its descriptor
/// and keeps no buffer.
pub fn create_source_from_socket<T>(socket: Socket) -> (source: Inner<T>)
    ensures
        source == Inner::<T>::fresh(
            (Channel { fd: socket.fd, close_on_drop: true, buffered: false }),
            (IoCondition { input: true, output: true, hang_up: false, not_open: false }),
        ),
        source.wf(),
{
    let channel = Channel { fd: socket.into_raw_fd(), close_on_drop: true, buffered: false };
    let active = IoCondition::new().input(true).output(true);
    create_source(channel, active)
}

/// The source of a descriptor that a listener has accepted, over a channel that
/// is left as the event loop makes it.
pub fn new_source<T>(fd: i32) -> (source: Inner<T>)
    ensures
        source == Inner::<T>::fresh(
            (Channel { fd: fd, close_on_drop: false, buffered: true }),
            (IoCondition { input: true, output: true, hang_up: false, not_open: false }),
        ),
        source.wf(),
{
    let active = IoCondition::new().input(true).output(true);
    let channel = Channel { fd, close_on_drop: false, buffered: true };
    create_source(channel, active)
}

/// A check finds something to dispatch exactly where the dispatch would wake a
/// task, the stream is open, and the other end is not gone.
pub proof fn law_dispatch_wakes_what_check_found<T>(s: Inner<T>, ready: IoCondition)
    ensures
        s.checked_through(ready).1 <==> {
            &&& !s.is_closed
            &&& !ready.is_over()
            &&& s.woken_reader(ready) is Some || s.woken_writer(ready) is Some
        },
{
}

/// What has been dispatched is not found again: a second check on the same
/// conditions finds nothing, and a second dispatch wakes nobody and changes
/// nothing.
pub proof fn law_dispatch_is_done_once<T>(s: Inner<T>, ready: IoCondition)
    ensures
        !s.dispatched(ready).checked_through(ready).1,
        s.dispatched(ready).woken_reader(ready) is None,
        s.dispatched(ready).woken_writer(ready) is None,
        s.dispatched(ready).dispatched(ready) == s.dispatched(ready),
{
}

/// A task that waits for input on an open stream is found and woken by the first
/// event with input. If that event says that the other end is gone, the stream
/// is closed instead: nobody is woken, and the task is left waiting.
pub proof fn law_reader_is_woken<T>(s: Inner<T>, condition: IoCondition, task: T, ready: IoCondition)
    requires
        condition.input,
        ready.input,
    ensures
        ({
            let waits = s.blocked(condition, task);
            &&& waits.active.input
            &&& waits.finds_unless_over(ready)
            &&& !ready.is_over() ==> {
                &&& waits.checked(CheckEvent::Queried(ready)) == (waits, CheckAction::Return(true))
                &&& waits.woken_reader(ready) == Some(task)
            }
            &&& ready.is_over() ==> {
                &&& waits.checked(CheckEvent::Queried(ready)) == (waits, CheckAction::Close)
                &&& waits.checked(CheckEvent::Closed) == (
                    waits.closed(),
                    CheckAction::Return(false),
                )
                &&& waits.closed().read == State::Blocked(task)
            }
        }),
{
}

/// A task that waits for output on an open stream is found and woken by the
/// first event with output. If that event says that the other end is gone, the
/// stream is closed instead: nobody is woken, and the task is left waiting.
pub proof fn law_writer_is_woken<T>(s: Inner<T>, condition: IoCondition, task: T, ready: IoCondition)
    requires
        !condition.input,
        ready.output,
    ensures
        ({
            let waits = s.blocked(condition, task);
            &&& waits.active.output
            &&& waits.finds_unless_over(ready)
            &&& !ready.is_over() ==> {
                &&& waits.checked(CheckEvent::Queried(ready)) == (waits, CheckAction::Return(true))
                &&& waits.woken_writer(ready) == Some(task)
            }
            &&& ready.is_over() ==> {
                &&& waits.checked(CheckEvent::Queried(ready)) == (waits, CheckAction::Close)
                &&& waits.checked(CheckEvent::Closed) == (
                    waits.closed(),
                    CheckAction::Return(false),
                )
                &&& waits.closed().write == State::Blocked(task)
            }
        }),
{
}

/// The two directions do not disturb each other: an event without input leaves
/// the reader alone, an event without output the writer, and a task that waits
/// in one direction leaves the other as it was.
pub proof fn law_directions_are_apart<T>(s: Inner<T>, condition: IoCondition, task: T, ready: IoCondition)
    ensures
        !ready.input ==> s.dispatched(ready).read == s.read && s.dispatched(ready).active.input
            == s.active.input,
        !ready.output ==> s.dispatched(ready).write == s.write && s.dispatched(ready).active.output
            == s.active.output,
        condition.input ==> s.blocked(condition, task).write == s.write && s.blocked(
            condition,
            task,
        ).active.output == s.active.output,
        !condition.input ==> s.blocked(condition, task).read == s.read && s.blocked(
            condition,
            task,
        ).active.input == s.active.input,
{
}

/// Everything that ever changes a source.
pub enum Change<T> {
    /// A task waits on the condition.
    Block(IoCondition, T),
    /// A task waits for the connection.
    Connect(T),
    /// The conditions are dispatched.
    Dispatch(IoCondition),
    /// The channel is closed.
    Close,
}

/// The source after one change.
pub open spec fn changed<T>(s: Inner<T>, change: Change<T>) -> Inner<T> {
    match change {
        Change::Block(condition, task) => s.blocked(condition, task),
        Change::Connect(task) => s.connecting(task),
        Change::Dispatch(ready) => s.dispatched(ready),
        Change::Close => s.closed(),
    }
}

/// Whether a source is as it was, or has changed in one of these ways.
pub open spec fn at_most_one_change<T>(before: Inner<T>, now: Inner<T>) -> bool {
    now == before || exists|change: Change<T>| now == #[trigger] changed(before, change)
}

/// The source after all the changes, in order.
pub open spec fn after<T>(s: Inner<T>, changes: Seq<Change<T>>) -> Inner<T>
    decreases changes.len(),
{
    if changes.len() == 0 {
        s
    } else {
        changed(after(s, changes.drop_last()), changes.last())
    }
}

/// On an open source no wake-up is ever lost for want of watching: whatever has
/// happened to it, a direction in which a task waits is a direction that is
/// watched.
pub proof fn law_waits_are_watched<T>(s: Inner<T>, changes: Seq<Change<T>>)
    requires
        s.wf(),
    ensures
        after(s, changes).wf(),
        after(s, changes).read is Blocked ==> after(s, changes).active.input,
        after(s, changes).write is Blocked ==> after(s, changes).active.output,
    decreases changes.len(),
{
    if changes.len() > 0 {
        law_waits_are_watched(s, changes.drop_last());
    }
}

/// Whether a change is to the reading task: another waits in its place, or an
/// event with input is dispatched.
pub open spec fn touches_reader<T>(change: Change<T>) -> bool {
    match change {
        Change::Block(condition, _) => condition.input,
        Change::Dispatch(ready) => ready.input,
        Change::Connect(_) | Change::Close => false,
    }
}

/// Whether a change is to the writing task: another waits in its place, or an
/// event with output is dispatched.
pub open spec fn touches_writer<T>(change: Change<T>) -> bool {
    match change {
        Change::Block(condition, _) => !condition.input,
        Change::Connect(_) => true,
        Change::Dispatch(ready) => ready.output,
        Change::Close => false,
    }
}

/// Whether none of the changes is to the task that waits for the condition.
pub open spec fn leave_alone<T>(changes: Seq<Change<T>>, condition: IoCondition) -> bool {
    forall|i: int|
        0 <= i < changes.len() ==> !(if condition.input {
            touches_reader(#[trigger] changes[i])
        } else {
            touches_writer(changes[i])
        })
}

proof fn lemma_leave_alone_but_last<T>(changes: Seq<Change<T>>, condition: IoCondition)
    requires
        changes.len() > 0,
        leave_alone(changes, condition),
    ensures
        leave_alone(changes.drop_last(), condition),
        condition.input ==> !touches_reader(changes.last()),
        !condition.input ==> !touches_writer(changes.last()),
{
    assert forall|i: int| 0 <= i < changes.drop_last().len() implies !(if condition.input {
        touches_reader(#[trigger] changes.drop_last()[i])
    } else {
        touches_writer(changes.drop_last()[i])
    }) by {
        assert(changes.drop_last()[i] == changes[i]);
    }
    assert(changes.last() == changes[changes.len() - 1]);
}

/// A task that waits for input goes on waiting, and being watched for, until
/// another waits in its place or an event with input is dispatched, whatever
/// happens to the source in between. The first event with input that an open
/// source hears of finds it, unless the other end is gone.
pub proof fn law_reader_keeps_waiting<T>(
    s: Inner<T>,
    condition: IoCondition,
    task: T,
    changes: Seq<Change<T>>,
    ready: IoCondition,
)
    requires
        condition.input,
        s.read == State::Blocked(task),
        s.active.input,
        leave_alone(changes, condition),
        ready.input,
    ensures
        after(s, changes).read == State::Blocked(task),
        after(s, changes).active.input,
        after(s, changes).finds_unless_over(ready),
        after(s, changes).woken_reader(ready) == Some(task),
    decreases changes.len(),
{
    if changes.len() > 0 {
        lemma_leave_alone_but_last(changes, condition);
        law_reader_keeps_waiting(s, condition, task, changes.drop_last(), ready);
    }
}

/// A task that waits for output goes on waiting, and being watched for, until
/// another waits in its place or an event with output is dispatched, whatever
/// happens to the source in between. The first event with output that an open
/// source hears of finds it, unless the other end is gone.
pub proof fn law_writer_keeps_waiting<T>(
    s: Inner<T>,
    condition: IoCondition,
    task: T,
    changes: Seq<Change<T>>,
    ready: IoCondition,
)
    requires
        !condition.input,
        s.write == State::Blocked(task),
        s.active.output,
        leave_alone(changes, condition),
        ready.output,
    ensures
        after(s, changes).write == State::Blocked(task),
        after(s, changes).active.output,
        after(s, changes).finds_unless_over(ready),
        after(s, changes).woken_writer(ready) == Some(task),
    decreases changes.len(),
{
    if changes.len() > 0 {
        lemma_leave_alone_but_last(changes, condition);
        law_writer_keeps_waiting(s, condition, task, changes.drop_last(), ready);
    }
}

/// Whether each source comes of the one before it by at most one change.
pub open spec fn is_history<T>(history: Seq<Inner<T>>) -> bool {
    forall|i: int, j: int|
        0 <= i && j == i + 1 && j < history.len() ==> at_most_one_change(
            #[trigger] history[i],
            #[trigger] history[j],
        )
}

/// Throughout a history a source stays watched as it should be, stays closed
/// once it is closed, and keeps its channel.
pub proof fn law_history_is_kept<T>(history: Seq<Inner<T>>, from: int, to: int)
    requires
        is_history(history),
        0 <= from <= to < history.len(),
    ensures
        history[from].wf() ==> history[to].wf(),
        history[from].is_closed ==> history[to].is_closed,
        history[from].channel == history[to].channel,
    decreases to - from,
{
    if from < to {
        law_history_is_kept(history, from, to - 1);
        assert(at_most_one_change(history[to - 1], history[to]));
    }
}

/// A closed source stays closed, and the channel of a source stays the same.
pub proof fn law_closed_for_good<T>(s: Inner<T>, changes: Seq<Change<T>>)
    ensures
        s.is_closed ==> after(s, changes).is_closed,
        after(s, changes).channel == s.channel,
    decreases changes.len(),
{
    if changes.len() > 0 {
        law_closed_for_good(s, changes.drop_last());
    }
}

/// A source starts open over its channel, watched as it is told, with nothing
/// heard of in either direction.
pub proof fn law_source_starts_open<T>(
    channel: Channel,
    active: IoCondition,
    source: Inner<T>,
    socket: Socket,
    connected: Inner<T>,
    fd: i32,
    accepted: Inner<T>,
)
    requires
        call_ensures(create_source::<T>, (channel, active), source),
        call_ensures(create_source_from_socket::<T>, (socket,), connected),
        call_ensures(new_source::<T>, (fd,), accepted),
    ensures
        source.channel == channel && source.active == active,
        connected.channel.fd == socket.fd && accepted.channel.fd == fd,
        connected.channel.close_on_drop && !accepted.channel.close_on_drop,
        !connected.channel.buffered && accepted.channel.buffered,
        connected.active.input && connected.active.output,
        !connected.active.hang_up && !connected.active.not_open,
        accepted.active == connected.active,
        !source.is_closed && !connected.is_closed && !accepted.is_closed,
        source.read is NotReady && connected.read is NotReady && accepted.read is NotReady,
        source.write is NotReady && connected.write is NotReady && accepted.write is NotReady,
{
}

/// The event loop is never kept from sleeping.
pub proof fn law_source_never_hurries<T>(s: &Inner<T>, ready: (bool, Option<Duration>))
    requires
        call_ensures(Inner::<T>::prepare, (s,), ready),
    ensures
        !ready.0 && ready.1 is None,
{
}

/// A check asks which conditions hold exactly on an open source. It closes the
/// channel exactly where they say that the other end is gone, and says after
/// that that there is nothing to dispatch. Otherwise there is something exactly
/// where a task waits for a condition that holds. It changes nothing but that a
/// source whose channel was closed is closed.
pub proof fn law_check_finds_who_waits<T>(s: &mut Inner<T>, event: CheckEvent, action: CheckAction)
    requires
        call_ensures(Inner::<T>::check, (s, event), action),
    ensures
        event is Start && old(s).is_closed ==> action == CheckAction::Return(false),
        event is Start && !old(s).is_closed ==> action == CheckAction::Query,
        event is Closed ==> action == CheckAction::Return(false),
        event matches CheckEvent::Queried(ready) ==> {
            &&& ready.hang_up || ready.not_open <==> action == CheckAction::Close
            &&& !ready.hang_up && !ready.not_open ==> action == CheckAction::Return(
                (ready.input && old(s).read is Blocked) || (ready.output && old(s).write is Blocked),
            )
        },
        event is Closed ==> *final(s) == (Inner { is_closed: true, ..*old(s) }),
        !(event is Closed) ==> *final(s) == *old(s),
{
}

/// A dispatch hands out, in each direction that the conditions have, the task
/// that waits there and nobody else, notes that the direction is ready, and no
/// longer watches it. It leaves the other direction, the channel and whether the
/// source is closed as they were, and keeps the source.
pub proof fn law_dispatch_hands_out_who_waits<T>(
    s: &mut Inner<T>,
    ready: IoCondition,
    result: Dispatch<T>,
)
    requires
        call_ensures(Inner::<T>::dispatch, (s, ready), result),
    ensures
        result.keep,
        result.active == final(s).active,
        result.reader is Some <==> ready.input && old(s).read is Blocked,
        result.reader matches Some(task) ==> old(s).read == State::Blocked(task),
        result.writer is Some <==> ready.output && old(s).write is Blocked,
        result.writer matches Some(task) ==> old(s).write == State::Blocked(task),
        ready.input ==> final(s).read is Ready && !final(s).active.input,
        !ready.input ==> final(s).read == old(s).read && final(s).active.input
            == old(s).active.input,
        ready.output ==> final(s).write is Ready && !final(s).active.output,
        !ready.output ==> final(s).write == old(s).write && final(s).active.output
            == old(s).active.output,
        final(s).channel == old(s).channel,
        final(s).is_closed == old(s).is_closed,
        final(s).active.hang_up == old(s).active.hang_up,
        final(s).active.not_open == old(s).active.not_open,
{
}

/// Where a check finds something on conditions that do not say that the other
/// end is gone, the dispatch on the same conditions wakes a task, and where it
/// finds nothing, nobody.
pub proof fn law_dispatch_answers_check<T>(
    s: &mut Inner<T>,
    found: bool,
    t: &mut Inner<T>,
    ready: IoCondition,
    result: Dispatch<T>,
)
    requires
        call_ensures(
            Inner::<T>::check,
            (s, CheckEvent::Queried(ready)),
            CheckAction::Return(found),
        ),
        *old(t) == *final(s),
        call_ensures(Inner::<T>::dispatch, (t, ready), result),
    ensures
        found <==> result.reader is Some || result.writer is Some,
{
}

} // verus!
