//! Byte streams over Unix domain sockets.

use futures::Async;
use vstd::prelude::*;

use crate::condition::IoCondition;
use crate::connect;
use crate::error::{ErrorKind, IoError, StreamError};
use crate::source;
use crate::source::Inner;
use crate::state::State;

verus! {

/// A raw byte stream over a Unix domain socket. `T` is a handle on a task.
#[derive(Debug, PartialEq, Eq)]
pub struct UnixStream<T> {
    pub inner: Inner<T>,
}

/// What has come of the action that a transfer asked for.
#[derive(Debug, PartialEq, Eq)]
pub enum IoEvent<T, V, E> {
    /// Nothing has been asked for yet.
    Start,
    /// What the call on the channel returned.
    Transferred(Result<V, IoError<E>>),
    /// The task that has to wait, with the error that made it wait.
    Parked(T, IoError<E>),
}

/// What a transfer asks for next.
#[derive(Debug, PartialEq, Eq)]
pub enum IoAction<V, E> {
    /// Make the call on the channel.
    Transfer,
    /// Get a handle on the current task.
    Park(IoError<E>),
    /// Watch the descriptor for `modify`, where it is given; the transfer ends
    /// with `result`.
    Return { modify: Option<IoCondition>, result: Result<V, StreamError<E>> },
}

/// What has come of the action that a test for readiness asked for.
#[derive(Debug, PartialEq, Eq)]
pub enum PollEvent<T> {
    /// Nothing has been asked for yet.
    Start,
    /// The conditions that the last poll reported.
    Queried(IoCondition),
    /// The channel is closed and its descriptor no longer watched.
    Closed,
    /// The task that has to wait.
    Parked(T),
}

/// What a test for readiness asks for next.
#[derive(Debug, PartialEq)]
pub enum PollAction {
    /// Ask which conditions the last poll reported.
    Query,
    /// Flush and close the channel, and stop watching its descriptor.
    Close,
    /// Get a handle on the current task.
    Park,
    /// Watch the descriptor for `modify`, where it is given; the test ends with
    /// `ready`.
    Return { modify: Option<IoCondition>, ready: Async<()> },
}

/// What has come of the action that a transfer with a buffer asked for.
#[derive(Debug, PartialEq, Eq)]
pub enum BufEvent<T, E> {
    /// Nothing has been asked for yet.
    Start,
    /// The conditions that the last poll reported.
    Queried(IoCondition),
    /// The channel is closed and its descriptor no longer watched.
    Closed,
    /// What the call on the channel returned.
    Transferred(Result<usize, IoError<E>>),
    /// The task that has to wait.
    Parked(T),
}

/// What a transfer with a buffer asks for next.
#[derive(Debug, PartialEq)]
pub enum BufAction<E> {
    /// Ask which conditions the last poll reported.
    Query,
    /// Flush and close the channel, and stop watching its descriptor.
    Close,
    /// Make the call on the channel, with what the buffer holds or has room for.
    Transfer,
    /// Get a handle on the current task.
    Park,
    /// Advance the buffer by `advance` bytes, then watch the descriptor for
    /// `modify`, where it is given; the transfer ends with `result`.
    Return {
        advance: usize,
        modify: Option<IoCondition>,
        result: Result<Async<usize>, IoError<E>>,
    },
}

/// The condition that a reader waits for.
pub open spec fn reading() -> IoCondition {
    IoCondition { input: true, output: false, hang_up: false, not_open: false }
}

/// The condition that a writer waits for.
pub open spec fn writing() -> IoCondition {
    IoCondition { input: false, output: true, hang_up: false, not_open: false }
}

/// Whether the conditions include the one that is waited for.
pub open spec fn met(condition: IoCondition, ready: IoCondition) -> bool {
    if condition.input {
        ready.input
    } else {
        ready.output
    }
}

/// A transfer on an open stream: whatever the channel says is what is returned,
/// but where it would have had to wait, the current task is made to wait first.
pub open spec fn transferring<T, V, E>(
    s: Inner<T>,
    condition: IoCondition,
    event: IoEvent<T, V, E>,
) -> (Inner<T>, IoAction<V, E>) {
    match event {
        IoEvent::Start => (s, IoAction::Transfer),
        IoEvent::Transferred(Ok(value)) => (s, IoAction::Return { modify: None, result: Ok(value) }),
        IoEvent::Transferred(Err(error)) => if error.kind == ErrorKind::WouldBlock {
            (s, IoAction::Park(error))
        } else {
            (s, IoAction::Return { modify: None, result: Err(StreamError::Io(error)) })
        },
        IoEvent::Parked(task, error) => (
            s.blocked(condition, task),
            IoAction::Return {
                modify: Some(s.blocked(condition, task).active),
                result: Err(StreamError::Io(error)),
            },
        ),
    }
}

/// A read: a transfer that a closed stream refuses at once.
pub open spec fn reads<T, E>(s: Inner<T>, event: IoEvent<T, usize, E>) -> (
    Inner<T>,
    IoAction<usize, E>,
) {
    if event is Start && s.is_closed {
        (s, IoAction::Return { modify: None, result: Err(StreamError::Closed) })
    } else {
        transferring(s, reading(), event)
    }
}

/// A test for readiness: a stream whose other end is gone is closed and not
/// ready; on any other that does not meet the condition, the current task is
/// made to wait for it.
pub open spec fn polling<T>(s: Inner<T>, condition: IoCondition, event: PollEvent<T>) -> (
    Inner<T>,
    PollAction,
) {
    match event {
        PollEvent::Start => if s.is_closed {
            (s, PollAction::Return { modify: None, ready: Async::NotReady })
        } else {
            (s, PollAction::Query)
        },
        PollEvent::Queried(ready) => if ready.is_over() {
            (s, PollAction::Close)
        } else if met(condition, ready) {
            (s, PollAction::Return { modify: None, ready: Async::Ready(()) })
        } else {
            (s, PollAction::Park)
        },
        PollEvent::Closed => (
            s.closed(),
            PollAction::Return { modify: None, ready: Async::NotReady },
        ),
        PollEvent::Parked(task) => (
            s.blocked(condition, task),
            PollAction::Return {
                modify: Some(s.blocked(condition, task).active),
                ready: Async::NotReady,
            },
        ),
    }
}

/// A transfer with a buffer: it is tried only where the test for readiness says
/// so, and where the channel would have had to wait after all, the current task
/// is made to wait and nothing is reported but that.
pub open spec fn buffering<T, E>(s: Inner<T>, condition: IoCondition, event: BufEvent<T, E>) -> (
    Inner<T>,
    BufAction<E>,
) {
    match event {
        BufEvent::Start => buffer_polled(polling(s, condition, PollEvent::Start)),
        BufEvent::Queried(ready) => buffer_polled(
            polling(s, condition, PollEvent::Queried(ready)),
        ),
        BufEvent::Closed => buffer_polled(polling(s, condition, PollEvent::Closed)),
        BufEvent::Parked(task) => buffer_polled(polling(s, condition, PollEvent::Parked(task))),
        BufEvent::Transferred(result) => (s, buffer_transferred(result)),
    }
}

/// A transfer with a buffer after a step of its test for readiness.
pub open spec fn buffer_polled<T, E>(polled: (Inner<T>, PollAction)) -> (Inner<T>, BufAction<E>) {
    (polled.0, buffer_step(polled.1))
}

/// What a transfer with a buffer asks for when its test for readiness asks for
/// `action`.
pub open spec fn buffer_step<E>(action: PollAction) -> BufAction<E> {
    match action {
        PollAction::Query => BufAction::Query,
        PollAction::Close => BufAction::Close,
        PollAction::Park => BufAction::Park,
        PollAction::Return { modify: _, ready: Async::Ready(()) } => BufAction::Transfer,
        PollAction::Return { modify, ready: Async::NotReady } => BufAction::Return {
            advance: 0,
            modify,
            result: Ok(Async::NotReady),
        },
    }
}

/// What a transfer with a buffer asks for once the channel has answered.
pub open spec fn buffer_transferred<E>(result: Result<usize, IoError<E>>) -> BufAction<E> {
    match result {
        Ok(n) => BufAction::Return { advance: n, modify: None, result: Ok(Async::Ready(n)) },
        Err(error) => if error.kind == ErrorKind::WouldBlock {
            BufAction::Park
        } else {
            BufAction::Return { advance: 0, modify: None, result: Err(error) }
        },
    }
}

/// What the end of a stream asks for when its flush asks for `action`: having to
/// wait is no error.
pub open spec fn shutting_down<E>(action: IoAction<(), E>) -> IoAction<Async<()>, E> {
    match action {
        IoAction::Transfer => IoAction::Transfer,
        IoAction::Park(error) => IoAction::Park(error),
        IoAction::Return { modify, result } => IoAction::Return {
            modify,
            result: match result {
                Ok(()) => Ok(Async::Ready(())),
                Err(error) => if error.spec_kind() == ErrorKind::WouldBlock {
                    Ok(Async::NotReady)
                } else {
                    Err(error)
                },
            },
        },
    }
}

impl<T> UnixStream<T> {
    /// Makes a task wait, for input if the condition has it and for output
    /// otherwise, and says what to watch the descriptor for from now on.
    pub fn block(&mut self, condition: &IoCondition, task: T) -> (active: IoCondition)
        ensures
            final(self).inner == old(self).inner.blocked(*condition, task),
            active == final(self).inner.active,
            old(self).inner.wf() ==> final(self).inner.wf(),
    {
        if condition.input {
            self.inner.read = State::Blocked(task);
            self.inner.active = self.inner.active.input(true);
        } else {
            self.inner.write = State::Blocked(task);
            self.inner.active = self.inner.active.output(true);
        }
        self.inner.active
    }

    fn poll(&mut self, condition: &IoCondition, event: PollEvent<T>) -> (action: PollAction)
        ensures
            (final(self).inner, action) == polling(old(self).inner, *condition, event),
            old(self).inner.wf() ==> final(self).inner.wf(),
    {
        match event {
            PollEvent::Start => {
                if self.inner.is_closed {
                    PollAction::Return { modify: None, ready: Async::NotReady }
                } else {
                    PollAction::Query
                }
            },
            PollEvent::Queried(ready) => {
                let met: bool = if condition.input {
                    ready.input
                } else {
                    ready.output
                };
                if ready.hang_up || ready.not_open {
                    PollAction::Close
                } else if met {
                    PollAction::Return { modify: None, ready: Async::Ready(()) }
                } else {
                    PollAction::Park
                }
            },
            PollEvent::Closed => {
                self.inner.is_closed = true;
                PollAction::Return { modify: None, ready: Async::NotReady }
            },
            PollEvent::Parked(task) => {
                let active = self.block(condition, task);
                PollAction::Return { modify: Some(active), ready: Async::NotReady }
            },
        }
    }

    /// Tests whether the stream is ready to be read. If it is not, the current
    /// task is scheduled to be notified when it becomes readable; only on a
    /// stream whose other end is gone there is nothing to be scheduled for.
    pub fn poll_read(&mut self, event: PollEvent<T>) -> (action: PollAction)
        ensures
            (final(self).inner, action) == polling(old(self).inner, reading(), event),
            old(self).inner.wf() ==> final(self).inner.wf(),
    {
        let condition = IoCondition::new().input(true);
        self.poll(&condition, event)
    }

    /// Tests whether the stream is ready to be written to. If it is not, the
    /// current task is scheduled to be notified when it becomes writable; only
    /// on a stream whose other end is gone there is nothing to be scheduled for.
    pub fn poll_write(&mut self, event: PollEvent<T>) -> (action: PollAction)
        ensures
            (final(self).inner, action) == polling(old(self).inner, writing(), event),
            old(self).inner.wf() ==> final(self).inner.wf(),
    {
        let condition = IoCondition::new().output(true);
        self.poll(&condition, event)
    }

    fn transfer<V, E>(&mut self, condition: &IoCondition, event: IoEvent<T, V, E>) -> (action:
        IoAction<V, E>)
        ensures
            (final(self).inner, action) == transferring(old(self).inner, *condition, event),
            old(self).inner.wf() ==> final(self).inner.wf(),
    {
        match event {
            IoEvent::Start => IoAction::Transfer,
            IoEvent::Transferred(Ok(value)) => IoAction::Return { modify: None, result: Ok(value) },
            IoEvent::Transferred(Err(error)) => {
                if error.kind == ErrorKind::WouldBlock {
                    IoAction::Park(error)
                } else {
                    IoAction::Return { modify: None, result: Err(StreamError::Io(error)) }
                }
            },
            IoEvent::Parked(task, error) => {
                let active = self.block(condition, task);
                IoAction::Return { modify: Some(active), result: Err(StreamError::Io(error)) }
            },
        }
    }

    /// Reads into a buffer of the caller's.
    pub fn read<E>(&mut self, event: IoEvent<T, usize, E>) -> (action: IoAction<usize, E>)
        ensures
            (final(self).inner, action) == reads(old(self).inner, event),
            old(self).inner.wf() ==> final(self).inner.wf(),
    {
        let starts: bool = match &event {
            IoEvent::Start => true,
            _ => false,
        };
        if starts && self.inner.is_closed {
            return IoAction::Return { modify: None, result: Err(StreamError::Closed) };
        }
        let condition = IoCondition::new().input(true);
        self.transfer(&condition, event)
    }

    /// Writes from a buffer of the caller's.
    pub fn write<E>(&mut self, event: IoEvent<T, usize, E>) -> (action: IoAction<usize, E>)
        ensures
            (final(self).inner, action) == transferring(old(self).inner, writing(), event),
            old(self).inner.wf() ==> final(self).inner.wf(),
    {
        let condition = IoCondition::new().output(true);
        self.transfer(&condition, event)
    }

    /// Flushes what has been written.
    pub fn flush<E>(&mut self, event: IoEvent<T, (), E>) -> (action: IoAction<(), E>)
        ensures
            (final(self).inner, action) == transferring(old(self).inner, writing(), event),
            old(self).inner.wf() ==> final(self).inner.wf(),
    {
        let condition = IoCondition::new().output(true);
        self.transfer(&condition, event)
    }

    /// Whether a buffer is initialised before it is read into: it is left as it
    /// is.
    pub fn prepare_uninitialized_buffer(&self) -> (initialised: bool)
        ensures
            !initialised,
    {
        false
    }

    /// Reads into a growable buffer, if the stream is ready for it.
    pub fn read_buf<E>(&mut self, event: BufEvent<T, E>) -> (action: BufAction<E>)
        ensures
            (final(self).inner, action) == buffering(old(self).inner, reading(), event),
            old(self).inner.wf() ==> final(self).inner.wf(),
    {
        match event {
            BufEvent::Start => after_poll(self.poll_read(PollEvent::Start)),
            BufEvent::Queried(ready) => after_poll(self.poll_read(PollEvent::Queried(ready))),
            BufEvent::Closed => after_poll(self.poll_read(PollEvent::Closed)),
            BufEvent::Parked(task) => after_poll(self.poll_read(PollEvent::Parked(task))),
            BufEvent::Transferred(result) => after_transfer(result),
        }
    }

    /// Writes from a buffer, if the stream is ready for it.
    pub fn write_buf<E>(&mut self, event: BufEvent<T, E>) -> (action: BufAction<E>)
        ensures
            (final(self).inner, action) == buffering(old(self).inner, writing(), event),
            old(self).inner.wf() ==> final(self).inner.wf(),
    {
        match event {
            BufEvent::Start => after_poll(self.poll_write(PollEvent::Start)),
            BufEvent::Queried(ready) => after_poll(self.poll_write(PollEvent::Queried(ready))),
            BufEvent::Closed => after_poll(self.poll_write(PollEvent::Closed)),
            BufEvent::Parked(task) => after_poll(self.poll_write(PollEvent::Parked(task))),
            BufEvent::Transferred(result) => after_transfer(result),
        }
    }

    /// Ends the stream: that is, flushes it, and says whether it can be let go.
    pub fn shutdown<E>(&mut self, event: IoEvent<T, (), E>) -> (action: IoAction<Async<()>, E>)
        ensures
            final(self).inner == transferring(old(self).inner, writing(), event).0,
            action == shutting_down(transferring(old(self).inner, writing(), event).1),
            old(self).inner.wf() ==> final(self).inner.wf(),
    {
        match self.flush(event) {
            IoAction::Transfer => IoAction::Transfer,
            IoAction::Park(error) => IoAction::Park(error),
            IoAction::Return { modify, result: Ok(()) } => IoAction::Return {
                modify,
                result: Ok(Async::Ready(())),
            },
            IoAction::Return { modify, result: Err(error) } => {
                if error.kind() == ErrorKind::WouldBlock {
                    IoAction::Return { modify, result: Ok(Async::NotReady) }
                } else {
                    IoAction::Return { modify, result: Err(error) }
                }
            },
        }
    }

    /// The descriptor of the stream.
    pub fn as_raw_fd(&self) -> (fd: i32)
        ensures
            fd == self.inner.channel.fd,
    {
        self.inner.channel.fd
    }
}

fn after_poll<E>(action: PollAction) -> (next: BufAction<E>)
    ensures
        next == buffer_step::<E>(action),
{
    match action {
        PollAction::Query => BufAction::Query,
        PollAction::Close => BufAction::Close,
        PollAction::Park => BufAction::Park,
        PollAction::Return { modify: _, ready: Async::Ready(()) } => BufAction::Transfer,
        PollAction::Return { modify, ready: Async::NotReady } => BufAction::Return {
            advance: 0,
            modify,
            result: Ok(Async::NotReady),
        },
    }
}

fn after_transfer<E>(result: Result<usize, IoError<E>>) -> (next: BufAction<E>)
    ensures
        next == buffer_transferred(result),
{
    match result {
        Ok(n) => BufAction::Return { advance: n, modify: None, result: Ok(Async::Ready(n)) },
        Err(error) => if error.kind == ErrorKind::WouldBlock {
            BufAction::Park
        } else {
            BufAction::Return { advance: 0, modify: None, result: Err(error) }
        },
    }
}

/// Whether a task waits for the condition, the descriptor of an open stream is
/// watched for it, and an event that meets it is found by a check, unless the
/// other end is gone, and wakes that task.
pub open spec fn task_is_owed<T>(
    s: Inner<T>,
    condition: IoCondition,
    task: T,
    ready: IoCondition,
) -> bool {
    &&& met(condition, s.active)
    &&& s.finds_unless_over(ready)
    &&& condition.input ==> s.read == State::Blocked(task) && s.woken_reader(ready) == Some(task)
    &&& !condition.input ==> s.write == State::Blocked(task) && s.woken_writer(ready) == Some(task)
}

proof fn lemma_blocked_task_is_owed<T>(
    s: Inner<T>,
    condition: IoCondition,
    task: T,
    between: Seq<source::Change<T>>,
    ready: IoCondition,
)
    requires
        source::leave_alone(between, condition),
        met(condition, ready),
    ensures
        task_is_owed(source::after(s.blocked(condition, task), between), condition, task, ready),
{
    let waits = s.blocked(condition, task);
    if condition.input {
        source::law_reader_keeps_waiting(waits, condition, task, between, ready);
    } else {
        source::law_writer_keeps_waiting(waits, condition, task, between, ready);
    }
}

/// Reading a closed stream fails as an unexpected end, asks for nothing and
/// changes nothing.
pub proof fn law_closed_stream_refuses_reads<T, E>(s: Inner<T>)
    requires
        s.is_closed,
    ensures
        reads::<T, E>(s, IoEvent::Start) == (
            s,
            IoAction::<usize, E>::Return { modify: None, result: Err(StreamError::Closed) },
        ),
        StreamError::<E>::Closed.spec_kind() == ErrorKind::UnexpectedEof,
{
}

/// A closed stream is never ready, and finds that out without asking.
pub proof fn law_closed_stream_is_not_ready<T, E>(s: Inner<T>, condition: IoCondition)
    requires
        s.is_closed,
    ensures
        polling(s, condition, PollEvent::Start) == (
            s,
            PollAction::Return { modify: None, ready: Async::NotReady },
        ),
        buffering::<T, E>(s, condition, BufEvent::Start) == (
            s,
            BufAction::<E>::Return { advance: 0, modify: None, result: Ok(Async::NotReady) },
        ),
{
}

/// A stream whose other end is gone is closed by the first test that hears of
/// it, in whichever direction, and refuses to be read from then on.
pub proof fn law_hang_up_closes<T, E>(s: Inner<T>, condition: IoCondition, ready: IoCondition)
    requires
        ready.is_over(),
    ensures
        polling(s, condition, PollEvent::Queried(ready)) == (s, PollAction::Close),
        polling(s, condition, PollEvent::Closed).0.is_closed,
        polling(s, condition, PollEvent::Closed).1 == (PollAction::Return {
            modify: None,
            ready: Async::NotReady,
        }),
        reads::<T, E>(polling(s, condition, PollEvent::Closed).0, IoEvent::Start).1 == (IoAction::<
            usize,
            E,
        >::Return { modify: None, result: Err(StreamError::Closed) }),
{
}

/// A test finds a stream ready if and only if the poll reported the condition
/// and not that the other end is gone.
pub proof fn law_ready_if_reported<T>(s: Inner<T>, condition: IoCondition, ready: IoCondition)
    ensures
        polling(s, condition, PollEvent::Queried(ready)).1 == (PollAction::Return {
            modify: None,
            ready: Async::Ready(()),
        }) <==> !ready.is_over() && met(condition, ready),
{
}

/// A task is told that an open stream is not ready only once it waits and the
/// descriptor is watched for what it waits for. Whatever happens to the stream
/// before an event of that kind, as long as no other task takes its place, the
/// event finds the task, and its dispatch hands the task out; only if the other
/// end is gone by then, nobody is woken.
pub proof fn law_not_ready_schedules<T>(
    s: Inner<T>,
    condition: IoCondition,
    task: T,
    ready: IoCondition,
    between: Seq<source::Change<T>>,
    later: IoCondition,
)
    requires
        !ready.is_over(),
        !met(condition, ready),
        source::leave_alone(between, condition),
        met(condition, later),
    ensures
        polling(s, condition, PollEvent::Queried(ready)) == (s, PollAction::Park),
        ({
            let (waits, action) = polling(s, condition, PollEvent::Parked(task));
            &&& action == (PollAction::Return { modify: Some(waits.active), ready: Async::NotReady })
            &&& met(condition, waits.active)
            &&& task_is_owed(source::after(waits, between), condition, task, later)
        }),
{
    lemma_blocked_task_is_owed(s, condition, task, between, later);
}

/// Where the channel would have had to wait, the caller gets the channel's own
/// error, its task waits, and the descriptor is watched for what it waits for.
/// Whatever happens to the stream before an event of that kind, as long as no
/// other task takes its place, the event finds the task, and its dispatch hands
/// the task out; only if the other end is gone by then, nobody is woken.
pub proof fn law_would_block_schedules<T, V, E>(
    s: Inner<T>,
    condition: IoCondition,
    task: T,
    error: IoError<E>,
    between: Seq<source::Change<T>>,
    later: IoCondition,
)
    requires
        error.kind == ErrorKind::WouldBlock,
        source::leave_alone(between, condition),
        met(condition, later),
    ensures
        transferring::<T, V, E>(s, condition, IoEvent::Transferred(Err(error))) == (
            s,
            IoAction::<V, E>::Park(error),
        ),
        ({
            let (waits, action) = transferring::<T, V, E>(
                s,
                condition,
                IoEvent::Parked(task, error),
            );
            &&& action == (IoAction::<V, E>::Return {
                modify: Some(waits.active),
                result: Err(StreamError::Io(error)),
            })
            &&& met(condition, waits.active)
            &&& task_is_owed(source::after(waits, between), condition, task, later)
        }),
{
    lemma_blocked_task_is_owed(s, condition, task, between, later);
}

/// A transfer that does not have to wait returns what the channel returned,
/// and leaves the stream as it was.
pub proof fn law_transfer_passes_results_on<T, V, E>(
    s: Inner<T>,
    condition: IoCondition,
    result: Result<V, IoError<E>>,
)
    requires
        result matches Err(error) ==> error.kind != ErrorKind::WouldBlock,
    ensures
        transferring::<T, V, E>(s, condition, IoEvent::Transferred(result)) == (
            s,
            IoAction::<V, E>::Return {
                modify: None,
                result: match result {
                    Ok(value) => Ok(value),
                    Err(error) => Err(StreamError::Io(error)),
                },
            },
        ),
{
}

/// Where the flush of a stream that is being ended would have had to wait, its
/// task waits for output, the descriptor is watched for that, and the answer is
/// that the stream cannot be let go yet.
pub proof fn law_shutdown_waits_for_its_flush<T, E>(
    s: Inner<T>,
    task: T,
    error: IoError<E>,
    between: Seq<source::Change<T>>,
    later: IoCondition,
)
    requires
        error.kind == ErrorKind::WouldBlock,
        source::leave_alone(between, writing()),
        later.output,
    ensures
        ({
            let (same, action) = transferring::<T, (), E>(
                s,
                writing(),
                IoEvent::Transferred(Err(error)),
            );
            same == s && shutting_down(action) == IoAction::<Async<()>, E>::Park(error)
        }),
        ({
            let (waits, action) = transferring::<T, (), E>(
                s,
                writing(),
                IoEvent::Parked(task, error),
            );
            &&& shutting_down(action) == (IoAction::<Async<()>, E>::Return {
                modify: Some(waits.active),
                result: Ok(Async::NotReady),
            })
            &&& waits.write == State::Blocked(task)
            &&& waits.active.output
            &&& task_is_owed(source::after(waits, between), writing(), task, later)
        }),
{
    lemma_blocked_task_is_owed(s, writing(), task, between, later);
}

/// A stream can be let go exactly once its flush has gone through, cannot be yet
/// only where a task has been made to wait for output, and never fails for
/// having to wait.
pub proof fn law_shutdown_answers_for_its_flush<T, E>(s: Inner<T>, event: IoEvent<T, (), E>)
    ensures
        shutting_down(transferring(s, writing(), event).1) matches IoAction::Return {
            modify,
            result,
        } ==> {
            &&& result == Ok::<Async<()>, StreamError<E>>(Async::Ready(())) <==> event
                == IoEvent::<T, (), E>::Transferred(Ok(()))
            &&& result == Ok::<Async<()>, StreamError<E>>(Async::NotReady) ==> {
                let now = transferring(s, writing(), event).0;
                &&& event matches IoEvent::Parked(task, _)
                &&& now.write == State::Blocked(task)
                &&& now.active.output
                &&& modify == Some(now.active)
            }
            &&& result matches Err(error) ==> error.spec_kind() != ErrorKind::WouldBlock
        },
{
}

/// A transfer with a buffer never fails for having to wait, and advances the
/// buffer by as many bytes as it reports, which is none unless it is ready.
pub proof fn law_buffer_advances_by_what_is_reported<T, E>(
    s: Inner<T>,
    condition: IoCondition,
    event: BufEvent<T, E>,
)
    ensures
        buffering(s, condition, event).1 matches BufAction::Return { advance, modify: _, result }
            ==> match result {
            Ok(Async::Ready(n)) => advance == n,
            Ok(Async::NotReady) => advance == 0,
            Err(error) => advance == 0 && error.kind != ErrorKind::WouldBlock,
        },
{
}

/// A transfer with a buffer asks for the transfer only on an answer to its
/// query that reports the condition.
pub proof fn law_buffer_transfers_only_when_ready<T, E>(
    s: Inner<T>,
    condition: IoCondition,
    event: BufEvent<T, E>,
)
    ensures
        buffering(s, condition, event).1 == BufAction::<E>::Transfer <==> (event matches
            BufEvent::Queried(ready) && !ready.is_over() && met(condition, ready)),
{
}

/// Whatever is done with a stream, its source changes in one of the known ways,
/// at most once at a time: on a check, a dispatch, a poll or a transfer, and on
/// a poll of the future that holds it while it is being connected. The future
/// hands the stream out as it is.
pub proof fn law_operations_are_changes<T, V, E>(
    s: Inner<T>,
    check: source::CheckEvent,
    ready: IoCondition,
    wait: connect::WaitEvent<T>,
    condition: IoCondition,
    poll: PollEvent<T>,
    io: IoEvent<T, V, E>,
    read: IoEvent<T, usize, E>,
    buf: BufEvent<T, E>,
)
    ensures
        source::at_most_one_change(s, s.checked(check).0),
        source::at_most_one_change(s, s.dispatched(ready)),
        match connect::asked::<T, E>(Ok(UnixStream { inner: s }), wait) {
            (Some(Ok(stream)), _) => source::at_most_one_change(s, stream.inner),
            (Some(Err(_)), _) => false,
            (None, action) => action == connect::WaitAction::<T, E>::Return(
                Ok(Async::Ready(UnixStream { inner: s })),
            ),
        },
        source::at_most_one_change(s, polling(s, condition, poll).0),
        source::at_most_one_change(s, transferring(s, condition, io).0),
        source::at_most_one_change(s, reads(s, read).0),
        source::at_most_one_change(s, buffering(s, condition, buf).0),
{
    assert(s.closed() == source::changed(s, source::Change::Close));
    assert(s.dispatched(ready) == source::changed(s, source::Change::Dispatch(ready)));
    match wait {
        connect::WaitEvent::Parked(task) => {
            assert(source::changed(s, source::Change::Connect(task)) == s.connecting(task));
        },
        _ => {},
    }
    match poll {
        PollEvent::Parked(task) => {
            assert(source::changed(s, source::Change::Block(condition, task)) == s.blocked(condition, task));
        },
        _ => {},
    }
    match io {
        IoEvent::Parked(task, _) => {
            assert(source::changed(s, source::Change::Block(condition, task)) == s.blocked(condition, task));
        },
        _ => {},
    }
    match read {
        IoEvent::Parked(task, _) => {
            assert(source::changed(s, source::Change::Block(reading(), task)) == s.blocked(reading(), task));
        },
        _ => {},
    }
    match buf {
        BufEvent::Parked(task) => {
            assert(source::changed(s, source::Change::Block(condition, task)) == s.blocked(condition, task));
        },
        _ => {},
    }
}

/// A task that is made to wait for a condition is the one that waits in that
/// direction, which is watched from then on. Nothing else about the stream
/// changes.
pub proof fn law_block_waits_in_one_direction<T>(
    stream: &mut UnixStream<T>,
    condition: &IoCondition,
    task: T,
    active: IoCondition,
)
    requires
        call_ensures(UnixStream::<T>::block, (stream, condition, task), active),
    ensures
        condition.input ==> final(stream).inner == (Inner {
            read: State::Blocked(task),
            active: IoCondition { input: true, ..old(stream).inner.active },
            ..old(stream).inner
        }),
        !condition.input ==> final(stream).inner == (Inner {
            write: State::Blocked(task),
            active: IoCondition { output: true, ..old(stream).inner.active },
            ..old(stream).inner
        }),
        active == final(stream).inner.active,
{
}

/// A write, a flush and a shutdown are tried on the channel whatever the state
/// of the stream, and a read unless the stream is closed: that is refused as
/// such. To start changes nothing.
pub proof fn law_transfers_are_tried<T, E>(
    reader: &mut UnixStream<T>,
    read: IoAction<usize, E>,
    writer: &mut UnixStream<T>,
    write: IoAction<usize, E>,
    flusher: &mut UnixStream<T>,
    flush: IoAction<(), E>,
    ender: &mut UnixStream<T>,
    shutdown: IoAction<Async<()>, E>,
)
    requires
        call_ensures(UnixStream::<T>::read::<E>, (reader, IoEvent::Start), read),
        call_ensures(UnixStream::<T>::write::<E>, (writer, IoEvent::Start), write),
        call_ensures(UnixStream::<T>::flush::<E>, (flusher, IoEvent::Start), flush),
        call_ensures(UnixStream::<T>::shutdown::<E>, (ender, IoEvent::Start), shutdown),
    ensures
        write is Transfer && flush is Transfer && shutdown is Transfer,
        !old(reader).inner.is_closed ==> read is Transfer,
        old(reader).inner.is_closed ==> read == (IoAction::<usize, E>::Return {
            modify: None,
            result: Err(StreamError::Closed),
        }),
        *final(reader) == *old(reader) && *final(writer) == *old(writer),
        *final(flusher) == *old(flusher) && *final(ender) == *old(ender),
{
}

/// A read and a write give back exactly what the channel gave, as many bytes or
/// the same error, and leave the stream as it was; only where the channel would
/// have had to wait, the current task is asked for first, with that error.
pub proof fn law_bytes_are_counted_as_they_were<T, E>(
    reader: &mut UnixStream<T>,
    read: IoAction<usize, E>,
    writer: &mut UnixStream<T>,
    write: IoAction<usize, E>,
    result: Result<usize, IoError<E>>,
)
    requires
        call_ensures(UnixStream::<T>::read::<E>, (reader, IoEvent::Transferred(result)), read),
        call_ensures(UnixStream::<T>::write::<E>, (writer, IoEvent::Transferred(result)), write),
    ensures
        read == write,
        result matches Ok(n) ==> read == (IoAction::<usize, E>::Return {
            modify: None,
            result: Ok(n),
        }),
        result matches Err(error) ==> if error.kind == ErrorKind::WouldBlock {
            read == IoAction::<usize, E>::Park(error)
        } else {
            read == (IoAction::<usize, E>::Return {
                modify: None,
                result: Err(StreamError::Io(error)),
            })
        },
        *final(reader) == *old(reader) && *final(writer) == *old(writer),
{
}

/// A flush gives back what the channel gave. A shutdown does the same, but says
/// that it is ready where the flush went through. Where the channel would have
/// had to wait, both ask for the current task first, with that error. The stream
/// stays as it was.
pub proof fn law_flush_and_shutdown_report_the_channel<T, E>(
    flusher: &mut UnixStream<T>,
    flush: IoAction<(), E>,
    ender: &mut UnixStream<T>,
    shutdown: IoAction<Async<()>, E>,
    result: Result<(), IoError<E>>,
)
    requires
        call_ensures(UnixStream::<T>::flush::<E>, (flusher, IoEvent::Transferred(result)), flush),
        call_ensures(
            UnixStream::<T>::shutdown::<E>,
            (ender, IoEvent::Transferred(result)),
            shutdown,
        ),
    ensures
        result is Ok ==> flush == (IoAction::<(), E>::Return { modify: None, result: Ok(()) }),
        result is Ok ==> shutdown == (IoAction::<Async<()>, E>::Return {
            modify: None,
            result: Ok(Async::Ready(())),
        }),
        result matches Err(error) ==> if error.kind == ErrorKind::WouldBlock {
            &&& flush == IoAction::<(), E>::Park(error)
            &&& shutdown == IoAction::<Async<()>, E>::Park(error)
        } else {
            &&& flush == (IoAction::<(), E>::Return {
                modify: None,
                result: Err(StreamError::Io(error)),
            })
            &&& shutdown == (IoAction::<Async<()>, E>::Return {
                modify: None,
                result: Err(StreamError::Io(error)),
            })
        },
        *final(flusher) == *old(flusher) && *final(ender) == *old(ender),
{
}

/// A task that has to wait for a read waits for input, and one that has to wait
/// for a write, a flush or a shutdown for output. That direction is watched, the
/// event loop is told so, and the rest of the stream stays as it was. The answer
/// is the error of the channel, and of a shutdown, that it is not ready.
pub proof fn law_transfers_that_wait<T, E>(
    stream: UnixStream<T>,
    task: T,
    error: IoError<E>,
    reader: &mut UnixStream<T>,
    read: IoAction<usize, E>,
    writer: &mut UnixStream<T>,
    write: IoAction<usize, E>,
    flusher: &mut UnixStream<T>,
    flush: IoAction<(), E>,
    ender: &mut UnixStream<T>,
    shutdown: IoAction<Async<()>, E>,
)
    requires
        *old(reader) == stream && *old(writer) == stream,
        *old(flusher) == stream && *old(ender) == stream,
        call_ensures(UnixStream::<T>::read::<E>, (reader, IoEvent::Parked(task, error)), read),
        call_ensures(UnixStream::<T>::write::<E>, (writer, IoEvent::Parked(task, error)), write),
        call_ensures(UnixStream::<T>::flush::<E>, (flusher, IoEvent::Parked(task, error)), flush),
        call_ensures(
            UnixStream::<T>::shutdown::<E>,
            (ender, IoEvent::Parked(task, error)),
            shutdown,
        ),
    ensures
        final(reader).inner == (Inner {
            read: State::Blocked(task),
            active: IoCondition { input: true, ..stream.inner.active },
            ..stream.inner
        }),
        final(writer).inner == (Inner {
            write: State::Blocked(task),
            active: IoCondition { output: true, ..stream.inner.active },
            ..stream.inner
        }),
        *final(flusher) == *final(writer) && *final(ender) == *final(writer),
        read == (IoAction::<usize, E>::Return {
            modify: Some(final(reader).inner.active),
            result: Err(StreamError::Io(error)),
        }),
        write == (IoAction::<usize, E>::Return {
            modify: Some(final(writer).inner.active),
            result: Err(StreamError::Io(error)),
        }),
        flush == (IoAction::<(), E>::Return {
            modify: Some(final(writer).inner.active),
            result: Err(StreamError::Io(error)),
        }),
        shutdown == (IoAction::<Async<()>, E>::Return {
            modify: Some(final(writer).inner.active),
            result: if error.kind == ErrorKind::WouldBlock {
                Ok(Async::NotReady)
            } else {
                Err(StreamError::Io(error))
            },
        }),
{
}

/// A task that had to wait for a read or a write is the one that the next
/// dispatch of that direction hands out.
pub proof fn law_transfer_that_waits_is_woken<T, E>(
    reader: &mut UnixStream<T>,
    read: IoAction<usize, E>,
    writer: &mut UnixStream<T>,
    write: IoAction<usize, E>,
    task: T,
    error: IoError<E>,
    ready: IoCondition,
    read_source: &mut Inner<T>,
    read_dispatch: source::Dispatch<T>,
    write_source: &mut Inner<T>,
    write_dispatch: source::Dispatch<T>,
)
    requires
        call_ensures(UnixStream::<T>::read::<E>, (reader, IoEvent::Parked(task, error)), read),
        call_ensures(UnixStream::<T>::write::<E>, (writer, IoEvent::Parked(task, error)), write),
        *old(read_source) == final(reader).inner,
        *old(write_source) == final(writer).inner,
        call_ensures(Inner::<T>::dispatch, (read_source, ready), read_dispatch),
        call_ensures(Inner::<T>::dispatch, (write_source, ready), write_dispatch),
    ensures
        ready.input ==> read_dispatch.reader == Some(task),
        !ready.input ==> read_dispatch.reader is None,
        ready.output ==> write_dispatch.writer == Some(task),
        !ready.output ==> write_dispatch.writer is None,
{
}

/// A test for readiness asks which conditions hold exactly on an open stream; a
/// closed one is not ready. It closes the channel exactly where they say that
/// the other end is gone. Otherwise the stream is ready exactly where they have
/// the direction that is tested, and where they have not, the current task is
/// asked for.
pub proof fn law_poll_tests_its_direction<T>(
    reader: &mut UnixStream<T>,
    read: PollAction,
    writer: &mut UnixStream<T>,
    write: PollAction,
    event: PollEvent<T>,
)
    requires
        call_ensures(UnixStream::<T>::poll_read, (reader, event), read),
        call_ensures(UnixStream::<T>::poll_write, (writer, event), write),
    ensures
        event is Start ==> {
            &&& read is Query <==> !old(reader).inner.is_closed
            &&& old(reader).inner.is_closed ==> read == (PollAction::Return {
                modify: None,
                ready: Async::NotReady,
            })
            &&& write is Query <==> !old(writer).inner.is_closed
            &&& old(writer).inner.is_closed ==> write == (PollAction::Return {
                modify: None,
                ready: Async::NotReady,
            })
        },
        event matches PollEvent::Queried(ready) ==> {
            let over = ready.hang_up || ready.not_open;
            &&& read is Close <==> over
            &&& write is Close <==> over
            &&& read is Park <==> !over && !ready.input
            &&& write is Park <==> !over && !ready.output
            &&& !over && ready.input ==> read == (PollAction::Return {
                modify: None,
                ready: Async::Ready(()),
            })
            &&& !over && ready.output ==> write == (PollAction::Return {
                modify: None,
                ready: Async::Ready(()),
            })
        },
        event is Start || event is Queried ==> *final(reader) == *old(reader) && *final(writer)
            == *old(writer),
{
}

/// A stream whose channel a test for readiness has closed is closed and not
/// ready, and a task that has to wait for readiness waits in the direction that
/// is tested, which is watched; nothing else about the stream changes.
pub proof fn law_poll_closes_or_waits<T>(
    reader: &mut UnixStream<T>,
    read: PollAction,
    writer: &mut UnixStream<T>,
    write: PollAction,
    event: PollEvent<T>,
)
    requires
        call_ensures(UnixStream::<T>::poll_read, (reader, event), read),
        call_ensures(UnixStream::<T>::poll_write, (writer, event), write),
    ensures
        event is Closed ==> {
            &&& final(reader).inner == (Inner { is_closed: true, ..old(reader).inner })
            &&& final(writer).inner == (Inner { is_closed: true, ..old(writer).inner })
            &&& read == (PollAction::Return { modify: None, ready: Async::NotReady })
            &&& write == read
        },
        event matches PollEvent::Parked(task) ==> {
            &&& final(reader).inner == (Inner {
                read: State::Blocked(task),
                active: IoCondition { input: true, ..old(reader).inner.active },
                ..old(reader).inner
            })
            &&& final(writer).inner == (Inner {
                write: State::Blocked(task),
                active: IoCondition { output: true, ..old(writer).inner.active },
                ..old(writer).inner
            })
            &&& read == (PollAction::Return {
                modify: Some(final(reader).inner.active),
                ready: Async::NotReady,
            })
            &&& write == (PollAction::Return {
                modify: Some(final(writer).inner.active),
                ready: Async::NotReady,
            })
        },
{
}

/// Whatever number of bytes the channel has read or written, the buffer advances
/// by that number and that number is reported. An error is reported as it is and
/// the buffer stays, but where the channel would have had to wait, the current
/// task is asked for. The stream stays as it was.
pub proof fn law_buffer_advances_by_what_was_transferred<T, E>(
    reader: &mut UnixStream<T>,
    read: BufAction<E>,
    writer: &mut UnixStream<T>,
    write: BufAction<E>,
    result: Result<usize, IoError<E>>,
)
    requires
        call_ensures(UnixStream::<T>::read_buf::<E>, (reader, BufEvent::Transferred(result)), read),
        call_ensures(
            UnixStream::<T>::write_buf::<E>,
            (writer, BufEvent::Transferred(result)),
            write,
        ),
    ensures
        result matches Ok(n) ==> {
            &&& read == (BufAction::<E>::Return {
                advance: n,
                modify: None,
                result: Ok(Async::Ready(n)),
            })
            &&& write == read
        },
        result matches Err(error) ==> if error.kind == ErrorKind::WouldBlock {
            read is Park && write is Park
        } else {
            &&& read == (BufAction::<E>::Return { advance: 0, modify: None, result: Err(error) })
            &&& write == read
        },
        *final(reader) == *old(reader) && *final(writer) == *old(writer),
{
}

/// A transfer with a buffer does to the stream what the test for readiness of
/// its direction does, and asks for the same. It is tried exactly where that
/// test finds the stream ready; where it finds it not ready, nothing is
/// transferred and that is the answer.
pub proof fn law_buffer_goes_by_its_poll<T, E>(
    reader: &mut UnixStream<T>,
    read: BufAction<E>,
    read_tested: &mut UnixStream<T>,
    read_test: PollAction,
    writer: &mut UnixStream<T>,
    write: BufAction<E>,
    write_tested: &mut UnixStream<T>,
    write_test: PollAction,
    event: BufEvent<T, E>,
    test: PollEvent<T>,
)
    requires
        match event {
            BufEvent::Start => test is Start,
            BufEvent::Queried(ready) => test == PollEvent::<T>::Queried(ready),
            BufEvent::Closed => test is Closed,
            BufEvent::Parked(task) => test == PollEvent::Parked(task),
            BufEvent::Transferred(_) => false,
        },
        *old(reader) == *old(read_tested),
        *old(writer) == *old(write_tested),
        call_ensures(UnixStream::<T>::read_buf::<E>, (reader, event), read),
        call_ensures(UnixStream::<T>::poll_read, (read_tested, test), read_test),
        call_ensures(UnixStream::<T>::write_buf::<E>, (writer, event), write),
        call_ensures(UnixStream::<T>::poll_write, (write_tested, test), write_test),
    ensures
        *final(reader) == *final(read_tested),
        *final(writer) == *final(write_tested),
        read is Query <==> read_test is Query,
        read is Close <==> read_test is Close,
        read is Park <==> read_test is Park,
        read is Transfer <==> (read_test matches PollAction::Return { modify: _, ready } && ready is Ready),
        read_test matches PollAction::Return { modify, ready } ==> (ready is NotReady ==> read == (
        BufAction::<E>::Return { advance: 0, modify, result: Ok(Async::NotReady) })),
        write is Query <==> write_test is Query,
        write is Close <==> write_test is Close,
        write is Park <==> write_test is Park,
        write is Transfer <==> (write_test matches PollAction::Return { modify: _, ready }
            && ready is Ready),
        write_test matches PollAction::Return { modify, ready } ==> (ready is NotReady ==> write == (
        BufAction::<E>::Return { advance: 0, modify, result: Ok(Async::NotReady) })),
{
}

/// A stream stands for the descriptor of its channel, and a buffer to read into
/// is left as it is.
pub proof fn law_stream_stands_for_its_channel<T>(
    stream: &UnixStream<T>,
    fd: i32,
    initialised: bool,
)
    requires
        call_ensures(UnixStream::<T>::as_raw_fd, (stream,), fd),
        call_ensures(UnixStream::<T>::prepare_uninitialized_buffer, (stream,), initialised),
    ensures
        fd == stream.inner.channel.fd,
        !initialised,
{
}

} // verus!
