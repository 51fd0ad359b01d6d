//! Connecting a stream.

use futures::Async;
use vstd::prelude::*;

use crate::address;
use crate::condition::IoCondition;
use crate::error::PathError;
use crate::platform::{host_platform, Platform};
use crate::socket::{NewSocket, NewSocketStage, Socket, SocketCall, Step};
use crate::source;
use crate::source::{create_source_from_socket, Channel, Inner};
use crate::state::State;
use crate::stream;
use crate::stream::UnixStream;

verus! {

/// What a connection waits for.
#[derive(Clone, Copy, Debug)]
pub enum ConnectStage {
    /// The socket is being made.
    Create(NewSocketStage),
    /// The socket is being made nonblocking.
    SetNonblocking { socket: Socket },
    /// The socket is being connected by `call`.
    Connect { socket: Socket, call: SocketCall },
    /// A channel for raw bytes is being opened over the socket.
    OpenChannel { socket: Socket },
}

/// A connection that is being set up.
#[derive(Debug)]
pub struct Connecting {
    pub platform: Platform,
    pub path: Vec<u8>,
    pub stage: ConnectStage,
}

/// What a connection asks for.
#[derive(Clone, Copy, Debug)]
pub enum ConnectAction {
    /// Make the system call.
    Call(SocketCall),
    /// Open a channel over the descriptor and take its encoding away.
    OpenChannel { fd: i32, close_on_drop: bool },
}

/// What has come of it.
#[derive(Debug, PartialEq, Eq)]
pub enum ConnectEvent<E> {
    /// The reply to the system call.
    Reply { value: i32, errno: i32 },
    /// Whether the channel lets its encoding be taken away.
    Opened(Result<(), E>),
}

/// Why a connection failed.
#[derive(Debug, PartialEq, Eq)]
pub enum ConnectError<E> {
    /// A system call failed.
    Os(i32),
    /// The path cannot be an address.
    Path(PathError),
    /// The channel could not be opened.
    Channel(E),
}

/// A stream that is not connected yet, as a future: once it is, or once that
/// has failed, it holds the result until it is asked for.
#[derive(Debug, PartialEq, Eq)]
pub struct UnixStreamConnect<T, E> {
    pub state: Option<Result<UnixStream<T>, ConnectError<E>>>,
}

/// What has come of the action that a future asked for.
#[derive(Debug, PartialEq, Eq)]
pub enum WaitEvent<T> {
    /// Nothing has been asked for yet.
    Start,
    /// The task that has to wait.
    Parked(T),
}

/// What a future asks for next.
#[derive(Debug, PartialEq)]
pub enum WaitAction<T, E> {
    /// Get a handle on the current task.
    Park,
    /// The answer.
    Return(Result<Async<UnixStream<T>>, ConnectError<E>>),
}

/// The stream over a socket that has been connected: nothing is known of it
/// yet, and it is watched in both directions.
pub open spec fn connected<T>(socket: Socket) -> UnixStream<T> {
    UnixStream {
        inner: Inner::fresh(
            Channel { fd: socket.fd, close_on_drop: true, buffered: false },
            IoCondition { input: true, output: true, hang_up: false, not_open: false },
        ),
    }
}

/// A future that will fail.
pub open spec fn failed<T, E>(error: ConnectError<E>) -> UnixStreamConnect<T, E> {
    UnixStreamConnect { state: Some(Err(error)) }
}

/// What a future that holds `result` makes of an event: what it holds from then
/// on, and what it asks for. An error is handed out as it is; the stream is
/// handed out once it has become writable, and until then the current task
/// waits for that.
pub open spec fn asked<T, E>(
    result: Result<UnixStream<T>, ConnectError<E>>,
    event: WaitEvent<T>,
) -> (Option<Result<UnixStream<T>, ConnectError<E>>>, WaitAction<T, E>) {
    match result {
        Err(error) => (None, WaitAction::Return(Err(error))),
        Ok(stream) => if stream.inner.write is Ready {
            (None, WaitAction::Return(Ok(Async::Ready(stream))))
        } else {
            match event {
                WaitEvent::Start => (Some(result), WaitAction::Park),
                WaitEvent::Parked(task) => (
                    Some(Ok(UnixStream { inner: stream.inner.connecting(task) })),
                    WaitAction::Return(Ok(Async::NotReady)),
                ),
            }
        },
    }
}

/// How many answers a connection can still wait for.
pub open spec fn answers_left(stage: ConnectStage) -> nat {
    match stage {
        ConnectStage::Create(NewSocketStage::Atomic { ty: _ }) => 6,
        ConnectStage::Create(NewSocketStage::Plain { ty: _ }) => 5,
        ConnectStage::Create(NewSocketStage::CloseOnExec { fd: _ }) => 4,
        ConnectStage::SetNonblocking { socket: _ } => 3,
        ConnectStage::Connect { socket: _, call: _ } => 2,
        ConnectStage::OpenChannel { socket: _ } => 1,
    }
}

/// Whether a connection has got as far as calling its path.
pub open spec fn has_called(stage: ConnectStage) -> bool {
    stage is Connect || stage is OpenChannel
}

impl Connecting {
    /// The same connection at another stage.
    pub open spec fn moves_to(self, stage: ConnectStage, next: Connecting) -> bool {
        next.platform == self.platform && next.path == self.path && next.stage == stage
    }

    /// Whether an event answers what this stage asks for.
    pub open spec fn expects<E>(self, event: ConnectEvent<E>) -> bool {
        self.stage is OpenChannel <==> event is Opened
    }

    /// What follows on an event.
    ///
    /// A path that cannot be an address is found out only once there is a
    /// socket. A connection that is still being made counts as made.
    pub open spec fn follows<T, E>(
        self,
        event: ConnectEvent<E>,
        step: Step<Connecting, UnixStreamConnect<T, E>>,
    ) -> bool {
        match (self.stage, event) {
            (
                ConnectStage::Create(stage),
                ConnectEvent::Reply { value, errno },
            ) => match stage.spec_reply(self.platform, value, errno) {
                Step::Next(stage) => step matches Step::Next(next) && self.moves_to(
                    ConnectStage::Create(stage),
                    next,
                ),
                Step::Done(Ok(socket)) => step matches Step::Next(next) && self.moves_to(
                    ConnectStage::SetNonblocking { socket },
                    next,
                ),
                Step::Done(Err(error)) => step == Step::<Connecting, _>::Done(
                    failed::<T, E>(ConnectError::Os(error)),
                ),
            },
            (
                ConnectStage::SetNonblocking { socket },
                ConnectEvent::Reply { value, errno },
            ) => if value == -1 {
                step == Step::<Connecting, _>::Done(failed::<T, E>(ConnectError::Os(errno)))
            } else if address::path_error(self.path@) is Some {
                step == Step::<Connecting, _>::Done(
                    failed::<T, E>(ConnectError::Path(address::path_error(self.path@)->0)),
                )
            } else {
                &&& step matches Step::Next(next)
                &&& next.stage matches ConnectStage::Connect { socket: same, call }
                &&& same == socket
                &&& socket.connects(self.path@, call)
                &&& self.moves_to(next.stage, next)
            },
            (
                ConnectStage::Connect { socket, call: _ },
                ConnectEvent::Reply { value, errno },
            ) => if value == -1 && errno != self.platform.einprogress {
                step == Step::<Connecting, _>::Done(failed::<T, E>(ConnectError::Os(errno)))
            } else {
                step matches Step::Next(next) && self.moves_to(
                    ConnectStage::OpenChannel { socket },
                    next,
                )
            },
            (ConnectStage::OpenChannel { socket }, ConnectEvent::Opened(Ok(()))) => step == Step::<
                Connecting,
                _,
            >::Done(UnixStreamConnect::<T, E> { state: Some(Ok(connected(socket))) }),
            (ConnectStage::OpenChannel { socket: _ }, ConnectEvent::Opened(Err(error))) => step
                == Step::<Connecting, _>::Done(failed::<T, E>(ConnectError::Channel(error))),
            _ => false,
        }
    }

    /// Starts to connect a new stream to `path`: a stream socket is to be made.
    pub fn begin(platform: Platform, path: Vec<u8>) -> (connecting: Connecting)
        ensures
            connecting.platform == platform,
            connecting.path == path,
            connecting.stage == ConnectStage::Create(
                NewSocketStage::Atomic { ty: platform.sock_stream },
            ),
    {
        let making = NewSocket::begin(platform, platform.sock_stream);
        Connecting { platform, path, stage: ConnectStage::Create(making.stage) }
    }

    /// What this stage asks for.
    pub open spec fn spec_action(self) -> ConnectAction {
        match self.stage {
            ConnectStage::Create(stage) => ConnectAction::Call(stage.spec_call(self.platform)),
            ConnectStage::SetNonblocking { socket } => ConnectAction::Call(
                socket.spec_set_nonblocking(self.platform, true),
            ),
            ConnectStage::Connect { socket: _, call } => ConnectAction::Call(call),
            ConnectStage::OpenChannel { socket } => ConnectAction::OpenChannel {
                fd: socket.fd,
                close_on_drop: true,
            },
        }
    }

    /// What to do now.
    pub fn action(&self) -> (action: ConnectAction)
        ensures
            action == self.spec_action(),
    {
        match self.stage {
            ConnectStage::Create(stage) => ConnectAction::Call(stage.call(&self.platform)),
            ConnectStage::SetNonblocking { socket } => ConnectAction::Call(
                socket.set_nonblocking(&self.platform, true),
            ),
            ConnectStage::Connect { socket: _, call } => ConnectAction::Call(call),
            ConnectStage::OpenChannel { socket } => ConnectAction::OpenChannel {
                fd: socket.fd(),
                close_on_drop: true,
            },
        }
    }

    /// Takes in what has come of it.
    pub fn step<T, E>(self, event: ConnectEvent<E>) -> (step: Step<
        Connecting,
        UnixStreamConnect<T, E>,
    >)
        requires
            self.expects(event),
        ensures
            self.follows(event, step),
    {
        let Connecting { platform, path, stage } = self;
        match event {
            ConnectEvent::Opened(result) => match stage {
                ConnectStage::OpenChannel { socket } => match result {
                    Ok(()) => Step::Done(
                        UnixStreamConnect {
                            state: Some(
                                Ok(UnixStream { inner: create_source_from_socket(socket) }),
                            ),
                        },
                    ),
                    Err(error) => Step::Done(
                        UnixStreamConnect { state: Some(Err(ConnectError::Channel(error))) },
                    ),
                },
                stage => Step::Next(Connecting { platform, path, stage }),
            },
            ConnectEvent::Reply { value, errno } => match stage {
                ConnectStage::Create(stage) => match stage.reply(&platform, value, errno) {
                    Step::Next(stage) => Step::Next(
                        Connecting { platform, path, stage: ConnectStage::Create(stage) },
                    ),
                    Step::Done(Ok(socket)) => Step::Next(
                        Connecting {
                            platform,
                            path,
                            stage: ConnectStage::SetNonblocking { socket },
                        },
                    ),
                    Step::Done(Err(error)) => Step::Done(
                        UnixStreamConnect { state: Some(Err(ConnectError::Os(error))) },
                    ),
                },
                ConnectStage::SetNonblocking { socket } => match Socket::reply(value, errno) {
                    Err(error) => Step::Done(
                        UnixStreamConnect { state: Some(Err(ConnectError::Os(error))) },
                    ),
                    Ok(()) => match socket.connect(path.as_slice()) {
                        Err(error) => Step::Done(
                            UnixStreamConnect { state: Some(Err(ConnectError::Path(error))) },
                        ),
                        Ok(call) => Step::Next(
                            Connecting {
                                platform,
                                path,
                                stage: ConnectStage::Connect { socket, call },
                            },
                        ),
                    },
                },
                ConnectStage::Connect { socket, call: _ } => match Socket::reply(value, errno) {
                    Err(error) if error != platform.einprogress => Step::Done(
                        UnixStreamConnect { state: Some(Err(ConnectError::Os(error))) },
                    ),
                    _ => Step::Next(
                        Connecting { platform, path, stage: ConnectStage::OpenChannel { socket } },
                    ),
                },
                stage => Step::Next(Connecting { platform, path, stage }),
            },
        }
    }
}

impl<T> UnixStream<T> {
    /// Starts to connect a new stream to `path` on this machine.
    pub fn connect(path: Vec<u8>) -> (connecting: Connecting)
        ensures
            connecting.platform.is_linux(),
            connecting.path == path,
            connecting.stage == ConnectStage::Create(
                NewSocketStage::Atomic { ty: connecting.platform.sock_stream },
            ),
    {
        Connecting::begin(host_platform(), path)
    }
}

impl<T, E> UnixStreamConnect<T, E> {
    /// The stream that the future holds, if any, is watched as it should be.
    pub open spec fn wf(self) -> bool {
        self.state matches Some(Ok(stream)) ==> stream.inner.wf()
    }

    /// Asks for the stream. An error is handed out as it is. Otherwise the
    /// stream is handed out once it has become writable, and until then the
    /// current task waits for that. The result can be had only once.
    pub fn poll(&mut self, event: WaitEvent<T>) -> (action: WaitAction<T, E>)
        requires
            old(self).state is Some,
        ensures
            (final(self).state, action) == asked(old(self).state->0, event),
            old(self).wf() ==> final(self).wf(),
    {
        match self.state.take() {
            None => WaitAction::Park,
            Some(Err(error)) => WaitAction::Return(Err(error)),
            Some(Ok(mut stream)) => match event {
                WaitEvent::Start => match stream.inner.write {
                    State::Ready => WaitAction::Return(Ok(Async::Ready(stream))),
                    _ => {
                        self.state = Some(Ok(stream));
                        WaitAction::Park
                    },
                },
                WaitEvent::Parked(task) => {
                    if stream.inner.write.block(task) {
                        self.state = Some(Ok(stream));
                        WaitAction::Return(Ok(Async::NotReady))
                    } else {
                        WaitAction::Return(Ok(Async::Ready(stream)))
                    }
                },
            },
        }
    }
}

/// A connection ends: each answer brings it nearer to its end.
pub proof fn law_connecting_ends<T, E>(
    c: Connecting,
    event: ConnectEvent<E>,
    step: Step<Connecting, UnixStreamConnect<T, E>>,
)
    requires
        c.expects(event),
        c.follows(event, step),
    ensures
        step matches Step::Next(next) ==> answers_left(next.stage) < answers_left(c.stage),
{
}

/// However a connection ends, its result waits in the future, to be had by the
/// first poll; it keeps the path and the platform that it began with till then.
pub proof fn law_result_waits_in_future<T, E>(
    c: Connecting,
    event: ConnectEvent<E>,
    step: Step<Connecting, UnixStreamConnect<T, E>>,
)
    requires
        c.expects(event),
        c.follows(event, step),
    ensures
        match step {
            Step::Next(next) => next.path == c.path && next.platform == c.platform,
            Step::Done(future) => future.state is Some,
        },
{
}

/// A connection that the system is still making goes on as one that is made.
pub proof fn law_in_progress_counts_as_connected<T, E>(
    c: Connecting,
    value: i32,
    errno: i32,
    step: Step<Connecting, UnixStreamConnect<T, E>>,
)
    requires
        c.stage is Connect,
        value != -1,
    ensures
        c.follows::<T, E>(
            ConnectEvent::Reply { value: -1i32, errno: c.platform.einprogress },
            step,
        ) <==> c.follows::<T, E>(ConnectEvent::Reply { value, errno }, step),
{
}

/// A path that cannot be an address is never called: the connection fails
/// before, and if nothing else fails, for that reason.
pub proof fn law_bad_path_is_never_called<T, E>(
    c: Connecting,
    event: ConnectEvent<E>,
    step: Step<Connecting, UnixStreamConnect<T, E>>,
)
    requires
        address::path_error(c.path@) is Some,
        !has_called(c.stage),
        c.expects(event),
        c.follows(event, step),
    ensures
        match step {
            Step::Next(next) => !has_called(next.stage) && address::path_error(next.path@)
                == address::path_error(c.path@),
            Step::Done(future) => future.state matches Some(Err(error)) && match error {
                ConnectError::Os(errno) => event == (ConnectEvent::<E>::Reply { value: -1i32, errno }),
                ConnectError::Path(error) => Some(error) == address::path_error(c.path@),
                ConnectError::Channel(_) => false,
            },
        },
{
}

/// A connection that gets through asks for one socket, makes it nonblocking,
/// connects that socket to the path that was asked for, opens a channel over
/// it, and ends in a stream over it.
pub proof fn law_connection_gets_through<T, E>(
    c: Connecting,
    ty: i32,
    made: (i32, i32),
    with_socket: Connecting,
    set: (i32, i32),
    with_mode: Connecting,
    called: (i32, i32),
    with_call: Connecting,
    future: UnixStreamConnect<T, E>,
)
    requires
        c.stage == ConnectStage::Create(NewSocketStage::Atomic { ty }),
        made.0 != -1,
        c.follows::<T, E>(
            ConnectEvent::Reply { value: made.0, errno: made.1 },
            Step::Next(with_socket),
        ),
        with_socket.follows::<T, E>(
            ConnectEvent::Reply { value: set.0, errno: set.1 },
            Step::Next(with_mode),
        ),
        with_mode.follows::<T, E>(
            ConnectEvent::Reply { value: called.0, errno: called.1 },
            Step::Next(with_call),
        ),
        with_call.follows::<T, E>(ConnectEvent::Opened(Ok(())), Step::Done(future)),
    ensures
        with_socket.spec_action() == ConnectAction::Call(
            (Socket { fd: made.0 }).spec_set_nonblocking(c.platform, true),
        ),
        with_mode.spec_action() matches ConnectAction::Call(call) && (Socket {
            fd: made.0,
        }).connects(c.path@, call),
        with_call.spec_action() == (ConnectAction::OpenChannel {
            fd: made.0,
            close_on_drop: true,
        }),
        future.state == Some(
            Ok::<UnixStream<T>, ConnectError<E>>(connected(Socket { fd: made.0 })),
        ),
{
}

/// A stream that comes of a connection is open, is watched in both directions,
/// and stands for the socket that was connected.
pub proof fn law_connected_stream_is_open<T, E>(
    c: Connecting,
    event: ConnectEvent<E>,
    step: Step<Connecting, UnixStreamConnect<T, E>>,
)
    requires
        c.expects(event),
        c.follows(event, step),
    ensures
        step matches Step::Done(future) ==> (future.state matches Some(Ok(stream)) ==> {
            &&& c.stage matches ConnectStage::OpenChannel { socket }
            &&& stream.inner.channel.fd == socket.fd
            &&& stream.inner.channel.close_on_drop
            &&& !stream.inner.channel.buffered
            &&& !stream.inner.is_closed
            &&& stream.inner.wf()
        }),
{
}

/// A task that waits for a connection is woken when the stream becomes
/// writable, and finds the stream then: the first poll makes it wait, and
/// whatever happens before the event, as long as no other task takes its place,
/// the poll after it hands the stream out. If the other end is gone by then, the
/// stream is closed instead, nobody is woken, and the stream is not handed out.
pub proof fn law_connection_is_handed_out_when_writable<T, E>(
    stream: UnixStream<T>,
    task: T,
    between: Seq<source::Change<T>>,
    ready: IoCondition,
    event: WaitEvent<T>,
    other: T,
)
    requires
        stream.inner.wf(),
        !(stream.inner.write is Ready),
        source::leave_alone(between, stream::writing()),
        ready.output,
    ensures
        ({
            let waits = UnixStream { inner: stream.inner.connecting(task) };
            let then = source::after(waits.inner, between);
            let woken = UnixStream { inner: then.dispatched(ready) };
            &&& asked::<T, E>(Ok(stream), WaitEvent::Start) == (
                Some(Ok::<UnixStream<T>, ConnectError<E>>(stream)),
                WaitAction::<T, E>::Park,
            )
            &&& asked::<T, E>(Ok(stream), WaitEvent::Parked(task)) == (
                Some(Ok::<UnixStream<T>, ConnectError<E>>(waits)),
                WaitAction::<T, E>::Return(Ok(Async::NotReady)),
            )
            &&& waits.inner.active.output
            &&& then.active.output
            &&& then.finds_unless_over(ready)
            &&& then.woken_writer(ready) == Some(task)
            &&& asked::<T, E>(Ok(woken), event) == (
                None::<Result<UnixStream<T>, ConnectError<E>>>,
                WaitAction::<T, E>::Return(Ok(Async::Ready(woken))),
            )
            &&& asked::<T, E>(
                Ok(UnixStream { inner: then.closed() }),
                WaitEvent::Parked(other),
            ).1 == WaitAction::<T, E>::Return(Ok(Async::NotReady))
        }),
{
    source::law_writer_keeps_waiting(
        stream.inner.connecting(task),
        stream::writing(),
        task,
        between,
        ready,
    );
}

/// A connection starts with the path that it is given, by making a stream socket
/// with flags, for the platform that it is given or for this machine's.
pub proof fn law_connection_starts_with_its_path<T>(
    platform: Platform,
    path: Vec<u8>,
    connecting: Connecting,
    here: Connecting,
)
    requires
        call_ensures(Connecting::begin, (platform, path), connecting),
        call_ensures(UnixStream::<T>::connect, (path,), here),
    ensures
        connecting.path@ == path@ && here.path@ == path@,
        connecting.platform == platform && here.platform.is_linux(),
        connecting.stage == ConnectStage::Create(
            NewSocketStage::Atomic { ty: platform.sock_stream },
        ),
        here.stage == ConnectStage::Create(
            NewSocketStage::Atomic { ty: here.platform.sock_stream },
        ),
{
}

/// A connection asks for what its stage waits for: the call that makes its
/// socket, the call that makes that socket nonblocking, the call that it keeps
/// to connect it, and a channel over that socket which closes it when dropped.
pub proof fn law_connection_asks_for_its_stage(connecting: &Connecting, action: ConnectAction)
    requires
        call_ensures(Connecting::action, (connecting,), action),
    ensures
        match connecting.stage {
            ConnectStage::Create(NewSocketStage::Atomic { ty }) => action == ConnectAction::Call(
                SocketCall::Socket {
                    domain: 1,
                    ty: ty | connecting.platform.sock_cloexec | connecting.platform.sock_nonblock,
                    protocol: 0,
                },
            ),
            ConnectStage::Create(NewSocketStage::Plain { ty }) => action == ConnectAction::Call(
                SocketCall::Socket { domain: 1, ty, protocol: 0 },
            ),
            ConnectStage::Create(NewSocketStage::CloseOnExec { fd }) => action
                == ConnectAction::Call(
                SocketCall::Ioctl { fd, request: connecting.platform.fioclex, argument: None },
            ),
            ConnectStage::SetNonblocking { socket } => action == ConnectAction::Call(
                SocketCall::Ioctl {
                    fd: socket.fd,
                    request: connecting.platform.fionbio,
                    argument: Some(1),
                },
            ),
            ConnectStage::Connect { socket: _, call } => action == ConnectAction::Call(call),
            ConnectStage::OpenChannel { socket } => action == (ConnectAction::OpenChannel {
                fd: socket.fd,
                close_on_drop: true,
            }),
        },
{
}

/// Every stage takes in the reply to a call, whatever it is, but the last, which
/// takes in the channel.
pub proof fn law_connection_takes_in_every_answer<T, E>(
    c: Connecting,
    value: i32,
    errno: i32,
    opened: Result<(), E>,
)
    ensures
        !(c.stage is OpenChannel) ==> call_requires(
            Connecting::step::<T, E>,
            (c, ConnectEvent::Reply { value, errno }),
        ),
        c.stage is OpenChannel ==> call_requires(
            Connecting::step::<T, E>,
            (c, ConnectEvent::Opened(opened)),
        ),
{
}

/// Until a connection has ended, it keeps its path and its platform.
pub proof fn law_connection_keeps_its_path<T, E>(
    c: Connecting,
    event: ConnectEvent<E>,
    next: Connecting,
)
    requires
        call_ensures(Connecting::step::<T, E>, (c, event), Step::Next(next)),
    ensures
        next.path == c.path,
        next.platform == c.platform,
{
}

/// While its socket is being made, a connection does with each reply what making
/// a socket does: it goes on with the next call, ends with the same error, or
/// has the very socket that was made set to nonblocking mode.
pub proof fn law_connection_makes_its_socket<T, E>(
    c: Connecting,
    making: NewSocket,
    value: i32,
    errno: i32,
    made: Step<NewSocket, Result<Socket, i32>>,
    step: Step<Connecting, UnixStreamConnect<T, E>>,
)
    requires
        c.stage == ConnectStage::Create(making.stage),
        c.platform == making.platform,
        call_ensures(NewSocket::reply, (making, value, errno), made),
        call_ensures(Connecting::step::<T, E>, (c, ConnectEvent::Reply { value, errno }), step),
    ensures
        made matches Step::Next(next_making) ==> (step matches Step::Next(next) && next.stage
            == ConnectStage::Create(next_making.stage)),
        made matches Step::Done(Err(error)) ==> (step matches Step::Done(future) && future.state
            == Some(Err::<UnixStream<T>, _>(ConnectError::<E>::Os(error)))),
        made matches Step::Done(Ok(socket)) ==> (step matches Step::Next(next) && next.stage == (
        ConnectStage::SetNonblocking { socket })),
{
}

/// Whatever system call fails on the way, the connection ends with the error of
/// that call. There are two exceptions: an unknown argument in the first call
/// for a socket, and a connection that is still being made.
pub proof fn law_failed_call_fails_the_connection<T, E>(
    c: Connecting,
    errno: i32,
    step: Step<Connecting, UnixStreamConnect<T, E>>,
)
    requires
        !(c.stage is OpenChannel),
        call_ensures(Connecting::step::<T, E>, (c, ConnectEvent::Reply { value: -1i32, errno }), step),
    ensures
        step is Next <==> {
            ||| c.stage is Connect && errno == c.platform.einprogress
            ||| (c.stage matches ConnectStage::Create(stage) && stage is Atomic && errno
                == c.platform.einval)
        },
        step matches Step::Done(future) ==> future.state == Some(
            Err::<UnixStream<T>, _>(ConnectError::<E>::Os(errno)),
        ),
        step matches Step::Next(next) ==> {
            &&& c.stage matches ConnectStage::Connect { socket, call: _ } ==> next.stage == (
            ConnectStage::OpenChannel { socket })
            &&& c.stage matches ConnectStage::Create(NewSocketStage::Atomic { ty }) ==> next.stage
                == ConnectStage::Create(NewSocketStage::Plain { ty })
        },
{
}

/// Once its socket is nonblocking, a connection calls its path: it goes on with
/// that socket and a call on its descriptor to the address that holds the path
/// byte for byte. Where the path has no address, it ends for that reason.
pub proof fn law_nonblocking_socket_is_connected_to_the_path<T, E>(
    c: Connecting,
    socket: Socket,
    value: i32,
    errno: i32,
    step: Step<Connecting, UnixStreamConnect<T, E>>,
)
    requires
        c.stage == (ConnectStage::SetNonblocking { socket }),
        value != -1,
        call_ensures(Connecting::step::<T, E>, (c, ConnectEvent::Reply { value, errno }), step),
    ensures
        step is Next <==> c.path@.len() < 108 || (c.path@.len() == 108 && c.path@[0] == 0),
        step matches Step::Done(future) ==> future.state == Some(
            Err::<UnixStream<T>, _>(
                ConnectError::<E>::Path(
                    if c.path@[0] == 0 {
                        PathError::LongerThanRoom
                    } else {
                        PathError::FillsRoom
                    },
                ),
            ),
        ),
        step matches Step::Next(next) ==> {
            &&& next.stage matches ConnectStage::Connect { socket: same, call }
            &&& same == socket
            &&& call matches SocketCall::Connect { fd, addr, len }
            &&& fd == socket.fd
            &&& addr.sun_family == 1
            &&& forall|i: int|
                0 <= i < c.path@.len() ==> #[trigger] addr.sun_path@[i]
                    == c.path@[i] as libc::c_char
            &&& forall|i: int| c.path@.len() <= i < 108 ==> #[trigger] addr.sun_path@[i] == 0
            &&& len == 2 + c.path@.len() + (if c.path@.len() > 0 && c.path@[0] != 0 {
                1int
            } else {
                0
            })
        },
{
}

/// A connected socket is given a channel. A reply other than -1 says that it is
/// connected, and so does the error of a connection that is still being made; on
/// any other error there is no channel, and the connection ends with that error.
pub proof fn law_channel_is_opened_only_once_connected<T, E>(
    c: Connecting,
    socket: Socket,
    call: SocketCall,
    value: i32,
    errno: i32,
    step: Step<Connecting, UnixStreamConnect<T, E>>,
)
    requires
        c.stage == (ConnectStage::Connect { socket, call }),
        call_ensures(Connecting::step::<T, E>, (c, ConnectEvent::Reply { value, errno }), step),
    ensures
        value != -1 || errno == c.platform.einprogress ==> (step matches Step::Next(next)
            && next.stage == (ConnectStage::OpenChannel { socket })),
        value == -1 && errno != c.platform.einprogress ==> (step matches Step::Done(future)
            && future.state == Some(Err::<UnixStream<T>, _>(ConnectError::<E>::Os(errno)))),
{
}

/// Over its channel, a connection becomes an open stream that stands for the
/// socket, closes it when dropped, keeps no buffer, is watched in both
/// directions, and has heard nothing yet. A channel that cannot be opened ends
/// it with the error of the channel.
pub proof fn law_opened_channel_is_the_stream<T, E>(
    c: Connecting,
    socket: Socket,
    opened: Result<(), E>,
    step: Step<Connecting, UnixStreamConnect<T, E>>,
)
    requires
        c.stage == (ConnectStage::OpenChannel { socket }),
        call_ensures(Connecting::step::<T, E>, (c, ConnectEvent::Opened(opened)), step),
    ensures
        opened matches Err(error) ==> (step matches Step::Done(future) && future.state == Some(
            Err::<UnixStream<T>, _>(ConnectError::Channel(error)),
        )),
        opened is Ok ==> (step matches Step::Done(future) && (future.state matches Some(Ok(stream))
            && {
            &&& stream.inner.channel.fd == socket.fd
            &&& stream.inner.channel.close_on_drop
            &&& !stream.inner.channel.buffered
            &&& !stream.inner.is_closed
            &&& stream.inner.active.input && stream.inner.active.output
            &&& !stream.inner.active.hang_up && !stream.inner.active.not_open
            &&& stream.inner.read is NotReady && stream.inner.write is NotReady
        })),
{
}

/// A future hands out its error as it is, and its stream, as it is, exactly once
/// something can be written to it; either can be had once. Until then the
/// current task is asked for, and then waits for output, while the future keeps
/// its stream, otherwise unchanged.
pub proof fn law_future_hands_out_what_it_holds<T, E>(
    future: &mut UnixStreamConnect<T, E>,
    event: WaitEvent<T>,
    action: WaitAction<T, E>,
)
    requires
        old(future).state is Some,
        call_ensures(UnixStreamConnect::<T, E>::poll, (future, event), action),
    ensures
        call_requires(UnixStreamConnect::<T, E>::poll, (future, event)),
        old(future).state matches Some(Err(error)) ==> {
            &&& action == WaitAction::<T, E>::Return(Err(error))
            &&& final(future).state is None
        },
        old(future).state matches Some(Ok(stream)) ==> {
            &&& stream.inner.write is Ready ==> {
                &&& action == WaitAction::<T, E>::Return(Ok(Async::Ready(stream)))
                &&& final(future).state is None
            }
            &&& !(stream.inner.write is Ready) && event is Start ==> {
                &&& action is Park
                &&& *final(future) == *old(future)
            }
            &&& !(stream.inner.write is Ready) ==> (event matches WaitEvent::Parked(task) ==> {
                &&& action == WaitAction::<T, E>::Return(Ok(Async::NotReady))
                &&& final(future).state == Some(
                    Ok::<UnixStream<T>, ConnectError<E>>(
                        UnixStream {
                            inner: Inner { write: State::Blocked(task), ..stream.inner },
                        },
                    ),
                )
            })
        },
{
}

} // verus!
