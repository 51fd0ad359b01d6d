//! Listening for connections.

use core::time::Duration;

use futures::Async;
use nix::sys::socket::UnixAddr;
use vstd::prelude::*;

use crate::address;
use crate::condition::IoCondition;
use crate::error::{ErrorKind, IoError, PathError};
use crate::socket::Step;
use crate::source::{new_source, Channel, Inner};
use crate::stream::UnixStream;

verus! {

/// What the event loop knows of a listener. `T` is a handle on a task.
#[derive(Debug, PartialEq, Eq)]
pub struct UnixListenerInner<T> {
    pub fd: i32,
    /// What the event loop watches the descriptor for.
    pub active: IoCondition,
    /// The task that waits for a connection.
    pub task: Option<T>,
}

/// A socket that listens for connections.
#[derive(Debug, PartialEq, Eq)]
pub struct UnixListener<T> {
    pub inner: UnixListenerInner<T>,
}

/// The connections of a listener, one after the other.
#[derive(Debug, PartialEq, Eq)]
pub struct Incoming<T> {
    pub listener: UnixListener<T>,
}

/// A listener that is being bound to a path: what it asks for next.
#[derive(Debug, PartialEq, Eq)]
pub enum Binding {
    /// Listen on a new socket that is bound to the path.
    Bind { path: Vec<u8> },
    /// Turn the nonblocking mode of the socket on or off.
    SetNonblocking { fd: i32, nonblocking: bool },
}

/// What has come of it.
#[derive(Debug, PartialEq, Eq)]
pub enum BindEvent<E> {
    /// The descriptor of the new socket.
    Bound(Result<i32, E>),
    /// Whether the mode was set.
    ModeSet(Result<(), E>),
}

/// A listener that is being bound to an abstract name: what it asks for next.
pub enum BindingAbstract {
    /// Make a stream socket for Unix domain addresses. The name is kept.
    Socket { nonblocking: bool, protocol: i32, name: Vec<u8> },
    /// Bind the socket.
    Bind { fd: i32, addr: UnixAddr },
    /// Listen on it, for as many pending connections.
    Listen { fd: i32, backlog: usize },
}

/// What has come of it.
#[derive(Debug, PartialEq)]
pub enum BindAbstractEvent {
    /// The descriptor of the new socket.
    Made(nix::Result<i32>),
    /// Whether the socket was bound.
    Bound(nix::Result<()>),
    /// Whether it listens.
    Listens(nix::Result<()>),
}

/// What has come of the action that a listener asked for. `A` is the address of
/// a peer.
#[derive(Debug, PartialEq, Eq)]
pub enum AcceptEvent<T, A, E> {
    /// Nothing has been asked for yet.
    Start,
    /// The descriptor and the address of the connection that was accepted.
    Accepted(Result<(i32, A), IoError<E>>),
    /// The task that has to wait, with the error that made it wait.
    Parked(T, IoError<E>),
    /// Whether the connection was made nonblocking.
    ModeSet { fd: i32, addr: A, result: Result<(), IoError<E>> },
}

/// What a listener asks for next.
#[derive(Debug, PartialEq, Eq)]
pub enum AcceptAction<T, A, E> {
    /// Accept a connection.
    Accept,
    /// Get a handle on the current task.
    Park(IoError<E>),
    /// Turn the nonblocking mode of the connection on or off.
    SetNonblocking { fd: i32, addr: A, nonblocking: bool },
    /// Watch the listener for `modify`, where it is given; the answer is
    /// `result`.
    Return { modify: Option<IoCondition>, result: Result<(UnixStream<T>, A), IoError<E>> },
}

/// What the next connection asks for next.
#[derive(Debug, PartialEq)]
pub enum IncomingAction<T, A, E> {
    /// What the listener asks for, short of an answer.
    Accept(AcceptAction<T, A, E>),
    /// Watch the listener for `modify`, where it is given; the answer is
    /// `result`.
    Return {
        modify: Option<IoCondition>,
        result: Result<Async<Option<(UnixStream<T>, A)>>, IoError<E>>,
    },
}

/// `UnixAddr::new_abstract` of the `nix` crate: the address for an abstract name
/// holds a zero byte, the name, and zeros, and all but the last zeros count. The
/// one error is that there is no room for that.
pub assume_specification[ UnixAddr::new_abstract ](path: &[u8]) -> (r: nix::Result<UnixAddr>)
    ensures
        match r {
            Ok(addr) => {
                &&& path@.len() + 1 <= address::SUN_PATH_ROOM
                &&& addr.0.sun_family == 1
                &&& addr.0.sun_path@ == address::padded(seq![0u8] + path@)
                &&& addr.1 == path@.len() + 1
            },
            Err(error) => {
                &&& path@.len() + 1 > address::SUN_PATH_ROOM
                &&& error == nix::Error::Sys(nix::Errno::ENAMETOOLONG)
            },
        },
;

/// A listener on which nobody waits yet.
pub open spec fn listening<T>(fd: i32) -> UnixListener<T> {
    UnixListener {
        inner: UnixListenerInner {
            fd,
            active: IoCondition { input: true, output: false, hang_up: false, not_open: false },
            task: None,
        },
    }
}

/// The stream over a connection that a listener has accepted.
pub open spec fn accepted<T>(fd: i32) -> UnixStream<T> {
    UnixStream {
        inner: Inner::fresh(
            Channel { fd, close_on_drop: false, buffered: true },
            IoCondition { input: true, output: true, hang_up: false, not_open: false },
        ),
    }
}

impl<T> UnixListenerInner<T> {
    /// A listener is always watched for connections, and for nothing else.
    pub open spec fn wf(self) -> bool {
        self.active == (IoCondition { input: true, output: false, hang_up: false, not_open: false })
    }

    /// Whether the conditions are news to the waiting task.
    pub open spec fn wakes(self, ready: IoCondition) -> bool {
        ready.input && self.task is Some
    }

    /// The listener once a task waits for a connection.
    pub open spec fn blocked(self, task: T) -> Self {
        UnixListenerInner {
            task: Some(task),
            active: IoCondition { input: true, ..self.active },
            ..self
        }
    }

    /// The listener once its task has been handed out.
    pub open spec fn dispatched(self) -> Self {
        UnixListenerInner { task: None, ..self }
    }

    /// How long the event loop may sleep: the source is never ready before it
    /// is polled, and sets no limit.
    pub fn prepare(&self) -> (ready: (bool, Option<Duration>))
        ensures
            ready == (false, None::<Duration>),
    {
        (false, None)
    }

    /// Whether there is anything to dispatch on the conditions that the last
    /// poll reported.
    pub fn check(&self, ready: IoCondition) -> (wakes: bool)
        ensures
            wakes == self.wakes(ready),
    {
        ready.input && self.task.is_some()
    }

    /// Hands out the waiting task to be notified, and says whether the event
    /// loop keeps the source.
    pub fn dispatch(&mut self) -> (result: (Option<T>, bool))
        ensures
            *final(self) == old(self).dispatched(),
            result == (old(self).task, true),
            old(self).wf() ==> final(self).wf(),
    {
        (self.task.take(), true)
    }
}

/// What a listener makes of an event. Where there is no connection yet, the
/// current task is made to wait for one; a connection is made nonblocking before
/// it is handed out as a stream.
pub open spec fn accepting<T, A, E>(s: UnixListenerInner<T>, event: AcceptEvent<T, A, E>) -> (
    UnixListenerInner<T>,
    AcceptAction<T, A, E>,
) {
    match event {
        AcceptEvent::Start => (s, AcceptAction::Accept),
        AcceptEvent::Accepted(Err(error)) => if error.kind == ErrorKind::WouldBlock {
            (s, AcceptAction::Park(error))
        } else {
            (s, AcceptAction::Return { modify: None, result: Err(error) })
        },
        AcceptEvent::Parked(task, error) => (
            s.blocked(task),
            AcceptAction::Return { modify: Some(s.blocked(task).active), result: Err(error) },
        ),
        AcceptEvent::Accepted(Ok((fd, addr))) => (
            s,
            AcceptAction::SetNonblocking { fd, addr, nonblocking: true },
        ),
        AcceptEvent::ModeSet { fd: _, addr: _, result: Err(error) } => (
            s,
            AcceptAction::Return { modify: None, result: Err(error) },
        ),
        AcceptEvent::ModeSet { fd, addr, result: Ok(()) } => (
            s,
            AcceptAction::Return { modify: None, result: Ok((accepted(fd), addr)) },
        ),
    }
}

/// What the next connection makes of what its listener asks for: having to wait
/// is no error.
pub open spec fn next_connection<T, A, E>(action: AcceptAction<T, A, E>) -> IncomingAction<T, A, E> {
    match action {
        AcceptAction::Return { modify, result } => IncomingAction::Return {
            modify,
            result: match result {
                Ok(connection) => Ok(Async::Ready(Some(connection))),
                Err(error) => if error.kind == ErrorKind::WouldBlock {
                    Ok(Async::NotReady)
                } else {
                    Err(error)
                },
            },
        },
        action => IncomingAction::Accept(action),
    }
}

impl Binding {
    /// Whether an event answers what is asked for.
    pub open spec fn expects<E>(self, event: BindEvent<E>) -> bool {
        self is Bind <==> event is Bound
    }

    /// What follows on an event: the listener is handed out once its socket is
    /// nonblocking, and the first error ends everything.
    pub open spec fn follows<T, E>(
        self,
        event: BindEvent<E>,
        step: Step<Binding, Result<UnixListener<T>, E>>,
    ) -> bool {
        match (self, event) {
            (Binding::Bind { path: _ }, BindEvent::Bound(Ok(fd))) => step == Step::<
                Binding,
                Result<UnixListener<T>, E>,
            >::Next(Binding::SetNonblocking { fd, nonblocking: true }),
            (
                Binding::SetNonblocking { fd, nonblocking: _ },
                BindEvent::ModeSet(Ok(())),
            ) => step == Step::<Binding, _>::Done(Ok::<UnixListener<T>, E>(listening(fd))),
            (_, BindEvent::Bound(Err(error))) => step == Step::<Binding, _>::Done(
                Err::<UnixListener<T>, E>(error),
            ),
            (_, BindEvent::ModeSet(Err(error))) => step == Step::<Binding, _>::Done(
                Err::<UnixListener<T>, E>(error),
            ),
            _ => false,
        }
    }

    /// Takes in what has come of it.
    pub fn step<T, E>(self, event: BindEvent<E>) -> (step: Step<Binding, Result<UnixListener<T>, E>>)
        requires
            self.expects(event),
        ensures
            self.follows(event, step),
    {
        match event {
            BindEvent::Bound(Ok(fd)) => Step::Next(
                Binding::SetNonblocking { fd, nonblocking: true },
            ),
            BindEvent::Bound(Err(error)) => Step::Done(Err(error)),
            BindEvent::ModeSet(Err(error)) => Step::Done(Err(error)),
            BindEvent::ModeSet(Ok(())) => match self {
                Binding::SetNonblocking { fd, nonblocking: _ } => Step::Done(
                    Ok(UnixListener::from_unix_listener(fd)),
                ),
                binding => Step::Next(binding),
            },
        }
    }
}

impl BindingAbstract {
    /// Whether an event answers what is asked for.
    pub open spec fn expects(self, event: BindAbstractEvent) -> bool {
        match self {
            BindingAbstract::Socket { .. } => event is Made,
            BindingAbstract::Bind { .. } => event is Bound,
            BindingAbstract::Listen { .. } => event is Listens,
        }
    }

    /// What follows on an event. A name that cannot be an address is found out
    /// only once there is a socket.
    pub open spec fn follows<T>(
        self,
        event: BindAbstractEvent,
        step: Step<BindingAbstract, nix::Result<UnixListener<T>>>,
    ) -> bool {
        match (self, event) {
            (
                BindingAbstract::Socket { nonblocking: _, protocol: _, name },
                BindAbstractEvent::Made(Ok(socket)),
            ) => if name@.len() + 1 > address::SUN_PATH_ROOM {
                step == Step::<BindingAbstract, _>::Done(
                    Err::<UnixListener<T>, _>(nix::Error::Sys(nix::Errno::ENAMETOOLONG)),
                )
            } else {
                &&& step matches Step::Next(BindingAbstract::Bind { fd, addr })
                &&& fd == socket
                &&& addr.0.sun_family == 1
                &&& addr.0.sun_path@ == address::padded(seq![0u8] + name@)
                &&& addr.1 == name@.len() + 1
            },
            (
                BindingAbstract::Bind { fd, addr: _ },
                BindAbstractEvent::Bound(Ok(())),
            ) => step == Step::<BindingAbstract, nix::Result<UnixListener<T>>>::Next(
                BindingAbstract::Listen { fd, backlog: 128 },
            ),
            (
                BindingAbstract::Listen { fd, backlog: _ },
                BindAbstractEvent::Listens(Ok(())),
            ) => step == Step::<BindingAbstract, _>::Done(
                Ok::<UnixListener<T>, nix::Error>(listening(fd)),
            ),
            (_, BindAbstractEvent::Made(Err(error))) => step == Step::<BindingAbstract, _>::Done(
                Err::<UnixListener<T>, nix::Error>(error),
            ),
            (_, BindAbstractEvent::Bound(Err(error))) => step == Step::<BindingAbstract, _>::Done(
                Err::<UnixListener<T>, nix::Error>(error),
            ),
            (_, BindAbstractEvent::Listens(Err(error))) => step == Step::<BindingAbstract, _>::Done(
                Err::<UnixListener<T>, nix::Error>(error),
            ),
            _ => false,
        }
    }

    /// Takes in what has come of it.
    pub fn step<T>(self, event: BindAbstractEvent) -> (step: Step<
        BindingAbstract,
        nix::Result<UnixListener<T>>,
    >)
        requires
            self.expects(event),
        ensures
            self.follows(event, step),
    {
        match event {
            BindAbstractEvent::Made(Err(error)) => Step::Done(Err(error)),
            BindAbstractEvent::Bound(Err(error)) => Step::Done(Err(error)),
            BindAbstractEvent::Listens(Err(error)) => Step::Done(Err(error)),
            BindAbstractEvent::Made(Ok(fd)) => match self {
                BindingAbstract::Socket { nonblocking: _, protocol: _, name } => {
                    match UnixAddr::new_abstract(name.as_slice()) {
                        Ok(addr) => Step::Next(BindingAbstract::Bind { fd, addr }),
                        Err(error) => Step::Done(Err(error)),
                    }
                },
                binding => Step::Next(binding),
            },
            BindAbstractEvent::Bound(Ok(())) => match self {
                BindingAbstract::Bind { fd, addr: _ } => Step::Next(
                    BindingAbstract::Listen { fd, backlog: 128 },
                ),
                binding => Step::Next(binding),
            },
            BindAbstractEvent::Listens(Ok(())) => match self {
                BindingAbstract::Listen { fd, backlog: _ } => Step::Done(
                    Ok(UnixListener::from_fd(fd)),
                ),
                binding => Step::Next(binding),
            },
        }
    }
}

impl<T> UnixListener<T> {
    /// Starts to listen on a path.
    pub fn bind(path: Vec<u8>) -> (binding: Binding)
        ensures
            binding == (Binding::Bind { path }),
    {
        Binding::Bind { path }
    }

    /// Starts to listen on an abstract name.
    pub fn bind_abstract(name: Vec<u8>) -> (binding: BindingAbstract)
        ensures
            binding == (BindingAbstract::Socket { nonblocking: true, protocol: 0, name }),
    {
        BindingAbstract::Socket { nonblocking: true, protocol: 0, name }
    }

    /// A listener over a descriptor that listens already.
    pub fn from_fd(fd: i32) -> (listener: Self)
        ensures
            listener == listening::<T>(fd),
            listener.inner.wf(),
    {
        Self::from_unix_listener(fd)
    }

    fn from_unix_listener(fd: i32) -> (listener: Self)
        ensures
            listener == listening::<T>(fd),
            listener.inner.wf(),
    {
        let active = IoCondition::new().input(true);
        UnixListener { inner: UnixListenerInner { fd, active, task: None } }
    }

    /// Accepts a connection.
    pub fn accept<A, E>(&mut self, event: AcceptEvent<T, A, E>) -> (action: AcceptAction<T, A, E>)
        ensures
            (final(self).inner, action) == accepting(old(self).inner, event),
            old(self).inner.wf() ==> final(self).inner.wf(),
    {
        match event {
            AcceptEvent::Start => AcceptAction::Accept,
            AcceptEvent::Accepted(Err(error)) => {
                if error.kind == ErrorKind::WouldBlock {
                    AcceptAction::Park(error)
                } else {
                    AcceptAction::Return { modify: None, result: Err(error) }
                }
            },
            AcceptEvent::Parked(task, error) => {
                self.inner.task = Some(task);
                self.inner.active = self.inner.active.input(true);
                AcceptAction::Return { modify: Some(self.inner.active), result: Err(error) }
            },
            AcceptEvent::Accepted(Ok((fd, addr))) => AcceptAction::SetNonblocking {
                fd,
                addr,
                nonblocking: true,
            },
            AcceptEvent::ModeSet { fd: _, addr: _, result: Err(error) } => AcceptAction::Return {
                modify: None,
                result: Err(error),
            },
            AcceptEvent::ModeSet { fd, addr, result: Ok(()) } => {
                let stream = UnixStream { inner: new_source(fd) };
                AcceptAction::Return { modify: None, result: Ok((stream, addr)) }
            },
        }
    }

    /// The connections of this listener.
    pub fn incoming(self) -> (incoming: Incoming<T>)
        ensures
            incoming.listener == self,
    {
        Incoming { listener: self }
    }

    /// The descriptor of the listener.
    pub fn as_raw_fd(&self) -> (fd: i32)
        ensures
            fd == self.inner.fd,
    {
        self.inner.fd
    }
}

impl<T> Incoming<T> {
    /// Asks for the next connection.
    pub fn poll<A, E>(&mut self, event: AcceptEvent<T, A, E>) -> (action: IncomingAction<T, A, E>)
        ensures
            final(self).listener.inner == accepting(old(self).listener.inner, event).0,
            action == next_connection(accepting(old(self).listener.inner, event).1),
            old(self).listener.inner.wf() ==> final(self).listener.inner.wf(),
    {
        match self.listener.accept(event) {
            AcceptAction::Return { modify, result: Err(error) } => {
                if error.kind == ErrorKind::WouldBlock {
                    IncomingAction::Return { modify, result: Ok(Async::NotReady) }
                } else {
                    IncomingAction::Return { modify, result: Err(error) }
                }
            },
            AcceptAction::Return { modify, result: Ok(connection) } => IncomingAction::Return {
                modify,
                result: Ok(Async::Ready(Some(connection))),
            },
            action => IncomingAction::Accept(action),
        }
    }
}

/// A task that has to wait for a connection is sure to be woken by the next one:
/// the caller gets the system's own error, the listener is watched, a check on
/// the next event finds the task, and the dispatch hands it out, once.
pub proof fn law_accept_schedules<T, A, E>(
    s: UnixListenerInner<T>,
    task: T,
    error: IoError<E>,
    ready: IoCondition,
)
    requires
        error.kind == ErrorKind::WouldBlock,
        ready.input,
    ensures
        accepting::<T, A, E>(s, AcceptEvent::Accepted(Err(error))) == (
            s,
            AcceptAction::<T, A, E>::Park(error),
        ),
        ({
            let (waits, action) = accepting::<T, A, E>(s, AcceptEvent::Parked(task, error));
            &&& action == (AcceptAction::<T, A, E>::Return {
                modify: Some(waits.active),
                result: Err(error),
            })
            &&& waits.active.input
            &&& waits.wakes(ready)
            &&& waits.task == Some(task)
            &&& !waits.dispatched().wakes(ready)
        }),
{
}

/// The listener after all the events, in order.
pub open spec fn accepting_all<T, A, E>(
    s: UnixListenerInner<T>,
    events: Seq<AcceptEvent<T, A, E>>,
) -> UnixListenerInner<T>
    decreases events.len(),
{
    if events.len() == 0 {
        s
    } else {
        accepting(accepting_all(s, events.drop_last()), events.last()).0
    }
}

/// A task that waits for a connection goes on waiting, and the listener being
/// watched for it, until it is handed out or another waits in its place: the
/// first event with input finds it.
pub proof fn law_accepting_task_keeps_waiting<T, A, E>(
    s: UnixListenerInner<T>,
    task: T,
    events: Seq<AcceptEvent<T, A, E>>,
    ready: IoCondition,
)
    requires
        s.task == Some(task),
        s.active.input,
        forall|i: int| 0 <= i < events.len() ==> !(#[trigger] events[i] is Parked),
        ready.input,
    ensures
        accepting_all(s, events).task == Some(task),
        accepting_all(s, events).active.input,
        accepting_all(s, events).wakes(ready),
    decreases events.len(),
{
    if events.len() > 0 {
        assert forall|i: int| 0 <= i < events.drop_last().len() implies !(
        #[trigger] events.drop_last()[i] is Parked) by {
            assert(events.drop_last()[i] == events[i]);
        }
        law_accepting_task_keeps_waiting(s, task, events.drop_last(), ready);
        assert(!(events[events.len() - 1] is Parked));
    }
}

/// Whatever a listener is told, it stays watched for connections, and keeps its
/// descriptor.
pub proof fn law_listener_stays_watched<T, A, E>(
    s: UnixListenerInner<T>,
    event: AcceptEvent<T, A, E>,
)
    requires
        s.wf(),
    ensures
        accepting(s, event).0.wf(),
        s.dispatched().wf(),
        accepting(s, event).0.fd == s.fd,
        s.dispatched().fd == s.fd,
{
}

/// A stream that a listener hands out stands for the connection that was
/// accepted, is open, and is watched in both directions.
pub proof fn law_accepted_stream_is_open<T, A, E>(
    s: UnixListenerInner<T>,
    event: AcceptEvent<T, A, E>,
)
    ensures
        accepting(s, event).1 matches AcceptAction::Return { modify: _, result: Ok((stream, peer)) }
            ==> {
            &&& event matches AcceptEvent::ModeSet { fd, addr, result }
            &&& fd == stream.inner.channel.fd
            &&& addr == peer
            &&& result is Ok
            &&& !stream.inner.is_closed
            &&& stream.inner.wf()
        },
{
}

/// The connections of a listener never come to an end, and having to wait for
/// one is never an error.
pub proof fn law_incoming_never_ends<T, A, E>(
    s: UnixListenerInner<T>,
    event: AcceptEvent<T, A, E>,
)
    ensures
        next_connection(accepting(s, event).1) matches IncomingAction::Return { modify: _, result }
            ==> match result {
            Ok(Async::Ready(connection)) => connection is Some,
            Ok(Async::NotReady) => true,
            Err(error) => error.kind != ErrorKind::WouldBlock,
        },
{
}

/// A task that is told that accepting would block, or that the next connection
/// is not there yet, is woken by the next connection: it is the one that waits,
/// whoever waited before, and the listener is watched. Nothing else that a
/// listener is told changes who waits.
///
/// One event is left out: a connection was accepted, and making it nonblocking
/// failed with an error that says it would block. No task waits on its account.
pub proof fn law_would_block_is_woken<T, A, E>(
    s: UnixListenerInner<T>,
    event: AcceptEvent<T, A, E>,
    ready: IoCondition,
)
    requires
        ready.input,
        !(event matches AcceptEvent::ModeSet { fd: _, addr: _, result: Err(error) } && error.kind
            == ErrorKind::WouldBlock),
    ensures
        ({
            let (now, action) = accepting(s, event);
            let waits = event matches AcceptEvent::Parked(task, _) && now.task == Some(task)
                && now.active.input && now.wakes(ready);
            &&& action matches AcceptAction::Return { modify, result: Err(error) } ==> (error.kind
                == ErrorKind::WouldBlock ==> waits && modify == Some(now.active))
            &&& next_connection(action) matches IncomingAction::Return {
                modify,
                result: Ok(Async::NotReady),
            } ==> waits && modify == Some(now.active)
            &&& !(event is Parked) ==> now.task == s.task
        }),
{
}

/// An abstract name is listened on at the very address that a client calls when
/// it connects to the path of a zero byte and the name. Where the one is refused
/// as too long, so is the other.
pub proof fn law_abstract_name_is_called_by_its_path<T>(
    binding: BindingAbstract,
    name: Seq<u8>,
    fd: i32,
    step: Step<BindingAbstract, nix::Result<UnixListener<T>>>,
)
    requires
        binding matches BindingAbstract::Socket { nonblocking: _, protocol: _, name: bound }
            && bound@ == name,
        binding.follows(BindAbstractEvent::Made(Ok(fd)), step),
    ensures
        match address::path_error(seq![0u8] + name) {
            None => step matches Step::Next(BindingAbstract::Bind { fd: socket, addr }) && {
                &&& socket == fd
                &&& addr.0.sun_family == 1
                &&& addr.0.sun_path@ == address::padded(seq![0u8] + name)
                &&& 2 + addr.1 == address::address_len(seq![0u8] + name)
            },
            Some(error) => {
                &&& error == PathError::LongerThanRoom
                &&& step == Step::<BindingAbstract, _>::Done(
                    Err::<UnixListener<T>, _>(nix::Error::Sys(nix::Errno::ENAMETOOLONG)),
                )
            },
        },
{
    assert((seq![0u8] + name)[0] == 0);
}

/// A listener starts over the descriptor that it is given, watched for
/// connections and nothing else, with nobody waiting; its connections are its
/// own.
pub proof fn law_listener_starts_watched<T>(
    fd: i32,
    listener: UnixListener<T>,
    raw: i32,
    incoming: Incoming<T>,
)
    requires
        call_ensures(UnixListener::<T>::from_fd, (fd,), listener),
        call_ensures(UnixListener::<T>::as_raw_fd, (&listener,), raw),
        call_ensures(UnixListener::<T>::incoming, (listener,), incoming),
    ensures
        listener.inner.fd == fd && raw == fd,
        listener.inner.active.input && !listener.inner.active.output,
        !listener.inner.active.hang_up && !listener.inner.active.not_open,
        listener.inner.task is None,
        incoming.listener == listener,
{
}

/// The descriptor of a listener is the one that it has, and its connections are
/// those of the listener as it is.
pub proof fn law_listener_keeps_its_descriptor<T>(
    listener: &UnixListener<T>,
    raw: i32,
    incoming: Incoming<T>,
)
    requires
        call_ensures(UnixListener::<T>::as_raw_fd, (listener,), raw),
        call_ensures(UnixListener::<T>::incoming, (*listener,), incoming),
    ensures
        raw == listener.inner.fd,
        incoming.listener == *listener,
{
}

/// A listener never keeps the event loop from sleeping. There is something to
/// dispatch exactly where a task waits and there is input. A dispatch hands out
/// the task that waits, who then waits no longer, and keeps the source; nothing
/// else changes.
pub proof fn law_listener_wakes_who_waits<T>(
    s: &UnixListenerInner<T>,
    sleep: (bool, Option<Duration>),
    ready: IoCondition,
    found: bool,
    d: &mut UnixListenerInner<T>,
    result: (Option<T>, bool),
)
    requires
        call_ensures(UnixListenerInner::<T>::prepare, (s,), sleep),
        call_ensures(UnixListenerInner::<T>::check, (s, ready), found),
        call_ensures(UnixListenerInner::<T>::dispatch, (d,), result),
    ensures
        !sleep.0 && sleep.1 is None,
        found <==> ready.input && s.task is Some,
        result.0 == old(d).task && result.1,
        final(d).task is None,
        final(d).fd == old(d).fd && final(d).active == old(d).active,
{
}

/// A listener is bound to the path that it is given, and made nonblocking before
/// it is handed out, over the descriptor that was bound, watched for connections,
/// with nobody waiting. The first error ends everything, as it is.
pub proof fn law_bound_listener_is_handed_out<T, E>(
    path: Vec<u8>,
    start: Binding,
    bound: Result<i32, E>,
    after_bind: Step<Binding, Result<UnixListener<T>, E>>,
    fd: i32,
    nonblocking: bool,
    set: Result<(), E>,
    after_set: Step<Binding, Result<UnixListener<T>, E>>,
)
    requires
        call_ensures(UnixListener::<T>::bind, (path,), start),
        call_ensures(Binding::step::<T, E>, (start, BindEvent::Bound(bound)), after_bind),
        call_ensures(
            Binding::step::<T, E>,
            (Binding::SetNonblocking { fd, nonblocking }, BindEvent::ModeSet(set)),
            after_set,
        ),
    ensures
        call_requires(Binding::step::<T, E>, (start, BindEvent::Bound(bound))),
        call_requires(
            Binding::step::<T, E>,
            (Binding::SetNonblocking { fd, nonblocking }, BindEvent::ModeSet(set)),
        ),
        start matches Binding::Bind { path: same } && same@ == path@,
        bound matches Ok(fd) ==> after_bind == Step::<Binding, Result<UnixListener<T>, E>>::Next(
            Binding::SetNonblocking { fd, nonblocking: true },
        ),
        bound matches Err(error) ==> after_bind == Step::<Binding, _>::Done(
            Err::<UnixListener<T>, E>(error),
        ),
        set matches Err(error) ==> after_set == Step::<Binding, _>::Done(
            Err::<UnixListener<T>, E>(error),
        ),
        set is Ok ==> (after_set matches Step::Done(Ok(listener)) && {
            &&& listener.inner.fd == fd
            &&& listener.inner.active == (IoCondition {
                input: true,
                output: false,
                hang_up: false,
                not_open: false,
            })
            &&& listener.inner.task is None
        }),
{
}

/// A listener on an abstract name starts by asking for a nonblocking socket of
/// the default protocol, and keeps the name.
pub proof fn law_abstract_name_is_kept<T>(name: Vec<u8>, start: BindingAbstract)
    requires
        call_ensures(UnixListener::<T>::bind_abstract, (name,), start),
    ensures
        start matches BindingAbstract::Socket { nonblocking, protocol, name: same } && nonblocking
            && protocol == 0 && same@ == name@,
{
}

/// The socket that was made for an abstract name is bound to the address of a
/// zero byte and the name, all of whose bytes count, and zeros behind them. A
/// name of more than 107 bytes is refused instead.
pub proof fn law_abstract_name_is_bound_as_it_is<T>(
    name: Vec<u8>,
    start: BindingAbstract,
    fd: i32,
    step: Step<BindingAbstract, nix::Result<UnixListener<T>>>,
)
    requires
        start matches BindingAbstract::Socket { nonblocking: _, protocol: _, name: kept } && kept
            == name,
        call_ensures(BindingAbstract::step::<T>, (start, BindAbstractEvent::Made(Ok(fd))), step),
    ensures
        call_requires(BindingAbstract::step::<T>, (start, BindAbstractEvent::Made(Ok(fd)))),
        step is Next <==> name@.len() <= 107,
        step matches Step::Done(result) ==> result == Err::<UnixListener<T>, _>(
            nix::Error::Sys(nix::Errno::ENAMETOOLONG),
        ),
        step matches Step::Next(next) ==> {
            &&& next matches BindingAbstract::Bind { fd: same, addr }
            &&& same == fd
            &&& addr.0.sun_family == 1
            &&& addr.0.sun_path@[0] == 0
            &&& forall|i: int|
                0 <= i < name@.len() ==> #[trigger] addr.0.sun_path@[i + 1]
                    == name@[i] as libc::c_char
            &&& forall|i: int| name@.len() < i < 108 ==> #[trigger] addr.0.sun_path@[i] == 0
            &&& addr.1 == name@.len() + 1
        },
{
    if step is Next {
        let path = seq![0u8] + name@;
        let bytes = address::padded(path);
        assert(path[0] == 0);
        assert(0u8 as libc::c_char == 0) by (bit_vector);
        assert(bytes[0] == path[0] as libc::c_char);
        assert forall|i: int| 0 <= i < name@.len() implies #[trigger] bytes[i + 1]
            == name@[i] as libc::c_char by {
            assert(path[i + 1] == name@[i]);
        }
    }
}

/// A socket that is bound is listened on, for 128 pending connections, and then
/// handed out as a listener over that descriptor, watched for connections, with
/// nobody waiting. The first error ends everything, as it is.
pub proof fn law_abstract_listener_is_handed_out<T>(
    fd: i32,
    addr: UnixAddr,
    backlog: usize,
    result: nix::Result<()>,
    after_bind: Step<BindingAbstract, nix::Result<UnixListener<T>>>,
    after_listen: Step<BindingAbstract, nix::Result<UnixListener<T>>>,
    socket: BindingAbstract,
    error: nix::Error,
    after_error: Step<BindingAbstract, nix::Result<UnixListener<T>>>,
)
    requires
        socket is Socket,
        call_ensures(
            BindingAbstract::step::<T>,
            (BindingAbstract::Bind { fd, addr }, BindAbstractEvent::Bound(result)),
            after_bind,
        ),
        call_ensures(
            BindingAbstract::step::<T>,
            (BindingAbstract::Listen { fd, backlog }, BindAbstractEvent::Listens(result)),
            after_listen,
        ),
        call_ensures(
            BindingAbstract::step::<T>,
            (socket, BindAbstractEvent::Made(Err(error))),
            after_error,
        ),
    ensures
        call_requires(
            BindingAbstract::step::<T>,
            (BindingAbstract::Bind { fd, addr }, BindAbstractEvent::Bound(result)),
        ),
        call_requires(
            BindingAbstract::step::<T>,
            (BindingAbstract::Listen { fd, backlog }, BindAbstractEvent::Listens(result)),
        ),
        result is Ok ==> (after_bind matches Step::Next(next) && next == (BindingAbstract::Listen {
            fd,
            backlog: 128,
        })),
        result is Ok ==> (after_listen matches Step::Done(Ok(listener)) && {
            &&& listener.inner.fd == fd
            &&& listener.inner.active == (IoCondition {
                input: true,
                output: false,
                hang_up: false,
                not_open: false,
            })
            &&& listener.inner.task is None
        }),
        result matches Err(error) ==> {
            &&& after_bind == Step::<BindingAbstract, _>::Done(Err::<UnixListener<T>, _>(error))
            &&& after_listen == Step::<BindingAbstract, _>::Done(Err::<UnixListener<T>, _>(error))
        },
        after_error == Step::<BindingAbstract, _>::Done(Err::<UnixListener<T>, _>(error)),
{
}

/// A listener that is asked to accept does so. A connection that it accepts is
/// to be made nonblocking, and an error is handed on as it is, but where it would
/// have had to wait, the current task is asked for first, with that error.
/// Nothing of this changes the listener.
pub proof fn law_accept_goes_by_the_system<T, A, E>(
    asked: &mut UnixListener<T>,
    first: AcceptAction<T, A, E>,
    listener: &mut UnixListener<T>,
    result: Result<(i32, A), IoError<E>>,
    action: AcceptAction<T, A, E>,
)
    requires
        call_ensures(UnixListener::<T>::accept::<A, E>, (asked, AcceptEvent::Start), first),
        call_ensures(
            UnixListener::<T>::accept::<A, E>,
            (listener, AcceptEvent::Accepted(result)),
            action,
        ),
    ensures
        first is Accept,
        result matches Ok((fd, addr)) ==> action == (AcceptAction::<T, A, E>::SetNonblocking {
            fd,
            addr,
            nonblocking: true,
        }),
        result matches Err(error) ==> if error.kind == ErrorKind::WouldBlock {
            action == AcceptAction::<T, A, E>::Park(error)
        } else {
            action == (AcceptAction::<T, A, E>::Return { modify: None, result: Err(error) })
        },
        *final(asked) == *old(asked) && *final(listener) == *old(listener),
{
}

/// A task that has to wait for a connection is the one that waits, the listener
/// is watched for input, the event loop is told so, and the answer is the error;
/// the next dispatch hands that task out.
pub proof fn law_accept_that_waits_is_woken<T, A, E>(
    listener: &mut UnixListener<T>,
    task: T,
    error: IoError<E>,
    action: AcceptAction<T, A, E>,
    d: &mut UnixListenerInner<T>,
    woken: (Option<T>, bool),
)
    requires
        call_ensures(
            UnixListener::<T>::accept::<A, E>,
            (listener, AcceptEvent::Parked(task, error)),
            action,
        ),
        *old(d) == final(listener).inner,
        call_ensures(UnixListenerInner::<T>::dispatch, (d,), woken),
    ensures
        final(listener).inner == (UnixListenerInner {
            fd: old(listener).inner.fd,
            active: IoCondition { input: true, ..old(listener).inner.active },
            task: Some(task),
        }),
        action == (AcceptAction::<T, A, E>::Return {
            modify: Some(final(listener).inner.active),
            result: Err(error),
        }),
        woken.0 == Some(task),
{
}

/// A connection that has been made nonblocking is handed out with the address of
/// its peer, as an open stream that stands for its descriptor, leaves it open
/// when dropped, keeps a buffer, is watched in both directions, and has heard
/// nothing yet. Where it could not be made nonblocking, that error is the answer.
/// The listener stays as it was.
pub proof fn law_accepted_connection_is_handed_out<T, A, E>(
    listener: &mut UnixListener<T>,
    fd: i32,
    addr: A,
    result: Result<(), IoError<E>>,
    action: AcceptAction<T, A, E>,
)
    requires
        call_ensures(
            UnixListener::<T>::accept::<A, E>,
            (listener, AcceptEvent::ModeSet { fd, addr, result }),
            action,
        ),
    ensures
        *final(listener) == *old(listener),
        result matches Err(error) ==> action == (AcceptAction::<T, A, E>::Return {
            modify: None,
            result: Err(error),
        }),
        result is Ok ==> (action matches AcceptAction::Return { modify, result: Ok((stream, peer)) }
            && {
            &&& modify is None
            &&& peer == addr
            &&& stream.inner.channel.fd == fd
            &&& !stream.inner.channel.close_on_drop
            &&& stream.inner.channel.buffered
            &&& !stream.inner.is_closed
            &&& stream.inner.active.input && stream.inner.active.output
            &&& !stream.inner.active.hang_up && !stream.inner.active.not_open
            &&& stream.inner.read is NotReady && stream.inner.write is NotReady
        }),
{
}

/// The connections of a listener are what it accepts: on the same event the
/// listener becomes the same and asks for the same. The connection that it
/// accepts is the next one, with the same stream and the same address, and an
/// error is an error, as it is, unless it is that of having to wait: then the
/// next connection is not there yet.
pub proof fn law_incoming_yields_what_is_accepted<T, A, E>(
    listener: &mut UnixListener<T>,
    accept: AcceptAction<T, A, E>,
    incoming: &mut Incoming<T>,
    action: IncomingAction<T, A, E>,
    event: AcceptEvent<T, A, E>,
)
    requires
        old(incoming).listener == *old(listener),
        call_ensures(UnixListener::<T>::accept::<A, E>, (listener, event), accept),
        call_ensures(Incoming::<T>::poll::<A, E>, (incoming, event), action),
    ensures
        final(incoming).listener == *final(listener),
        !(accept is Return) ==> action == IncomingAction::Accept(accept),
        accept matches AcceptAction::Return { modify, result: Ok((stream, addr)) } ==> action == (
        IncomingAction::<T, A, E>::Return {
            modify,
            result: Ok(Async::Ready(Some((stream, addr)))),
        }),
        accept matches AcceptAction::Return { modify, result: Err(error) } ==> action == (
        IncomingAction::<T, A, E>::Return {
            modify,
            result: if error.kind == ErrorKind::WouldBlock {
                Ok(Async::NotReady)
            } else {
                Err(error)
            },
        }),
{
}

/// Every stream that the connections of a listener yield is open, is watched in
/// both directions, and stands for the descriptor that was accepted.
pub proof fn law_incoming_yields_open_streams<T, A, E>(
    incoming: &mut Incoming<T>,
    event: AcceptEvent<T, A, E>,
    modify: Option<IoCondition>,
    stream: UnixStream<T>,
    peer: A,
)
    requires
        call_ensures(
            Incoming::<T>::poll::<A, E>,
            (incoming, event),
            IncomingAction::Return { modify, result: Ok(Async::Ready(Some((stream, peer)))) },
        ),
    ensures
        event matches AcceptEvent::ModeSet { fd, addr, result } && result is Ok && addr == peer
            && stream.inner.channel.fd == fd,
        !stream.inner.is_closed,
        stream.inner.active.input && stream.inner.active.output,
        stream.inner.read is NotReady && stream.inner.write is NotReady,
        modify is None,
{
}

} // verus!
