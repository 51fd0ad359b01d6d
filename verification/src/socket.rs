//! Sockets, and the system calls that make and connect them.

use vstd::prelude::*;

use crate::address;
use crate::error::{cvt, PathError};
use crate::platform::{af_unix, host_platform, Platform};

verus! {

/// A socket, known by its descriptor.
#[derive(Clone, Copy, Debug, PartialEq, Eq, Structural)]
pub struct Socket {
    pub fd: i32,
}

/// A system call to make.
#[derive(Clone, Copy, Debug)]
pub enum SocketCall {
    /// `socket(domain, ty, protocol)`.
    Socket { domain: i32, ty: i32, protocol: i32 },
    /// `ioctl(fd, request)`, with a pointer to the argument where there is one.
    Ioctl { fd: i32, request: u64, argument: Option<u64> },
    /// `connect(fd, addr, len)`.
    Connect { fd: i32, addr: libc::sockaddr_un, len: libc::socklen_t },
}

/// What an operation does next: go on, or end.
#[derive(Debug, PartialEq, Eq)]
pub enum Step<S, R> {
    Next(S),
    Done(R),
}

/// Which system call a new socket waits for.
#[derive(Clone, Copy, Debug, PartialEq, Eq, Structural)]
pub enum NewSocketStage {
    /// One call makes the socket, nonblocking and closed on `exec`.
    Atomic { ty: i32 },
    /// One call makes the socket, as the type says.
    Plain { ty: i32 },
    /// The socket is made, and a second call has it closed on `exec`.
    CloseOnExec { fd: i32 },
}

/// A socket that is being made.
#[derive(Clone, Copy, Debug, PartialEq, Eq, Structural)]
pub struct NewSocket {
    pub platform: Platform,
    pub stage: NewSocketStage,
}

impl NewSocketStage {
    /// The call that this stage waits for.
    pub open spec fn spec_call(self, platform: Platform) -> SocketCall {
        match self {
            NewSocketStage::Atomic { ty } => SocketCall::Socket {
                domain: 1,
                ty: ty | platform.sock_cloexec | platform.sock_nonblock,
                protocol: 0,
            },
            NewSocketStage::Plain { ty } => SocketCall::Socket { domain: 1, ty, protocol: 0 },
            NewSocketStage::CloseOnExec { fd } => SocketCall::Ioctl {
                fd,
                request: platform.fioclex,
                argument: None,
            },
        }
    }

    /// What follows on the reply to that call. A system that does not know the
    /// flags of the first call is asked again without them.
    pub open spec fn spec_reply(self, platform: Platform, value: i32, errno: i32) -> Step<
        NewSocketStage,
        Result<Socket, i32>,
    > {
        match self {
            NewSocketStage::Atomic { ty } => if value != -1 {
                Step::Done(Ok(Socket { fd: value }))
            } else if errno == platform.einval {
                Step::Next(NewSocketStage::Plain { ty })
            } else {
                Step::Done(Err(errno))
            },
            NewSocketStage::Plain { ty } => if value != -1 {
                Step::Next(NewSocketStage::CloseOnExec { fd: value })
            } else {
                Step::Done(Err(errno))
            },
            NewSocketStage::CloseOnExec { fd } => if value != -1 {
                Step::Done(Ok(Socket { fd }))
            } else {
                Step::Done(Err(errno))
            },
        }
    }

    /// The call to make.
    pub fn call(&self, platform: &Platform) -> (call: SocketCall)
        ensures
            call == self.spec_call(*platform),
    {
        match *self {
            NewSocketStage::Atomic { ty } => {
                let flags: i32 = ty | platform.sock_cloexec | platform.sock_nonblock;
                SocketCall::Socket { domain: af_unix(), ty: flags, protocol: 0 }
            },
            NewSocketStage::Plain { ty } => SocketCall::Socket {
                domain: af_unix(),
                ty,
                protocol: 0,
            },
            NewSocketStage::CloseOnExec { fd } => SocketCall::Ioctl {
                fd,
                request: platform.fioclex,
                argument: None,
            },
        }
    }

    /// Takes in the reply to that call.
    pub fn reply(self, platform: &Platform, value: i32, errno: i32) -> (step: Step<
        NewSocketStage,
        Result<Socket, i32>,
    >)
        ensures
            step == self.spec_reply(*platform, value, errno),
    {
        match self {
            NewSocketStage::Atomic { ty } => match cvt(value, errno) {
                Ok(fd) => Step::Done(Ok(Socket { fd })),
                Err(error) => if error == platform.einval {
                    Step::Next(NewSocketStage::Plain { ty })
                } else {
                    Step::Done(Err(error))
                },
            },
            NewSocketStage::Plain { ty: _ } => match cvt(value, errno) {
                Ok(fd) => Step::Next(NewSocketStage::CloseOnExec { fd }),
                Err(error) => Step::Done(Err(error)),
            },
            NewSocketStage::CloseOnExec { fd } => match cvt(value, errno) {
                Ok(_) => Step::Done(Ok(Socket { fd })),
                Err(error) => Step::Done(Err(error)),
            },
        }
    }
}

impl NewSocket {
    /// Starts to make a socket of type `ty` that is nonblocking and closed on
    /// `exec` from the first.
    pub fn begin(platform: Platform, ty: i32) -> (making: NewSocket)
        ensures
            making == (NewSocket { platform, stage: NewSocketStage::Atomic { ty } }),
    {
        NewSocket { platform, stage: NewSocketStage::Atomic { ty } }
    }

    /// Starts to make a socket of type `ty` on a system that has no flags for
    /// it.
    pub fn begin_fallback(platform: Platform, ty: i32) -> (making: NewSocket)
        ensures
            making == (NewSocket { platform, stage: NewSocketStage::Plain { ty } }),
    {
        NewSocket { platform, stage: NewSocketStage::Plain { ty } }
    }

    /// The call to make.
    pub fn call(&self) -> (call: SocketCall)
        ensures
            call == self.stage.spec_call(self.platform),
    {
        self.stage.call(&self.platform)
    }

    /// Takes in the reply to that call.
    pub fn reply(self, value: i32, errno: i32) -> (step: Step<NewSocket, Result<Socket, i32>>)
        ensures
            step == (match self.stage.spec_reply(self.platform, value, errno) {
                Step::Next(stage) => Step::Next(NewSocket { platform: self.platform, stage }),
                Step::Done(result) => Step::Done(result),
            }),
    {
        match self.stage.reply(&self.platform, value, errno) {
            Step::Next(stage) => Step::Next(NewSocket { platform: self.platform, stage }),
            Step::Done(result) => Step::Done(result),
        }
    }
}

impl Socket {
    /// Starts to make a socket of type `ty` on this machine, nonblocking and
    /// closed on `exec` from the first.
    pub fn new(ty: i32) -> (making: NewSocket)
        ensures
            making.platform.is_linux(),
            making.stage == (NewSocketStage::Atomic { ty }),
    {
        NewSocket::begin(host_platform(), ty)
    }

    /// Starts to make a socket of type `ty` on this machine, without flags.
    pub fn fallback_new(ty: i32) -> (making: NewSocket)
        ensures
            making.platform.is_linux(),
            making.stage == (NewSocketStage::Plain { ty }),
    {
        NewSocket::begin_fallback(host_platform(), ty)
    }

    /// The call that connects this socket to `path`.
    pub fn connect(&self, path: &[u8]) -> (call: Result<SocketCall, PathError>)
        ensures
            match call {
                Ok(call) => address::path_error(path@) is None && self.connects(path@, call),
                Err(error) => address::path_error(path@) == Some(error),
            },
    {
        match address::sockaddr_un(path) {
            Ok((addr, len)) => Ok(SocketCall::Connect { fd: self.fd, addr, len }),
            Err(error) => Err(error),
        }
    }

    /// Whether a call connects this socket to `path`.
    pub open spec fn connects(self, path: Seq<u8>, call: SocketCall) -> bool {
        &&& call matches SocketCall::Connect { fd, addr, len }
        &&& fd == self.fd
        &&& addr.sun_family == 1
        &&& addr.sun_path@ == address::padded(path)
        &&& len == address::address_len(path)
    }

    /// The call that turns the nonblocking mode of this socket on or off.
    pub fn set_nonblocking(&self, platform: &Platform, nonblocking: bool) -> (call: SocketCall)
        ensures
            call == self.spec_set_nonblocking(*platform, nonblocking),
    {
        let argument: u64 = if nonblocking {
            1
        } else {
            0
        };
        SocketCall::Ioctl { fd: self.fd, request: platform.fionbio, argument: Some(argument) }
    }

    /// The call that turns the nonblocking mode of this socket on or off.
    pub open spec fn spec_set_nonblocking(self, platform: Platform, nonblocking: bool) -> SocketCall {
        SocketCall::Ioctl {
            fd: self.fd,
            request: platform.fionbio,
            argument: Some(
                if nonblocking {
                    1
                } else {
                    0
                },
            ),
        }
    }

    /// Takes in the reply to a call that connects the socket or sets its mode.
    pub fn reply(value: i32, errno: i32) -> (result: Result<(), i32>)
        ensures
            result == (if value == -1 { Err::<(), i32>(errno) } else { Ok::<(), i32>(()) }),
    {
        match cvt(value, errno) {
            Ok(_) => Ok(()),
            Err(error) => Err(error),
        }
    }

    /// The descriptor.
    pub fn fd(&self) -> (fd: i32)
        ensures
            fd == self.fd,
    {
        self.fd
    }

    /// Gives up the socket for its descriptor.
    pub fn into_fd(self) -> (fd: i32)
        ensures
            fd == self.fd,
    {
        self.fd
    }

    /// Gives up the socket for its descriptor.
    pub fn into_raw_fd(self) -> (fd: i32)
        ensures
            fd == self.fd,
    {
        self.fd
    }
}

/// What comes of a socket that is being made, on the replies in order: nothing
/// as long as a call is still to be made.
pub open spec fn outcome(stage: NewSocketStage, platform: Platform, replies: Seq<(i32, i32)>) -> Option<
    Result<Socket, i32>,
>
    decreases replies.len(),
{
    if replies.len() == 0 {
        None
    } else {
        match stage.spec_reply(platform, replies[0].0, replies[0].1) {
            Step::Next(next) => outcome(next, platform, replies.skip(1)),
            Step::Done(result) => Some(result),
        }
    }
}

/// Three replies settle what becomes of a new socket.
pub proof fn law_new_socket_ends(ty: i32, platform: Platform, replies: Seq<(i32, i32)>)
    requires
        replies.len() >= 3,
    ensures
        outcome(NewSocketStage::Atomic { ty }, platform, replies) is Some,
        outcome(NewSocketStage::Plain { ty }, platform, replies) is Some,
{
    reveal_with_fuel(outcome, 4);
}

/// Where the flags are known, the first reply settles everything: the socket
/// is the one that the call made, or its error is the error of that call.
pub proof fn law_new_socket_takes_first_reply(ty: i32, platform: Platform, value: i32, errno: i32)
    requires
        value != -1 || errno != platform.einval,
    ensures
        outcome(NewSocketStage::Atomic { ty }, platform, seq![(value, errno)]) == Some(
            if value != -1 {
                Ok::<Socket, i32>(Socket { fd: value })
            } else {
                Err::<Socket, i32>(errno)
            },
        ),
{
    reveal_with_fuel(outcome, 2);
}

/// Where the flags are not known, making the socket goes on just as it does on
/// a system that has none.
pub proof fn law_new_socket_falls_back(ty: i32, platform: Platform, replies: Seq<(i32, i32)>)
    requires
        replies.len() > 0,
        replies[0] == (-1i32, platform.einval),
    ensures
        outcome(NewSocketStage::Atomic { ty }, platform, replies) == outcome(
            NewSocketStage::Plain { ty },
            platform,
            replies.skip(1),
        ),
{
}

/// A socket without flags is made by two calls, and fails with the error of the
/// first call that fails.
pub proof fn law_fallback_outcome(
    ty: i32,
    platform: Platform,
    made: (i32, i32),
    set: (i32, i32),
)
    ensures
        outcome(NewSocketStage::Plain { ty }, platform, seq![made, set]) == Some(
            if made.0 == -1 {
                Err::<Socket, i32>(made.1)
            } else if set.0 == -1 {
                Err::<Socket, i32>(set.1)
            } else {
                Ok::<Socket, i32>(Socket { fd: made.0 })
            },
        ),
{
    reveal_with_fuel(outcome, 3);
    assert(seq![made, set].skip(1)[0] == set);
}

/// A socket that is being made starts with the platform and the type that it is
/// given, with flags or without; on this machine, with constants of Linux.
pub proof fn law_socket_starts_as_asked(
    platform: Platform,
    ty: i32,
    flagged: NewSocket,
    plain: NewSocket,
    here: NewSocket,
    plain_here: NewSocket,
)
    requires
        call_ensures(NewSocket::begin, (platform, ty), flagged),
        call_ensures(NewSocket::begin_fallback, (platform, ty), plain),
        call_ensures(Socket::new, (ty,), here),
        call_ensures(Socket::fallback_new, (ty,), plain_here),
    ensures
        flagged.platform == platform && plain.platform == platform,
        here.platform.is_linux() && plain_here.platform.is_linux(),
        flagged.stage == (NewSocketStage::Atomic { ty }),
        plain.stage == (NewSocketStage::Plain { ty }),
        here.stage == flagged.stage,
        plain_here.stage == plain.stage,
{
}

/// The first call of a new socket asks for a Unix domain socket of the type that
/// was asked for, with the two flags joined to it or, on the second try, without
/// any; the call after that has the socket that was made closed on `exec`.
pub proof fn law_new_socket_calls(making: &NewSocket, call: SocketCall)
    requires
        call_ensures(NewSocket::call, (making,), call),
    ensures
        making.stage matches NewSocketStage::Atomic { ty } ==> call == (SocketCall::Socket {
            domain: 1,
            ty: ty | making.platform.sock_cloexec | making.platform.sock_nonblock,
            protocol: 0,
        }),
        making.stage matches NewSocketStage::Plain { ty } ==> call == (SocketCall::Socket {
            domain: 1,
            ty,
            protocol: 0,
        }),
        making.stage matches NewSocketStage::CloseOnExec { fd } ==> call == (SocketCall::Ioctl {
            fd,
            request: making.platform.fioclex,
            argument: None,
        }),
{
}

/// A new socket fails with the error of the call that failed, but for an unknown
/// argument in the first call: then the same type is tried without flags. Where
/// the calls succeed, the socket is the one that the first successful call made.
/// The platform stays the same throughout.
pub proof fn law_new_socket_replies(
    making: NewSocket,
    value: i32,
    errno: i32,
    step: Step<NewSocket, Result<Socket, i32>>,
)
    requires
        call_ensures(NewSocket::reply, (making, value, errno), step),
    ensures
        step matches Step::Next(next) ==> next.platform == making.platform,
        value == -1 && !(making.stage is Atomic && errno == making.platform.einval) ==> step
            == Step::<NewSocket, _>::Done(Err::<Socket, i32>(errno)),
        value == -1 && errno == making.platform.einval ==> (making.stage matches
            NewSocketStage::Atomic { ty } ==> (step matches Step::Next(next) && next.stage == (
        NewSocketStage::Plain { ty }))),
        value != -1 && making.stage is Atomic ==> step == Step::<NewSocket, _>::Done(
            Ok::<Socket, i32>(Socket { fd: value }),
        ),
        value != -1 && making.stage is Plain ==> (step matches Step::Next(next) && next.stage == (
        NewSocketStage::CloseOnExec { fd: value })),
        value != -1 ==> (making.stage matches NewSocketStage::CloseOnExec { fd } ==> step
            == Step::<NewSocket, _>::Done(Ok::<Socket, i32>(Socket { fd }))),
{
}

/// A stage asks for the same call, and makes the same of the reply, whether or
/// not it stands in a socket of its own.
pub proof fn law_stage_does_as_its_socket(
    making: &NewSocket,
    stage: &NewSocketStage,
    platform: &Platform,
    call: SocketCall,
    stage_call: SocketCall,
    value: i32,
    errno: i32,
    step: Step<NewSocket, Result<Socket, i32>>,
    stage_step: Step<NewSocketStage, Result<Socket, i32>>,
)
    requires
        making.stage == *stage,
        making.platform == *platform,
        call_ensures(NewSocket::call, (making,), call),
        call_ensures(NewSocketStage::call, (stage, platform), stage_call),
        call_ensures(NewSocket::reply, (*making, value, errno), step),
        call_ensures(NewSocketStage::reply, (*stage, platform, value, errno), stage_step),
    ensures
        call == stage_call,
        match (step, stage_step) {
            (Step::Next(next), Step::Next(next_stage)) => next.stage == next_stage,
            (Step::Done(result), Step::Done(stage_result)) => result == stage_result,
            _ => false,
        },
{
}

/// A socket is connected by one call, on its own descriptor, to the address that
/// holds the path byte for byte. It is refused exactly where the path has no
/// address, for that reason.
pub proof fn law_socket_connects_to_its_path(
    socket: &Socket,
    path: &[u8],
    call: Result<SocketCall, PathError>,
    address: Result<(libc::sockaddr_un, libc::socklen_t), PathError>,
)
    requires
        call_ensures(Socket::connect, (socket, path), call),
        call_ensures(address::sockaddr_un, (path,), address),
    ensures
        call is Ok <==> path@.len() < 108 || (path@.len() == 108 && path@[0] == 0),
        call matches Err(error) ==> address == Err::<(libc::sockaddr_un, libc::socklen_t), _>(error),
        call matches Ok(call) ==> {
            &&& call matches SocketCall::Connect { fd, addr, len }
            &&& fd == socket.fd
            &&& addr.sun_family == 1
            &&& forall|i: int|
                0 <= i < path@.len() ==> #[trigger] addr.sun_path@[i] == path@[i] as libc::c_char
            &&& forall|i: int| path@.len() <= i < 108 ==> #[trigger] addr.sun_path@[i] == 0
            &&& address matches Ok((same, same_len))
            &&& addr.sun_path@ == same.sun_path@
            &&& len == same_len
            &&& len == 2 + path@.len() + (if path@.len() > 0 && path@[0] != 0 {
                1int
            } else {
                0
            })
        },
{
}

/// The mode of a socket is set on its own descriptor, by a one or a zero, and
/// such a call fails with the error of the system and no other.
pub proof fn law_socket_sets_its_mode(
    socket: &Socket,
    platform: &Platform,
    nonblocking: bool,
    call: SocketCall,
    value: i32,
    errno: i32,
    result: Result<(), i32>,
)
    requires
        call_ensures(Socket::set_nonblocking, (socket, platform, nonblocking), call),
        call_ensures(Socket::reply, (value, errno), result),
    ensures
        call matches SocketCall::Ioctl { fd, request, argument } && fd == socket.fd && request
            == platform.fionbio && (nonblocking ==> argument == Some(1u64)) && (!nonblocking
            ==> argument == Some(0u64)),
        result is Err <==> value == -1,
        result matches Err(error) ==> error == errno,
{
}

/// A socket is given up for the descriptor that it has.
pub proof fn law_socket_keeps_its_descriptor(socket: Socket, fd: i32, given_up: i32, raw: i32)
    requires
        call_ensures(Socket::fd, (&socket,), fd),
        call_ensures(Socket::into_fd, (socket,), given_up),
        call_ensures(Socket::into_raw_fd, (socket,), raw),
    ensures
        fd == socket.fd && given_up == socket.fd && raw == socket.fd,
{
}

} // verus!
