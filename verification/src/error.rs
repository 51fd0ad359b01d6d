//! The failures that the library tells apart.

use vstd::prelude::*;

verus! {

/// The kinds of failure.
#[derive(Clone, Copy, Debug, PartialEq, Eq, Structural)]
pub enum ErrorKind {
    /// The call would have had to wait.
    WouldBlock,
    /// The stream has ended.
    UnexpectedEof,
    /// An argument is not acceptable.
    InvalidInput,
    /// Anything else.
    Other,
}

/// A failed call: its kind, and the error itself, which is only carried.
#[derive(Debug, PartialEq, Eq)]
pub struct IoError<E> {
    pub kind: ErrorKind,
    pub cause: E,
}

/// Why a transfer on a stream failed.
#[derive(Debug, PartialEq, Eq)]
pub enum StreamError<E> {
    /// The stream was found closed before anything was tried.
    Closed,
    /// The call on the channel failed.
    Io(IoError<E>),
}

impl<E> StreamError<E> {
    /// The kind of this failure.
    pub open spec fn spec_kind(self) -> ErrorKind {
        match self {
            StreamError::Closed => ErrorKind::UnexpectedEof,
            StreamError::Io(error) => error.kind,
        }
    }

    /// The kind of this failure: a closed stream counts as an unexpected end.
    pub fn kind(&self) -> (kind: ErrorKind)
        ensures
            kind == self.spec_kind(),
    {
        match self {
            StreamError::Closed => ErrorKind::UnexpectedEof,
            StreamError::Io(error) => error.kind,
        }
    }
}

/// Why a path cannot be a socket address.
#[derive(Clone, Copy, Debug, PartialEq, Eq, Structural)]
pub enum PathError {
    /// An abstract name that is longer than the address has room for.
    LongerThanRoom,
    /// Any other name that does not leave a byte of the room free.
    FillsRoom,
}

impl PathError {
    /// The kind of this failure.
    pub fn kind(&self) -> (kind: ErrorKind)
        ensures
            kind == ErrorKind::InvalidInput,
    {
        ErrorKind::InvalidInput
    }

    /// What to tell the user.
    pub fn message(&self) -> (text: &'static str)
        ensures
            text@ == match *self {
                PathError::LongerThanRoom => "path must be no longer than SUN_LEN"@,
                PathError::FillsRoom => "path must be shorter than SUN_LEN"@,
            },
    {
        match self {
            PathError::LongerThanRoom => "path must be no longer than SUN_LEN",
            PathError::FillsRoom => "path must be shorter than SUN_LEN",
        }
    }
}

/// Reads the reply of a system call: -1 says that it failed, with `errno` for
/// the reason; anything else is its value.
pub fn cvt(value: i32, errno: i32) -> (reply: Result<i32, i32>)
    ensures
        reply == (if value == -1 { Err::<i32, i32>(errno) } else { Ok::<i32, i32>(value) }),
{
    if value == -1 {
        Err(errno)
    } else {
        Ok(value)
    }
}

/// Of the replies of a system call, -1 alone is a failure, and its reason is the
/// one that the system gives; any other reply is handed on as it is.
pub proof fn law_cvt_fails_on_minus_one_alone(value: i32, errno: i32, reply: Result<i32, i32>)
    requires
        call_ensures(cvt, (value, errno), reply),
    ensures
        reply is Err <==> value == -1,
        reply matches Err(error) ==> error == errno,
        reply matches Ok(same) ==> same == value,
{
}

/// A failure on the channel is of the kind that the channel says, and a closed
/// stream is an unexpected end.
pub proof fn law_stream_error_keeps_its_kind<E>(error: &StreamError<E>, kind: ErrorKind)
    requires
        call_ensures(StreamError::<E>::kind, (error,), kind),
    ensures
        *error matches StreamError::Io(io) ==> kind == io.kind,
        *error is Closed ==> kind == ErrorKind::UnexpectedEof,
{
}

/// A path that cannot be an address is a bad argument, and each reason has its
/// own text.
pub proof fn law_path_error_explains_itself(error: &PathError, kind: ErrorKind, text: &'static str)
    requires
        call_ensures(PathError::kind, (error,), kind),
        call_ensures(PathError::message, (error,), text),
    ensures
        kind == ErrorKind::InvalidInput,
        *error == PathError::LongerThanRoom ==> text@ == "path must be no longer than SUN_LEN"@,
        *error == PathError::FillsRoom ==> text@ == "path must be shorter than SUN_LEN"@,
{
}

} // verus!
