//! The numbers by which the operating system knows its sockets.

use vstd::prelude::*;

verus! {

/// The constants of the system that the socket calls are made of. Most of them
/// differ from one processor to the next, so what the library does is stated
/// for every value of them.
#[derive(Clone, Copy, Debug, PartialEq, Eq, Structural)]
pub struct Platform {
    /// The socket type of a byte stream.
    pub sock_stream: i32,
    /// The flag that makes a new socket close itself on `exec`.
    pub sock_cloexec: i32,
    /// The flag that makes a new socket nonblocking.
    pub sock_nonblock: i32,
    /// The error of a call with an argument that the system does not know.
    pub einval: i32,
    /// The error of a connection that is still being made.
    pub einprogress: i32,
    /// The request that makes a descriptor close itself on `exec`.
    pub fioclex: u64,
    /// The request that turns nonblocking mode on or off.
    pub fionbio: u64,
}

impl Platform {
    /// Whether the socket constants are `stream`, `cloexec` and `nonblock`.
    pub open spec fn has_socket_types(self, stream: i32, cloexec: i32, nonblock: i32) -> bool {
        self.sock_stream == stream && self.sock_cloexec == cloexec && self.sock_nonblock == nonblock
    }

    /// Whether the requests are `fioclex` and `fionbio`.
    pub open spec fn has_requests(self, fioclex: u64, fionbio: u64) -> bool {
        self.fioclex == fioclex && self.fionbio == fionbio
    }

    /// The constants on most processors.
    pub open spec fn is_generic(self) -> bool {
        &&& self.has_socket_types(1, 0x80000, 0x800)
        &&& self.einval == 22 && self.einprogress == 115
        &&& self.has_requests(0x5451, 0x5421)
    }

    /// The constants on PowerPC. A request is a signed number in some C
    /// libraries, and `fionbio` is negative there and keeps its sign.
    pub open spec fn is_powerpc(self) -> bool {
        &&& self.has_socket_types(1, 0x80000, 0x800)
        &&& self.einval == 22 && self.einprogress == 115
        &&& self.has_requests(0x20006601, 0x8004667e) || self.has_requests(
            0x20006601,
            0xffffffff8004667e,
        )
    }

    /// The constants on SPARC.
    pub open spec fn is_sparc(self) -> bool {
        &&& self.has_socket_types(1, 0x400000, 0x4000)
        &&& self.einval == 22 && self.einprogress == 36
        &&& self.has_requests(0x20006601, 0x8004667e)
    }

    /// The constants on MIPS. For the 64-bit processors `libc` 0.2.191 has the
    /// socket constants of most other processors with some C libraries.
    pub open spec fn is_mips(self) -> bool {
        &&& self.has_socket_types(2, 0x80000, 0x80) || self.has_socket_types(1, 0x80000, 0x800)
        &&& self.einval == 22 && self.einprogress == 150
        &&& self.has_requests(0x6601, 0x667e)
    }

    /// Whether these are the constants of Linux on some processor.
    pub open spec fn is_linux(self) -> bool {
        self.is_generic() || self.is_powerpc() || self.is_sparc() || self.is_mips()
    }
}

/// The constants `SOCK_STREAM`, `SOCK_CLOEXEC`, `SOCK_NONBLOCK`, `EINVAL`,
/// `EINPROGRESS`, `FIOCLEX` and `FIONBIO` of the `libc` crate. They are, together,
/// those that the crate has for one of the processors on which Linux runs. Which
/// processor that is depends on the machine and is left open.
#[verifier::external_body]
pub(crate) fn host_platform() -> (platform: Platform)
    ensures
        platform.is_linux(),
{
    Platform {
        sock_stream: libc::SOCK_STREAM,
        sock_cloexec: libc::SOCK_CLOEXEC,
        sock_nonblock: libc::SOCK_NONBLOCK,
        einval: libc::EINVAL,
        einprogress: libc::EINPROGRESS,
        fioclex: libc::FIOCLEX as u64,
        fionbio: libc::FIONBIO as u64,
    }
}

/// The constant `AF_UNIX` of the `libc` crate: the family of Unix domain
/// sockets, which is 1 on every Linux system.
#[verifier::external_body]
pub(crate) fn af_unix() -> (family: i32)
    ensures
        family == 1,
{
    libc::AF_UNIX
}

/// Wherever Linux runs, the error of an unknown argument is 22 and is not that
/// of a connection in progress; a socket type, and the two flags that are joined
/// to it, go together with the processor, and so do the two requests.
pub proof fn law_linux_constants_go_together(p: Platform)
    requires
        p.is_linux(),
    ensures
        p.einval == 22,
        p.einprogress == 36 || p.einprogress == 115 || p.einprogress == 150,
        p.sock_stream == 1 || p.sock_stream == 2,
        p.sock_stream == 2 <==> p.sock_nonblock == 0x80,
        p.sock_nonblock == 0x80 || p.sock_nonblock == 0x800 || p.sock_nonblock == 0x4000,
        p.sock_nonblock == 0x4000 <==> p.sock_cloexec == 0x400000,
        p.sock_nonblock != 0x4000 <==> p.sock_cloexec == 0x80000,
        p.einprogress == 36 <==> p.sock_nonblock == 0x4000,
        p.sock_stream == 2 ==> p.einprogress == 150,
        p.einprogress == 150 <==> p.fioclex == 0x6601,
        p.fioclex == 0x5451 || p.fioclex == 0x6601 || p.fioclex == 0x20006601,
        p.fioclex == 0x5451 <==> p.fionbio == 0x5421,
        p.fioclex == 0x6601 <==> p.fionbio == 0x667e,
        p.fioclex == 0x20006601 <==> p.fionbio == 0x8004667e || p.fionbio
            == 0xffffffff8004667e,
        p.sock_nonblock == 0x4000 ==> p.fionbio == 0x8004667e,
{
}

} // verus!
