//! The types of other crates that this library speaks of.

use vstd::prelude::*;

verus! {

/// `futures::Async`, with both of its variants.
#[verifier::external_type_specification]
pub struct ExAsync<T>(futures::Async<T>);

/// `libc::sockaddr_un`, with both of its fields.
#[verifier::external_type_specification]
pub struct ExSockaddrUn(libc::sockaddr_un);

/// `nix::sys::socket::UnixAddr`: a socket address, and how many bytes of its
/// path are in use.
#[verifier::external_type_specification]
pub struct ExUnixAddr(nix::sys::socket::UnixAddr);

/// `nix::Error`, with its variants.
#[verifier::external_type_specification]
pub struct ExNixError(nix::Error);

/// `nix::Errno`, with its variants.
#[verifier::external_type_specification]
pub struct ExErrno(nix::Errno);

} // verus!
