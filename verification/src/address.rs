//! Socket addresses made of paths.

use vstd::prelude::*;

use crate::error::PathError;
use crate::platform::af_unix;

verus! {

/// How many bytes of path an address has room for.
pub const SUN_PATH_ROOM: usize = 108;

/// Whether a path is an abstract name: one that begins with a zero byte.
pub open spec fn is_abstract(path: Seq<u8>) -> bool {
    path.len() > 0 && path[0] == 0
}

/// Whether a path names a file: it is not empty and not abstract.
pub open spec fn is_pathname(path: Seq<u8>) -> bool {
    path.len() > 0 && path[0] != 0
}

/// What is wrong with a path, if anything: an abstract name may take up all the
/// room of an address, and any other path has to leave one byte of it free.
pub open spec fn path_error(path: Seq<u8>) -> Option<PathError> {
    if is_abstract(path) && path.len() > SUN_PATH_ROOM {
        Some(PathError::LongerThanRoom)
    } else if !is_abstract(path) && path.len() >= SUN_PATH_ROOM {
        Some(PathError::FillsRoom)
    } else {
        None
    }
}

/// The bytes of an address for `path`: the path, then zeros.
pub open spec fn padded(path: Seq<u8>) -> Seq<libc::c_char> {
    Seq::new(
        SUN_PATH_ROOM as nat,
        |i: int|
            if i < path.len() {
                path[i] as libc::c_char
            } else {
                0
            },
    )
}

/// How many bytes of an address count: those before the path, those of the
/// path, and the zero byte that ends the name of a file.
pub open spec fn address_len(path: Seq<u8>) -> int {
    2 + path.len() + if is_pathname(path) {
        1int
    } else {
        0
    }
}

/// Where the path begins in an address: behind the family.
pub fn sun_path_offset() -> (offset: usize)
    ensures
        offset == 2,
{
    core::mem::size_of::<libc::sa_family_t>()
}

/// Makes an address of a path, with the length by which the system is told of
/// it.
pub fn sockaddr_un(path: &[u8]) -> (address: Result<(libc::sockaddr_un, libc::socklen_t), PathError>)
    ensures
        match address {
            Ok((addr, len)) => {
                &&& path_error(path@) is None
                &&& addr.sun_family == 1
                &&& addr.sun_path@ == padded(path@)
                &&& len == address_len(path@)
            },
            Err(error) => path_error(path@) == Some(error),
        },
{
    let abstract_name: bool = path.len() > 0 && path[0] == 0;
    if path.len() > SUN_PATH_ROOM && abstract_name {
        return Err(PathError::LongerThanRoom);
    }
    if path.len() >= SUN_PATH_ROOM && !abstract_name {
        return Err(PathError::FillsRoom);
    }
    // Zeros, so that the byte that ends the name of a file is there already.
    let mut sun_path: [libc::c_char; 108] = [0; 108];
    let mut i: usize = 0;
    while i < path.len()
        invariant
            i <= path@.len() <= SUN_PATH_ROOM,
            forall|j: int| 0 <= j < i ==> sun_path@[j] == path@[j] as libc::c_char,
            forall|j: int| i <= j < SUN_PATH_ROOM ==> sun_path@[j] == 0,
        decreases path@.len() - i,
    {
        sun_path[i] = path[i] as libc::c_char;
        i = i + 1;
    }
    assert(sun_path@ =~= padded(path@));
    let mut len: usize = sun_path_offset() + path.len();
    if path.len() > 0 && !abstract_name {
        len = len + 1;
    }
    let addr = libc::sockaddr_un { sun_family: af_unix() as libc::sa_family_t, sun_path: sun_path };
    Ok((addr, len as libc::socklen_t))
}

/// An address never counts more bytes than it has.
pub proof fn law_address_len_fits(path: Seq<u8>)
    requires
        path_error(path) is None,
    ensures
        2 <= address_len(path) <= 2 + SUN_PATH_ROOM,
{
}

/// The last byte that counts in the address of a file is zero, and it stands
/// right behind the path.
pub proof fn law_pathname_ends_in_zero(path: Seq<u8>)
    requires
        path_error(path) is None,
        is_pathname(path),
    ensures
        address_len(path) == 2 + path.len() + 1,
        padded(path)[path.len() as int] == 0,
{
}

/// An abstract name counts with all of its bytes and no more.
pub proof fn law_abstract_counts_its_bytes(path: Seq<u8>)
    requires
        path_error(path) is None,
        is_abstract(path),
    ensures
        address_len(path) == 2 + path.len(),
        padded(path)[0] == 0,
{
}

proof fn lemma_char_tells_bytes_apart(x: u8, y: u8)
    requires
        x as libc::c_char == y as libc::c_char,
    ensures
        x == y,
{
    assert(x as libc::c_char == y as libc::c_char ==> x == y) by (bit_vector);
}

/// Paths with the same address are the same path.
pub proof fn law_address_tells_paths_apart(a: Seq<u8>, b: Seq<u8>)
    requires
        path_error(a) is None,
        path_error(b) is None,
        padded(a) == padded(b),
        address_len(a) == address_len(b),
    ensures
        a == b,
{
    if a.len() > 0 && b.len() > 0 {
        assert(padded(a)[0] == a[0] as libc::c_char);
        assert(padded(b)[0] == b[0] as libc::c_char);
        lemma_char_tells_bytes_apart(a[0], b[0]);
    }
    assert(a.len() == b.len());
    assert forall|i: int| 0 <= i < a.len() implies a[i] == b[i] by {
        assert(padded(a)[i] == a[i] as libc::c_char);
        assert(padded(b)[i] == b[i] as libc::c_char);
        lemma_char_tells_bytes_apart(a[i], b[i]);
    }
    assert(a =~= b);
}

/// The address of a path holds that path, byte for byte, and zeros behind it.
/// The length that goes with it counts the two bytes of the family and the
/// path, and one zero more for the name of a file.
pub proof fn law_sockaddr_un_holds_its_path(
    path: &[u8],
    address: Result<(libc::sockaddr_un, libc::socklen_t), PathError>,
)
    requires
        call_ensures(sockaddr_un, (path,), address),
    ensures
        address matches Ok((addr, len)) ==> {
            &&& addr.sun_family == 1
            &&& forall|i: int|
                0 <= i < path@.len() ==> #[trigger] addr.sun_path@[i] == path@[i] as libc::c_char
            &&& forall|i: int| path@.len() <= i < 108 ==> #[trigger] addr.sun_path@[i] == 0
            &&& path@.len() == 0 ==> len == 2
            &&& path@.len() > 0 && path@[0] == 0 ==> len == 2 + path@.len()
            &&& path@.len() > 0 && path@[0] != 0 ==> len == 3 + path@.len()
        },
{
}

/// A path of fewer than 108 bytes has an address, and so has an abstract name of
/// 108. Of the others, an abstract name is too long, and any other path leaves
/// no byte free.
pub proof fn law_sockaddr_un_accepts_what_fits(
    path: &[u8],
    address: Result<(libc::sockaddr_un, libc::socklen_t), PathError>,
)
    requires
        call_ensures(sockaddr_un, (path,), address),
    ensures
        address is Ok <==> path@.len() < 108 || (path@.len() == 108 && path@[0] == 0),
        address is Err && path@[0] == 0 ==> address->Err_0 == PathError::LongerThanRoom,
        address is Err && path@[0] != 0 ==> address->Err_0 == PathError::FillsRoom,
{
}

/// Two paths that are given the same bytes and the same length are the same path.
pub proof fn law_sockaddr_un_tells_paths_apart(
    a: &[u8],
    b: &[u8],
    address_a: (libc::sockaddr_un, libc::socklen_t),
    address_b: (libc::sockaddr_un, libc::socklen_t),
)
    requires
        call_ensures(sockaddr_un, (a,), Ok(address_a)),
        call_ensures(sockaddr_un, (b,), Ok(address_b)),
        address_a.0.sun_path@ == address_b.0.sun_path@,
        address_a.1 == address_b.1,
    ensures
        a@ == b@,
{
    law_address_tells_paths_apart(a@, b@);
}

/// The path begins behind the two bytes of the family.
pub proof fn law_sun_path_offset_is_behind_family(offset: usize)
    requires
        call_ensures(sun_path_offset, (), offset),
    ensures
        offset == 2,
{
}

} // verus!
