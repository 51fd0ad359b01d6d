//! Socket addresses in the form that GIO takes them.

use vstd::prelude::*;

verus! {

/// The kinds of Unix domain address that GIO knows.
#[derive(Clone, Copy, Debug, PartialEq, Eq, Structural)]
pub enum UnixSocketAddressType {
    Invalid,
    Anonymous,
    Path,
    Abstract,
    AbstractPadded,
}

impl UnixSocketAddressType {
    /// The number by which GIO knows this kind: the kinds are numbered in order,
    /// from zero.
    pub open spec fn spec_to_glib(self) -> i32 {
        match self {
            UnixSocketAddressType::Invalid => 0,
            UnixSocketAddressType::Anonymous => 1,
            UnixSocketAddressType::Path => 2,
            UnixSocketAddressType::Abstract => 3,
            UnixSocketAddressType::AbstractPadded => 4,
        }
    }

    /// The number by which GIO knows this kind: the kinds are numbered in order,
    /// from zero.
    pub fn to_glib(&self) -> (number: i32)
        ensures
            number == self.spec_to_glib(),
    {
        match self {
            UnixSocketAddressType::Invalid => 0,
            UnixSocketAddressType::Anonymous => 1,
            UnixSocketAddressType::Path => 2,
            UnixSocketAddressType::Abstract => 3,
            UnixSocketAddressType::AbstractPadded => 4,
        }
    }
}

/// What GIO is told to make a socket address of.
#[derive(Debug, PartialEq, Eq)]
pub struct UnixSocketStream {
    /// The path, which holds no zero byte.
    pub path: String,
    /// The length of the path in bytes.
    pub path_len: i32,
    /// The kind of address.
    pub address_type: i32,
}

/// `std::str::from_utf8`, with its result as a string of its own: it succeeds on
/// valid UTF-8 alone, with the text that the bytes encode.
#[verifier::external_body]
fn text_of(bytes: &[u8]) -> (text: Option<String>)
    ensures
        match text {
            Some(text) => {
                &&& vstd::utf8::valid_utf8(bytes@)
                &&& text@ == vstd::utf8::decode_utf8(bytes@)
            },
            None => !vstd::utf8::valid_utf8(bytes@),
        },
{
    match core::str::from_utf8(bytes) {
        Ok(text) => Some(String::from(text)),
        Err(_) => None,
    }
}

fn has_zero(bytes: &[u8]) -> (found: bool)
    ensures
        found == bytes@.contains(0),
{
    let mut i: usize = 0;
    while i < bytes.len()
        invariant
            i <= bytes@.len(),
            forall|j: int| 0 <= j < i ==> bytes@[j] != 0,
        decreases bytes@.len() - i,
    {
        if bytes[i] == 0 {
            return true;
        }
        i = i + 1;
    }
    false
}

impl UnixSocketStream {
    /// The address of kind `typ` for a path. There is none for a path that is not
    /// text, or that holds a zero byte.
    pub fn new_with_type(path: &[u8], typ: UnixSocketAddressType) -> (stream: Option<Self>)
        ensures
            match stream {
                Some(stream) => {
                    &&& vstd::utf8::valid_utf8(path@)
                    &&& !path@.contains(0)
                    &&& stream.path@ == vstd::utf8::decode_utf8(path@)
                    &&& stream.path_len == path@.len() as i32
                    &&& stream.address_type == typ.spec_to_glib()
                },
                None => !vstd::utf8::valid_utf8(path@) || path@.contains(0),
            },
    {
        match text_of(path) {
            None => None,
            Some(text) => {
                if has_zero(path) {
                    None
                } else {
                    Some(
                        UnixSocketStream {
                            path: text,
                            path_len: path.len() as i32,
                            address_type: typ.to_glib(),
                        },
                    )
                }
            },
        }
    }
}

/// The kinds of address have different numbers.
pub proof fn law_address_types_differ(a: UnixSocketAddressType, b: UnixSocketAddressType)
    requires
        a.spec_to_glib() == b.spec_to_glib(),
    ensures
        a == b,
{
}

/// The text of an address, encoded again, is the path that it was made of.
pub proof fn law_text_encodes_path(path: Seq<u8>)
    requires
        vstd::utf8::valid_utf8(path),
    ensures
        vstd::utf8::encode_utf8(vstd::utf8::decode_utf8(path)) == path,
{
    vstd::utf8::decode_utf8_encode_utf8(path);
}

/// GIO numbers the kinds from zero, in order.
pub proof fn law_to_glib_numbers_kinds_in_order(typ: &UnixSocketAddressType, number: i32)
    requires
        call_ensures(UnixSocketAddressType::to_glib, (typ,), number),
    ensures
        0 <= number <= 4,
        number == 0 <==> *typ == UnixSocketAddressType::Invalid,
        number == 1 <==> *typ == UnixSocketAddressType::Anonymous,
        number == 2 <==> *typ == UnixSocketAddressType::Path,
        number == 3 <==> *typ == UnixSocketAddressType::Abstract,
        number == 4 <==> *typ == UnixSocketAddressType::AbstractPadded,
{
}

/// There is an address exactly for text without a zero byte. Its text, encoded
/// again, is the path, its length is the number of bytes of the path, and its
/// kind is the one that was asked for.
pub proof fn law_new_with_type_keeps_path_and_kind(
    path: &[u8],
    typ: UnixSocketAddressType,
    stream: Option<UnixSocketStream>,
    number: i32,
)
    requires
        call_ensures(UnixSocketStream::new_with_type, (path, typ), stream),
        call_ensures(UnixSocketAddressType::to_glib, (&typ,), number),
    ensures
        stream is Some <==> vstd::utf8::valid_utf8(path@) && forall|i: int|
            0 <= i < path@.len() ==> path@[i] != 0,
        stream matches Some(stream) ==> {
            &&& vstd::utf8::encode_utf8(stream.path@) == path@
            &&& stream.path_len == path@.len() as i32
            &&& stream.address_type == number
        },
{
    if stream is None && vstd::utf8::valid_utf8(path@) {
        let i: int = choose|i: int| 0 <= i < path@.len() && path@[i] == 0;
        assert(path@[i] == 0);
    }
    if stream is Some {
        assert forall|i: int| 0 <= i < path@.len() implies path@[i] != 0 by {
            assert(!path@.contains(0));
        }
        law_text_encodes_path(path@);
    }
}

} // verus!
