//! Boundary string decoding: turning a nul-terminated byte string into
//! validated text before it is ever used as a path.
//!
//! A foreign caller hands the library a path as raw bytes ending in a nul
//! terminator. Decoding succeeds exactly when a terminator is present and the
//! bytes before it are valid UTF-8; on any other input the caller of
//! [`decode_path`] must take the failure path without touching the
//! filesystem.
use vstd::prelude::*;
use vstd::string::StringSliceAdditionalSpecFns;
use vstd::utf8::valid_utf8;

verus! {

/// `i` is the position of the first nul byte of `bytes`.
pub open spec fn is_first_nul(bytes: Seq<u8>, i: int) -> bool {
    &&& 0 <= i < bytes.len()
    &&& bytes[i] == 0
    &&& forall|j: int| 0 <= j < i ==> bytes[j] != 0
}

/// The byte string holds a nul terminator somewhere.
pub open spec fn has_nul(bytes: Seq<u8>) -> bool {
    exists|i: int| is_first_nul(bytes, i)
}

/// Position of the first nul byte (meaningful only when `has_nul` holds).
pub open spec fn nul_index(bytes: Seq<u8>) -> int {
    choose|i: int| is_first_nul(bytes, i)
}

/// The bytes before the first nul terminator: the path itself.
pub open spec fn c_prefix(bytes: Seq<u8>) -> Seq<u8> {
    bytes.take(nul_index(bytes))
}

/// The byte string decodes to a usable path: it is nul-terminated and the
/// bytes before the terminator are valid UTF-8.
pub open spec fn decodes(bytes: Seq<u8>) -> bool {
    has_nul(bytes) && valid_utf8(c_prefix(bytes))
}

/// The first nul position is unique.
proof fn lemma_first_nul_unique(bytes: Seq<u8>, i: int, j: int)
    requires
        is_first_nul(bytes, i),
        is_first_nul(bytes, j),
    ensures
        i == j,
{
    if i < j {
        assert(bytes[i] != 0);
    }
    if j < i {
        assert(bytes[j] != 0);
    }
}

/// Scans for the first nul terminator.
fn find_nul(bytes: &[u8]) -> (r: Option<usize>)
    ensures
        match r {
            Some(i) => is_first_nul(bytes@, i as int),
            None => !has_nul(bytes@),
        },
{
    let mut i: usize = 0;
    while i < bytes.len()
        invariant
            i <= bytes@.len(),
            forall|j: int| 0 <= j < i ==> bytes@[j] != 0,
        decreases bytes@.len() - i,
    {
        if bytes[i] == 0 {
            return Some(i);
        }
        i = i + 1;
    }
    None
}

/// The contents of the nul-terminated byte string: the bytes strictly before
/// the first nul terminator, or nothing when no terminator is present.
pub fn c_str_prefix(bytes: &[u8]) -> (r: Option<&[u8]>)
    ensures
        r is Some <==> has_nul(bytes@),
        r matches Some(p) ==> p@ == c_prefix(bytes@),
{
    match find_nul(bytes) {
        Some(i) => {
            let p = &bytes[0..i];
            proof {
                let k = nul_index(bytes@);
                lemma_first_nul_unique(bytes@, k, i as int);
                assert(p@ =~= c_prefix(bytes@));
            }
            Some(p)
        },
        None => None,
    }
}

/// Relies on std::str::from_utf8: it returns `Ok` exactly when the bytes are
/// valid UTF-8, and the resulting string is the UTF-8 decoding of those
/// bytes, so its byte encoding is the input itself.
#[verifier::external_body]
fn utf8_to_str(bytes: &[u8]) -> (r: Option<&str>)
    ensures
        r is Some <==> valid_utf8(bytes@),
        r matches Some(s) ==> s.spec_bytes() =~= bytes@,
{
    match std::str::from_utf8(bytes) {
        Ok(s) => Some(s),
        Err(_) => None,
    }
}

/// Decodes a nul-terminated foreign byte string into validated text: the
/// UTF-8 text before the first nul terminator, or nothing when the input
/// holds no terminator or the bytes before it are not valid UTF-8.
pub fn decode_path(bytes: &[u8]) -> (r: Option<&str>)
    ensures
        r is Some <==> decodes(bytes@),
        r matches Some(s) ==> s.spec_bytes() =~= c_prefix(bytes@),
{
    match c_str_prefix(bytes) {
        Some(p) => utf8_to_str(p),
        None => None,
    }
}

} // verus!
