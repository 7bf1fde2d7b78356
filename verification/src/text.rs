//! Text operations the engine relies on but does not define: lossy UTF-8
//! decoding and Unicode case mapping.
//!
//! Their results are functions of the input text alone, so each gets a
//! name (`lossy_of`, `lower_of`, `upper_of`) that the trusted wrappers
//! below tie to the standard library call. UTF-8 encoding itself is fully
//! specified by `vstd::utf8`, so no name is needed for it.

use vstd::prelude::*;
use vstd::utf8::{decode_utf8, valid_utf8};

verus! {

/// The text that lossy UTF-8 decoding yields for a byte sequence:
/// well-formed sequences decode exactly, ill-formed ones have each error
/// replaced by U+FFFD.
pub uninterp spec fn lossy_of(b: Seq<u8>) -> Seq<char>;

/// The Unicode lowercase mapping of a text.
pub uninterp spec fn lower_of(s: Seq<char>) -> Seq<char>;

/// The Unicode uppercase mapping of a text.
pub uninterp spec fn upper_of(s: Seq<char>) -> Seq<char>;

/// Relies on `String::from_utf8_lossy`: the result depends on the bytes
/// alone, and bytes that are valid UTF-8 decode without change.
#[verifier::external_body]
pub fn lossy_decode(b: &[u8]) -> (r: String)
    ensures
        r@ == lossy_of(b@),
        valid_utf8(b@) ==> r@ == decode_utf8(b@),
{
    String::from_utf8_lossy(b).into_owned()
}

/// Relies on `str::to_lowercase`: the Unicode lowercase mapping, a
/// function of the characters alone.
#[verifier::external_body]
pub fn to_lower(s: &str) -> (r: String)
    ensures
        r@ == lower_of(s@),
{
    s.to_lowercase()
}

/// Relies on `str::to_uppercase`: the Unicode uppercase mapping, a
/// function of the characters alone.
#[verifier::external_body]
pub fn to_upper(s: &str) -> (r: String)
    ensures
        r@ == upper_of(s@),
{
    s.to_uppercase()
}

} // verus!
