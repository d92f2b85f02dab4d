use vstd::prelude::*;
use vstd::utf8::{decode_utf8, valid_utf8};

verus! {

/// The text that `{:?}` prints for the character whose code point is the byte
/// `c` (Latin-1): the character between single quotes, escaped as
/// `char::escape_debug` escapes it.
pub uninterp spec fn char_debug_text(c: u8) -> Seq<char>;

/// `std::str::from_utf8` on `bytes`, with the error dropped.
/// Claimed: it succeeds exactly on valid UTF-8, and the text it gives back is
/// the decoding of the bytes (the documented behaviour of `from_utf8`).
#[verifier::external_body]
pub(crate) fn str_from_utf8(bytes: &[u8]) -> (r: Option<&str>)
    ensures
        r is Some <==> valid_utf8(bytes@),
        r matches Some(s) ==> s@ == decode_utf8(bytes@),
{
    match std::str::from_utf8(bytes) {
        Ok(s) => Some(s),
        Err(_) => None,
    }
}

/// `format!("{:?}", c as char)`: the `Debug` text of the character whose code
/// point is `c`.
/// Claimed: the result is the fixed text `char_debug_text(c)`, and for a
/// printable ASCII character other than a quote or a backslash it is that
/// character between single quotes (no escape applies to it).
#[verifier::external_body]
pub(crate) fn char_debug(c: u8) -> (s: String)
    ensures
        s@ == char_debug_text(c),
        0x20 <= c <= 0x7e && c != 0x27 && c != 0x5c ==> s@ == seq!['\'', c as char, '\''],
{
    format!("{:?}", c as char)
}

} // verus!
