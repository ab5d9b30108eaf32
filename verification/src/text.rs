//! Lossy decoding of UTF-8 text.

use vstd::prelude::*;
use vstd::utf8::{decode_utf8, valid_utf8};

verus! {

/// The replacement character, which stands where bytes could not be read.
pub const REPLACEMENT_CHARACTER: char = '\u{FFFD}';

/// The text that lossy decoding gives for `bytes`: the well-formed parts
/// decoded, each ill-formed part replaced by U+FFFD. How an ill-formed
/// string is cut into parts is left unspecified.
pub uninterp spec fn utf8_lossy(bytes: Seq<u8>) -> Seq<char>;

/// The text that a string payload decodes to: the exact decoding where the
/// bytes are well-formed UTF-8, the lossy one otherwise.
pub open spec fn lossy_text(bytes: Seq<u8>) -> Seq<char> {
    if valid_utf8(bytes) {
        decode_utf8(bytes)
    } else {
        utf8_lossy(bytes)
    }
}

/// Calls `String::from_utf8_lossy` and takes ownership of what it returns.
///
/// Trusted: the result is a function of the bytes alone, named
/// [`utf8_lossy`]; on well-formed UTF-8 it is the text that the bytes
/// encode, with nothing replaced; and on anything else it holds at least one
/// replacement character.
#[verifier::external_body]
pub(crate) fn string_from_utf8_lossy(bytes: &[u8]) -> (text: String)
    ensures
        text@ == utf8_lossy(bytes@),
        valid_utf8(bytes@) ==> text@ == decode_utf8(bytes@),
        !valid_utf8(bytes@) ==> text@.contains(REPLACEMENT_CHARACTER),
{
    String::from_utf8_lossy(bytes).into_owned()
}

} // verus!
