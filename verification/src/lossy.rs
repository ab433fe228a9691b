//! Decoding of bytes that need not be valid UTF-8.

use vstd::prelude::*;

verus! {

/// The characters that the standard library's lossy decoding of UTF-8 gives
/// for `bytes`: the text that the bytes encode, with the replacement
/// character in place of whatever is no encoding of a character.
pub uninterp spec fn utf8_lossy(bytes: Seq<u8>) -> Seq<char>;

/// Decodes `bytes` by `String::from_utf8_lossy`. Nothing is proved of this
/// function: its contract names the result, which depends on the bytes alone.
#[verifier::external_body]
pub(crate) fn decode_lossy(bytes: &[u8]) -> (text: String)
    ensures
        text@ == utf8_lossy(bytes@),
{
    String::from_utf8_lossy(bytes).into_owned()
}

} // verus!
