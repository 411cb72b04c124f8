//! Text carried in instruction data.

use vstd::prelude::*;

verus! {

/// The characters that a byte string encodes as UTF-8, or `None` where it is
/// not valid UTF-8.
pub uninterp spec fn utf8_decode(bytes: Seq<u8>) -> Option<Seq<char>>;

/// Relies on `String::from_utf8`: the text of the bytes where they are valid
/// UTF-8, which depends on the bytes alone.
#[verifier::external_body]
pub(crate) fn utf8_text(bytes: &[u8]) -> (r: Option<String>)
    ensures
        match r {
            Some(s) => utf8_decode(bytes@) == Some(s@),
            None => utf8_decode(bytes@) is None,
        },
{
    String::from_utf8(bytes.to_vec()).ok()
}

} // verus!
