//! Turning the bytes of one line of the engine's output into text.

use vstd::prelude::*;
use vstd::utf8::{decode_utf8, valid_utf8};
use crate::text::{strip_back, strip_end, CharClass};

verus! {

/// The text that `String::from_utf8_lossy` makes of `bytes`, where each
/// invalid sequence becomes U+FFFD.
pub uninterp spec fn utf8_lossy(bytes: Seq<u8>) -> Seq<char>;

/// `String::from_utf8_lossy`, taken as an owned string. Its result is named;
/// the one fact stated besides is the documented one that valid UTF-8 is
/// decoded as it stands. How invalid bytes are replaced is not written out.
#[verifier::external_body]
fn decode_lossy(bytes: &[u8]) -> (r: String)
    ensures
        r@ == utf8_lossy(bytes@),
        valid_utf8(bytes@) ==> r@ == decode_utf8(bytes@),
{
    String::from_utf8_lossy(bytes).into_owned()
}

/// What one call of `read_next_line_lossy` gives back for the bytes of a line
/// (with its line ending): nothing at the end of the stream, otherwise the
/// decoded text without its trailing carriage returns and line feeds.
pub open spec fn line_of(bytes: Seq<u8>) -> Option<Seq<char>> {
    if bytes.len() == 0 {
        None
    } else {
        Some(strip_back(utf8_lossy(bytes), CharClass::LineEnd))
    }
}

/// The line read into `buffer` (an empty buffer means the stream ended).
pub fn read_next_line_lossy(buffer: &[u8]) -> (r: Option<String>)
    ensures
        r.deep_view() == line_of(buffer@),
        valid_utf8(buffer@) && buffer@.len() > 0 ==> r.deep_view() == Some(
            strip_back(decode_utf8(buffer@), CharClass::LineEnd),
        ),
{
    if buffer.len() == 0 {
        return None;
    }
    let decoded = decode_lossy(buffer);
    Some(strip_end(decoded.as_str(), CharClass::LineEnd))
}

} // verus!
