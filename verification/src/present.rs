//! Text for inline display: base64 and data addresses.

use crate::outside::{base64_encode, base64_text};
use vstd::prelude::*;

verus! {

/// The base64 text of `len` bytes is short enough for a `usize` to count its
/// characters: four for every three bytes, the last group filled up.
pub open spec fn base64_fits(len: nat) -> bool {
    4 * ((len + 2) / 3) <= usize::MAX
}

/// The base64 text of a byte buffer, or `None` exactly when the text would be
/// too long to have a length.
pub fn to_base64(data: &[u8]) -> (text: Option<String>)
    ensures
        text is Some <==> base64_fits(data@.len()),
        text matches Some(t) ==> t@ == base64_text(data@),
{
    let len: usize = data.len();
    let full: usize = len / 3;
    let groups: usize = if len % 3 == 0 {
        full
    } else {
        full + 1
    };
    assert(groups == (len + 2) / 3);
    if groups > usize::MAX / 4 {
        return None;
    }
    Some(base64_encode(data))
}

/// The address that shows a PNG file inline, given the file in base64.
pub open spec fn data_uri(payload: Seq<char>) -> Seq<char> {
    "data:image/png;base64,"@ + payload
}

} // verus!
