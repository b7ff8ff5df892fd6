//! Helpers for hex text.

use vstd::prelude::*;
use vstd::string::StrSliceExecFns;

verus! {

/// Whether `text` begins with the marker `0x`.
pub open spec fn has_hex_marker(text: Seq<char>) -> bool {
    text.len() >= 2 && text[0] == '0' && text[1] == 'x'
}

/// `text` without the marker `0x` where it begins with one, else `text`.
pub open spec fn without_hex_marker(text: Seq<char>) -> Seq<char> {
    if has_hex_marker(text) {
        text.skip(2)
    } else {
        text
    }
}

/// Takes the marker `0x` from the front of `hex`, where there is one.
pub fn strip_hex_prefix(hex: &str) -> (stripped: String)
    ensures
        stripped@ == without_hex_marker(hex@),
{
    let len: usize = hex.unicode_len();
    if len >= 2 && hex.get_char(0) == '0' && hex.get_char(1) == 'x' {
        hex.substring_char(2, len).to_owned()
    } else {
        hex.to_owned()
    }
}

} // verus!
