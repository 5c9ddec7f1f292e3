//! Names of screenshot files.

use vstd::prelude::*;

use crate::text::{push_zero_padded, zero_padded};

verus! {

/// "screenshot-NNNN.png" with `index` zero-padded to four digits.
pub open spec fn numbered_name(index: u32) -> Seq<char> {
    "screenshot-"@ + zero_padded(index as nat, 4) + ".png"@
}

/// The file a screenshot is saved to: `path` when given; otherwise the next
/// numbered name, after which `next_index` moves on by one.
pub fn screenshot_filename(path: Option<String>, next_index: &mut u32) -> (name: String)
    requires
        path is None ==> *old(next_index) < u32::MAX,
    ensures
        path matches Some(p) ==> name@ == p@ && *final(next_index) == *old(next_index),
        path is None ==> name@ == numbered_name(*old(next_index)) && *final(next_index) == *old(
            next_index,
        ) + 1,
{
    match path {
        Some(p) => p,
        None => {
            let mut name = String::from_str("screenshot-");
            push_zero_padded(&mut name, *next_index as u128, 4);
            name.append(".png");
            *next_index = *next_index + 1;
            name
        },
    }
}

} // verus!
