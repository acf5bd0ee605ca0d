//! Usages of the Arcade page (0x91).

use crate::hid::text::{format_hex, hex_text};
use vstd::prelude::*;

verus! {

/// No usage of the Arcade page has a name: each is shown by its number.
pub open spec fn arcade_usage_name(usage: u32) -> Seq<char> {
    hex_text(usage)
}

/// The text for `usage` on the Arcade page.
pub fn get_arcade_usage_name(usage: u32) -> (name: String)
    ensures
        name@ == arcade_usage_name(usage),
{
    format_hex(usage)
}

} // verus!
