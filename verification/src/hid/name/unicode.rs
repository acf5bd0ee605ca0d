//! Usages of the Unicode page (0x10).

use crate::hid::text::{format_hex, hex_text};
use vstd::prelude::*;

verus! {

/// No usage of the Unicode page has a name: each is shown by its number.
pub open spec fn unicode_usage_name(usage: u32) -> Seq<char> {
    hex_text(usage)
}

/// The text for `usage` on the Unicode page.
pub fn get_unicode_usage_name(usage: u32) -> (name: String)
    ensures
        name@ == unicode_usage_name(usage),
{
    format_hex(usage)
}

} // verus!
