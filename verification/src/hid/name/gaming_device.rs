//! Usages of the Gaming Device page (0x92).

use crate::hid::text::{format_hex, hex_text};
use vstd::prelude::*;

verus! {

/// No usage of the Gaming Device page has a name: each is shown by its number.
pub open spec fn gaming_device_usage_name(usage: u32) -> Seq<char> {
    hex_text(usage)
}

/// The text for `usage` on the Gaming Device page.
pub fn get_gaming_device_usage_name(usage: u32) -> (name: String)
    ensures
        name@ == gaming_device_usage_name(usage),
{
    format_hex(usage)
}

} // verus!
