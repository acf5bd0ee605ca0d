//! Usages of the Monitor pages (0x80 to 0x83).

use crate::hid::text::{format_hex_pair, hex_pair_text};
use vstd::prelude::*;

verus! {

/// No usage of the Monitor page `usage_page` has a name: each is shown by the numbers of its
/// page and of the usage.
pub open spec fn monitor_usage_name(usage_page: u32, usage: u32) -> Seq<char> {
    hex_pair_text(usage_page, usage)
}

/// The text for `usage` on the Monitor page `usage_page`.
pub fn get_monitor_usage_name(usage_page: u32, usage: u32) -> (name: String)
    ensures
        name@ == monitor_usage_name(usage_page, usage),
{
    format_hex_pair(usage_page, usage)
}

} // verus!
