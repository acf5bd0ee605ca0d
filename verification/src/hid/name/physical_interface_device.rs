//! Usages of the Physical Interface Device page (0x0F).

use crate::hid::text::{format_hex, hex_text};
use vstd::prelude::*;

verus! {

/// No usage of the Physical Interface Device page has a name: each is shown by its number.
pub open spec fn physical_interface_device_usage_name(usage: u32) -> Seq<char> {
    hex_text(usage)
}

/// The text for `usage` on the Physical Interface Device page.
pub fn get_physical_interface_device_usage_name(usage: u32) -> (name: String)
    ensures
        name@ == physical_interface_device_usage_name(usage),
{
    format_hex(usage)
}

} // verus!
