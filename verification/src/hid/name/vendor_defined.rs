//! Usages of the vendor-defined pages (0xFF00 to 0xFFFF).

use crate::hid::text::{format_hex, hex_text};
use vstd::prelude::*;

verus! {

/// No usage of a vendor-defined page has a name: each is shown by its number.
pub open spec fn vendor_defined_usage_name(_usage_page: u32, usage: u32) -> Seq<char> {
    hex_text(usage)
}

/// The text for `usage` on a vendor-defined page.
pub fn get_vendor_defined_usage_name(_usage_page: u32, usage: u32) -> (name: String)
    ensures
        name@ == vendor_defined_usage_name(_usage_page, usage),
{
    format_hex(usage)
}

} // verus!
