//! Usages of the Ordinal page (0x0A).

use crate::hid::text::{format_hex, format_labelled, hex_text, labelled_text};
use vstd::prelude::*;

verus! {

/// The name of `usage` on the Ordinal page, or its number where it has none.
pub open spec fn ordinal_usage_name(usage: u32) -> Seq<char> {
    match usage {
        0x00 => "Reserved"@,
        _ if 0x01 <= usage <= 0xFFFF => labelled_text("Instance "@, usage),
        _ => hex_text(usage),
    }
}

/// The name of `usage` on the Ordinal page, or its number where it has none.
pub fn get_ordinal_usage_name(usage: u32) -> (name: String)
    ensures
        name@ == ordinal_usage_name(usage),
{
    match usage {
        0x00 => "Reserved".to_string(),
        _ if 0x01 <= usage && usage <= 0xFFFF => format_labelled("Instance ", usage),
        _ => format_hex(usage),
    }
}

} // verus!
