//! Usages of the Point of Sale page (0x8F).

use crate::hid::text::{format_hex, hex_text};
use vstd::prelude::*;

verus! {

/// The name of `usage` on the Point of Sale page, or its number where it has none.
pub open spec fn point_of_sale_usage_name(usage: u32) -> Seq<char> {
    match usage {
        _ if 0x00 <= usage <= 0x8B => "See: USB HID Usage Tables"@,
        0x8C => "Bar Code Scanner page"@,
        0x8D => "Weighing Devices page"@,
        0x8E => "Magnetic Stripe Reader page"@,
        0x8F => "Reserved Point of Sale page"@,
        _ if 0x90 <= usage <= 0xEFFF => "See: USB HID Usage Tables"@,
        _ if 0xFF00 <= usage <= 0xFFFF => "Vendor-defined"@,
        _ => hex_text(usage),
    }
}

/// The name of `usage` on the Point of Sale page, or its number where it has none.
pub fn get_point_of_sale_usage_name(usage: u32) -> (name: String)
    ensures
        name@ == point_of_sale_usage_name(usage),
{
    match usage {
        _ if 0x00 <= usage && usage <= 0x8B => "See: USB HID Usage Tables".to_string(),
        0x8C => "Bar Code Scanner page".to_string(),
        0x8D => "Weighing Devices page".to_string(),
        0x8E => "Magnetic Stripe Reader page".to_string(),
        0x8F => "Reserved Point of Sale page".to_string(),
        _ if 0x90 <= usage && usage <= 0xEFFF => "See: USB HID Usage Tables".to_string(),
        _ if 0xFF00 <= usage && usage <= 0xFFFF => "Vendor-defined".to_string(),
        _ => format_hex(usage),
    }
}

} // verus!
