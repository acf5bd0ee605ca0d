//! Usages of the Magnetic Stripe Reading (MSR) Devices page (0x8E).

use crate::hid::text::{format_hex, hex_text};
use vstd::prelude::*;

verus! {

/// The name of `usage` on the Magnetic Stripe Reading (MSR) Devices page, or its number where it has none.
pub open spec fn magnetic_stripe_reading_devices_usage_name(usage: u32) -> Seq<char> {
    match usage {
        0x00 => "Undefined"@,
        0x01 => "MSR Device Read-Only"@,
        _ if 0x02 <= usage <= 0x10 => "Reserved"@,
        0x11 => "Track 1 Length"@,
        0x12 => "Track 2 Length"@,
        0x13 => "Track 3 Length"@,
        0x14 => "Track JIS Length"@,
        _ if 0x15 <= usage <= 0x1F => "Reserved"@,
        0x20 => "Track Data"@,
        0x21 => "Track 1 Data"@,
        0x22 => "Track 2 Data"@,
        0x23 => "Track 3 Data"@,
        0x24 => "Track JIS Data"@,
        _ if 0x25 <= usage <= 0xFFFF => "Reserved"@,
        _ => hex_text(usage),
    }
}

/// The name of `usage` on the Magnetic Stripe Reading (MSR) Devices page, or its number where it has none.
pub fn get_magnetic_stripe_reading_devices_usage_name(usage: u32) -> (name: String)
    ensures
        name@ == magnetic_stripe_reading_devices_usage_name(usage),
{
    match usage {
        0x00 => "Undefined".to_string(),
        0x01 => "MSR Device Read-Only".to_string(),
        _ if 0x02 <= usage && usage <= 0x10 => "Reserved".to_string(),
        0x11 => "Track 1 Length".to_string(),
        0x12 => "Track 2 Length".to_string(),
        0x13 => "Track 3 Length".to_string(),
        0x14 => "Track JIS Length".to_string(),
        _ if 0x15 <= usage && usage <= 0x1F => "Reserved".to_string(),
        0x20 => "Track Data".to_string(),
        0x21 => "Track 1 Data".to_string(),
        0x22 => "Track 2 Data".to_string(),
        0x23 => "Track 3 Data".to_string(),
        0x24 => "Track JIS Data".to_string(),
        _ if 0x25 <= usage && usage <= 0xFFFF => "Reserved".to_string(),
        _ => format_hex(usage),
    }
}

} // verus!
