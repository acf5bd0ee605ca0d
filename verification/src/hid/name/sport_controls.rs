//! Usages of the Sport Controls page (0x04).

use crate::hid::text::{format_hex, hex_text};
use vstd::prelude::*;

verus! {

/// The name of `usage` on the Sport Controls page, or its number where it has none.
pub open spec fn sport_controls_usage_name(usage: u32) -> Seq<char> {
    match usage {
        0x00 => "Undefined"@,
        0x01 => "Baseball Bat"@,
        0x02 => "Golf Club"@,
        0x03 => "Rowing Machine"@,
        0x04 => "Treadmill"@,
        _ if 0x05 <= usage <= 0x2F => "Reserved"@,
        0x30 => "Oar"@,
        0x31 => "Slope"@,
        0x32 => "Rate"@,
        0x33 => "Stick Speed"@,
        0x34 => "Stick Face Angle"@,
        0x35 => "Stick Heel/Toe"@,
        0x36 => "Stick Follow Through"@,
        0x37 => "Stick Tempo"@,
        0x38 => "Stick Type NAry 7.1"@,
        0x39 => "Stick Height"@,
        _ if 0x3A <= usage <= 0x4F => "Reserved"@,
        0x50 => "Putter Sel 7.1"@,
        0x51 => "1 Iron Sel 7.1"@,
        0x52 => "2 Iron Sel 7.1"@,
        0x53 => "3 Iron Sel 7.1"@,
        0x54 => "4 Iron Sel 7.1"@,
        0x55 => "5 Iron Sel 7.1"@,
        0x56 => "6 Iron Sel 7.1"@,
        0x57 => "7 Iron Sel 7.1"@,
        0x58 => "8 Iron Sel 7.1"@,
        0x59 => "9 Iron Sel 7.1"@,
        0x5A => "10 Iron Sel 7.1"@,
        0x5B => "11 Iron Sel 7.1"@,
        0x5C => "Sand Wedge Sel 7.1"@,
        0x5D => "Loft Wedge Sel 7.1"@,
        0x5E => "Power Wedge Sel 7.1"@,
        0x5F => "1 Wood Sel 7.1"@,
        0x60 => "3 Wood Sel 7.1"@,
        0x61 => "5 Wood Sel 7.1"@,
        0x62 => "7 Wood Sel 7.1"@,
        0x63 => "9 Wood Sel 7.1"@,
        _ if 0x64 <= usage <= 0xFFFF => "Reserved"@,
        _ => hex_text(usage),
    }
}

/// The name of `usage` on the Sport Controls page, or its number where it has none.
pub fn get_sport_controls_usage_name(usage: u32) -> (name: String)
    ensures
        name@ == sport_controls_usage_name(usage),
{
    match usage {
        0x00 => "Undefined".to_string(),
        0x01 => "Baseball Bat".to_string(),
        0x02 => "Golf Club".to_string(),
        0x03 => "Rowing Machine".to_string(),
        0x04 => "Treadmill".to_string(),
        _ if 0x05 <= usage && usage <= 0x2F => "Reserved".to_string(),
        0x30 => "Oar".to_string(),
        0x31 => "Slope".to_string(),
        0x32 => "Rate".to_string(),
        0x33 => "Stick Speed".to_string(),
        0x34 => "Stick Face Angle".to_string(),
        0x35 => "Stick Heel/Toe".to_string(),
        0x36 => "Stick Follow Through".to_string(),
        0x37 => "Stick Tempo".to_string(),
        0x38 => "Stick Type NAry 7.1".to_string(),
        0x39 => "Stick Height".to_string(),
        _ if 0x3A <= usage && usage <= 0x4F => "Reserved".to_string(),
        0x50 => "Putter Sel 7.1".to_string(),
        0x51 => "1 Iron Sel 7.1".to_string(),
        0x52 => "2 Iron Sel 7.1".to_string(),
        0x53 => "3 Iron Sel 7.1".to_string(),
        0x54 => "4 Iron Sel 7.1".to_string(),
        0x55 => "5 Iron Sel 7.1".to_string(),
        0x56 => "6 Iron Sel 7.1".to_string(),
        0x57 => "7 Iron Sel 7.1".to_string(),
        0x58 => "8 Iron Sel 7.1".to_string(),
        0x59 => "9 Iron Sel 7.1".to_string(),
        0x5A => "10 Iron Sel 7.1".to_string(),
        0x5B => "11 Iron Sel 7.1".to_string(),
        0x5C => "Sand Wedge Sel 7.1".to_string(),
        0x5D => "Loft Wedge Sel 7.1".to_string(),
        0x5E => "Power Wedge Sel 7.1".to_string(),
        0x5F => "1 Wood Sel 7.1".to_string(),
        0x60 => "3 Wood Sel 7.1".to_string(),
        0x61 => "5 Wood Sel 7.1".to_string(),
        0x62 => "7 Wood Sel 7.1".to_string(),
        0x63 => "9 Wood Sel 7.1".to_string(),
        _ if 0x64 <= usage && usage <= 0xFFFF => "Reserved".to_string(),
        _ => format_hex(usage),
    }
}

} // verus!
