//! Usages of the VR Controls page (0x03).

use crate::hid::text::{format_hex, hex_text};
use vstd::prelude::*;

verus! {

/// The name of `usage` on the VR Controls page, or its number where it has none.
pub open spec fn vr_controls_usage_name(usage: u32) -> Seq<char> {
    match usage {
        0x00 => "Undefined"@,
        0x01 => "Belt"@,
        0x02 => "Body Suit"@,
        0x03 => "Flexor"@,
        0x04 => "Glove"@,
        0x05 => "Head Tracker"@,
        0x06 => "Head Mounted Display"@,
        0x07 => "Hand Tracker"@,
        0x08 => "Oculometer"@,
        0x09 => "Vest"@,
        0x0A => "Animatronic Device"@,
        _ if 0x0B <= usage <= 0x1F => "Reserved"@,
        0x20 => "Stereo Enable"@,
        0x21 => "Display Enable"@,
        _ if 0x22 <= usage <= 0xFFFF => "Reserved"@,
        _ => hex_text(usage),
    }
}

/// The name of `usage` on the VR Controls page, or its number where it has none.
pub fn get_vr_controls_usage_name(usage: u32) -> (name: String)
    ensures
        name@ == vr_controls_usage_name(usage),
{
    match usage {
        0x00 => "Undefined".to_string(),
        0x01 => "Belt".to_string(),
        0x02 => "Body Suit".to_string(),
        0x03 => "Flexor".to_string(),
        0x04 => "Glove".to_string(),
        0x05 => "Head Tracker".to_string(),
        0x06 => "Head Mounted Display".to_string(),
        0x07 => "Hand Tracker".to_string(),
        0x08 => "Oculometer".to_string(),
        0x09 => "Vest".to_string(),
        0x0A => "Animatronic Device".to_string(),
        _ if 0x0B <= usage && usage <= 0x1F => "Reserved".to_string(),
        0x20 => "Stereo Enable".to_string(),
        0x21 => "Display Enable".to_string(),
        _ if 0x22 <= usage && usage <= 0xFFFF => "Reserved".to_string(),
        _ => format_hex(usage),
    }
}

} // verus!
