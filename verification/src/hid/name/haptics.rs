//! Usages of the Haptics page (0x0E).

use crate::hid::text::{format_hex, hex_text};
use vstd::prelude::*;

verus! {

/// The name of `usage` on the Haptics page, or its number where it has none.
pub open spec fn haptics_usage_name(usage: u32) -> Seq<char> {
    match usage {
        0x00 => "Undefined"@,
        0x01 => "Simple Haptic Controller"@,
        _ if 0x02 <= usage <= 0x0F => "Reserved"@,
        0x10 => "Waveform List"@,
        0x11 => "Duration List"@,
        _ if 0x12 <= usage <= 0x1F => "Reserved"@,
        0x20 => "Auto Trigger"@,
        0x21 => "Manual Trigger"@,
        0x22 => "Auto Trigger Associated Control"@,
        0x23 => "Intensity"@,
        0x24 => "Repeat Count"@,
        0x25 => "Retrigger Period"@,
        0x26 => "Waveform Vendor Page"@,
        0x27 => "Waveform Vendor ID"@,
        0x28 => "Waveform Cutoff Time"@,
        _ if 0x29 <= usage <= 0x1000 => "Reserved"@,
        0x1001 => "Waveform None"@,
        0x1002 => "Waveform Stop"@,
        0x1003 => "Waveform Click"@,
        0x1004 => "Waveform Buzz Continuous"@,
        0x1005 => "Waveform Rumble Continuous"@,
        0x1006 => "Waveform Press"@,
        0x1007 => "Waveform Release"@,
        _ if 0x1008 <= usage <= 0x2000 => "Reserved"@,
        _ if 0x2001 <= usage <= 0x2FFF => "Reserved for Vendor Waveforms"@,
        _ if 0x3000 <= usage <= 0xFFFF => "Reserved"@,
        _ => hex_text(usage),
    }
}

/// The name of `usage` on the Haptics page, or its number where it has none.
pub fn get_haptics_usage_name(usage: u32) -> (name: String)
    ensures
        name@ == haptics_usage_name(usage),
{
    match usage {
        0x00 => "Undefined".to_string(),
        0x01 => "Simple Haptic Controller".to_string(),
        _ if 0x02 <= usage && usage <= 0x0F => "Reserved".to_string(),
        0x10 => "Waveform List".to_string(),
        0x11 => "Duration List".to_string(),
        _ if 0x12 <= usage && usage <= 0x1F => "Reserved".to_string(),
        0x20 => "Auto Trigger".to_string(),
        0x21 => "Manual Trigger".to_string(),
        0x22 => "Auto Trigger Associated Control".to_string(),
        0x23 => "Intensity".to_string(),
        0x24 => "Repeat Count".to_string(),
        0x25 => "Retrigger Period".to_string(),
        0x26 => "Waveform Vendor Page".to_string(),
        0x27 => "Waveform Vendor ID".to_string(),
        0x28 => "Waveform Cutoff Time".to_string(),
        _ if 0x29 <= usage && usage <= 0x1000 => "Reserved".to_string(),
        0x1001 => "Waveform None".to_string(),
        0x1002 => "Waveform Stop".to_string(),
        0x1003 => "Waveform Click".to_string(),
        0x1004 => "Waveform Buzz Continuous".to_string(),
        0x1005 => "Waveform Rumble Continuous".to_string(),
        0x1006 => "Waveform Press".to_string(),
        0x1007 => "Waveform Release".to_string(),
        _ if 0x1008 <= usage && usage <= 0x2000 => "Reserved".to_string(),
        _ if 0x2001 <= usage && usage <= 0x2FFF => "Reserved for Vendor Waveforms".to_string(),
        _ if 0x3000 <= usage && usage <= 0xFFFF => "Reserved".to_string(),
        _ => format_hex(usage),
    }
}

} // verus!
