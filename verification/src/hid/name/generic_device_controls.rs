//! Usages of the Generic Device Controls page (0x06).

use crate::hid::text::{format_hex, hex_text};
use vstd::prelude::*;

verus! {

/// The name of `usage` on the Generic Device Controls page, or its number where it has none.
pub open spec fn generic_device_controls_usage_name(usage: u32) -> Seq<char> {
    match usage {
        0x00 => "Undefined"@,
        0x01 => "Background/Nonuser Controls [4] [65]"@,
        _ if 0x02 <= usage <= 0x1F => "Reserved"@,
        0x20 => "Battery Strength"@,
        0x21 => "Wireless Channel"@,
        0x22 => "Wireless ID"@,
        0x23 => "Discover Wireless Control"@,
        0x24 => "Security Code Character Entered"@,
        0x25 => "Security Code Character Erased"@,
        0x26 => "Security Code Cleared"@,
        0x27 => "Sequence ID [5]"@,
        0x28 => "Sequence ID Reset [5]"@,
        0x29 => "RF Signal Strength [5]"@,
        0x2A => "Software Version [32]"@,
        0x2B => "Protocol Version [32]"@,
        0x2C => "Hardware Version [32]"@,
        0x2D => "Major [32]"@,
        0x2E => "Minor [32]"@,
        0x2F => "Revision [32]"@,
        0x30 => "Handedness [40] NAry 9.4"@,
        0x31 => "Either Hand [40] Sel 9.4"@,
        0x32 => "Left Hand [40] Sel 9.4"@,
        0x33 => "Right Hand [40] Sel 9.4"@,
        0x34 => "Both Hands [40] Sel 9.4"@,
        _ if 0x35 <= usage <= 0x3F => "Reserved"@,
        0x40 => "Grip Pose Offset [40]"@,
        0x41 => "Pointer Pose Offset [40]"@,
        _ if 0x42 <= usage <= 0xFFFF => "Reserved"@,
        _ => hex_text(usage),
    }
}

/// The name of `usage` on the Generic Device Controls page, or its number where it has none.
pub fn get_generic_device_controls_usage_name(usage: u32) -> (name: String)
    ensures
        name@ == generic_device_controls_usage_name(usage),
{
    match usage {
        0x00 => "Undefined".to_string(),
        0x01 => "Background/Nonuser Controls [4] [65]".to_string(),
        _ if 0x02 <= usage && usage <= 0x1F => "Reserved".to_string(),
        0x20 => "Battery Strength".to_string(),
        0x21 => "Wireless Channel".to_string(),
        0x22 => "Wireless ID".to_string(),
        0x23 => "Discover Wireless Control".to_string(),
        0x24 => "Security Code Character Entered".to_string(),
        0x25 => "Security Code Character Erased".to_string(),
        0x26 => "Security Code Cleared".to_string(),
        0x27 => "Sequence ID [5]".to_string(),
        0x28 => "Sequence ID Reset [5]".to_string(),
        0x29 => "RF Signal Strength [5]".to_string(),
        0x2A => "Software Version [32]".to_string(),
        0x2B => "Protocol Version [32]".to_string(),
        0x2C => "Hardware Version [32]".to_string(),
        0x2D => "Major [32]".to_string(),
        0x2E => "Minor [32]".to_string(),
        0x2F => "Revision [32]".to_string(),
        0x30 => "Handedness [40] NAry 9.4".to_string(),
        0x31 => "Either Hand [40] Sel 9.4".to_string(),
        0x32 => "Left Hand [40] Sel 9.4".to_string(),
        0x33 => "Right Hand [40] Sel 9.4".to_string(),
        0x34 => "Both Hands [40] Sel 9.4".to_string(),
        _ if 0x35 <= usage && usage <= 0x3F => "Reserved".to_string(),
        0x40 => "Grip Pose Offset [40]".to_string(),
        0x41 => "Pointer Pose Offset [40]".to_string(),
        _ if 0x42 <= usage && usage <= 0xFFFF => "Reserved".to_string(),
        _ => format_hex(usage),
    }
}

} // verus!
