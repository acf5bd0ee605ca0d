//! Usages of the Camera Control page (0x90).

use crate::hid::text::{format_hex, hex_text};
use vstd::prelude::*;

verus! {

/// The name of `usage` on the Camera Control page, or its number where it has none.
pub open spec fn camera_control_usage_name(usage: u32) -> Seq<char> {
    match usage {
        0x00 => "Undefined"@,
        _ if 0x01 <= usage <= 0x1F => "Reserved"@,
        0x20 => "Camera Auto-focus"@,
        0x21 => "Camera Shutter"@,
        _ if 0x22 <= usage <= 0xFFFF => "Reserved"@,
        _ => hex_text(usage),
    }
}

/// The name of `usage` on the Camera Control page, or its number where it has none.
pub fn get_camera_control_usage_name(usage: u32) -> (name: String)
    ensures
        name@ == camera_control_usage_name(usage),
{
    match usage {
        0x00 => "Undefined".to_string(),
        _ if 0x01 <= usage && usage <= 0x1F => "Reserved".to_string(),
        0x20 => "Camera Auto-focus".to_string(),
        0x21 => "Camera Shutter".to_string(),
        _ if 0x22 <= usage && usage <= 0xFFFF => "Reserved".to_string(),
        _ => format_hex(usage),
    }
}

} // verus!
