//! Usages of the Eye and Head Trackers page (0x12).

use crate::hid::text::{format_hex, hex_text};
use vstd::prelude::*;

verus! {

/// The name of `usage` on the Eye and Head Trackers page, or its number where it has none.
pub open spec fn eye_and_head_trackers_usage_name(usage: u32) -> Seq<char> {
    match usage {
        0x00 => "Undefined"@,
        0x01 => "Eye Tracker"@,
        0x02 => "Head Tracker"@,
        _ if 0x03 <= usage <= 0x0F => "Reserved"@,
        0x10 => "Tracking Data"@,
        0x11 => "Capabilities"@,
        0x12 => "Configuration"@,
        0x13 => "Status"@,
        0x14 => "Control"@,
        _ if 0x15 <= usage <= 0x1F => "Reserved"@,
        0x20 => "Sensor Timestamp"@,
        0x21 => "Position X"@,
        0x22 => "Position Y"@,
        0x23 => "Position Z"@,
        0x24 => "Gaze Point"@,
        0x25 => "Left Eye Position"@,
        0x26 => "Right Eye Position"@,
        0x27 => "Head Position"@,
        0x28 => "Head Direction Point"@,
        0x29 => "Rotation about X axis"@,
        0x2A => "Rotation about Y axis"@,
        0x2B => "Rotation about Z axis"@,
        _ if 0x2C <= usage <= 0xFF => "Reserved"@,
        0x100 => "Tracker Quality"@,
        0x101 => "Minimum Tracking Distance"@,
        0x102 => "Optimum Tracking Distance"@,
        0x103 => "Maximum Tracking Distance"@,
        0x104 => "Maximum Screen Plane Width"@,
        0x105 => "Maximum Screen Plane Height"@,
        _ if 0x106 <= usage <= 0x1FF => "Reserved"@,
        0x200 => "Display Manufacturer ID"@,
        0x201 => "Display Product ID"@,
        0x202 => "Display Serial Number"@,
        0x203 => "Display Manufacturer Date"@,
        0x204 => "Calibrated Screen Width"@,
        0x205 => "Calibrated Screen Height"@,
        _ if 0x206 <= usage <= 0x2FF => "Reserved"@,
        0x300 => "Sampling Frequency"@,
        0x301 => "Configuration Status"@,
        _ if 0x302 <= usage <= 0x3FF => "Reserved"@,
        0x400 => "Device Mode Request"@,
        _ if 0x401 <= usage <= 0xFFFF => "Reserved"@,
        _ => hex_text(usage),
    }
}

/// The name of `usage` on the Eye and Head Trackers page, or its number where it has none.
pub fn get_eye_and_head_trackers_usage_name(usage: u32) -> (name: String)
    ensures
        name@ == eye_and_head_trackers_usage_name(usage),
{
    match usage {
        0x00 => "Undefined".to_string(),
        0x01 => "Eye Tracker".to_string(),
        0x02 => "Head Tracker".to_string(),
        _ if 0x03 <= usage && usage <= 0x0F => "Reserved".to_string(),
        0x10 => "Tracking Data".to_string(),
        0x11 => "Capabilities".to_string(),
        0x12 => "Configuration".to_string(),
        0x13 => "Status".to_string(),
        0x14 => "Control".to_string(),
        _ if 0x15 <= usage && usage <= 0x1F => "Reserved".to_string(),
        0x20 => "Sensor Timestamp".to_string(),
        0x21 => "Position X".to_string(),
        0x22 => "Position Y".to_string(),
        0x23 => "Position Z".to_string(),
        0x24 => "Gaze Point".to_string(),
        0x25 => "Left Eye Position".to_string(),
        0x26 => "Right Eye Position".to_string(),
        0x27 => "Head Position".to_string(),
        0x28 => "Head Direction Point".to_string(),
        0x29 => "Rotation about X axis".to_string(),
        0x2A => "Rotation about Y axis".to_string(),
        0x2B => "Rotation about Z axis".to_string(),
        _ if 0x2C <= usage && usage <= 0xFF => "Reserved".to_string(),
        0x100 => "Tracker Quality".to_string(),
        0x101 => "Minimum Tracking Distance".to_string(),
        0x102 => "Optimum Tracking Distance".to_string(),
        0x103 => "Maximum Tracking Distance".to_string(),
        0x104 => "Maximum Screen Plane Width".to_string(),
        0x105 => "Maximum Screen Plane Height".to_string(),
        _ if 0x106 <= usage && usage <= 0x1FF => "Reserved".to_string(),
        0x200 => "Display Manufacturer ID".to_string(),
        0x201 => "Display Product ID".to_string(),
        0x202 => "Display Serial Number".to_string(),
        0x203 => "Display Manufacturer Date".to_string(),
        0x204 => "Calibrated Screen Width".to_string(),
        0x205 => "Calibrated Screen Height".to_string(),
        _ if 0x206 <= usage && usage <= 0x2FF => "Reserved".to_string(),
        0x300 => "Sampling Frequency".to_string(),
        0x301 => "Configuration Status".to_string(),
        _ if 0x302 <= usage && usage <= 0x3FF => "Reserved".to_string(),
        0x400 => "Device Mode Request".to_string(),
        _ if 0x401 <= usage && usage <= 0xFFFF => "Reserved".to_string(),
        _ => format_hex(usage),
    }
}

} // verus!
