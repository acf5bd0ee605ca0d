//! Usages of the Medical Instrument page (0x40).

use crate::hid::text::{format_hex, hex_text};
use vstd::prelude::*;

verus! {

/// The name of `usage` on the Medical Instrument page, or its number where it has none.
pub open spec fn medical_instrument_usage_name(usage: u32) -> Seq<char> {
    match usage {
        0x00 => "Undefined"@,
        0x01 => "Medical Ultrasound"@,
        _ if 0x02 <= usage <= 0x1F => "Reserved"@,
        0x20 => "VCR/Acquisition"@,
        0x21 => "Freeze/Thaw"@,
        0x22 => "Clip Store"@,
        0x23 => "Update"@,
        0x24 => "Next"@,
        0x25 => "Save"@,
        0x26 => "Print"@,
        0x27 => "Microphone Enable"@,
        _ if 0x28 <= usage <= 0x3F => "Reserved"@,
        0x40 => "Cine"@,
        0x41 => "Transmit Power"@,
        0x42 => "Volume"@,
        0x43 => "Focus"@,
        0x44 => "Depth"@,
        _ if 0x45 <= usage <= 0x5F => "Reserved"@,
        0x60 => "Soft Step - Primary"@,
        0x61 => "Soft Step - Secondary"@,
        _ if 0x62 <= usage <= 0x6F => "Reserved"@,
        0x70 => "Depth Gain Compensation"@,
        _ if 0x71 <= usage <= 0x7F => "Reserved"@,
        0x80 => "Zoom Select"@,
        0x81 => "Zoom Adjust"@,
        0x82 => "Spectral Doppler Mode Select"@,
        0x83 => "Spectral Doppler Adjust"@,
        0x84 => "Color Doppler Mode Select"@,
        0x85 => "Color Doppler Adjust"@,
        0x86 => "Motion Mode Select"@,
        0x87 => "Motion Mode Adjust"@,
        0x88 => "2-D Mode Select"@,
        0x89 => "2-D Mode Adjust"@,
        _ if 0x8A <= usage <= 0x9F => "Reserved"@,
        0xA0 => "Soft Control Select"@,
        0xA1 => "Soft Control Adjust"@,
        _ if 0xA2 <= usage <= 0xFFFF => "Reserved"@,
        _ => hex_text(usage),
    }
}

/// The name of `usage` on the Medical Instrument page, or its number where it has none.
pub fn get_medical_instrument_usage_name(usage: u32) -> (name: String)
    ensures
        name@ == medical_instrument_usage_name(usage),
{
    match usage {
        0x00 => "Undefined".to_string(),
        0x01 => "Medical Ultrasound".to_string(),
        _ if 0x02 <= usage && usage <= 0x1F => "Reserved".to_string(),
        0x20 => "VCR/Acquisition".to_string(),
        0x21 => "Freeze/Thaw".to_string(),
        0x22 => "Clip Store".to_string(),
        0x23 => "Update".to_string(),
        0x24 => "Next".to_string(),
        0x25 => "Save".to_string(),
        0x26 => "Print".to_string(),
        0x27 => "Microphone Enable".to_string(),
        _ if 0x28 <= usage && usage <= 0x3F => "Reserved".to_string(),
        0x40 => "Cine".to_string(),
        0x41 => "Transmit Power".to_string(),
        0x42 => "Volume".to_string(),
        0x43 => "Focus".to_string(),
        0x44 => "Depth".to_string(),
        _ if 0x45 <= usage && usage <= 0x5F => "Reserved".to_string(),
        0x60 => "Soft Step - Primary".to_string(),
        0x61 => "Soft Step - Secondary".to_string(),
        _ if 0x62 <= usage && usage <= 0x6F => "Reserved".to_string(),
        0x70 => "Depth Gain Compensation".to_string(),
        _ if 0x71 <= usage && usage <= 0x7F => "Reserved".to_string(),
        0x80 => "Zoom Select".to_string(),
        0x81 => "Zoom Adjust".to_string(),
        0x82 => "Spectral Doppler Mode Select".to_string(),
        0x83 => "Spectral Doppler Adjust".to_string(),
        0x84 => "Color Doppler Mode Select".to_string(),
        0x85 => "Color Doppler Adjust".to_string(),
        0x86 => "Motion Mode Select".to_string(),
        0x87 => "Motion Mode Adjust".to_string(),
        0x88 => "2-D Mode Select".to_string(),
        0x89 => "2-D Mode Adjust".to_string(),
        _ if 0x8A <= usage && usage <= 0x9F => "Reserved".to_string(),
        0xA0 => "Soft Control Select".to_string(),
        0xA1 => "Soft Control Adjust".to_string(),
        _ if 0xA2 <= usage && usage <= 0xFFFF => "Reserved".to_string(),
        _ => format_hex(usage),
    }
}

} // verus!
