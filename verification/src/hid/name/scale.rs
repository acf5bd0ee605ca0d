//! Usages of the Scale page (0x8D).

use crate::hid::text::{format_hex, hex_text};
use vstd::prelude::*;

verus! {

/// The name of `usage` on the Scale page, or its number where it has none.
pub open spec fn scale_usage_name(usage: u32) -> Seq<char> {
    match usage {
        0x00 => "Undefined"@,
        0x01 => "Weighing Device"@,
        _ if 0x01 <= usage <= 0x1F => "Reserved"@,
        0x20 => "Scale Device"@,
        0x21 => "Scale Class I Metric"@,
        0x22 => "Scale Class I Metric"@,
        0x23 => "Scale Class II Metric"@,
        0x24 => "Scale Class III Metric"@,
        0x25 => "Scale Class IIIL Metric"@,
        0x26 => "Scale Class IV Metric"@,
        0x27 => "Scale Class III English"@,
        0x28 => "Scale Class IIIL English"@,
        0x29 => "Scale Class IV English"@,
        0x2A => "Scale Class Generic"@,
        _ if 0x2B <= usage <= 0x2F => "Reserved"@,
        0x30 => "Scale Attribute Report"@,
        0x31 => "Scale Control Report"@,
        0x32 => "Scale Data Report"@,
        0x33 => "Scale Status Report"@,
        0x34 => "Scale Weight Limit Report"@,
        0x35 => "Scale Statistics Report"@,
        _ if 0x36 <= usage <= 0x3F => "Reserved"@,
        0x40 => "Data Weight"@,
        0x41 => "Data Scaling"@,
        _ if 0x42 <= usage <= 0x4F => "Reserved"@,
        0x50 => "Weight Unit"@,
        0x51 => "Weight Unit Milligram"@,
        0x52 => "Weight Unit Gram"@,
        0x53 => "Weight Unit Kilogram"@,
        0x54 => "Weight Unit Carats"@,
        0x55 => "Weight Unit Taels"@,
        0x56 => "Weight Unit Grains"@,
        0x57 => "Weight Unit Pennyweights"@,
        0x58 => "Weight Unit Metric Ton"@,
        0x59 => "Weight Unit Avoir Ton"@,
        0x5A => "Weight Unit Troy Ounce"@,
        0x5B => "Weight Unit Ounce"@,
        0x5C => "Weight Unit Pound"@,
        _ if 0x5D <= usage <= 0x5F => "Reserved"@,
        0x60 => "Calibration Count"@,
        0x61 => "Re-Zero Count"@,
        _ if 0x62 <= usage <= 0x6F => "Reserved"@,
        0x70 => "Scale Status"@,
        0x71 => "Scale Status Fault"@,
        0x72 => "Scale Status Stable at Center of Zero"@,
        0x73 => "Scale Status In Motion"@,
        0x74 => "Scale Status Weight Stable"@,
        0x75 => "Scale Status Under Zero"@,
        0x76 => "Scale Status Over Weight Limit"@,
        0x77 => "Scale Status Requires Calibration"@,
        0x78 => "Scale Status Requires Re- zeroing"@,
        _ if 0x79 <= usage <= 0x7F => "Reserved"@,
        0x80 => "Zero Scale"@,
        0x81 => "Enforced Zero Return"@,
        _ if 0x82 <= usage <= 0xFFFF => "Reserved"@,
        _ => hex_text(usage),
    }
}

/// The name of `usage` on the Scale page, or its number where it has none.
pub fn get_scale_usage_name(usage: u32) -> (name: String)
    ensures
        name@ == scale_usage_name(usage),
{
    match usage {
        0x00 => "Undefined".to_string(),
        0x01 => "Weighing Device".to_string(),
        _ if 0x01 <= usage && usage <= 0x1F => "Reserved".to_string(),
        0x20 => "Scale Device".to_string(),
        0x21 => "Scale Class I Metric".to_string(),
        0x22 => "Scale Class I Metric".to_string(),
        0x23 => "Scale Class II Metric".to_string(),
        0x24 => "Scale Class III Metric".to_string(),
        0x25 => "Scale Class IIIL Metric".to_string(),
        0x26 => "Scale Class IV Metric".to_string(),
        0x27 => "Scale Class III English".to_string(),
        0x28 => "Scale Class IIIL English".to_string(),
        0x29 => "Scale Class IV English".to_string(),
        0x2A => "Scale Class Generic".to_string(),
        _ if 0x2B <= usage && usage <= 0x2F => "Reserved".to_string(),
        0x30 => "Scale Attribute Report".to_string(),
        0x31 => "Scale Control Report".to_string(),
        0x32 => "Scale Data Report".to_string(),
        0x33 => "Scale Status Report".to_string(),
        0x34 => "Scale Weight Limit Report".to_string(),
        0x35 => "Scale Statistics Report".to_string(),
        _ if 0x36 <= usage && usage <= 0x3F => "Reserved".to_string(),
        0x40 => "Data Weight".to_string(),
        0x41 => "Data Scaling".to_string(),
        _ if 0x42 <= usage && usage <= 0x4F => "Reserved".to_string(),
        0x50 => "Weight Unit".to_string(),
        0x51 => "Weight Unit Milligram".to_string(),
        0x52 => "Weight Unit Gram".to_string(),
        0x53 => "Weight Unit Kilogram".to_string(),
        0x54 => "Weight Unit Carats".to_string(),
        0x55 => "Weight Unit Taels".to_string(),
        0x56 => "Weight Unit Grains".to_string(),
        0x57 => "Weight Unit Pennyweights".to_string(),
        0x58 => "Weight Unit Metric Ton".to_string(),
        0x59 => "Weight Unit Avoir Ton".to_string(),
        0x5A => "Weight Unit Troy Ounce".to_string(),
        0x5B => "Weight Unit Ounce".to_string(),
        0x5C => "Weight Unit Pound".to_string(),
        _ if 0x5D <= usage && usage <= 0x5F => "Reserved".to_string(),
        0x60 => "Calibration Count".to_string(),
        0x61 => "Re-Zero Count".to_string(),
        _ if 0x62 <= usage && usage <= 0x6F => "Reserved".to_string(),
        0x70 => "Scale Status".to_string(),
        0x71 => "Scale Status Fault".to_string(),
        0x72 => "Scale Status Stable at Center of Zero".to_string(),
        0x73 => "Scale Status In Motion".to_string(),
        0x74 => "Scale Status Weight Stable".to_string(),
        0x75 => "Scale Status Under Zero".to_string(),
        0x76 => "Scale Status Over Weight Limit".to_string(),
        0x77 => "Scale Status Requires Calibration".to_string(),
        0x78 => "Scale Status Requires Re- zeroing".to_string(),
        _ if 0x79 <= usage && usage <= 0x7F => "Reserved".to_string(),
        0x80 => "Zero Scale".to_string(),
        0x81 => "Enforced Zero Return".to_string(),
        _ if 0x82 <= usage && usage <= 0xFFFF => "Reserved".to_string(),
        _ => format_hex(usage),
    }
}

} // verus!
