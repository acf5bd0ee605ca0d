//! Usages of the FIDO Alliance page (0xF1D0).

use crate::hid::text::{format_hex, hex_text};
use vstd::prelude::*;

verus! {

/// The name of `usage` on the FIDO Alliance page, or its number where it has none.
pub open spec fn fido_alliance_usage_name(usage: u32) -> Seq<char> {
    match usage {
        0x00 => "Undefined"@,
        0x01 => "U2F Authenticator Device"@,
        _ if 0x02 <= usage <= 0x1F => "Reserved"@,
        0x20 => "Input Report Data"@,
        0x21 => "Output Report Data"@,
        _ if 0x22 <= usage <= 0xFFFF => "Reserved"@,
        _ => hex_text(usage),
    }
}

/// The name of `usage` on the FIDO Alliance page, or its number where it has none.
pub fn get_fido_alliance_usage_name(usage: u32) -> (name: String)
    ensures
        name@ == fido_alliance_usage_name(usage),
{
    match usage {
        0x00 => "Undefined".to_string(),
        0x01 => "U2F Authenticator Device".to_string(),
        _ if 0x02 <= usage && usage <= 0x1F => "Reserved".to_string(),
        0x20 => "Input Report Data".to_string(),
        0x21 => "Output Report Data".to_string(),
        _ if 0x22 <= usage && usage <= 0xFFFF => "Reserved".to_string(),
        _ => format_hex(usage),
    }
}

} // verus!
