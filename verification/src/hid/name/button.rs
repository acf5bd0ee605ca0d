//! Usages of the Button page (0x09).

use crate::hid::text::{format_hex, format_labelled, hex_text, labelled_text};
use vstd::prelude::*;

verus! {

/// The name of `usage` on the Button page, or its number where it has none.
pub open spec fn button_usage_name(usage: u32) -> Seq<char> {
    match usage {
        0x00 => "No Button Pressed"@,
        0x01 => "Button 1 (primary/trigger)"@,
        0x02 => "Button 2 (secondary)"@,
        0x03 => "Button 3 (tertiary)"@,
        _ if 0x04 <= usage <= 0xFFFF => labelled_text("Button "@, usage),
        _ => hex_text(usage),
    }
}

/// The name of `usage` on the Button page, or its number where it has none.
pub fn get_button_usage_name(usage: u32) -> (name: String)
    ensures
        name@ == button_usage_name(usage),
{
    match usage {
        0x00 => "No Button Pressed".to_string(),
        0x01 => "Button 1 (primary/trigger)".to_string(),
        0x02 => "Button 2 (secondary)".to_string(),
        0x03 => "Button 3 (tertiary)".to_string(),
        _ if 0x04 <= usage && usage <= 0xFFFF => format_labelled("Button ", usage),
        _ => format_hex(usage),
    }
}

} // verus!
