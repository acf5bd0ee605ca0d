//! Usages of the Telephony page (0x0B).

use crate::hid::text::{format_hex, hex_text};
use vstd::prelude::*;

verus! {

/// The name of `usage` on the Telephony page, or its number where it has none.
pub open spec fn telephony_usage_name(usage: u32) -> Seq<char> {
    match usage {
        0x00 => "Undefined"@,
        0x01 => "Phone"@,
        0x02 => "Answering Machine"@,
        0x03 => "Message Controls"@,
        0x04 => "Handset"@,
        0x05 => "Headset"@,
        0x06 => "Telephony Key Pad"@,
        0x07 => "Programmable Button"@,
        _ if 0x08 <= usage <= 0x1F => "Reserved"@,
        0x20 => "Hook Switch"@,
        0x21 => "Flash"@,
        0x22 => "Feature"@,
        0x23 => "Hold"@,
        0x24 => "Redial"@,
        0x25 => "Transfer"@,
        0x26 => "Drop"@,
        0x27 => "Park"@,
        0x28 => "Forward Calls"@,
        0x29 => "Alternate Function"@,
        0x2A => "Line"@,
        0x2B => "Speaker Phone"@,
        0x2C => "Conference"@,
        0x2D => "Ring Enable"@,
        0x2E => "Ring Select"@,
        0x2F => "Phone Mute"@,
        0x30 => "Caller ID"@,
        0x31 => "Send"@,
        _ if 0x32 <= usage <= 0x4F => "Reserved"@,
        0x50 => "Speed Dial"@,
        0x51 => "Store Number"@,
        0x52 => "Recall Number"@,
        0x53 => "Phone Directory"@,
        _ if 0x54 <= usage <= 0x6F => "Reserved"@,
        0x70 => "Voice Mail"@,
        0x71 => "Screen Calls"@,
        0x72 => "Do Not Disturb"@,
        0x73 => "Message"@,
        0x74 => "Answer On/Off"@,
        _ if 0x75 <= usage <= 0x8F => "Reserved"@,
        0x90 => "Inside Dial Tone"@,
        0x91 => "Outside Dial Tone"@,
        0x92 => "Inside Ring Tone"@,
        0x93 => "Outside Ring Tone"@,
        0x94 => "Priority Ring Tone"@,
        0x95 => "Inside Ringback"@,
        0x96 => "Priority Ringback"@,
        0x97 => "Line Busy Tone"@,
        0x98 => "Reorder Tone"@,
        0x99 => "Call Waiting Tone"@,
        0x9A => "Confirmation Tone 1"@,
        0x9B => "Confirmation Tone 1"@,
        0x9C => "Tones Off"@,
        0x9D => "Outside Ringback"@,
        0x9E => "Ringer"@,
        _ if 0x9F <= usage <= 0xAF => "Reserved"@,
        0xB0 => "Phone Key 0"@,
        0xB1 => "Phone Key 1"@,
        0xB2 => "Phone Key 2"@,
        0xB3 => "Phone Key 3"@,
        0xB4 => "Phone Key 4"@,
        0xB5 => "Phone Key 5"@,
        0xB6 => "Phone Key 6"@,
        0xB7 => "Phone Key 7"@,
        0xB8 => "Phone Key 8"@,
        0xB9 => "Phone Key 9"@,
        0xBA => "Phone Key Star"@,
        0xBB => "Phone Key Pound"@,
        0xBC => "Phone Key A"@,
        0xBD => "Phone Key B"@,
        0xBE => "Phone Key C"@,
        0xBF => "Phone Key D"@,
        0xC0 => "Phone Call History Key"@,
        0xC1 => "Phone Caller ID Key"@,
        0xC2 => "Settings Key"@,
        _ if 0xC3 <= usage <= 0xEF => "Reserved"@,
        _ => hex_text(usage),
    }
}

/// The name of `usage` on the Telephony page, or its number where it has none.
pub fn get_telephony_usage_name(usage: u32) -> (name: String)
    ensures
        name@ == telephony_usage_name(usage),
{
    match usage {
        0x00 => "Undefined".to_string(),
        0x01 => "Phone".to_string(),
        0x02 => "Answering Machine".to_string(),
        0x03 => "Message Controls".to_string(),
        0x04 => "Handset".to_string(),
        0x05 => "Headset".to_string(),
        0x06 => "Telephony Key Pad".to_string(),
        0x07 => "Programmable Button".to_string(),
        _ if 0x08 <= usage && usage <= 0x1F => "Reserved".to_string(),
        0x20 => "Hook Switch".to_string(),
        0x21 => "Flash".to_string(),
        0x22 => "Feature".to_string(),
        0x23 => "Hold".to_string(),
        0x24 => "Redial".to_string(),
        0x25 => "Transfer".to_string(),
        0x26 => "Drop".to_string(),
        0x27 => "Park".to_string(),
        0x28 => "Forward Calls".to_string(),
        0x29 => "Alternate Function".to_string(),
        0x2A => "Line".to_string(),
        0x2B => "Speaker Phone".to_string(),
        0x2C => "Conference".to_string(),
        0x2D => "Ring Enable".to_string(),
        0x2E => "Ring Select".to_string(),
        0x2F => "Phone Mute".to_string(),
        0x30 => "Caller ID".to_string(),
        0x31 => "Send".to_string(),
        _ if 0x32 <= usage && usage <= 0x4F => "Reserved".to_string(),
        0x50 => "Speed Dial".to_string(),
        0x51 => "Store Number".to_string(),
        0x52 => "Recall Number".to_string(),
        0x53 => "Phone Directory".to_string(),
        _ if 0x54 <= usage && usage <= 0x6F => "Reserved".to_string(),
        0x70 => "Voice Mail".to_string(),
        0x71 => "Screen Calls".to_string(),
        0x72 => "Do Not Disturb".to_string(),
        0x73 => "Message".to_string(),
        0x74 => "Answer On/Off".to_string(),
        _ if 0x75 <= usage && usage <= 0x8F => "Reserved".to_string(),
        0x90 => "Inside Dial Tone".to_string(),
        0x91 => "Outside Dial Tone".to_string(),
        0x92 => "Inside Ring Tone".to_string(),
        0x93 => "Outside Ring Tone".to_string(),
        0x94 => "Priority Ring Tone".to_string(),
        0x95 => "Inside Ringback".to_string(),
        0x96 => "Priority Ringback".to_string(),
        0x97 => "Line Busy Tone".to_string(),
        0x98 => "Reorder Tone".to_string(),
        0x99 => "Call Waiting Tone".to_string(),
        0x9A => "Confirmation Tone 1".to_string(),
        0x9B => "Confirmation Tone 1".to_string(),
        0x9C => "Tones Off".to_string(),
        0x9D => "Outside Ringback".to_string(),
        0x9E => "Ringer".to_string(),
        _ if 0x9F <= usage && usage <= 0xAF => "Reserved".to_string(),
        0xB0 => "Phone Key 0".to_string(),
        0xB1 => "Phone Key 1".to_string(),
        0xB2 => "Phone Key 2".to_string(),
        0xB3 => "Phone Key 3".to_string(),
        0xB4 => "Phone Key 4".to_string(),
        0xB5 => "Phone Key 5".to_string(),
        0xB6 => "Phone Key 6".to_string(),
        0xB7 => "Phone Key 7".to_string(),
        0xB8 => "Phone Key 8".to_string(),
        0xB9 => "Phone Key 9".to_string(),
        0xBA => "Phone Key Star".to_string(),
        0xBB => "Phone Key Pound".to_string(),
        0xBC => "Phone Key A".to_string(),
        0xBD => "Phone Key B".to_string(),
        0xBE => "Phone Key C".to_string(),
        0xBF => "Phone Key D".to_string(),
        0xC0 => "Phone Call History Key".to_string(),
        0xC1 => "Phone Caller ID Key".to_string(),
        0xC2 => "Settings Key".to_string(),
        _ if 0xC3 <= usage && usage <= 0xEF => "Reserved".to_string(),
        _ => format_hex(usage),
    }
}

} // verus!
