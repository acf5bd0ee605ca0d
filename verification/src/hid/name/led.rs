//! Usages of the LED page (0x08).

use crate::hid::text::{format_hex, hex_text};
use vstd::prelude::*;

verus! {

/// The name of `usage` on the LED page, or its number where it has none.
pub open spec fn led_usage_name(usage: u32) -> Seq<char> {
    match usage {
        0x00 => "Undefined"@,
        0x01 => "Num Lock"@,
        0x02 => "Caps Lock"@,
        0x03 => "Scroll Lock"@,
        0x04 => "Compose"@,
        0x05 => "Kana"@,
        0x06 => "Power"@,
        0x07 => "Shift"@,
        0x08 => "Do Not Disturb"@,
        0x09 => "Mute"@,
        0x0A => "Tone Enable"@,
        0x0B => "High Cut Filter"@,
        0x0C => "Low Cut Filter"@,
        0x0D => "Equalizer Enable"@,
        0x0E => "Sound Field On"@,
        0x0F => "Surround On"@,
        0x10 => "Repeat"@,
        0x11 => "Stereo"@,
        0x12 => "Sampling Rate Detect"@,
        0x13 => "Spinning"@,
        0x14 => "CAV"@,
        0x15 => "CLV"@,
        0x16 => "Recording Format Detect"@,
        0x17 => "Off-Hook"@,
        0x18 => "Ring"@,
        0x19 => "Message Waiting"@,
        0x1A => "Data Mode"@,
        0x1B => "Battery Operation"@,
        0x1C => "Battery OK"@,
        0x1D => "Battery Low"@,
        0x1E => "Speaker"@,
        0x1F => "Head Set"@,
        0x20 => "Hold"@,
        0x21 => "Microphone"@,
        0x22 => "Coverage"@,
        0x23 => "Night Mode"@,
        0x24 => "Send Calls"@,
        0x25 => "Call Pickup"@,
        0x26 => "Conference"@,
        0x27 => "Stand-by"@,
        0x28 => "Camera On"@,
        0x29 => "Camera Off"@,
        0x2A => "On-Line"@,
        0x2B => "Off-Line"@,
        0x2C => "Busy"@,
        0x2D => "Ready"@,
        0x2E => "Paper-Out"@,
        0x2F => "Paper-Jam"@,
        0x30 => "Remote"@,
        0x31 => "Forward"@,
        0x32 => "Reverse"@,
        0x33 => "Stop"@,
        0x34 => "Rewind"@,
        0x35 => "Fast Forward"@,
        0x36 => "Play"@,
        0x37 => "Pause"@,
        0x38 => "Record"@,
        0x39 => "Error"@,
        0x3A => "Usage Selected Indicator"@,
        0x3B => "Usage In Use Indicator"@,
        0x3C => "Usage Multi Mode Indicator"@,
        0x3D => "Indicator On"@,
        0x3E => "Indicator Flash"@,
        0x3F => "Indicator Slow Blink"@,
        0x40 => "Indicator Fast Blink"@,
        0x41 => "Indicator Off"@,
        0x42 => "Flash On Time"@,
        0x43 => "Slow Blink On Time"@,
        0x44 => "Slow Blink Off Time"@,
        0x45 => "Fast Blink On Time"@,
        0x46 => "Fast Blink Off Time"@,
        0x47 => "Usage Indicator Color"@,
        0x48 => "Indicator Red"@,
        0x49 => "Indicator Green"@,
        0x4A => "Indicator Amber"@,
        0x4B => "Generic Indicator"@,
        0x4C => "System Suspend"@,
        0x4D => "External Power Connected"@,
        0x4E => "Indicator Blue"@,
        0x4F => "Indicator Orange"@,
        0x50 => "Good Status"@,
        0x51 => "Warning Status"@,
        0x52 => "RGB LED"@,
        0x53 => "Red LED Channel"@,
        0x54 => "Blue LED Channel"@,
        0x55 => "Green LED Channel"@,
        0x56 => "LED Intensity"@,
        _ if 0x57 <= usage <= 0x5F => "Reserved"@,
        0x60 => "Player Indicator"@,
        0x61 => "Player 1"@,
        0x62 => "Player 2"@,
        0x63 => "Player 3"@,
        0x64 => "Player 4"@,
        0x65 => "Player 5"@,
        0x66 => "Player 6"@,
        0x67 => "Player 7"@,
        0x68 => "Player 8"@,
        _ if 0x69 <= usage <= 0xFFFF => "Reserved"@,
        _ => hex_text(usage),
    }
}

/// The name of `usage` on the LED page, or its number where it has none.
pub fn get_led_usage_name(usage: u32) -> (name: String)
    ensures
        name@ == led_usage_name(usage),
{
    match usage {
        0x00 => "Undefined".to_string(),
        0x01 => "Num Lock".to_string(),
        0x02 => "Caps Lock".to_string(),
        0x03 => "Scroll Lock".to_string(),
        0x04 => "Compose".to_string(),
        0x05 => "Kana".to_string(),
        0x06 => "Power".to_string(),
        0x07 => "Shift".to_string(),
        0x08 => "Do Not Disturb".to_string(),
        0x09 => "Mute".to_string(),
        0x0A => "Tone Enable".to_string(),
        0x0B => "High Cut Filter".to_string(),
        0x0C => "Low Cut Filter".to_string(),
        0x0D => "Equalizer Enable".to_string(),
        0x0E => "Sound Field On".to_string(),
        0x0F => "Surround On".to_string(),
        0x10 => "Repeat".to_string(),
        0x11 => "Stereo".to_string(),
        0x12 => "Sampling Rate Detect".to_string(),
        0x13 => "Spinning".to_string(),
        0x14 => "CAV".to_string(),
        0x15 => "CLV".to_string(),
        0x16 => "Recording Format Detect".to_string(),
        0x17 => "Off-Hook".to_string(),
        0x18 => "Ring".to_string(),
        0x19 => "Message Waiting".to_string(),
        0x1A => "Data Mode".to_string(),
        0x1B => "Battery Operation".to_string(),
        0x1C => "Battery OK".to_string(),
        0x1D => "Battery Low".to_string(),
        0x1E => "Speaker".to_string(),
        0x1F => "Head Set".to_string(),
        0x20 => "Hold".to_string(),
        0x21 => "Microphone".to_string(),
        0x22 => "Coverage".to_string(),
        0x23 => "Night Mode".to_string(),
        0x24 => "Send Calls".to_string(),
        0x25 => "Call Pickup".to_string(),
        0x26 => "Conference".to_string(),
        0x27 => "Stand-by".to_string(),
        0x28 => "Camera On".to_string(),
        0x29 => "Camera Off".to_string(),
        0x2A => "On-Line".to_string(),
        0x2B => "Off-Line".to_string(),
        0x2C => "Busy".to_string(),
        0x2D => "Ready".to_string(),
        0x2E => "Paper-Out".to_string(),
        0x2F => "Paper-Jam".to_string(),
        0x30 => "Remote".to_string(),
        0x31 => "Forward".to_string(),
        0x32 => "Reverse".to_string(),
        0x33 => "Stop".to_string(),
        0x34 => "Rewind".to_string(),
        0x35 => "Fast Forward".to_string(),
        0x36 => "Play".to_string(),
        0x37 => "Pause".to_string(),
        0x38 => "Record".to_string(),
        0x39 => "Error".to_string(),
        0x3A => "Usage Selected Indicator".to_string(),
        0x3B => "Usage In Use Indicator".to_string(),
        0x3C => "Usage Multi Mode Indicator".to_string(),
        0x3D => "Indicator On".to_string(),
        0x3E => "Indicator Flash".to_string(),
        0x3F => "Indicator Slow Blink".to_string(),
        0x40 => "Indicator Fast Blink".to_string(),
        0x41 => "Indicator Off".to_string(),
        0x42 => "Flash On Time".to_string(),
        0x43 => "Slow Blink On Time".to_string(),
        0x44 => "Slow Blink Off Time".to_string(),
        0x45 => "Fast Blink On Time".to_string(),
        0x46 => "Fast Blink Off Time".to_string(),
        0x47 => "Usage Indicator Color".to_string(),
        0x48 => "Indicator Red".to_string(),
        0x49 => "Indicator Green".to_string(),
        0x4A => "Indicator Amber".to_string(),
        0x4B => "Generic Indicator".to_string(),
        0x4C => "System Suspend".to_string(),
        0x4D => "External Power Connected".to_string(),
        0x4E => "Indicator Blue".to_string(),
        0x4F => "Indicator Orange".to_string(),
        0x50 => "Good Status".to_string(),
        0x51 => "Warning Status".to_string(),
        0x52 => "RGB LED".to_string(),
        0x53 => "Red LED Channel".to_string(),
        0x54 => "Blue LED Channel".to_string(),
        0x55 => "Green LED Channel".to_string(),
        0x56 => "LED Intensity".to_string(),
        _ if 0x57 <= usage && usage <= 0x5F => "Reserved".to_string(),
        0x60 => "Player Indicator".to_string(),
        0x61 => "Player 1".to_string(),
        0x62 => "Player 2".to_string(),
        0x63 => "Player 3".to_string(),
        0x64 => "Player 4".to_string(),
        0x65 => "Player 5".to_string(),
        0x66 => "Player 6".to_string(),
        0x67 => "Player 7".to_string(),
        0x68 => "Player 8".to_string(),
        _ if 0x69 <= usage && usage <= 0xFFFF => "Reserved".to_string(),
        _ => format_hex(usage),
    }
}

} // verus!
