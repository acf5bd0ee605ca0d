//! Usages of the Game Controls page (0x05).

use crate::hid::text::{format_hex, hex_text};
use vstd::prelude::*;

verus! {

/// The name of `usage` on the Game Controls page, or its number where it has none.
pub open spec fn game_controls_usage_name(usage: u32) -> Seq<char> {
    match usage {
        0x00 => "Undefined"@,
        0x01 => "3D Game Controller"@,
        0x02 => "Pinball Device"@,
        0x03 => "Gun Device"@,
        _ if 0x04 <= usage <= 0x1F => "Reserved"@,
        0x20 => "Point of View"@,
        0x21 => "Turn Right/Left"@,
        0x22 => "Pitch Forward/Backward"@,
        0x23 => "Roll Right/Left"@,
        0x24 => "Move Right/Left"@,
        0x25 => "Move Forward/Backward"@,
        0x26 => "Move Up/Down"@,
        0x27 => "Lean Right/Left"@,
        0x28 => "Lean Forward/Backward"@,
        0x29 => "Height of POV"@,
        0x2A => "Flipper"@,
        0x2B => "Secondary Flipper"@,
        0x2C => "Bump"@,
        0x2D => "New Game"@,
        0x2E => "Shoot Ball"@,
        0x2F => "Player"@,
        0x30 => "Gun Bolt"@,
        0x31 => "Gun Clip"@,
        0x32 => "Gun Selector NAry 8.3"@,
        0x33 => "Gun Single Shot Sel 8.3"@,
        0x34 => "Gun Burst Sel 8.3"@,
        0x35 => "Gun Automatic Sel 8.3"@,
        0x36 => "Gun Safety"@,
        0x37 => "Gamepad Fire/Jump CL 8.4.1"@,
        0x38 => "Reserved"@,
        0x39 => "Gamepad Trigger CL 8.4.1"@,
        0x3A => "Form-fitting Gamepad SF 8.4.1"@,
        _ if 0x3B <= usage <= 0xFFFF => "Reserved"@,
        _ => hex_text(usage),
    }
}

/// The name of `usage` on the Game Controls page, or its number where it has none.
pub fn get_game_controls_usage_name(usage: u32) -> (name: String)
    ensures
        name@ == game_controls_usage_name(usage),
{
    match usage {
        0x00 => "Undefined".to_string(),
        0x01 => "3D Game Controller".to_string(),
        0x02 => "Pinball Device".to_string(),
        0x03 => "Gun Device".to_string(),
        _ if 0x04 <= usage && usage <= 0x1F => "Reserved".to_string(),
        0x20 => "Point of View".to_string(),
        0x21 => "Turn Right/Left".to_string(),
        0x22 => "Pitch Forward/Backward".to_string(),
        0x23 => "Roll Right/Left".to_string(),
        0x24 => "Move Right/Left".to_string(),
        0x25 => "Move Forward/Backward".to_string(),
        0x26 => "Move Up/Down".to_string(),
        0x27 => "Lean Right/Left".to_string(),
        0x28 => "Lean Forward/Backward".to_string(),
        0x29 => "Height of POV".to_string(),
        0x2A => "Flipper".to_string(),
        0x2B => "Secondary Flipper".to_string(),
        0x2C => "Bump".to_string(),
        0x2D => "New Game".to_string(),
        0x2E => "Shoot Ball".to_string(),
        0x2F => "Player".to_string(),
        0x30 => "Gun Bolt".to_string(),
        0x31 => "Gun Clip".to_string(),
        0x32 => "Gun Selector NAry 8.3".to_string(),
        0x33 => "Gun Single Shot Sel 8.3".to_string(),
        0x34 => "Gun Burst Sel 8.3".to_string(),
        0x35 => "Gun Automatic Sel 8.3".to_string(),
        0x36 => "Gun Safety".to_string(),
        0x37 => "Gamepad Fire/Jump CL 8.4.1".to_string(),
        0x38 => "Reserved".to_string(),
        0x39 => "Gamepad Trigger CL 8.4.1".to_string(),
        0x3A => "Form-fitting Gamepad SF 8.4.1".to_string(),
        _ if 0x3B <= usage && usage <= 0xFFFF => "Reserved".to_string(),
        _ => format_hex(usage),
    }
}

} // verus!
