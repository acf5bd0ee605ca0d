//! Usages of the Braille Display page (0x41).

use crate::hid::text::{format_hex, hex_text};
use vstd::prelude::*;

verus! {

/// The name of `usage` on the Braille Display page, or its number where it has none.
pub open spec fn braille_display_usage_name(usage: u32) -> Seq<char> {
    match usage {
        0x00 => "Undefined"@,
        0x01 => "Braille Display"@,
        0x02 => "Braille Row"@,
        0x03 => "8 Dot Braille Cell"@,
        0x04 => "6 Dot Braille Cell"@,
        0x05 => "Number of Braille Cells"@,
        0x06 => "Screen Reader Control"@,
        0x07 => "Screen Reader Identifier"@,
        _ if 0x08 <= usage <= 0xF9 => "Reserved"@,
        0xFA => "Router Set 1"@,
        0xFB => "Router Set 2"@,
        0xFC => "Router Set 3"@,
        _ if 0xFD <= usage <= 0xFF => "Reserved"@,
        0x100 => "Router Key"@,
        0x101 => "Row Router Key"@,
        _ if 0x102 <= usage <= 0x1FF => "Reserved"@,
        0x200 => "Braille Buttons"@,
        0x201 => "Braille Keyboard Dot 1"@,
        0x202 => "Braille Keyboard Dot 2"@,
        0x203 => "Braille Keyboard Dot 3"@,
        0x204 => "Braille Keyboard Dot 4"@,
        0x205 => "Braille Keyboard Dot 5"@,
        0x206 => "Braille Keyboard Dot 6"@,
        0x207 => "Braille Keyboard Dot 7"@,
        0x208 => "Braille Keyboard Dot 8"@,
        0x209 => "Braille Keyboard Space"@,
        0x20A => "Braille Keyboard Left Space"@,
        0x20B => "Braille Keyboard Right Space"@,
        0x20C => "Braille Face Controls"@,
        0x20D => "Braille Left Controls"@,
        0x20E => "Braille Right Controls"@,
        0x20F => "Braille Top Controls"@,
        0x210 => "Braille Joystick Center"@,
        0x211 => "Braille Joystick Up"@,
        0x212 => "Braille Joystick Down"@,
        0x213 => "Braille Joystick Left"@,
        0x214 => "Braille Joystick Right"@,
        0x215 => "Braille D-Pad Center"@,
        0x216 => "Braille D-Pad Up"@,
        0x217 => "Braille D-Pad Down"@,
        0x218 => "Braille D-Pad Left"@,
        0x219 => "Braille D-Pad Right"@,
        0x21A => "Braille Pan Left"@,
        0x21B => "Braille Pan Right"@,
        0x21C => "Braille Rocker Up"@,
        0x21D => "Braille Rocker Down"@,
        0x21E => "Braille Rocker Press"@,
        _ if 0x21F <= usage <= 0xFFFF => "Reserved"@,
        _ => hex_text(usage),
    }
}

/// The name of `usage` on the Braille Display page, or its number where it has none.
pub fn get_braille_display_usage_name(usage: u32) -> (name: String)
    ensures
        name@ == braille_display_usage_name(usage),
{
    match usage {
        0x00 => "Undefined".to_string(),
        0x01 => "Braille Display".to_string(),
        0x02 => "Braille Row".to_string(),
        0x03 => "8 Dot Braille Cell".to_string(),
        0x04 => "6 Dot Braille Cell".to_string(),
        0x05 => "Number of Braille Cells".to_string(),
        0x06 => "Screen Reader Control".to_string(),
        0x07 => "Screen Reader Identifier".to_string(),
        _ if 0x08 <= usage && usage <= 0xF9 => "Reserved".to_string(),
        0xFA => "Router Set 1".to_string(),
        0xFB => "Router Set 2".to_string(),
        0xFC => "Router Set 3".to_string(),
        _ if 0xFD <= usage && usage <= 0xFF => "Reserved".to_string(),
        0x100 => "Router Key".to_string(),
        0x101 => "Row Router Key".to_string(),
        _ if 0x102 <= usage && usage <= 0x1FF => "Reserved".to_string(),
        0x200 => "Braille Buttons".to_string(),
        0x201 => "Braille Keyboard Dot 1".to_string(),
        0x202 => "Braille Keyboard Dot 2".to_string(),
        0x203 => "Braille Keyboard Dot 3".to_string(),
        0x204 => "Braille Keyboard Dot 4".to_string(),
        0x205 => "Braille Keyboard Dot 5".to_string(),
        0x206 => "Braille Keyboard Dot 6".to_string(),
        0x207 => "Braille Keyboard Dot 7".to_string(),
        0x208 => "Braille Keyboard Dot 8".to_string(),
        0x209 => "Braille Keyboard Space".to_string(),
        0x20A => "Braille Keyboard Left Space".to_string(),
        0x20B => "Braille Keyboard Right Space".to_string(),
        0x20C => "Braille Face Controls".to_string(),
        0x20D => "Braille Left Controls".to_string(),
        0x20E => "Braille Right Controls".to_string(),
        0x20F => "Braille Top Controls".to_string(),
        0x210 => "Braille Joystick Center".to_string(),
        0x211 => "Braille Joystick Up".to_string(),
        0x212 => "Braille Joystick Down".to_string(),
        0x213 => "Braille Joystick Left".to_string(),
        0x214 => "Braille Joystick Right".to_string(),
        0x215 => "Braille D-Pad Center".to_string(),
        0x216 => "Braille D-Pad Up".to_string(),
        0x217 => "Braille D-Pad Down".to_string(),
        0x218 => "Braille D-Pad Left".to_string(),
        0x219 => "Braille D-Pad Right".to_string(),
        0x21A => "Braille Pan Left".to_string(),
        0x21B => "Braille Pan Right".to_string(),
        0x21C => "Braille Rocker Up".to_string(),
        0x21D => "Braille Rocker Down".to_string(),
        0x21E => "Braille Rocker Press".to_string(),
        _ if 0x21F <= usage && usage <= 0xFFFF => "Reserved".to_string(),
        _ => format_hex(usage),
    }
}

} // verus!
