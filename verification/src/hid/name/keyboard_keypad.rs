//! Usages of the Keyboard/Keypad page (0x07).

use crate::hid::text::{format_hex, hex_text};
use vstd::prelude::*;

verus! {

/// The name of `usage` on the Keyboard/Keypad page, or its number where it has none.
pub open spec fn keyboard_keypad_usage_name(usage: u32) -> Seq<char> {
    match usage {
        0x00 => "Reserved"@,
        0x01 => "Keyboard ErrorRollOver"@,
        0x02 => "Keyboard POSTFail"@,
        0x03 => "Keyboard ErrorUndefined"@,
        0x04 => "Keyboard a and A"@,
        0x05 => "Keyboard b and B"@,
        0x06 => "Keyboard c and C"@,
        0x07 => "Keyboard d and D"@,
        0x08 => "Keyboard e and E"@,
        0x09 => "Keyboard f and F"@,
        0x0A => "Keyboard g and G"@,
        0x0B => "Keyboard h and H"@,
        0x0C => "Keyboard i and I"@,
        0x0D => "Keyboard j and J"@,
        0x0E => "Keyboard k and K"@,
        0x0F => "Keyboard l and L"@,
        0x10 => "Keyboard m and M"@,
        0x11 => "Keyboard n and N"@,
        0x12 => "Keyboard o and O"@,
        0x13 => "Keyboard p and P"@,
        0x14 => "Keyboard q and Q"@,
        0x15 => "Keyboard r and R"@,
        0x16 => "Keyboard s and S"@,
        0x17 => "Keyboard t and T"@,
        0x18 => "Keyboard u and U"@,
        0x19 => "Keyboard v and V"@,
        0x1A => "Keyboard w and W"@,
        0x1B => "Keyboard x and X"@,
        0x1C => "Keyboard y and Y"@,
        0x1D => "Keyboard z and Z"@,
        0x1E => "Keyboard 1 and !"@,
        0x1F => "Keyboard 2 and @"@,
        0x20 => "Keyboard 3 and #"@,
        0x21 => "Keyboard 4 and $"@,
        0x22 => "Keyboard 5 and %"@,
        0x23 => "Keyboard 6 and \u{2227}"@,
        0x24 => "Keyboard 7 and &"@,
        0x25 => "Keyboard 8 and *"@,
        0x26 => "Keyboard 9 and ("@,
        0x27 => "Keyboard 0 and )"@,
        0x28 => "Keyboard Return (ENTER)"@,
        0x29 => "Keyboard ESCAPE"@,
        0x2A => "Keyboard DELETE (Backspace)"@,
        0x2B => "Keyboard Tab"@,
        0x2C => "Keyboard Spacebar"@,
        0x2D => "Keyboard - and (underscore)"@,
        0x2E => "Keyboard = and +"@,
        0x2F => "Keyboard [ and {"@,
        0x30 => "Keyboard ] and }"@,
        0x31 => "Keyboard \\ and |"@,
        0x32 => "Keyboard Non-US # and \u{303}"@,
        0x33 => "Keyboard ; and :"@,
        0x34 => "Keyboard \u{2018} and \u{201C}"@,
        0x35 => "Keyboard Grave Accent and Tilde"@,
        0x36 => "Keyboard , and <"@,
        0x37 => "Keyboard . and >"@,
        0x38 => "Keyboard / and ?"@,
        0x39 => "Keyboard Caps Lock"@,
        0x3A => "Keyboard F1"@,
        0x3B => "Keyboard F2"@,
        0x3C => "Keyboard F3"@,
        0x3D => "Keyboard F4"@,
        0x3E => "Keyboard F5"@,
        0x3F => "Keyboard F6"@,
        0x40 => "Keyboard F7"@,
        0x41 => "Keyboard F8"@,
        0x42 => "Keyboard F9"@,
        0x43 => "Keyboard F10"@,
        0x44 => "Keyboard F11"@,
        0x45 => "Keyboard F12"@,
        0x46 => "Keyboard PrintScreen"@,
        0x47 => "Keyboard Scroll Lock"@,
        0x48 => "Keyboard Pause"@,
        0x49 => "Keyboard Insert"@,
        0x4A => "Keyboard Home"@,
        0x4B => "Keyboard PageUp"@,
        0x4C => "Keyboard Delete Forward"@,
        0x4D => "Keyboard End"@,
        0x4E => "Keyboard PageDown"@,
        0x4F => "Keyboard RightArrow"@,
        0x50 => "Keyboard LeftArrow"@,
        0x51 => "Keyboard DownArrow"@,
        0x52 => "Keyboard UpArrow"@,
        0x53 => "Keypad Num Lock and Clear"@,
        0x54 => "Keypad /"@,
        0x55 => "Keypad *"@,
        0x56 => "Keypad -"@,
        0x57 => "Keypad +"@,
        0x58 => "Keypad ENTER"@,
        0x59 => "Keypad 1 and End"@,
        0x5A => "Keypad 2 and Down Arrow"@,
        0x5B => "Keypad 3 and PageDn"@,
        0x5C => "Keypad 4 and Left Arrow"@,
        0x5D => "Keypad 5"@,
        0x5E => "Keypad 6 and Right Arrow"@,
        0x5F => "Keypad 7 and Home"@,
        0x60 => "Keypad 8 and Up Arrow"@,
        0x61 => "Keypad 9 and PageUp"@,
        0x62 => "Keypad 0 and Insert"@,
        0x63 => "Keypad . and Delete"@,
        0x64 => "Keyboard Non-US \\ and |"@,
        0x65 => "Keyboard Application"@,
        0x66 => "Keyboard Power"@,
        0x67 => "Keypad ="@,
        0x68 => "Keyboard F13"@,
        0x69 => "Keyboard F14"@,
        0x6A => "Keyboard F15"@,
        0x6B => "Keyboard F16"@,
        0x6C => "Keyboard F17"@,
        0x6D => "Keyboard F18"@,
        0x6E => "Keyboard F19"@,
        0x6F => "Keyboard F20"@,
        0x70 => "Keyboard F21"@,
        0x71 => "Keyboard F22"@,
        0x72 => "Keyboard F23"@,
        0x73 => "Keyboard F24"@,
        0x74 => "Keyboard Execute"@,
        0x75 => "Keyboard Help"@,
        0x76 => "Keyboard Menu"@,
        0x77 => "Keyboard"@,
        0x78 => "Keyboard Stop"@,
        0x79 => "Keyboard Again"@,
        0x7A => "Keyboard Undo"@,
        0x7B => "Keyboard Cut"@,
        0x7C => "Keyboard Copy"@,
        0x7D => "Keyboard Paste"@,
        0x7E => "Keyboard Find"@,
        0x7F => "Keyboard Mute"@,
        0x80 => "Keyboard Volume Up"@,
        0x81 => "Keyboard Volume Down"@,
        0x82 => "Keyboard Locking Caps Lock"@,
        0x83 => "Keyboard Locking Num Lock"@,
        0x84 => "Keyboard Locking Scroll Lock"@,
        0x85 => "Keypad Comma"@,
        0x86 => "Keypad Equal Sign"@,
        0x87 => "Keyboard International1"@,
        0x88 => "Keyboard International2"@,
        0x89 => "Keyboard International3"@,
        0x8A => "Keyboard International4"@,
        0x8B => "Keyboard International5"@,
        0x8C => "Keyboard International6"@,
        0x8D => "Keyboard International7"@,
        0x8E => "Keyboard International8"@,
        0x8F => "Keyboard International9"@,
        0x90 => "Keyboard LANG1"@,
        0x91 => "Keyboard LANG2"@,
        0x92 => "Keyboard LANG3"@,
        0x93 => "Keyboard LANG4"@,
        0x94 => "Keyboard LANG5"@,
        0x95 => "Keyboard LANG6"@,
        0x96 => "Keyboard LANG7"@,
        0x97 => "Keyboard LANG8"@,
        0x98 => "Keyboard LANG9"@,
        0x99 => "Keyboard Alternate Erase"@,
        0x9A => "Keyboard SysReq/Attention"@,
        0x9B => "Keyboard Cancel"@,
        0x9C => "Keyboard Clear"@,
        0x9D => "Keyboard Prior"@,
        0x9E => "Keyboard Return"@,
        0x9F => "Keyboard Separator"@,
        0xA0 => "Keyboard Out"@,
        0xA1 => "Keyboard Oper"@,
        0xA2 => "Keyboard Clear/Again"@,
        0xA3 => "Keyboard CrSel/Props"@,
        0xA4 => "Keyboard ExSel"@,
        _ if 0xA5 <= usage <= 0xAF => "Reserved"@,
        0xB0 => "Keypad 00"@,
        0xB1 => "Keypad 000"@,
        0xB2 => "Thousands Separator"@,
        0xB3 => "Decimal Separator"@,
        0xB4 => "Currency Unit"@,
        0xB5 => "Currency Sub-unit"@,
        0xB6 => "Keypad ("@,
        0xB7 => "Keypad )"@,
        0xB8 => "Keypad {"@,
        0xB9 => "Keypad }"@,
        0xBA => "Keypad Tab"@,
        0xBB => "Keypad Backspace"@,
        0xBC => "Keypad A"@,
        0xBD => "Keypad B"@,
        0xBE => "Keypad C"@,
        0xBF => "Keypad D"@,
        0xC0 => "Keypad E"@,
        0xC1 => "Keypad F"@,
        0xC2 => "Keypad XOR"@,
        0xC3 => "Keypad \u{2227}"@,
        0xC4 => "Keypad %"@,
        0xC5 => "Keypad <"@,
        0xC6 => "Keypad >"@,
        0xC7 => "Keypad &"@,
        0xC8 => "Keypad &&"@,
        0xC9 => "Keypad |"@,
        0xCA => "Keypad ||"@,
        0xCB => "Keypad :"@,
        0xCC => "Keypad #"@,
        0xCD => "Keypad Space"@,
        0xCE => "Keypad @"@,
        0xCF => "Keypad !"@,
        0xD0 => "Keypad Memory Store"@,
        0xD1 => "Keypad Memory Recall"@,
        0xD2 => "Keypad Memory Clear"@,
        0xD3 => "Keypad Memory Add"@,
        0xD4 => "Keypad Memory Subtract"@,
        0xD5 => "Keypad Memory Multiply"@,
        0xD6 => "Keypad Memory Divide"@,
        0xD7 => "Keypad +/-"@,
        0xD8 => "Keypad Clear"@,
        0xD9 => "Keypad Clear Entry"@,
        0xDA => "Keypad Binary"@,
        0xDB => "Keypad Octal"@,
        0xDC => "Keypad Decimal"@,
        0xDD => "Keypad Hexadecimal"@,
        _ if 0xDE <= usage <= 0xDF => "Reserved"@,
        0xE0 => "Keyboard LeftControl"@,
        0xE1 => "Keyboard LeftShift"@,
        0xE2 => "Keyboard LeftAlt"@,
        0xE3 => "Keyboard Left GUI"@,
        0xE4 => "Keyboard RightControl"@,
        0xE5 => "Keyboard RightShift"@,
        0xE6 => "Keyboard RightAlt"@,
        0xE7 => "Keyboard Right GUI"@,
        _ if 0xE8 <= usage <= 0xFFFF => "Reserve"@,
        _ => hex_text(usage),
    }
}

/// The name of `usage` on the Keyboard/Keypad page, or its number where it has none.
pub fn get_keyboard_keypad_usage_name(usage: u32) -> (name: String)
    ensures
        name@ == keyboard_keypad_usage_name(usage),
{
    match usage {
        0x00 => "Reserved".to_string(),
        0x01 => "Keyboard ErrorRollOver".to_string(),
        0x02 => "Keyboard POSTFail".to_string(),
        0x03 => "Keyboard ErrorUndefined".to_string(),
        0x04 => "Keyboard a and A".to_string(),
        0x05 => "Keyboard b and B".to_string(),
        0x06 => "Keyboard c and C".to_string(),
        0x07 => "Keyboard d and D".to_string(),
        0x08 => "Keyboard e and E".to_string(),
        0x09 => "Keyboard f and F".to_string(),
        0x0A => "Keyboard g and G".to_string(),
        0x0B => "Keyboard h and H".to_string(),
        0x0C => "Keyboard i and I".to_string(),
        0x0D => "Keyboard j and J".to_string(),
        0x0E => "Keyboard k and K".to_string(),
        0x0F => "Keyboard l and L".to_string(),
        0x10 => "Keyboard m and M".to_string(),
        0x11 => "Keyboard n and N".to_string(),
        0x12 => "Keyboard o and O".to_string(),
        0x13 => "Keyboard p and P".to_string(),
        0x14 => "Keyboard q and Q".to_string(),
        0x15 => "Keyboard r and R".to_string(),
        0x16 => "Keyboard s and S".to_string(),
        0x17 => "Keyboard t and T".to_string(),
        0x18 => "Keyboard u and U".to_string(),
        0x19 => "Keyboard v and V".to_string(),
        0x1A => "Keyboard w and W".to_string(),
        0x1B => "Keyboard x and X".to_string(),
        0x1C => "Keyboard y and Y".to_string(),
        0x1D => "Keyboard z and Z".to_string(),
        0x1E => "Keyboard 1 and !".to_string(),
        0x1F => "Keyboard 2 and @".to_string(),
        0x20 => "Keyboard 3 and #".to_string(),
        0x21 => "Keyboard 4 and $".to_string(),
        0x22 => "Keyboard 5 and %".to_string(),
        0x23 => "Keyboard 6 and \u{2227}".to_string(),
        0x24 => "Keyboard 7 and &".to_string(),
        0x25 => "Keyboard 8 and *".to_string(),
        0x26 => "Keyboard 9 and (".to_string(),
        0x27 => "Keyboard 0 and )".to_string(),
        0x28 => "Keyboard Return (ENTER)".to_string(),
        0x29 => "Keyboard ESCAPE".to_string(),
        0x2A => "Keyboard DELETE (Backspace)".to_string(),
        0x2B => "Keyboard Tab".to_string(),
        0x2C => "Keyboard Spacebar".to_string(),
        0x2D => "Keyboard - and (underscore)".to_string(),
        0x2E => "Keyboard = and +".to_string(),
        0x2F => "Keyboard [ and {".to_string(),
        0x30 => "Keyboard ] and }".to_string(),
        0x31 => "Keyboard \\ and |".to_string(),
        0x32 => "Keyboard Non-US # and \u{303}".to_string(),
        0x33 => "Keyboard ; and :".to_string(),
        0x34 => "Keyboard \u{2018} and \u{201C}".to_string(),
        0x35 => "Keyboard Grave Accent and Tilde".to_string(),
        0x36 => "Keyboard , and <".to_string(),
        0x37 => "Keyboard . and >".to_string(),
        0x38 => "Keyboard / and ?".to_string(),
        0x39 => "Keyboard Caps Lock".to_string(),
        0x3A => "Keyboard F1".to_string(),
        0x3B => "Keyboard F2".to_string(),
        0x3C => "Keyboard F3".to_string(),
        0x3D => "Keyboard F4".to_string(),
        0x3E => "Keyboard F5".to_string(),
        0x3F => "Keyboard F6".to_string(),
        0x40 => "Keyboard F7".to_string(),
        0x41 => "Keyboard F8".to_string(),
        0x42 => "Keyboard F9".to_string(),
        0x43 => "Keyboard F10".to_string(),
        0x44 => "Keyboard F11".to_string(),
        0x45 => "Keyboard F12".to_string(),
        0x46 => "Keyboard PrintScreen".to_string(),
        0x47 => "Keyboard Scroll Lock".to_string(),
        0x48 => "Keyboard Pause".to_string(),
        0x49 => "Keyboard Insert".to_string(),
        0x4A => "Keyboard Home".to_string(),
        0x4B => "Keyboard PageUp".to_string(),
        0x4C => "Keyboard Delete Forward".to_string(),
        0x4D => "Keyboard End".to_string(),
        0x4E => "Keyboard PageDown".to_string(),
        0x4F => "Keyboard RightArrow".to_string(),
        0x50 => "Keyboard LeftArrow".to_string(),
        0x51 => "Keyboard DownArrow".to_string(),
        0x52 => "Keyboard UpArrow".to_string(),
        0x53 => "Keypad Num Lock and Clear".to_string(),
        0x54 => "Keypad /".to_string(),
        0x55 => "Keypad *".to_string(),
        0x56 => "Keypad -".to_string(),
        0x57 => "Keypad +".to_string(),
        0x58 => "Keypad ENTER".to_string(),
        0x59 => "Keypad 1 and End".to_string(),
        0x5A => "Keypad 2 and Down Arrow".to_string(),
        0x5B => "Keypad 3 and PageDn".to_string(),
        0x5C => "Keypad 4 and Left Arrow".to_string(),
        0x5D => "Keypad 5".to_string(),
        0x5E => "Keypad 6 and Right Arrow".to_string(),
        0x5F => "Keypad 7 and Home".to_string(),
        0x60 => "Keypad 8 and Up Arrow".to_string(),
        0x61 => "Keypad 9 and PageUp".to_string(),
        0x62 => "Keypad 0 and Insert".to_string(),
        0x63 => "Keypad . and Delete".to_string(),
        0x64 => "Keyboard Non-US \\ and |".to_string(),
        0x65 => "Keyboard Application".to_string(),
        0x66 => "Keyboard Power".to_string(),
        0x67 => "Keypad =".to_string(),
        0x68 => "Keyboard F13".to_string(),
        0x69 => "Keyboard F14".to_string(),
        0x6A => "Keyboard F15".to_string(),
        0x6B => "Keyboard F16".to_string(),
        0x6C => "Keyboard F17".to_string(),
        0x6D => "Keyboard F18".to_string(),
        0x6E => "Keyboard F19".to_string(),
        0x6F => "Keyboard F20".to_string(),
        0x70 => "Keyboard F21".to_string(),
        0x71 => "Keyboard F22".to_string(),
        0x72 => "Keyboard F23".to_string(),
        0x73 => "Keyboard F24".to_string(),
        0x74 => "Keyboard Execute".to_string(),
        0x75 => "Keyboard Help".to_string(),
        0x76 => "Keyboard Menu".to_string(),
        0x77 => "Keyboard".to_string(),
        0x78 => "Keyboard Stop".to_string(),
        0x79 => "Keyboard Again".to_string(),
        0x7A => "Keyboard Undo".to_string(),
        0x7B => "Keyboard Cut".to_string(),
        0x7C => "Keyboard Copy".to_string(),
        0x7D => "Keyboard Paste".to_string(),
        0x7E => "Keyboard Find".to_string(),
        0x7F => "Keyboard Mute".to_string(),
        0x80 => "Keyboard Volume Up".to_string(),
        0x81 => "Keyboard Volume Down".to_string(),
        0x82 => "Keyboard Locking Caps Lock".to_string(),
        0x83 => "Keyboard Locking Num Lock".to_string(),
        0x84 => "Keyboard Locking Scroll Lock".to_string(),
        0x85 => "Keypad Comma".to_string(),
        0x86 => "Keypad Equal Sign".to_string(),
        0x87 => "Keyboard International1".to_string(),
        0x88 => "Keyboard International2".to_string(),
        0x89 => "Keyboard International3".to_string(),
        0x8A => "Keyboard International4".to_string(),
        0x8B => "Keyboard International5".to_string(),
        0x8C => "Keyboard International6".to_string(),
        0x8D => "Keyboard International7".to_string(),
        0x8E => "Keyboard International8".to_string(),
        0x8F => "Keyboard International9".to_string(),
        0x90 => "Keyboard LANG1".to_string(),
        0x91 => "Keyboard LANG2".to_string(),
        0x92 => "Keyboard LANG3".to_string(),
        0x93 => "Keyboard LANG4".to_string(),
        0x94 => "Keyboard LANG5".to_string(),
        0x95 => "Keyboard LANG6".to_string(),
        0x96 => "Keyboard LANG7".to_string(),
        0x97 => "Keyboard LANG8".to_string(),
        0x98 => "Keyboard LANG9".to_string(),
        0x99 => "Keyboard Alternate Erase".to_string(),
        0x9A => "Keyboard SysReq/Attention".to_string(),
        0x9B => "Keyboard Cancel".to_string(),
        0x9C => "Keyboard Clear".to_string(),
        0x9D => "Keyboard Prior".to_string(),
        0x9E => "Keyboard Return".to_string(),
        0x9F => "Keyboard Separator".to_string(),
        0xA0 => "Keyboard Out".to_string(),
        0xA1 => "Keyboard Oper".to_string(),
        0xA2 => "Keyboard Clear/Again".to_string(),
        0xA3 => "Keyboard CrSel/Props".to_string(),
        0xA4 => "Keyboard ExSel".to_string(),
        _ if 0xA5 <= usage && usage <= 0xAF => "Reserved".to_string(),
        0xB0 => "Keypad 00".to_string(),
        0xB1 => "Keypad 000".to_string(),
        0xB2 => "Thousands Separator".to_string(),
        0xB3 => "Decimal Separator".to_string(),
        0xB4 => "Currency Unit".to_string(),
        0xB5 => "Currency Sub-unit".to_string(),
        0xB6 => "Keypad (".to_string(),
        0xB7 => "Keypad )".to_string(),
        0xB8 => "Keypad {".to_string(),
        0xB9 => "Keypad }".to_string(),
        0xBA => "Keypad Tab".to_string(),
        0xBB => "Keypad Backspace".to_string(),
        0xBC => "Keypad A".to_string(),
        0xBD => "Keypad B".to_string(),
        0xBE => "Keypad C".to_string(),
        0xBF => "Keypad D".to_string(),
        0xC0 => "Keypad E".to_string(),
        0xC1 => "Keypad F".to_string(),
        0xC2 => "Keypad XOR".to_string(),
        0xC3 => "Keypad \u{2227}".to_string(),
        0xC4 => "Keypad %".to_string(),
        0xC5 => "Keypad <".to_string(),
        0xC6 => "Keypad >".to_string(),
        0xC7 => "Keypad &".to_string(),
        0xC8 => "Keypad &&".to_string(),
        0xC9 => "Keypad |".to_string(),
        0xCA => "Keypad ||".to_string(),
        0xCB => "Keypad :".to_string(),
        0xCC => "Keypad #".to_string(),
        0xCD => "Keypad Space".to_string(),
        0xCE => "Keypad @".to_string(),
        0xCF => "Keypad !".to_string(),
        0xD0 => "Keypad Memory Store".to_string(),
        0xD1 => "Keypad Memory Recall".to_string(),
        0xD2 => "Keypad Memory Clear".to_string(),
        0xD3 => "Keypad Memory Add".to_string(),
        0xD4 => "Keypad Memory Subtract".to_string(),
        0xD5 => "Keypad Memory Multiply".to_string(),
        0xD6 => "Keypad Memory Divide".to_string(),
        0xD7 => "Keypad +/-".to_string(),
        0xD8 => "Keypad Clear".to_string(),
        0xD9 => "Keypad Clear Entry".to_string(),
        0xDA => "Keypad Binary".to_string(),
        0xDB => "Keypad Octal".to_string(),
        0xDC => "Keypad Decimal".to_string(),
        0xDD => "Keypad Hexadecimal".to_string(),
        _ if 0xDE <= usage && usage <= 0xDF => "Reserved".to_string(),
        0xE0 => "Keyboard LeftControl".to_string(),
        0xE1 => "Keyboard LeftShift".to_string(),
        0xE2 => "Keyboard LeftAlt".to_string(),
        0xE3 => "Keyboard Left GUI".to_string(),
        0xE4 => "Keyboard RightControl".to_string(),
        0xE5 => "Keyboard RightShift".to_string(),
        0xE6 => "Keyboard RightAlt".to_string(),
        0xE7 => "Keyboard Right GUI".to_string(),
        _ if 0xE8 <= usage && usage <= 0xFFFF => "Reserve".to_string(),
        _ => format_hex(usage),
    }
}

} // verus!
