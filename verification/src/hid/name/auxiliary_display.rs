//! Usages of the Auxiliary Display page (0x14).

use crate::hid::text::{format_hex, hex_text};
use vstd::prelude::*;

verus! {

/// The name of `usage` on the Auxiliary Display page, or its number where it has none.
pub open spec fn auxiliary_display_usage_name(usage: u32) -> Seq<char> {
    match usage {
        0x00 => "Undefined"@,
        0x01 => "Alphanumeric Display"@,
        0x02 => "Auxiliary Display"@,
        _ if 0x03 <= usage <= 0x1F => "Reserved"@,
        0x20 => "Display Attributes Report"@,
        0x21 => "ASCII Character Set"@,
        0x22 => "Data Read Back"@,
        0x23 => "Font Read Back"@,
        0x24 => "Display Control Report"@,
        0x25 => "Clear Display"@,
        0x26 => "Display Enable"@,
        0x27 => "Screen Saver Delay SV/DV 20.1.2"@,
        0x28 => "Screen Saver Enable"@,
        0x29 => "Vertical Scroll SF/DF 20.1.3"@,
        0x2A => "Horizontal Scroll SF/DF 20.1.3"@,
        0x2B => "Character Report"@,
        0x2C => "Display Data"@,
        0x2D => "Display Status"@,
        0x2E => "Stat Not Ready"@,
        0x2F => "Stat Ready"@,
        0x30 => "Err Not a loadable character"@,
        0x31 => "Err Font data cannot be read"@,
        0x32 => "Cursor Position Report"@,
        0x33 => "Row"@,
        0x34 => "Column"@,
        0x35 => "Rows"@,
        0x36 => "Columns"@,
        0x37 => "Cursor Pixel Positioning"@,
        0x38 => "Cursor Mode"@,
        0x39 => "Cursor Enable"@,
        0x3A => "Cursor Blink"@,
        0x3B => "Font Report"@,
        0x3C => "Font Data Buffered Bytes 20.1.7"@,
        0x3D => "Character Width"@,
        0x3E => "Character Height"@,
        0x3F => "Character Spacing Horizontal"@,
        0x40 => "Character Spacing Vertical"@,
        0x41 => "Unicode Character Set"@,
        0x42 => "Font 7-Segment"@,
        0x43 => "7-Segment Direct Map"@,
        0x44 => "Font 14-Segment"@,
        0x45 => "14-Segment Direct Map"@,
        0x46 => "Display Brightness"@,
        0x47 => "Display Contrast"@,
        0x48 => "Character Attribute"@,
        0x49 => "Attribute Readback"@,
        0x4A => "Attribute Data"@,
        0x4B => "Char Attr Enhance"@,
        0x4C => "Char Attr Underline"@,
        0x4D => "Char Attr Blink"@,
        _ if 0x4E <= usage <= 0x7F => "Reserved"@,
        0x80 => "Bitmap Size X"@,
        0x81 => "Bitmap Size Y"@,
        0x82 => "Max Blit Size"@,
        0x83 => "Bit Depth Format"@,
        0x84 => "Display Orientation"@,
        0x85 => "Palette Report"@,
        0x86 => "Palette Data Size"@,
        0x87 => "Palette Data Offset"@,
        0x88 => "Palette Data [2] Buffered Bytes 20.2.3"@,
        0x89 => "Reserved"@,
        0x8A => "Blit Report"@,
        0x8B => "Blit Rectangle X1"@,
        0x8C => "Blit Rectangle Y1"@,
        0x8D => "Blit Rectangle X2"@,
        0x8E => "Blit Rectangle Y2"@,
        0x8F => "Blit Data [2] Buffered Bytes 20.2.4"@,
        0x90 => "Soft Button [2] CL 20.2.1.5"@,
        0x91 => "Soft Button ID [2] SV 20.2.1.5"@,
        0x92 => "Soft Button Side [2] SV 20.2.1.5"@,
        0x93 => "Soft Button Offset 1 [2] SV 20.2.1.5"@,
        0x94 => "Soft Button Offset 2 [2] SV 20.2.1.5"@,
        0x95 => "Soft Button Report"@,
        _ if 0x96 <= usage <= 0xC1 => "Reserved"@,
        0xC2 => "Soft Keys"@,
        _ if 0xC3 <= usage <= 0xCB => "Reserved"@,
        0xCC => "Display Data Extensions"@,
        _ if 0xCD <= usage <= 0xCE => "Reserved"@,
        0xCF => "Character Mapping"@,
        _ if 0xD0 <= usage <= 0xDC => "Reserved"@,
        0xDD => "Unicode Equivalent"@,
        0xDE => "Reserved"@,
        0xDF => "Character Page Mapping"@,
        _ if 0xE0 <= usage <= 0xFE => "Reserved"@,
        0xFF => "Request Report"@,
        _ if 0x100 <= usage <= 0xFFFF => "Reserved"@,
        _ => hex_text(usage),
    }
}

/// The name of `usage` on the Auxiliary Display page, or its number where it has none.
pub fn get_auxiliary_display_usage_name(usage: u32) -> (name: String)
    ensures
        name@ == auxiliary_display_usage_name(usage),
{
    match usage {
        0x00 => "Undefined".to_string(),
        0x01 => "Alphanumeric Display".to_string(),
        0x02 => "Auxiliary Display".to_string(),
        _ if 0x03 <= usage && usage <= 0x1F => "Reserved".to_string(),
        0x20 => "Display Attributes Report".to_string(),
        0x21 => "ASCII Character Set".to_string(),
        0x22 => "Data Read Back".to_string(),
        0x23 => "Font Read Back".to_string(),
        0x24 => "Display Control Report".to_string(),
        0x25 => "Clear Display".to_string(),
        0x26 => "Display Enable".to_string(),
        0x27 => "Screen Saver Delay SV/DV 20.1.2".to_string(),
        0x28 => "Screen Saver Enable".to_string(),
        0x29 => "Vertical Scroll SF/DF 20.1.3".to_string(),
        0x2A => "Horizontal Scroll SF/DF 20.1.3".to_string(),
        0x2B => "Character Report".to_string(),
        0x2C => "Display Data".to_string(),
        0x2D => "Display Status".to_string(),
        0x2E => "Stat Not Ready".to_string(),
        0x2F => "Stat Ready".to_string(),
        0x30 => "Err Not a loadable character".to_string(),
        0x31 => "Err Font data cannot be read".to_string(),
        0x32 => "Cursor Position Report".to_string(),
        0x33 => "Row".to_string(),
        0x34 => "Column".to_string(),
        0x35 => "Rows".to_string(),
        0x36 => "Columns".to_string(),
        0x37 => "Cursor Pixel Positioning".to_string(),
        0x38 => "Cursor Mode".to_string(),
        0x39 => "Cursor Enable".to_string(),
        0x3A => "Cursor Blink".to_string(),
        0x3B => "Font Report".to_string(),
        0x3C => "Font Data Buffered Bytes 20.1.7".to_string(),
        0x3D => "Character Width".to_string(),
        0x3E => "Character Height".to_string(),
        0x3F => "Character Spacing Horizontal".to_string(),
        0x40 => "Character Spacing Vertical".to_string(),
        0x41 => "Unicode Character Set".to_string(),
        0x42 => "Font 7-Segment".to_string(),
        0x43 => "7-Segment Direct Map".to_string(),
        0x44 => "Font 14-Segment".to_string(),
        0x45 => "14-Segment Direct Map".to_string(),
        0x46 => "Display Brightness".to_string(),
        0x47 => "Display Contrast".to_string(),
        0x48 => "Character Attribute".to_string(),
        0x49 => "Attribute Readback".to_string(),
        0x4A => "Attribute Data".to_string(),
        0x4B => "Char Attr Enhance".to_string(),
        0x4C => "Char Attr Underline".to_string(),
        0x4D => "Char Attr Blink".to_string(),
        _ if 0x4E <= usage && usage <= 0x7F => "Reserved".to_string(),
        0x80 => "Bitmap Size X".to_string(),
        0x81 => "Bitmap Size Y".to_string(),
        0x82 => "Max Blit Size".to_string(),
        0x83 => "Bit Depth Format".to_string(),
        0x84 => "Display Orientation".to_string(),
        0x85 => "Palette Report".to_string(),
        0x86 => "Palette Data Size".to_string(),
        0x87 => "Palette Data Offset".to_string(),
        0x88 => "Palette Data [2] Buffered Bytes 20.2.3".to_string(),
        0x89 => "Reserved".to_string(),
        0x8A => "Blit Report".to_string(),
        0x8B => "Blit Rectangle X1".to_string(),
        0x8C => "Blit Rectangle Y1".to_string(),
        0x8D => "Blit Rectangle X2".to_string(),
        0x8E => "Blit Rectangle Y2".to_string(),
        0x8F => "Blit Data [2] Buffered Bytes 20.2.4".to_string(),
        0x90 => "Soft Button [2] CL 20.2.1.5".to_string(),
        0x91 => "Soft Button ID [2] SV 20.2.1.5".to_string(),
        0x92 => "Soft Button Side [2] SV 20.2.1.5".to_string(),
        0x93 => "Soft Button Offset 1 [2] SV 20.2.1.5".to_string(),
        0x94 => "Soft Button Offset 2 [2] SV 20.2.1.5".to_string(),
        0x95 => "Soft Button Report".to_string(),
        _ if 0x96 <= usage && usage <= 0xC1 => "Reserved".to_string(),
        0xC2 => "Soft Keys".to_string(),
        _ if 0xC3 <= usage && usage <= 0xCB => "Reserved".to_string(),
        0xCC => "Display Data Extensions".to_string(),
        _ if 0xCD <= usage && usage <= 0xCE => "Reserved".to_string(),
        0xCF => "Character Mapping".to_string(),
        _ if 0xD0 <= usage && usage <= 0xDC => "Reserved".to_string(),
        0xDD => "Unicode Equivalent".to_string(),
        0xDE => "Reserved".to_string(),
        0xDF => "Character Page Mapping".to_string(),
        _ if 0xE0 <= usage && usage <= 0xFE => "Reserved".to_string(),
        0xFF => "Request Report".to_string(),
        _ if 0x100 <= usage && usage <= 0xFFFF => "Reserved".to_string(),
        _ => format_hex(usage),
    }
}

} // verus!
