//! Usages of the Bar Code Scanner page (0x8C).

use crate::hid::text::{format_hex, hex_text};
use vstd::prelude::*;

verus! {

/// The name of `usage` on the Bar Code Scanner page, or its number where it has none.
pub open spec fn bar_code_scanner_usage_name(usage: u32) -> Seq<char> {
    match usage {
        0x00 => "Undefined"@,
        0x01 => "Bar Code Badge Reader"@,
        0x02 => "Bar Code Scanner"@,
        0x03 => "Dumb Bar Code Scanner"@,
        0x04 => "Cordless Scanner Base"@,
        0x05 => "Bar Code Scanner Cradle"@,
        _ if 0x06 <= usage <= 0x0F => "Reserved"@,
        0x10 => "Attribute Report"@,
        0x11 => "Settings Report"@,
        0x12 => "Scanned Data Report"@,
        0x13 => "Raw Scanned Data Report"@,
        0x14 => "Trigger Report"@,
        0x15 => "Status Report"@,
        0x16 => "UPC/EAN Control Report"@,
        0x17 => "EAN 2/3 Label Control Report"@,
        0x18 => "Code 39 Control Report"@,
        0x19 => "Interleaved 2 of 5 Control Report"@,
        0x1A => "Standard 2 of 5 Control Report"@,
        0x1B => "MSI Plessey Control Report"@,
        0x1C => "Codabar Control Report"@,
        0x1D => "Code 128 Control Report"@,
        0x1E => "Misc 1D Control Report"@,
        0x1F => "2D Control Report"@,
        _ if 0x20 <= usage <= 0x2F => "Reserved"@,
        0x30 => "Aiming/Pointer Mode"@,
        0x31 => "Bar Code Present Sensor"@,
        0x32 => "Class 1A Laser"@,
        0x33 => "Class 2 Laser"@,
        0x34 => "Heater Present"@,
        0x35 => "Contact Scanner"@,
        0x36 => "Electronic Article Surveillance Notification"@,
        0x37 => "Constant Electronic Article Surveillance"@,
        0x38 => "Error Indication"@,
        0x39 => "Fixed Beeper"@,
        0x3A => "Good Decode Indication"@,
        0x3B => "Hands Free Scanning"@,
        0x3C => "Intrinsically Safe"@,
        0x3D => "Klasse Eins Laser"@,
        0x3E => "Long Range Scanner"@,
        0x3F => "Mirror Speed Control"@,
        0x40 => "Not On File Indication"@,
        0x41 => "Programmable Beeper"@,
        0x42 => "Triggerless"@,
        0x43 => "Wand"@,
        0x44 => "Water Resistant"@,
        0x45 => "Multi-Range Scanner"@,
        0x46 => "Proximity Sensor"@,
        _ if 0x47 <= usage <= 0x4C => "Reserved"@,
        0x4D => "Fragment Decoding"@,
        0x4E => "Scanner Read Confidence"@,
        0x4F => "Data Prefix"@,
        0x50 => "Prefix AIMI"@,
        0x51 => "Prefix None"@,
        0x52 => "Prefix Proprietary"@,
        _ if 0x53 <= usage <= 0x54 => "Reserved"@,
        0x55 => "Active Time"@,
        0x56 => "Aiming Laser Pattern"@,
        0x57 => "Bar Code Present"@,
        0x58 => "Beeper State"@,
        0x59 => "Laser On Time"@,
        0x5A => "Laser State"@,
        0x5B => "Lockout Time"@,
        0x5C => "Motor State"@,
        0x5D => "Motor Timeout"@,
        0x5E => "Power On Reset Scanner"@,
        0x5F => "Prevent Read of Barcodes"@,
        0x60 => "Initiate Barcode Read"@,
        0x61 => "Trigger State"@,
        0x62 => "Trigger Mode"@,
        0x63 => "Trigger Mode Blinking Laser On"@,
        0x64 => "Trigger Mode Continuous Laser On"@,
        0x65 => "Trigger Mode Laser on while Pulled"@,
        0x66 => "Trigger Mode Laser stays on after Trigger release"@,
        _ if 0x67 <= usage <= 0x6C => "Reserved"@,
        0x6D => "Commit Parameters to NVM"@,
        0x6E => "Parameter Scanning"@,
        0x6F => "Parameters Changed"@,
        0x70 => "Set parameter default values"@,
        _ if 0x71 <= usage <= 0x74 => "Reserved"@,
        0x75 => "Scanner In Cradle"@,
        0x76 => "Scanner In Range"@,
        _ if 0x77 <= usage <= 0x79 => "Reserved"@,
        0x7A => "Aim Duration"@,
        0x7B => "Good Read Lamp Duration"@,
        0x7C => "Good Read Lamp Intensity"@,
        0x7D => "Good Read LED"@,
        0x7E => "Good Read Tone Frequency"@,
        0x7F => "Good Read Tone Length"@,
        0x80 => "Good Read Tone Volume"@,
        0x81 => "Reserved"@,
        0x82 => "No Read Message"@,
        0x83 => "Not on File Volume"@,
        0x84 => "Powerup Beep"@,
        0x85 => "Sound Error Beep"@,
        0x86 => "Sound Good Read Beep"@,
        0x87 => "Sound Not On File Beep"@,
        0x88 => "Good Read When to Write"@,
        0x89 => "GRWTI After Decode"@,
        0x8A => "GRWTI Beep/Lamp after transmit"@,
        0x8B => "GRWTI No Beep/Lamp use at all"@,
        _ if 0x8C <= usage <= 0x90 => "Reserved"@,
        0x91 => "Bookland EAN"@,
        0x92 => "Convert EAN 8 to 13 Type"@,
        0x93 => "Convert UPC A to EAN-13"@,
        0x94 => "Convert UPC-E to A"@,
        0x95 => "EAN-13"@,
        0x96 => "EAN-8"@,
        0x97 => "EAN-99 128_Mandatory"@,
        0x98 => "EAN-99 P5/128_Optional"@,
        0x99 => "Reserved"@,
        0x9A => "UPC/EAN"@,
        0x9B => "UPC/EAN Coupon Code"@,
        0x9C => "UPC/EAN Periodicals"@,
        0x9D => "UPC-A"@,
        0x9E => "UPC-A with 128 Mandatory"@,
        0x9F => "UPC-A with 128 Optional"@,
        0xA0 => "UPC-A with P5 Optional"@,
        0xA1 => "UPC-E"@,
        0xA2 => "UPC-E1"@,
        _ if 0xA2 <= usage <= 0xA8 => "Reserved"@,
        0xA9 => "Periodical"@,
        0xAA => "Periodical Auto-Discriminate + 2"@,
        0xAB => "Periodical Only Decode with + 2"@,
        0xAC => "Periodical Ignore + 2"@,
        0xAD => "Periodical Auto-Discriminate + 5"@,
        0xAE => "Periodical Only Decode with + 5"@,
        0xAF => "Periodical Ignore + 5"@,
        0xB0 => "Check"@,
        0xB1 => "Check Disable Price"@,
        0xB2 => "Check Enable 4 digit Price"@,
        0xB3 => "Check Enable 5 digit Price"@,
        0xB4 => "Check Enable European 4 digit Price"@,
        0xB5 => "Check Enable European 5 digit Price"@,
        0xB6 => "Reserved"@,
        0xB7 => "EAN Two Label"@,
        0xB8 => "EAN Three Label"@,
        0xB9 => "EAN 8 Flag Digit 1"@,
        0xBA => "EAN 8 Flag Digit 2"@,
        0xBB => "EAN 8 Flag Digit 3"@,
        0xBC => "EAN 13 Flag Digit 1"@,
        0xBD => "EAN 13 Flag Digit 2"@,
        0xBE => "EAN 13 Flag Digit 3"@,
        0xBF => "Add EAN 2/3 Label Definition"@,
        0xC0 => "Clear all EAN 2/3 Label Definitions"@,
        0xC1 => "Reserved"@,
        0xC2 => "Reserved"@,
        0xC3 => "Codabar DF 0"@,
        0xC4 => "Code 128 DF 0"@,
        0xC5 => "Reserved"@,
        0xC6 => "Reserved"@,
        0xC7 => "Code 39 DF 0"@,
        0xC8 => "Code 93 DF 0"@,
        0xC9 => "Full ASCII Conversion DF 0"@,
        0xCA => "Interleaved 2 of 5 DF 0"@,
        0xCB => "Italian Pharmacy Code DF 0"@,
        0xCC => "MSI/Plessey DF 0"@,
        0xCD => "Standard 2 of 5 IATA DF 0"@,
        0xCE => "Standard 2 of 5 DF 0"@,
        0xCF => "Reserved"@,
        0xD0 => "Reserved"@,
        0xD1 => "Reserved"@,
        0xD2 => "Reserved"@,
        0xD3 => "Transmit Start/Stop DF 0"@,
        0xD4 => "Tri-Optic DF 0"@,
        0xD5 => "UCC/EAN-128 DF 0"@,
        0xD6 => "Check Digit"@,
        0xD7 => "Check Digit Disable"@,
        0xD8 => "Check Digit Enable Interleaved 2 of 5 OPCC"@,
        0xD9 => "Check Digit Enable Interleaved 2 of 5 USS"@,
        0xDA => "Check Digit Enable Standard 2 of 5 OPCC"@,
        0xDB => "Check Digit Enable Standard 2 of 5 USS"@,
        0xDC => "Check Digit Enable One MSI Plessey"@,
        0xDD => "Check Digit Enable Two MSI Plessey"@,
        0xDE => "Check Digit Codabar Enable"@,
        0xDF => "Check Digit Code 39 Enable"@,
        _ if 0xE0 <= usage <= 0xEF => "Reserved"@,
        0xF0 => "Transmit Check Digit"@,
        0xF1 => "Disable Check Digit Transmit"@,
        0xF2 => "Enable Check Digit Transmit"@,
        _ if 0xF3 <= usage <= 0xFA => "Reserved"@,
        0xFB => "Symbology Identifier 1"@,
        0xFC => "Symbology Identifier 2"@,
        0xFD => "Symbology Identifier 3"@,
        0xFE => "Decoded Data"@,
        0xFF => "Decode Data Continued"@,
        0x100 => "Bar Space Data"@,
        0x101 => "Scanner Data Accuracy"@,
        0x102 => "Raw Data Polarity"@,
        0x103 => "Polarity Inverted Bar Code"@,
        0x104 => "Polarity Normal Bar Code"@,
        0x105 => "Reserved"@,
        0x106 => "Minimum Length to Decode"@,
        0x107 => "Maximum Length to Decode"@,
        0x108 => "First Discrete Length to Decode"@,
        0x109 => "Second Discrete Length to Decode"@,
        0x10A => "Data Length Method"@,
        0x10B => "DL Method Read any"@,
        0x10C => "DL Method Check in Range"@,
        0x10D => "DL Method Check for Discrete"@,
        _ if 0x10E <= usage <= 0x10F => "Reserved"@,
        0x110 => "Aztec Code"@,
        0x111 => "BC412"@,
        0x112 => "Channel Code"@,
        0x113 => "Code 16"@,
        0x114 => "Code 32"@,
        0x115 => "Code 49"@,
        0x116 => "Code One"@,
        0x117 => "Colorcode"@,
        0x118 => "Data Matrix"@,
        0x119 => "MaxiCode"@,
        0x11A => "MicroPDF"@,
        0x11B => "PDF-417"@,
        0x11C => "PosiCode"@,
        0x11D => "QR Code"@,
        0x11E => "SuperCode"@,
        0x11F => "UltraCode"@,
        0x120 => "USD-5 (Slug Code)"@,
        0x121 => "VeriCode"@,
        _ if 0x122 <= usage <= 0xFFFF => "Reserved"@,
        _ => hex_text(usage),
    }
}

/// The name of `usage` on the Bar Code Scanner page, or its number where it has none.
pub fn get_bar_code_scanner_usage_name(usage: u32) -> (name: String)
    ensures
        name@ == bar_code_scanner_usage_name(usage),
{
    match usage {
        0x00 => "Undefined".to_string(),
        0x01 => "Bar Code Badge Reader".to_string(),
        0x02 => "Bar Code Scanner".to_string(),
        0x03 => "Dumb Bar Code Scanner".to_string(),
        0x04 => "Cordless Scanner Base".to_string(),
        0x05 => "Bar Code Scanner Cradle".to_string(),
        _ if 0x06 <= usage && usage <= 0x0F => "Reserved".to_string(),
        0x10 => "Attribute Report".to_string(),
        0x11 => "Settings Report".to_string(),
        0x12 => "Scanned Data Report".to_string(),
        0x13 => "Raw Scanned Data Report".to_string(),
        0x14 => "Trigger Report".to_string(),
        0x15 => "Status Report".to_string(),
        0x16 => "UPC/EAN Control Report".to_string(),
        0x17 => "EAN 2/3 Label Control Report".to_string(),
        0x18 => "Code 39 Control Report".to_string(),
        0x19 => "Interleaved 2 of 5 Control Report".to_string(),
        0x1A => "Standard 2 of 5 Control Report".to_string(),
        0x1B => "MSI Plessey Control Report".to_string(),
        0x1C => "Codabar Control Report".to_string(),
        0x1D => "Code 128 Control Report".to_string(),
        0x1E => "Misc 1D Control Report".to_string(),
        0x1F => "2D Control Report".to_string(),
        _ if 0x20 <= usage && usage <= 0x2F => "Reserved".to_string(),
        0x30 => "Aiming/Pointer Mode".to_string(),
        0x31 => "Bar Code Present Sensor".to_string(),
        0x32 => "Class 1A Laser".to_string(),
        0x33 => "Class 2 Laser".to_string(),
        0x34 => "Heater Present".to_string(),
        0x35 => "Contact Scanner".to_string(),
        0x36 => "Electronic Article Surveillance Notification".to_string(),
        0x37 => "Constant Electronic Article Surveillance".to_string(),
        0x38 => "Error Indication".to_string(),
        0x39 => "Fixed Beeper".to_string(),
        0x3A => "Good Decode Indication".to_string(),
        0x3B => "Hands Free Scanning".to_string(),
        0x3C => "Intrinsically Safe".to_string(),
        0x3D => "Klasse Eins Laser".to_string(),
        0x3E => "Long Range Scanner".to_string(),
        0x3F => "Mirror Speed Control".to_string(),
        0x40 => "Not On File Indication".to_string(),
        0x41 => "Programmable Beeper".to_string(),
        0x42 => "Triggerless".to_string(),
        0x43 => "Wand".to_string(),
        0x44 => "Water Resistant".to_string(),
        0x45 => "Multi-Range Scanner".to_string(),
        0x46 => "Proximity Sensor".to_string(),
        _ if 0x47 <= usage && usage <= 0x4C => "Reserved".to_string(),
        0x4D => "Fragment Decoding".to_string(),
        0x4E => "Scanner Read Confidence".to_string(),
        0x4F => "Data Prefix".to_string(),
        0x50 => "Prefix AIMI".to_string(),
        0x51 => "Prefix None".to_string(),
        0x52 => "Prefix Proprietary".to_string(),
        _ if 0x53 <= usage && usage <= 0x54 => "Reserved".to_string(),
        0x55 => "Active Time".to_string(),
        0x56 => "Aiming Laser Pattern".to_string(),
        0x57 => "Bar Code Present".to_string(),
        0x58 => "Beeper State".to_string(),
        0x59 => "Laser On Time".to_string(),
        0x5A => "Laser State".to_string(),
        0x5B => "Lockout Time".to_string(),
        0x5C => "Motor State".to_string(),
        0x5D => "Motor Timeout".to_string(),
        0x5E => "Power On Reset Scanner".to_string(),
        0x5F => "Prevent Read of Barcodes".to_string(),
        0x60 => "Initiate Barcode Read".to_string(),
        0x61 => "Trigger State".to_string(),
        0x62 => "Trigger Mode".to_string(),
        0x63 => "Trigger Mode Blinking Laser On".to_string(),
        0x64 => "Trigger Mode Continuous Laser On".to_string(),
        0x65 => "Trigger Mode Laser on while Pulled".to_string(),
        0x66 => "Trigger Mode Laser stays on after Trigger release".to_string(),
        _ if 0x67 <= usage && usage <= 0x6C => "Reserved".to_string(),
        0x6D => "Commit Parameters to NVM".to_string(),
        0x6E => "Parameter Scanning".to_string(),
        0x6F => "Parameters Changed".to_string(),
        0x70 => "Set parameter default values".to_string(),
        _ if 0x71 <= usage && usage <= 0x74 => "Reserved".to_string(),
        0x75 => "Scanner In Cradle".to_string(),
        0x76 => "Scanner In Range".to_string(),
        _ if 0x77 <= usage && usage <= 0x79 => "Reserved".to_string(),
        0x7A => "Aim Duration".to_string(),
        0x7B => "Good Read Lamp Duration".to_string(),
        0x7C => "Good Read Lamp Intensity".to_string(),
        0x7D => "Good Read LED".to_string(),
        0x7E => "Good Read Tone Frequency".to_string(),
        0x7F => "Good Read Tone Length".to_string(),
        0x80 => "Good Read Tone Volume".to_string(),
        0x81 => "Reserved".to_string(),
        0x82 => "No Read Message".to_string(),
        0x83 => "Not on File Volume".to_string(),
        0x84 => "Powerup Beep".to_string(),
        0x85 => "Sound Error Beep".to_string(),
        0x86 => "Sound Good Read Beep".to_string(),
        0x87 => "Sound Not On File Beep".to_string(),
        0x88 => "Good Read When to Write".to_string(),
        0x89 => "GRWTI After Decode".to_string(),
        0x8A => "GRWTI Beep/Lamp after transmit".to_string(),
        0x8B => "GRWTI No Beep/Lamp use at all".to_string(),
        _ if 0x8C <= usage && usage <= 0x90 => "Reserved".to_string(),
        0x91 => "Bookland EAN".to_string(),
        0x92 => "Convert EAN 8 to 13 Type".to_string(),
        0x93 => "Convert UPC A to EAN-13".to_string(),
        0x94 => "Convert UPC-E to A".to_string(),
        0x95 => "EAN-13".to_string(),
        0x96 => "EAN-8".to_string(),
        0x97 => "EAN-99 128_Mandatory".to_string(),
        0x98 => "EAN-99 P5/128_Optional".to_string(),
        0x99 => "Reserved".to_string(),
        0x9A => "UPC/EAN".to_string(),
        0x9B => "UPC/EAN Coupon Code".to_string(),
        0x9C => "UPC/EAN Periodicals".to_string(),
        0x9D => "UPC-A".to_string(),
        0x9E => "UPC-A with 128 Mandatory".to_string(),
        0x9F => "UPC-A with 128 Optional".to_string(),
        0xA0 => "UPC-A with P5 Optional".to_string(),
        0xA1 => "UPC-E".to_string(),
        0xA2 => "UPC-E1".to_string(),
        _ if 0xA2 <= usage && usage <= 0xA8 => "Reserved".to_string(),
        0xA9 => "Periodical".to_string(),
        0xAA => "Periodical Auto-Discriminate + 2".to_string(),
        0xAB => "Periodical Only Decode with + 2".to_string(),
        0xAC => "Periodical Ignore + 2".to_string(),
        0xAD => "Periodical Auto-Discriminate + 5".to_string(),
        0xAE => "Periodical Only Decode with + 5".to_string(),
        0xAF => "Periodical Ignore + 5".to_string(),
        0xB0 => "Check".to_string(),
        0xB1 => "Check Disable Price".to_string(),
        0xB2 => "Check Enable 4 digit Price".to_string(),
        0xB3 => "Check Enable 5 digit Price".to_string(),
        0xB4 => "Check Enable European 4 digit Price".to_string(),
        0xB5 => "Check Enable European 5 digit Price".to_string(),
        0xB6 => "Reserved".to_string(),
        0xB7 => "EAN Two Label".to_string(),
        0xB8 => "EAN Three Label".to_string(),
        0xB9 => "EAN 8 Flag Digit 1".to_string(),
        0xBA => "EAN 8 Flag Digit 2".to_string(),
        0xBB => "EAN 8 Flag Digit 3".to_string(),
        0xBC => "EAN 13 Flag Digit 1".to_string(),
        0xBD => "EAN 13 Flag Digit 2".to_string(),
        0xBE => "EAN 13 Flag Digit 3".to_string(),
        0xBF => "Add EAN 2/3 Label Definition".to_string(),
        0xC0 => "Clear all EAN 2/3 Label Definitions".to_string(),
        0xC1 => "Reserved".to_string(),
        0xC2 => "Reserved".to_string(),
        0xC3 => "Codabar DF 0".to_string(),
        0xC4 => "Code 128 DF 0".to_string(),
        0xC5 => "Reserved".to_string(),
        0xC6 => "Reserved".to_string(),
        0xC7 => "Code 39 DF 0".to_string(),
        0xC8 => "Code 93 DF 0".to_string(),
        0xC9 => "Full ASCII Conversion DF 0".to_string(),
        0xCA => "Interleaved 2 of 5 DF 0".to_string(),
        0xCB => "Italian Pharmacy Code DF 0".to_string(),
        0xCC => "MSI/Plessey DF 0".to_string(),
        0xCD => "Standard 2 of 5 IATA DF 0".to_string(),
        0xCE => "Standard 2 of 5 DF 0".to_string(),
        0xCF => "Reserved".to_string(),
        0xD0 => "Reserved".to_string(),
        0xD1 => "Reserved".to_string(),
        0xD2 => "Reserved".to_string(),
        0xD3 => "Transmit Start/Stop DF 0".to_string(),
        0xD4 => "Tri-Optic DF 0".to_string(),
        0xD5 => "UCC/EAN-128 DF 0".to_string(),
        0xD6 => "Check Digit".to_string(),
        0xD7 => "Check Digit Disable".to_string(),
        0xD8 => "Check Digit Enable Interleaved 2 of 5 OPCC".to_string(),
        0xD9 => "Check Digit Enable Interleaved 2 of 5 USS".to_string(),
        0xDA => "Check Digit Enable Standard 2 of 5 OPCC".to_string(),
        0xDB => "Check Digit Enable Standard 2 of 5 USS".to_string(),
        0xDC => "Check Digit Enable One MSI Plessey".to_string(),
        0xDD => "Check Digit Enable Two MSI Plessey".to_string(),
        0xDE => "Check Digit Codabar Enable".to_string(),
        0xDF => "Check Digit Code 39 Enable".to_string(),
        _ if 0xE0 <= usage && usage <= 0xEF => "Reserved".to_string(),
        0xF0 => "Transmit Check Digit".to_string(),
        0xF1 => "Disable Check Digit Transmit".to_string(),
        0xF2 => "Enable Check Digit Transmit".to_string(),
        _ if 0xF3 <= usage && usage <= 0xFA => "Reserved".to_string(),
        0xFB => "Symbology Identifier 1".to_string(),
        0xFC => "Symbology Identifier 2".to_string(),
        0xFD => "Symbology Identifier 3".to_string(),
        0xFE => "Decoded Data".to_string(),
        0xFF => "Decode Data Continued".to_string(),
        0x100 => "Bar Space Data".to_string(),
        0x101 => "Scanner Data Accuracy".to_string(),
        0x102 => "Raw Data Polarity".to_string(),
        0x103 => "Polarity Inverted Bar Code".to_string(),
        0x104 => "Polarity Normal Bar Code".to_string(),
        0x105 => "Reserved".to_string(),
        0x106 => "Minimum Length to Decode".to_string(),
        0x107 => "Maximum Length to Decode".to_string(),
        0x108 => "First Discrete Length to Decode".to_string(),
        0x109 => "Second Discrete Length to Decode".to_string(),
        0x10A => "Data Length Method".to_string(),
        0x10B => "DL Method Read any".to_string(),
        0x10C => "DL Method Check in Range".to_string(),
        0x10D => "DL Method Check for Discrete".to_string(),
        _ if 0x10E <= usage && usage <= 0x10F => "Reserved".to_string(),
        0x110 => "Aztec Code".to_string(),
        0x111 => "BC412".to_string(),
        0x112 => "Channel Code".to_string(),
        0x113 => "Code 16".to_string(),
        0x114 => "Code 32".to_string(),
        0x115 => "Code 49".to_string(),
        0x116 => "Code One".to_string(),
        0x117 => "Colorcode".to_string(),
        0x118 => "Data Matrix".to_string(),
        0x119 => "MaxiCode".to_string(),
        0x11A => "MicroPDF".to_string(),
        0x11B => "PDF-417".to_string(),
        0x11C => "PosiCode".to_string(),
        0x11D => "QR Code".to_string(),
        0x11E => "SuperCode".to_string(),
        0x11F => "UltraCode".to_string(),
        0x120 => "USD-5 (Slug Code)".to_string(),
        0x121 => "VeriCode".to_string(),
        _ if 0x122 <= usage && usage <= 0xFFFF => "Reserved".to_string(),
        _ => format_hex(usage),
    }
}

} // verus!
