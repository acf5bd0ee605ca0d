//! Usages of the Digitizers page (0x0D).

use crate::hid::text::{format_hex, hex_text};
use vstd::prelude::*;

verus! {

/// The name of `usage` on the Digitizers page, or its number where it has none.
pub open spec fn digitizers_usage_name(usage: u32) -> Seq<char> {
    match usage {
        0x00 => "Undefined"@,
        0x01 => "Digitizer"@,
        0x02 => "Pen"@,
        0x03 => "Light Pen"@,
        0x04 => "Touch Screen"@,
        0x05 => "Touch Pad"@,
        0x06 => "Whiteboard"@,
        0x07 => "Coordinate Measuring Machine"@,
        0x08 => "3D Digitizer"@,
        0x09 => "Stereo Plotter"@,
        0x0A => "Articulated Arm"@,
        0x0B => "Armature"@,
        0x0C => "Multiple Point Digitizer"@,
        0x0D => "Free Space Wand"@,
        0x0E => "Device Configuration"@,
        0x0F => "Capacitive Heat Map Digitizer"@,
        _ if 0x10 <= usage <= 0x1F => "Reserved"@,
        0x20 => "Stylus [55] CA/CL 16.2"@,
        0x21 => "Puck"@,
        0x22 => "Finger"@,
        0x23 => "Device settings"@,
        0x24 => "Character Gesture"@,
        _ if 0x25 <= usage <= 0x2F => "Reserved"@,
        0x30 => "Tip Pressure"@,
        0x31 => "Barrel Pressure"@,
        0x32 => "In Range"@,
        0x33 => "Touch"@,
        0x34 => "Untouch"@,
        0x35 => "Tap"@,
        0x36 => "Quality"@,
        0x37 => "Data Valid"@,
        0x38 => "Transducer Index"@,
        0x39 => "Tablet Function Keys"@,
        0x3A => "Program Change Keys"@,
        0x3B => "Battery Strength"@,
        0x3C => "Invert"@,
        0x3D => "X Tilt"@,
        0x3E => "Y Tilt"@,
        0x3F => "Azimuth"@,
        0x40 => "Altitude"@,
        0x41 => "Twist"@,
        0x42 => "Tip Switch"@,
        0x43 => "Secondary Tip Switch"@,
        0x44 => "Barrel Switch"@,
        0x45 => "Eraser"@,
        0x46 => "Tablet Pick"@,
        0x47 => "Touch Valid"@,
        0x48 => "Width"@,
        0x49 => "Height"@,
        _ if 0x4A <= usage <= 0x50 => "Reserved"@,
        0x51 => "Contact Identifier"@,
        0x52 => "Device Mode"@,
        0x53 => "Device Identifier [7] DV/SV 16.7"@,
        0x54 => "Contact Count"@,
        0x55 => "Contact Count Maximum"@,
        0x56 => "Scan Time"@,
        0x57 => "Surface Switch"@,
        0x58 => "Button Switch"@,
        0x59 => "Pad Type"@,
        0x5A => "Secondary Barrel Switch"@,
        0x5B => "Transducer Serial Number"@,
        0x5C => "Preferred Color"@,
        0x5D => "Preferred Color is Locked"@,
        0x5E => "Preferred Line Width"@,
        0x5F => "Preferred Line Width is Locked"@,
        0x60 => "Latency Mode"@,
        0x61 => "Gesture Character Quality"@,
        0x62 => "Character Gesture Data Length"@,
        0x63 => "Character Gesture Data"@,
        0x64 => "Gesture Character Encoding"@,
        0x65 => "UTF8 Character Gesture Encoding"@,
        0x66 => "UTF16 Little Endian Character Gesture Encoding"@,
        0x67 => "UTF16 Big Endian Character Gesture Encoding"@,
        0x68 => "UTF32 Little Endian Character Gesture Encoding"@,
        0x69 => "UTF32 Big Endian Character Gesture Encoding"@,
        0x6A => "Capacitive Heat Map Protocol Vendor ID"@,
        0x6B => "Capacitive Heat Map Protocol Version"@,
        0x6C => "Capacitive Heat Map Frame Data"@,
        0x6D => "Gesture Character Enable"@,
        _ if 0x6E <= usage <= 0x6F => "Reserved"@,
        0x70 => "Preferred Line Style"@,
        0x71 => "Preferred Line Style is Locked"@,
        0x72 => "Ink"@,
        0x73 => "Pencil"@,
        0x74 => "Highlighter"@,
        0x75 => "Chisel Marker"@,
        0x76 => "Brush"@,
        0x77 => "No Preference"@,
        _ if 0x78 <= usage <= 0x7F => "Reserved"@,
        0x80 => "Digitizer Diagnostic"@,
        0x81 => "Digitizer Error"@,
        0x82 => "Err Normal Status"@,
        0x83 => "Err Transducers Exceeded"@,
        0x84 => "Err Full Trans Features Unavailable"@,
        0x85 => "Err Charge Low"@,
        _ if 0x86 <= usage <= 0x8F => "Reserved"@,
        0x90 => "Transducer Software Info"@,
        0x91 => "Transducer Vendor Id"@,
        0x92 => "Transducer Product Id"@,
        0x93 => "Device Supported Protocols"@,
        0x94 => "Transducer Supported Protocols"@,
        0x95 => "No Protocol"@,
        0x96 => "Wacom AES Protocol"@,
        0x97 => "USI Protocol"@,
        0x98 => "Microsoft Pen Protocol"@,
        _ if 0x99 <= usage <= 0x9F => "Reserved"@,
        0xA0 => "Supported Report Rates"@,
        0xA1 => "Report Rate"@,
        0xA2 => "Transducer Connected"@,
        0xA3 => "Switch Disabled"@,
        0xA4 => "Switch Unimplemented"@,
        0xA5 => "Transducer Switches"@,
        _ if 0xA6 <= usage <= 0xFFFF => "Reserved"@,
        _ => hex_text(usage),
    }
}

/// The name of `usage` on the Digitizers page, or its number where it has none.
pub fn get_digitizers_usage_name(usage: u32) -> (name: String)
    ensures
        name@ == digitizers_usage_name(usage),
{
    match usage {
        0x00 => "Undefined".to_string(),
        0x01 => "Digitizer".to_string(),
        0x02 => "Pen".to_string(),
        0x03 => "Light Pen".to_string(),
        0x04 => "Touch Screen".to_string(),
        0x05 => "Touch Pad".to_string(),
        0x06 => "Whiteboard".to_string(),
        0x07 => "Coordinate Measuring Machine".to_string(),
        0x08 => "3D Digitizer".to_string(),
        0x09 => "Stereo Plotter".to_string(),
        0x0A => "Articulated Arm".to_string(),
        0x0B => "Armature".to_string(),
        0x0C => "Multiple Point Digitizer".to_string(),
        0x0D => "Free Space Wand".to_string(),
        0x0E => "Device Configuration".to_string(),
        0x0F => "Capacitive Heat Map Digitizer".to_string(),
        _ if 0x10 <= usage && usage <= 0x1F => "Reserved".to_string(),
        0x20 => "Stylus [55] CA/CL 16.2".to_string(),
        0x21 => "Puck".to_string(),
        0x22 => "Finger".to_string(),
        0x23 => "Device settings".to_string(),
        0x24 => "Character Gesture".to_string(),
        _ if 0x25 <= usage && usage <= 0x2F => "Reserved".to_string(),
        0x30 => "Tip Pressure".to_string(),
        0x31 => "Barrel Pressure".to_string(),
        0x32 => "In Range".to_string(),
        0x33 => "Touch".to_string(),
        0x34 => "Untouch".to_string(),
        0x35 => "Tap".to_string(),
        0x36 => "Quality".to_string(),
        0x37 => "Data Valid".to_string(),
        0x38 => "Transducer Index".to_string(),
        0x39 => "Tablet Function Keys".to_string(),
        0x3A => "Program Change Keys".to_string(),
        0x3B => "Battery Strength".to_string(),
        0x3C => "Invert".to_string(),
        0x3D => "X Tilt".to_string(),
        0x3E => "Y Tilt".to_string(),
        0x3F => "Azimuth".to_string(),
        0x40 => "Altitude".to_string(),
        0x41 => "Twist".to_string(),
        0x42 => "Tip Switch".to_string(),
        0x43 => "Secondary Tip Switch".to_string(),
        0x44 => "Barrel Switch".to_string(),
        0x45 => "Eraser".to_string(),
        0x46 => "Tablet Pick".to_string(),
        0x47 => "Touch Valid".to_string(),
        0x48 => "Width".to_string(),
        0x49 => "Height".to_string(),
        _ if 0x4A <= usage && usage <= 0x50 => "Reserved".to_string(),
        0x51 => "Contact Identifier".to_string(),
        0x52 => "Device Mode".to_string(),
        0x53 => "Device Identifier [7] DV/SV 16.7".to_string(),
        0x54 => "Contact Count".to_string(),
        0x55 => "Contact Count Maximum".to_string(),
        0x56 => "Scan Time".to_string(),
        0x57 => "Surface Switch".to_string(),
        0x58 => "Button Switch".to_string(),
        0x59 => "Pad Type".to_string(),
        0x5A => "Secondary Barrel Switch".to_string(),
        0x5B => "Transducer Serial Number".to_string(),
        0x5C => "Preferred Color".to_string(),
        0x5D => "Preferred Color is Locked".to_string(),
        0x5E => "Preferred Line Width".to_string(),
        0x5F => "Preferred Line Width is Locked".to_string(),
        0x60 => "Latency Mode".to_string(),
        0x61 => "Gesture Character Quality".to_string(),
        0x62 => "Character Gesture Data Length".to_string(),
        0x63 => "Character Gesture Data".to_string(),
        0x64 => "Gesture Character Encoding".to_string(),
        0x65 => "UTF8 Character Gesture Encoding".to_string(),
        0x66 => "UTF16 Little Endian Character Gesture Encoding".to_string(),
        0x67 => "UTF16 Big Endian Character Gesture Encoding".to_string(),
        0x68 => "UTF32 Little Endian Character Gesture Encoding".to_string(),
        0x69 => "UTF32 Big Endian Character Gesture Encoding".to_string(),
        0x6A => "Capacitive Heat Map Protocol Vendor ID".to_string(),
        0x6B => "Capacitive Heat Map Protocol Version".to_string(),
        0x6C => "Capacitive Heat Map Frame Data".to_string(),
        0x6D => "Gesture Character Enable".to_string(),
        _ if 0x6E <= usage && usage <= 0x6F => "Reserved".to_string(),
        0x70 => "Preferred Line Style".to_string(),
        0x71 => "Preferred Line Style is Locked".to_string(),
        0x72 => "Ink".to_string(),
        0x73 => "Pencil".to_string(),
        0x74 => "Highlighter".to_string(),
        0x75 => "Chisel Marker".to_string(),
        0x76 => "Brush".to_string(),
        0x77 => "No Preference".to_string(),
        _ if 0x78 <= usage && usage <= 0x7F => "Reserved".to_string(),
        0x80 => "Digitizer Diagnostic".to_string(),
        0x81 => "Digitizer Error".to_string(),
        0x82 => "Err Normal Status".to_string(),
        0x83 => "Err Transducers Exceeded".to_string(),
        0x84 => "Err Full Trans Features Unavailable".to_string(),
        0x85 => "Err Charge Low".to_string(),
        _ if 0x86 <= usage && usage <= 0x8F => "Reserved".to_string(),
        0x90 => "Transducer Software Info".to_string(),
        0x91 => "Transducer Vendor Id".to_string(),
        0x92 => "Transducer Product Id".to_string(),
        0x93 => "Device Supported Protocols".to_string(),
        0x94 => "Transducer Supported Protocols".to_string(),
        0x95 => "No Protocol".to_string(),
        0x96 => "Wacom AES Protocol".to_string(),
        0x97 => "USI Protocol".to_string(),
        0x98 => "Microsoft Pen Protocol".to_string(),
        _ if 0x99 <= usage && usage <= 0x9F => "Reserved".to_string(),
        0xA0 => "Supported Report Rates".to_string(),
        0xA1 => "Report Rate".to_string(),
        0xA2 => "Transducer Connected".to_string(),
        0xA3 => "Switch Disabled".to_string(),
        0xA4 => "Switch Unimplemented".to_string(),
        0xA5 => "Transducer Switches".to_string(),
        _ if 0xA6 <= usage && usage <= 0xFFFF => "Reserved".to_string(),
        _ => format_hex(usage),
    }
}

} // verus!
