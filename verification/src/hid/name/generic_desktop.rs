//! Usages of the Generic Desktop page (0x01).

use crate::hid::text::{format_hex, hex_text};
use vstd::prelude::*;

verus! {

/// The name of `usage` on the Generic Desktop page, or its number where it has none.
pub open spec fn generic_desktop_usage_name(usage: u32) -> Seq<char> {
    match usage {
        0x00 => "Undefined"@,
        0x01 => "Pointer "@,
        0x02 => "Mouse "@,
        0x03 => "Reserved"@,
        0x04 => "Joystick "@,
        0x05 => "Gamepad "@,
        0x06 => "Keyboard "@,
        0x07 => "Keypad "@,
        0x08 => "Multi-axis Controller "@,
        0x09 => "Tablet PC System Controls "@,
        0x0A => "Water Cooling Device "@,
        0x0B => "Computer Chassis Device "@,
        0x0C => "Wireless Radio Controls "@,
        0x0D => "Portable Device Control "@,
        0x0E => "System Multi-Axis Controller "@,
        0x0F => "Spatial Controller "@,
        0x10 => "Assistive Control "@,
        0x11 => "Device Dock "@,
        0x12 => "Dockable Device "@,
        _ if 0x13 <= usage <= 0x2F => "Reserved"@,
        0x30 => "X "@,
        0x31 => "Y "@,
        0x32 => "Z "@,
        0x33 => "Rx "@,
        0x34 => "Ry "@,
        0x35 => "Rz "@,
        0x36 => "Slider "@,
        0x37 => "Dial "@,
        0x38 => "Wheel "@,
        0x39 => "Hat Switch "@,
        0x3A => "Counted Buffer "@,
        0x3B => "Byte Count "@,
        0x3C => "Motion Wakeup "@,
        0x3D => "Start "@,
        0x3E => "Select "@,
        0x3F => "Reserved"@,
        0x40 => "Vx "@,
        0x41 => "Vy "@,
        0x42 => "Vz "@,
        0x43 => "Vbrx "@,
        0x44 => "Vbry "@,
        0x45 => "Vbrz "@,
        0x46 => "Vno "@,
        0x47 => "Feature Notification "@,
        0x48 => "Resolution Multiplier "@,
        0x49 => "Qx "@,
        0x4A => "Qy "@,
        0x4B => "Qz "@,
        0x4C => "Qw "@,
        _ if 0x4D <= usage <= 0x7F => "Reserved"@,
        0x80 => "System Control "@,
        0x81 => "System Power Down "@,
        0x82 => "System Sleep "@,
        0x83 => "System Wake Up "@,
        0x84 => "System Context Menu "@,
        0x85 => "System Main Menu "@,
        0x86 => "System App Menu "@,
        0x87 => "System Menu Help "@,
        0x88 => "System Menu Exit "@,
        0x89 => "System Menu Select "@,
        0x8A => "System Menu Right "@,
        0x8B => "System Menu Left "@,
        0x8C => "System Menu Up "@,
        0x8D => "System Menu Down "@,
        0x8E => "System Cold Restart "@,
        0x8F => "System Warm Restart "@,
        0x90 => "D-pad Up "@,
        0x91 => "D-pad Down "@,
        0x92 => "D-pad Right "@,
        0x93 => "D-pad Left "@,
        0x94 => "Index Trigger "@,
        0x95 => "Palm Trigger "@,
        0x96 => "Thumbstick "@,
        0x97 => "System Function Shift "@,
        0x98 => "System Function Shift Lock "@,
        0x99 => "System Function Shift Lock Indicator "@,
        0x9A => "System Dismiss Notification "@,
        0x9B => "System Do Not Disturb "@,
        _ if 0x9C <= usage <= 0x9F => "Reserved"@,
        0xA0 => "System Dock "@,
        0xA1 => "System Undock "@,
        0xA2 => "System Setup "@,
        0xA3 => "System Break "@,
        0xA4 => "System Debugger Break "@,
        0xA5 => "Application Break "@,
        0xA6 => "Application Debugger Break "@,
        0xA7 => "System Speaker Mute "@,
        0xA8 => "System Hibernate "@,
        _ if 0xA9 <= usage <= 0xAF => "Reserved"@,
        0xB0 => "System Display Invert "@,
        0xB1 => "System Display Internal "@,
        0xB2 => "System Display External "@,
        0xB3 => "System Display Both "@,
        0xB4 => "System Display Dual "@,
        0xB5 => "System Display Toggle Int/Ext Mode "@,
        0xB6 => "System Display Swap Primary/Secondary "@,
        0xB7 => "System Display Toggle LCD Autoscale "@,
        _ if 0xB8 <= usage <= 0xBF => "Reserved"@,
        0xC0 => "Sensor Zone "@,
        0xC1 => "RPM "@,
        0xC2 => "Coolant Level "@,
        0xC3 => "Coolant Critical Level "@,
        0xC4 => "Coolant Pump "@,
        0xC5 => "Chassis Enclosure "@,
        0xC6 => "Wireless Radio Button "@,
        0xC7 => "Wireless Radio LED "@,
        0xC8 => "Wireless Radio Slider Switch "@,
        0xC9 => "System Display Rotation Lock Button "@,
        0xCA => "System Display Rotation Lock Slider Switch "@,
        0xCB => "Control Enable "@,
        _ if 0xCC <= usage <= 0xCF => "Reserved"@,
        0xD0 => "Dockable Device Unique ID "@,
        0xD1 => "Dockable Device Vendor ID "@,
        0xD2 => "Dockable Device Primary Usage Page "@,
        0xD3 => "Dockable Device Primary Usage ID "@,
        0xD4 => "Dockable Device Docking State "@,
        0xD5 => "Dockable Device Display Occlusion "@,
        0xD6 => "Dockable Device Object Type "@,
        _ if 0xD7 <= usage <= 0xFFFF => "Reserved"@,
        _ => hex_text(usage),
    }
}

/// The name of `usage` on the Generic Desktop page, or its number where it has none.
pub fn get_generic_desktop_usage_name(usage: u32) -> (name: String)
    ensures
        name@ == generic_desktop_usage_name(usage),
{
    match usage {
        0x00 => "Undefined".to_string(),
        0x01 => "Pointer ".to_string(),
        0x02 => "Mouse ".to_string(),
        0x03 => "Reserved".to_string(),
        0x04 => "Joystick ".to_string(),
        0x05 => "Gamepad ".to_string(),
        0x06 => "Keyboard ".to_string(),
        0x07 => "Keypad ".to_string(),
        0x08 => "Multi-axis Controller ".to_string(),
        0x09 => "Tablet PC System Controls ".to_string(),
        0x0A => "Water Cooling Device ".to_string(),
        0x0B => "Computer Chassis Device ".to_string(),
        0x0C => "Wireless Radio Controls ".to_string(),
        0x0D => "Portable Device Control ".to_string(),
        0x0E => "System Multi-Axis Controller ".to_string(),
        0x0F => "Spatial Controller ".to_string(),
        0x10 => "Assistive Control ".to_string(),
        0x11 => "Device Dock ".to_string(),
        0x12 => "Dockable Device ".to_string(),
        _ if 0x13 <= usage && usage <= 0x2F => "Reserved".to_string(),
        0x30 => "X ".to_string(),
        0x31 => "Y ".to_string(),
        0x32 => "Z ".to_string(),
        0x33 => "Rx ".to_string(),
        0x34 => "Ry ".to_string(),
        0x35 => "Rz ".to_string(),
        0x36 => "Slider ".to_string(),
        0x37 => "Dial ".to_string(),
        0x38 => "Wheel ".to_string(),
        0x39 => "Hat Switch ".to_string(),
        0x3A => "Counted Buffer ".to_string(),
        0x3B => "Byte Count ".to_string(),
        0x3C => "Motion Wakeup ".to_string(),
        0x3D => "Start ".to_string(),
        0x3E => "Select ".to_string(),
        0x3F => "Reserved".to_string(),
        0x40 => "Vx ".to_string(),
        0x41 => "Vy ".to_string(),
        0x42 => "Vz ".to_string(),
        0x43 => "Vbrx ".to_string(),
        0x44 => "Vbry ".to_string(),
        0x45 => "Vbrz ".to_string(),
        0x46 => "Vno ".to_string(),
        0x47 => "Feature Notification ".to_string(),
        0x48 => "Resolution Multiplier ".to_string(),
        0x49 => "Qx ".to_string(),
        0x4A => "Qy ".to_string(),
        0x4B => "Qz ".to_string(),
        0x4C => "Qw ".to_string(),
        _ if 0x4D <= usage && usage <= 0x7F => "Reserved".to_string(),
        0x80 => "System Control ".to_string(),
        0x81 => "System Power Down ".to_string(),
        0x82 => "System Sleep ".to_string(),
        0x83 => "System Wake Up ".to_string(),
        0x84 => "System Context Menu ".to_string(),
        0x85 => "System Main Menu ".to_string(),
        0x86 => "System App Menu ".to_string(),
        0x87 => "System Menu Help ".to_string(),
        0x88 => "System Menu Exit ".to_string(),
        0x89 => "System Menu Select ".to_string(),
        0x8A => "System Menu Right ".to_string(),
        0x8B => "System Menu Left ".to_string(),
        0x8C => "System Menu Up ".to_string(),
        0x8D => "System Menu Down ".to_string(),
        0x8E => "System Cold Restart ".to_string(),
        0x8F => "System Warm Restart ".to_string(),
        0x90 => "D-pad Up ".to_string(),
        0x91 => "D-pad Down ".to_string(),
        0x92 => "D-pad Right ".to_string(),
        0x93 => "D-pad Left ".to_string(),
        0x94 => "Index Trigger ".to_string(),
        0x95 => "Palm Trigger ".to_string(),
        0x96 => "Thumbstick ".to_string(),
        0x97 => "System Function Shift ".to_string(),
        0x98 => "System Function Shift Lock ".to_string(),
        0x99 => "System Function Shift Lock Indicator ".to_string(),
        0x9A => "System Dismiss Notification ".to_string(),
        0x9B => "System Do Not Disturb ".to_string(),
        _ if 0x9C <= usage && usage <= 0x9F => "Reserved".to_string(),
        0xA0 => "System Dock ".to_string(),
        0xA1 => "System Undock ".to_string(),
        0xA2 => "System Setup ".to_string(),
        0xA3 => "System Break ".to_string(),
        0xA4 => "System Debugger Break ".to_string(),
        0xA5 => "Application Break ".to_string(),
        0xA6 => "Application Debugger Break ".to_string(),
        0xA7 => "System Speaker Mute ".to_string(),
        0xA8 => "System Hibernate ".to_string(),
        _ if 0xA9 <= usage && usage <= 0xAF => "Reserved".to_string(),
        0xB0 => "System Display Invert ".to_string(),
        0xB1 => "System Display Internal ".to_string(),
        0xB2 => "System Display External ".to_string(),
        0xB3 => "System Display Both ".to_string(),
        0xB4 => "System Display Dual ".to_string(),
        0xB5 => "System Display Toggle Int/Ext Mode ".to_string(),
        0xB6 => "System Display Swap Primary/Secondary ".to_string(),
        0xB7 => "System Display Toggle LCD Autoscale ".to_string(),
        _ if 0xB8 <= usage && usage <= 0xBF => "Reserved".to_string(),
        0xC0 => "Sensor Zone ".to_string(),
        0xC1 => "RPM ".to_string(),
        0xC2 => "Coolant Level ".to_string(),
        0xC3 => "Coolant Critical Level ".to_string(),
        0xC4 => "Coolant Pump ".to_string(),
        0xC5 => "Chassis Enclosure ".to_string(),
        0xC6 => "Wireless Radio Button ".to_string(),
        0xC7 => "Wireless Radio LED ".to_string(),
        0xC8 => "Wireless Radio Slider Switch ".to_string(),
        0xC9 => "System Display Rotation Lock Button ".to_string(),
        0xCA => "System Display Rotation Lock Slider Switch ".to_string(),
        0xCB => "Control Enable ".to_string(),
        _ if 0xCC <= usage && usage <= 0xCF => "Reserved".to_string(),
        0xD0 => "Dockable Device Unique ID ".to_string(),
        0xD1 => "Dockable Device Vendor ID ".to_string(),
        0xD2 => "Dockable Device Primary Usage Page ".to_string(),
        0xD3 => "Dockable Device Primary Usage ID ".to_string(),
        0xD4 => "Dockable Device Docking State ".to_string(),
        0xD5 => "Dockable Device Display Occlusion ".to_string(),
        0xD6 => "Dockable Device Object Type ".to_string(),
        _ if 0xD7 <= usage && usage <= 0xFFFF => "Reserved".to_string(),
        _ => format_hex(usage),
    }
}

} // verus!
