//! Usages of the Sensors page (0x20).

use crate::hid::text::{format_hex, hex_text};
use vstd::prelude::*;

verus! {

/// The name of `usage` on the Sensors page, or its number where it has none.
pub open spec fn sensors_usage_name(usage: u32) -> Seq<char> {
    if usage <= 0x00FF {
        sensors_usage_name_0000_00ff(usage)
    } else if usage <= 0x03FF {
        sensors_usage_name_0100_03ff(usage)
    } else if usage <= 0x04FF {
        sensors_usage_name_0400_04ff(usage)
    } else if usage <= 0x07FF {
        sensors_usage_name_0500_07ff(usage)
    } else if usage <= 0x08FF {
        sensors_usage_name_0800_08ff(usage)
    } else if usage <= 0x0FFF {
        sensors_usage_name_0900_0fff(usage)
    } else {
        sensors_usage_name_from_1000(usage)
    }
}

/// The name of `usage` on the Sensors page, or its number where it has none.
pub fn get_sensors_usage_name(usage: u32) -> (name: String)
    ensures
        name@ == sensors_usage_name(usage),
{
    if usage <= 0x00FF {
        get_sensors_usage_name_0000_00ff(usage)
    } else if usage <= 0x03FF {
        get_sensors_usage_name_0100_03ff(usage)
    } else if usage <= 0x04FF {
        get_sensors_usage_name_0400_04ff(usage)
    } else if usage <= 0x07FF {
        get_sensors_usage_name_0500_07ff(usage)
    } else if usage <= 0x08FF {
        get_sensors_usage_name_0800_08ff(usage)
    } else if usage <= 0x0FFF {
        get_sensors_usage_name_0900_0fff(usage)
    } else {
        get_sensors_usage_name_from_1000(usage)
    }
}

/// The usages from 0x0000 to 0x00FF.
pub open spec fn sensors_usage_name_0000_00ff(usage: u32) -> Seq<char> {
    match usage {
        0x00 => "Undefined"@,
        0x01 => "Sensor"@,
        _ if 0x02 <= usage <= 0x0F => "Reserved"@,
        0x10 => "Biometric"@,
        0x11 => "Biometric: Human Presence"@,
        0x12 => "Biometric: Human Proximity"@,
        0x13 => "Biometric: Human Touch"@,
        0x14 => "Biometric: Blood Pressure"@,
        0x15 => "Biometric: Body Temperature"@,
        0x16 => "Biometric: Heart Rate"@,
        0x17 => "Biometric: Heart Rate Variability"@,
        0x18 => "Biometric: Peripheral Oxygen Saturation"@,
        0x19 => "Biometric: Respiratory Rate"@,
        _ if 0x1A <= usage <= 0x1F => "Reserved"@,
        0x20 => "Electrical"@,
        0x21 => "Electrical: Capacitance"@,
        0x22 => "Electrical: Current"@,
        0x23 => "Electrical: Power"@,
        0x24 => "Electrical: Inductance"@,
        0x25 => "Electrical: Resistance"@,
        0x26 => "Electrical: Voltage"@,
        0x27 => "Electrical: Potentiometer"@,
        0x28 => "Electrical: Frequency"@,
        0x29 => "Electrical: Period"@,
        _ if 0x2A <= usage <= 0x2F => "Reserved"@,
        0x30 => "Environmental"@,
        0x31 => "Environmental: Atmospheric Pressure"@,
        0x32 => "Environmental: Humidity"@,
        0x33 => "Environmental: Temperature"@,
        0x34 => "Environmental: Wind Direction"@,
        0x35 => "Environmental: Wind Speed"@,
        0x36 => "Environmental: Air Quality"@,
        0x37 => "Environmental: Heat Index"@,
        0x38 => "Environmental: Surface Temperature"@,
        0x39 => "Environmental: Volatile Organic Compounds"@,
        0x3A => "Environmental: Object Presence"@,
        0x3B => "Environmental: Object Proximity"@,
        _ if 0x3C <= usage <= 0x3F => "Reserved"@,
        0x40 => "Light"@,
        0x41 => "Light: Ambient Light"@,
        0x42 => "Light: Consumer Infrared"@,
        0x43 => "Light: Infrared Light"@,
        0x44 => "Light: Visible Light"@,
        0x45 => "Light: Ultraviolet Light"@,
        _ if 0x46 <= usage <= 0x4F => "Reserved"@,
        0x50 => "Location"@,
        0x51 => "Location: Broadcast"@,
        0x52 => "Location: Dead Reckoning"@,
        0x53 => "Location: GPS (Global Positioning System)"@,
        0x54 => "Location: Lookup"@,
        0x55 => "Location: Other"@,
        0x56 => "Location: Static"@,
        0x57 => "Location: Triangulation"@,
        _ if 0x58 <= usage <= 0x5F => "Reserved"@,
        0x60 => "Mechanical"@,
        0x61 => "Mechanical: Boolean Switch"@,
        0x62 => "Mechanical: Boolean Switch Array"@,
        0x63 => "Mechanical: Multivalue Switch"@,
        0x64 => "Mechanical: Force"@,
        0x65 => "Mechanical: Pressure"@,
        0x66 => "Mechanical: Strain"@,
        0x67 => "Mechanical: Weight"@,
        0x68 => "Mechanical: Haptic Vibrator"@,
        0x69 => "Mechanical: Hall Effect Switch"@,
        _ if 0x6A <= usage <= 0x6F => "Reserved"@,
        0x70 => "Motion"@,
        0x71 => "Motion: Accelerometer 1D"@,
        0x72 => "Motion: Accelerometer 2D"@,
        0x73 => "Motion: Accelerometer 3D"@,
        0x74 => "Motion: Gyrometer 1D"@,
        0x75 => "Motion: Gyrometer 2D"@,
        0x76 => "Motion: Gyrometer 3D"@,
        0x77 => "Motion: Motion Detector"@,
        0x78 => "Motion: Speedometer"@,
        0x79 => "Motion: Accelerometer"@,
        0x7A => "Motion: Gyrometer"@,
        0x7B => "Motion: Gravity Vector"@,
        0x7C => "Motion: Linear Accelerometer"@,
        _ if 0x7D <= usage <= 0x7F => "Reserved"@,
        0x80 => "Orientation"@,
        0x81 => "Orientation: Compass 1D"@,
        0x82 => "Orientation: Compass 2D"@,
        0x83 => "Orientation: Compass 3D"@,
        0x84 => "Orientation: Inclinometer 1D"@,
        0x85 => "Orientation: Inclinometer 2D"@,
        0x86 => "Orientation: Inclinometer 3D"@,
        0x87 => "Orientation: Distance 1D"@,
        0x88 => "Orientation: Distance 2D"@,
        0x89 => "Orientation: Distance 3D"@,
        0x8A => "Orientation: Device Orientation"@,
        0x8B => "Orientation: Compass"@,
        0x8C => "Orientation: Inclinometer"@,
        0x8D => "Orientation: Distance"@,
        0x8E => "Orientation: Relative Orientation"@,
        0x8F => "Orientation: Simple Orientation"@,
        0x90 => "Scanner"@,
        0x91 => "Scanner: Barcode"@,
        0x92 => "Scanner: RFID"@,
        0x93 => "Scanner: NFC"@,
        _ if 0x94 <= usage <= 0x9F => "Reserved"@,
        0xA0 => "Time"@,
        0xA1 => "Time: Alarm Timer"@,
        0xA2 => "Time: Real Time Clock"@,
        _ if 0xA3 <= usage <= 0xAF => "Reserved"@,
        0xB0 => "Personal Activity"@,
        0xB1 => "Personal Activity: Activity Detection"@,
        0xB2 => "Personal Activity: Device Position"@,
        0xB3 => "Personal Activity: Pedometer"@,
        0xB4 => "Personal Activity: Step Detection"@,
        _ if 0xB5 <= usage <= 0xBF => "Reserved"@,
        0xC0 => "Orientation Extended"@,
        0xC1 => "Orientation Extended: Geomagnetic Orientation"@,
        0xC2 => "Orientation Extended: Magnetometer"@,
        _ if 0xC3 <= usage <= 0xCF => "Reserved"@,
        0xD0 => "Gesture"@,
        0xD1 => "Gesture: Chassis Flip Gesture"@,
        0xD2 => "Gesture: Hinge Fold Gesture"@,
        _ if 0xD3 <= usage <= 0xDF => "Reserved"@,
        0xE0 => "Other"@,
        0xE1 => "Other: Custom"@,
        0xE2 => "Other: Generic"@,
        0xE3 => "Other: Generic Enumerator"@,
        0xE4 => "Other: Hinge Angle"@,
        _ if 0xE5 <= usage <= 0xEF => "Reserved"@,
        0xF0 => "Vendor Reserved 1"@,
        0xF1 => "Vendor Reserved 2"@,
        0xF2 => "Vendor Reserved 3"@,
        0xF3 => "Vendor Reserved 4"@,
        0xF4 => "Vendor Reserved 5"@,
        0xF5 => "Vendor Reserved 6"@,
        0xF6 => "Vendor Reserved 7"@,
        0xF7 => "Vendor Reserved 8"@,
        0xF8 => "Vendor Reserved 9"@,
        0xF9 => "Vendor Reserved 10"@,
        0xFA => "Vendor Reserved 11"@,
        0xFB => "Vendor Reserved 12"@,
        0xFC => "Vendor Reserved 13"@,
        0xFD => "Vendor Reserved 14"@,
        0xFE => "Vendor Reserved 15"@,
        0xFF => "Vendor Reserved 16"@,
        _ => hex_text(usage),
    }
}

fn get_sensors_usage_name_0000_00ff(usage: u32) -> (name: String)
    ensures
        name@ == sensors_usage_name_0000_00ff(usage),
{
    match usage {
        0x00 => "Undefined".to_string(),
        0x01 => "Sensor".to_string(),
        _ if 0x02 <= usage && usage <= 0x0F => "Reserved".to_string(),
        0x10 => "Biometric".to_string(),
        0x11 => "Biometric: Human Presence".to_string(),
        0x12 => "Biometric: Human Proximity".to_string(),
        0x13 => "Biometric: Human Touch".to_string(),
        0x14 => "Biometric: Blood Pressure".to_string(),
        0x15 => "Biometric: Body Temperature".to_string(),
        0x16 => "Biometric: Heart Rate".to_string(),
        0x17 => "Biometric: Heart Rate Variability".to_string(),
        0x18 => "Biometric: Peripheral Oxygen Saturation".to_string(),
        0x19 => "Biometric: Respiratory Rate".to_string(),
        _ if 0x1A <= usage && usage <= 0x1F => "Reserved".to_string(),
        0x20 => "Electrical".to_string(),
        0x21 => "Electrical: Capacitance".to_string(),
        0x22 => "Electrical: Current".to_string(),
        0x23 => "Electrical: Power".to_string(),
        0x24 => "Electrical: Inductance".to_string(),
        0x25 => "Electrical: Resistance".to_string(),
        0x26 => "Electrical: Voltage".to_string(),
        0x27 => "Electrical: Potentiometer".to_string(),
        0x28 => "Electrical: Frequency".to_string(),
        0x29 => "Electrical: Period".to_string(),
        _ if 0x2A <= usage && usage <= 0x2F => "Reserved".to_string(),
        0x30 => "Environmental".to_string(),
        0x31 => "Environmental: Atmospheric Pressure".to_string(),
        0x32 => "Environmental: Humidity".to_string(),
        0x33 => "Environmental: Temperature".to_string(),
        0x34 => "Environmental: Wind Direction".to_string(),
        0x35 => "Environmental: Wind Speed".to_string(),
        0x36 => "Environmental: Air Quality".to_string(),
        0x37 => "Environmental: Heat Index".to_string(),
        0x38 => "Environmental: Surface Temperature".to_string(),
        0x39 => "Environmental: Volatile Organic Compounds".to_string(),
        0x3A => "Environmental: Object Presence".to_string(),
        0x3B => "Environmental: Object Proximity".to_string(),
        _ if 0x3C <= usage && usage <= 0x3F => "Reserved".to_string(),
        0x40 => "Light".to_string(),
        0x41 => "Light: Ambient Light".to_string(),
        0x42 => "Light: Consumer Infrared".to_string(),
        0x43 => "Light: Infrared Light".to_string(),
        0x44 => "Light: Visible Light".to_string(),
        0x45 => "Light: Ultraviolet Light".to_string(),
        _ if 0x46 <= usage && usage <= 0x4F => "Reserved".to_string(),
        0x50 => "Location".to_string(),
        0x51 => "Location: Broadcast".to_string(),
        0x52 => "Location: Dead Reckoning".to_string(),
        0x53 => "Location: GPS (Global Positioning System)".to_string(),
        0x54 => "Location: Lookup".to_string(),
        0x55 => "Location: Other".to_string(),
        0x56 => "Location: Static".to_string(),
        0x57 => "Location: Triangulation".to_string(),
        _ if 0x58 <= usage && usage <= 0x5F => "Reserved".to_string(),
        0x60 => "Mechanical".to_string(),
        0x61 => "Mechanical: Boolean Switch".to_string(),
        0x62 => "Mechanical: Boolean Switch Array".to_string(),
        0x63 => "Mechanical: Multivalue Switch".to_string(),
        0x64 => "Mechanical: Force".to_string(),
        0x65 => "Mechanical: Pressure".to_string(),
        0x66 => "Mechanical: Strain".to_string(),
        0x67 => "Mechanical: Weight".to_string(),
        0x68 => "Mechanical: Haptic Vibrator".to_string(),
        0x69 => "Mechanical: Hall Effect Switch".to_string(),
        _ if 0x6A <= usage && usage <= 0x6F => "Reserved".to_string(),
        0x70 => "Motion".to_string(),
        0x71 => "Motion: Accelerometer 1D".to_string(),
        0x72 => "Motion: Accelerometer 2D".to_string(),
        0x73 => "Motion: Accelerometer 3D".to_string(),
        0x74 => "Motion: Gyrometer 1D".to_string(),
        0x75 => "Motion: Gyrometer 2D".to_string(),
        0x76 => "Motion: Gyrometer 3D".to_string(),
        0x77 => "Motion: Motion Detector".to_string(),
        0x78 => "Motion: Speedometer".to_string(),
        0x79 => "Motion: Accelerometer".to_string(),
        0x7A => "Motion: Gyrometer".to_string(),
        0x7B => "Motion: Gravity Vector".to_string(),
        0x7C => "Motion: Linear Accelerometer".to_string(),
        _ if 0x7D <= usage && usage <= 0x7F => "Reserved".to_string(),
        0x80 => "Orientation".to_string(),
        0x81 => "Orientation: Compass 1D".to_string(),
        0x82 => "Orientation: Compass 2D".to_string(),
        0x83 => "Orientation: Compass 3D".to_string(),
        0x84 => "Orientation: Inclinometer 1D".to_string(),
        0x85 => "Orientation: Inclinometer 2D".to_string(),
        0x86 => "Orientation: Inclinometer 3D".to_string(),
        0x87 => "Orientation: Distance 1D".to_string(),
        0x88 => "Orientation: Distance 2D".to_string(),
        0x89 => "Orientation: Distance 3D".to_string(),
        0x8A => "Orientation: Device Orientation".to_string(),
        0x8B => "Orientation: Compass".to_string(),
        0x8C => "Orientation: Inclinometer".to_string(),
        0x8D => "Orientation: Distance".to_string(),
        0x8E => "Orientation: Relative Orientation".to_string(),
        0x8F => "Orientation: Simple Orientation".to_string(),
        0x90 => "Scanner".to_string(),
        0x91 => "Scanner: Barcode".to_string(),
        0x92 => "Scanner: RFID".to_string(),
        0x93 => "Scanner: NFC".to_string(),
        _ if 0x94 <= usage && usage <= 0x9F => "Reserved".to_string(),
        0xA0 => "Time".to_string(),
        0xA1 => "Time: Alarm Timer".to_string(),
        0xA2 => "Time: Real Time Clock".to_string(),
        _ if 0xA3 <= usage && usage <= 0xAF => "Reserved".to_string(),
        0xB0 => "Personal Activity".to_string(),
        0xB1 => "Personal Activity: Activity Detection".to_string(),
        0xB2 => "Personal Activity: Device Position".to_string(),
        0xB3 => "Personal Activity: Pedometer".to_string(),
        0xB4 => "Personal Activity: Step Detection".to_string(),
        _ if 0xB5 <= usage && usage <= 0xBF => "Reserved".to_string(),
        0xC0 => "Orientation Extended".to_string(),
        0xC1 => "Orientation Extended: Geomagnetic Orientation".to_string(),
        0xC2 => "Orientation Extended: Magnetometer".to_string(),
        _ if 0xC3 <= usage && usage <= 0xCF => "Reserved".to_string(),
        0xD0 => "Gesture".to_string(),
        0xD1 => "Gesture: Chassis Flip Gesture".to_string(),
        0xD2 => "Gesture: Hinge Fold Gesture".to_string(),
        _ if 0xD3 <= usage && usage <= 0xDF => "Reserved".to_string(),
        0xE0 => "Other".to_string(),
        0xE1 => "Other: Custom".to_string(),
        0xE2 => "Other: Generic".to_string(),
        0xE3 => "Other: Generic Enumerator".to_string(),
        0xE4 => "Other: Hinge Angle".to_string(),
        _ if 0xE5 <= usage && usage <= 0xEF => "Reserved".to_string(),
        0xF0 => "Vendor Reserved 1".to_string(),
        0xF1 => "Vendor Reserved 2".to_string(),
        0xF2 => "Vendor Reserved 3".to_string(),
        0xF3 => "Vendor Reserved 4".to_string(),
        0xF4 => "Vendor Reserved 5".to_string(),
        0xF5 => "Vendor Reserved 6".to_string(),
        0xF6 => "Vendor Reserved 7".to_string(),
        0xF7 => "Vendor Reserved 8".to_string(),
        0xF8 => "Vendor Reserved 9".to_string(),
        0xF9 => "Vendor Reserved 10".to_string(),
        0xFA => "Vendor Reserved 11".to_string(),
        0xFB => "Vendor Reserved 12".to_string(),
        0xFC => "Vendor Reserved 13".to_string(),
        0xFD => "Vendor Reserved 14".to_string(),
        0xFE => "Vendor Reserved 15".to_string(),
        0xFF => "Vendor Reserved 16".to_string(),
        _ => format_hex(usage),
    }
}

/// The usages from 0x0100 to 0x03FF.
pub open spec fn sensors_usage_name_0100_03ff(usage: u32) -> Seq<char> {
    match usage {
        _ if 0x100 <= usage <= 0x1FF => "Reserved"@,
        0x200 => "Event"@,
        0x201 => "Event: Sensor State"@,
        0x202 => "Event: Sensor Event"@,
        _ if 0x203 <= usage <= 0x2FF => "Reserved"@,
        0x300 => "Property"@,
        0x301 => "Property: Friendly Name"@,
        0x302 => "Property: Persistent Unique ID"@,
        0x303 => "Property: Sensor Status"@,
        0x304 => "Property: Minimum Report Interval"@,
        0x305 => "Property: Sensor Manufacturer"@,
        0x306 => "Property: Sensor Model"@,
        0x307 => "Property: Sensor Serial Number"@,
        0x308 => "Property: Sensor Description"@,
        0x309 => "Property: Sensor Connection Type"@,
        0x30A => "Property: Sensor Device Path"@,
        0x30B => "Property: Hardware Revision"@,
        0x30C => "Property: Firmware Version"@,
        0x30D => "Property: Release Date"@,
        0x30E => "Property: Report Interval"@,
        0x30F => "Property: Change Sensitivity Absolute"@,
        0x310 => "Property: Change Sensitivity Percent of Range"@,
        0x311 => "Property: Change Sensitivity Percent Relative"@,
        0x312 => "Property: Accuracy"@,
        0x313 => "Property: Resolution"@,
        0x314 => "Property: Maximum"@,
        0x315 => "Property: Minimum"@,
        0x316 => "Property: Reporting State"@,
        0x317 => "Property: Sampling Rate"@,
        0x318 => "Property: Response Curve"@,
        0x319 => "Property: Power State"@,
        0x31A => "Property: Maximum FIFO Events"@,
        0x31B => "Property: Report Latency"@,
        0x31C => "Property: Flush FIFO Events"@,
        0x31D => "Property: Maximum Power Consumption"@,
        0x31E => "Property: Is Primary"@,
        _ if 0x31F <= usage <= 0x3FF => "Reserved"@,
        _ => hex_text(usage),
    }
}

fn get_sensors_usage_name_0100_03ff(usage: u32) -> (name: String)
    ensures
        name@ == sensors_usage_name_0100_03ff(usage),
{
    match usage {
        _ if 0x100 <= usage && usage <= 0x1FF => "Reserved".to_string(),
        0x200 => "Event".to_string(),
        0x201 => "Event: Sensor State".to_string(),
        0x202 => "Event: Sensor Event".to_string(),
        _ if 0x203 <= usage && usage <= 0x2FF => "Reserved".to_string(),
        0x300 => "Property".to_string(),
        0x301 => "Property: Friendly Name".to_string(),
        0x302 => "Property: Persistent Unique ID".to_string(),
        0x303 => "Property: Sensor Status".to_string(),
        0x304 => "Property: Minimum Report Interval".to_string(),
        0x305 => "Property: Sensor Manufacturer".to_string(),
        0x306 => "Property: Sensor Model".to_string(),
        0x307 => "Property: Sensor Serial Number".to_string(),
        0x308 => "Property: Sensor Description".to_string(),
        0x309 => "Property: Sensor Connection Type".to_string(),
        0x30A => "Property: Sensor Device Path".to_string(),
        0x30B => "Property: Hardware Revision".to_string(),
        0x30C => "Property: Firmware Version".to_string(),
        0x30D => "Property: Release Date".to_string(),
        0x30E => "Property: Report Interval".to_string(),
        0x30F => "Property: Change Sensitivity Absolute".to_string(),
        0x310 => "Property: Change Sensitivity Percent of Range".to_string(),
        0x311 => "Property: Change Sensitivity Percent Relative".to_string(),
        0x312 => "Property: Accuracy".to_string(),
        0x313 => "Property: Resolution".to_string(),
        0x314 => "Property: Maximum".to_string(),
        0x315 => "Property: Minimum".to_string(),
        0x316 => "Property: Reporting State".to_string(),
        0x317 => "Property: Sampling Rate".to_string(),
        0x318 => "Property: Response Curve".to_string(),
        0x319 => "Property: Power State".to_string(),
        0x31A => "Property: Maximum FIFO Events".to_string(),
        0x31B => "Property: Report Latency".to_string(),
        0x31C => "Property: Flush FIFO Events".to_string(),
        0x31D => "Property: Maximum Power Consumption".to_string(),
        0x31E => "Property: Is Primary".to_string(),
        _ if 0x31F <= usage && usage <= 0x3FF => "Reserved".to_string(),
        _ => format_hex(usage),
    }
}

/// The usages from 0x0400 to 0x04FF.
pub open spec fn sensors_usage_name_0400_04ff(usage: u32) -> Seq<char> {
    match usage {
        0x400 => "Data Field: Location"@,
        0x401 => "Reserved"@,
        0x402 => "Data Field: Altitude Antenna Sea Level"@,
        0x403 => "Data Field: Differential Reference Station ID"@,
        0x404 => "Data Field: Altitude Ellipsoid Error"@,
        0x405 => "Data Field: Altitude Ellipsoid"@,
        0x406 => "Data Field: Altitude Sea Level Error"@,
        0x407 => "Data Field: Altitude Sea Level"@,
        0x408 => "Data Field: Differential GPS Data Age"@,
        0x409 => "Data Field: Error Radius"@,
        0x40A => "Data Field: Fix Quality"@,
        0x40B => "Data Field: Fix Type"@,
        0x40C => "Data Field: Geoidal Separation"@,
        0x40D => "Data Field: GPS Operation Mode"@,
        0x40E => "Data Field: GPS Selection Mode"@,
        0x40F => "Data Field: GPS Status"@,
        0x410 => "Data Field: Position Dilution of Precision"@,
        0x411 => "Data Field: Horizontal Dilution of Precision"@,
        0x412 => "Data Field: Vertical Dilution of Precision"@,
        0x413 => "Data Field: Latitude"@,
        0x414 => "Data Field: Longitude"@,
        0x415 => "Data Field: True Heading"@,
        0x416 => "Data Field: Magnetic Heading"@,
        0x417 => "Data Field: Magnetic Variation"@,
        0x418 => "Data Field: Speed"@,
        0x419 => "Data Field: Satellites in View"@,
        0x41A => "Data Field: Satellites in View Azimuth"@,
        0x41B => "Data Field: Satellites in View Elevation"@,
        0x41C => "Data Field: Satellites in View IDs"@,
        0x41D => "Data Field: Satellites in View PRNs"@,
        0x41E => "Data Field: Satellites in View S/N Ratios"@,
        0x41F => "Data Field: Satellites Used Count"@,
        0x420 => "Data Field: Satellites Used PRNs"@,
        0x421 => "Data Field: NMEA Sentence"@,
        0x422 => "Data Field: Address Line 1"@,
        0x423 => "Data Field: Address Line 2"@,
        0x424 => "Data Field: City"@,
        0x425 => "Data Field: State or Province"@,
        0x426 => "Data Field: Country or Region"@,
        0x427 => "Data Field: Postal Code"@,
        _ if 0x428 <= usage <= 0x429 => "Reserved"@,
        0x42A => "Property: Location"@,
        0x42B => "Property: Location Desired Accuracy"@,
        _ if 0x42C <= usage <= 0x42F => "Reserved"@,
        0x430 => "Data Field: Environmental"@,
        0x431 => "Data Field: Atmospheric Pressure"@,
        0x432 => "Reserved"@,
        0x433 => "Data Field: Relative Humidity"@,
        0x434 => "Data Field: Temperature"@,
        0x435 => "Data Field: Wind Direction"@,
        0x436 => "Data Field: Wind Speed"@,
        0x437 => "Data Field: Air Quality Index"@,
        0x438 => "Data Field: Equivalent CO2"@,
        0x439 => "Data Field: Volatile Organic Compound Concentration"@,
        0x43A => "Data Field: Object Presence"@,
        0x43B => "Data Field: Object Proximity Range"@,
        0x43C => "Data Field: Object Proximity Out of Range"@,
        _ if 0x43D <= usage <= 0x43F => "Reserved"@,
        0x440 => "Property: Environmental"@,
        0x441 => "Property: Reference Pressure"@,
        _ if 0x442 <= usage <= 0x44F => "Reserved"@,
        0x450 => "Data Field: Motion"@,
        0x451 => "Data Field: Motion State"@,
        0x452 => "Data Field: Acceleration"@,
        0x453 => "Data Field: Acceleration Axis X"@,
        0x454 => "Data Field: Acceleration Axis Y"@,
        0x455 => "Data Field: Acceleration Axis Z"@,
        0x456 => "Data Field: Angular Velocity"@,
        0x457 => "Data Field: Angular Velocity about X Axis"@,
        0x458 => "Data Field: Angular Velocity about Y Axis"@,
        0x459 => "Data Field: Angular Velocity about Z Axis"@,
        0x45A => "Data Field: Angular Position"@,
        0x45B => "Data Field: Angular Position about X Axis"@,
        0x45C => "Data Field: Angular Position about Y Axis"@,
        0x45D => "Data Field: Angular Position about Z Axis"@,
        0x45E => "Data Field: Motion Speed"@,
        0x45F => "Data Field: Motion Intensity"@,
        _ if 0x460 <= usage <= 0x46F => "Reserved"@,
        0x470 => "Data Field: Orientation"@,
        0x471 => "Data Field: Heading"@,
        0x472 => "Data Field: Heading X Axis"@,
        0x473 => "Data Field: Heading Y Axis"@,
        0x474 => "Data Field: Heading Z Axis"@,
        0x475 => "Data Field: Heading Compensated Magnetic North"@,
        0x476 => "Data Field: Heading Compensated True North"@,
        0x477 => "Data Field: Heading Magnetic North"@,
        0x478 => "Data Field: Heading True North"@,
        0x479 => "Data Field: Distance"@,
        0x47A => "Data Field: Distance X Axis"@,
        0x47B => "Data Field: Distance Y Axis"@,
        0x47C => "Data Field: Distance Z Axis"@,
        0x47D => "Data Field: Distance Out-of-Range"@,
        0x47E => "Data Field: Tilt"@,
        0x47F => "Data Field: Tilt X Axis"@,
        0x480 => "Data Field: Tilt Y Axis"@,
        0x481 => "Data Field: Tilt Z Axis"@,
        0x482 => "Data Field: Rotation Matrix"@,
        0x483 => "Data Field: Quaternion"@,
        0x484 => "Data Field: Magnetic Flux"@,
        0x485 => "Data Field: Magnetic Flux X Axis"@,
        0x486 => "Data Field: Magnetic Flux Y Axis"@,
        0x487 => "Data Field: Magnetic Flux Z Axis"@,
        0x488 => "Data Field: Magnetometer Accuracy"@,
        0x489 => "Data Field: Simple Orientation Direction"@,
        _ if 0x48A <= usage <= 0x48F => "Reserved"@,
        0x490 => "Data Field: Mechanical"@,
        0x491 => "Data Field: Boolean Switch State"@,
        0x492 => "Data Field: Boolean Switch Array States"@,
        0x493 => "Data Field: Multivalue Switch Value"@,
        0x494 => "Data Field: Force"@,
        0x495 => "Data Field: Absolute Pressure"@,
        0x496 => "Data Field: Gauge Pressure"@,
        0x497 => "Data Field: Strain"@,
        0x498 => "Data Field: Weight"@,
        _ if 0x499 <= usage <= 0x49F => "Reserved"@,
        0x4A0 => "Property: Mechanical"@,
        0x4A1 => "Property: Vibration State"@,
        0x4A2 => "Property: Forward Vibration Speed"@,
        0x4A3 => "Property: Backward Vibration Speed"@,
        _ if 0x4A4 <= usage <= 0x4AF => "Reserved"@,
        0x4B0 => "Data Field: Biometric"@,
        0x4B1 => "Data Field: Human Presence"@,
        0x4B2 => "Data Field: Human Proximity Range"@,
        0x4B3 => "Data Field: Human Proximity Out of Range"@,
        0x4B4 => "Data Field: Human Touch State"@,
        0x4B5 => "Data Field: Blood Pressure"@,
        0x4B6 => "Data Field: Blood Pressure Diastolic"@,
        0x4B7 => "Data Field: Blood Pressure Systolic"@,
        0x4B8 => "Data Field: Heart Rate"@,
        0x4B9 => "Data Field: Resting Heart Rate"@,
        0x4BA => "Data Field: Heartbeat Interval"@,
        0x4BB => "Data Field: Respiratory Rate"@,
        0x4BC => "Data Field: SpO2"@,
        _ if 0x4BD <= usage <= 0x4CF => "Reserved"@,
        0x4D0 => "Data Field: Light"@,
        0x4D1 => "Data Field: Illuminance"@,
        0x4D2 => "Data Field: Color Temperature"@,
        0x4D3 => "Data Field: Chromaticity"@,
        0x4D4 => "Data Field: Chromaticity X"@,
        0x4D5 => "Data Field: Chromaticity Y"@,
        0x4D6 => "Data Field: Consumer IR Sentence Receive"@,
        0x4D7 => "Data Field: Infrared Light"@,
        0x4D8 => "Data Field: Red Light"@,
        0x4D9 => "Data Field: Green Light"@,
        0x4DA => "Data Field: Blue Light"@,
        0x4DB => "Data Field: Ultraviolet A Light"@,
        0x4DC => "Data Field: Ultraviolet B Light"@,
        0x4DD => "Data Field: Ultraviolet Index"@,
        0x4DE => "Data Field: Near Infrared Light"@,
        0x4DF => "Property: Light"@,
        0x4E0 => "Property: Consumer IR Sentence Send"@,
        0x4E1 => "Reserved"@,
        0x4E2 => "Property: Auto Brightness Preferred"@,
        0x4E3 => "Property: Auto Color Preferred"@,
        _ if 0x4E4 <= usage <= 0x4EF => "Reserved"@,
        0x4F0 => "Data Field: Scanner"@,
        0x4F1 => "Data Field: RFID Tag 40 Bit"@,
        0x4F2 => "Data Field: NFC Sentence Receive"@,
        _ if 0x4F3 <= usage <= 0x4F7 => "Reserved"@,
        0x4F8 => "Property: Scanner"@,
        0x4F9 => "Property: NFC Sentence Send"@,
        _ if 0x4FA <= usage <= 0x4FF => "Reserved"@,
        _ => hex_text(usage),
    }
}

fn get_sensors_usage_name_0400_04ff(usage: u32) -> (name: String)
    ensures
        name@ == sensors_usage_name_0400_04ff(usage),
{
    match usage {
        0x400 => "Data Field: Location".to_string(),
        0x401 => "Reserved".to_string(),
        0x402 => "Data Field: Altitude Antenna Sea Level".to_string(),
        0x403 => "Data Field: Differential Reference Station ID".to_string(),
        0x404 => "Data Field: Altitude Ellipsoid Error".to_string(),
        0x405 => "Data Field: Altitude Ellipsoid".to_string(),
        0x406 => "Data Field: Altitude Sea Level Error".to_string(),
        0x407 => "Data Field: Altitude Sea Level".to_string(),
        0x408 => "Data Field: Differential GPS Data Age".to_string(),
        0x409 => "Data Field: Error Radius".to_string(),
        0x40A => "Data Field: Fix Quality".to_string(),
        0x40B => "Data Field: Fix Type".to_string(),
        0x40C => "Data Field: Geoidal Separation".to_string(),
        0x40D => "Data Field: GPS Operation Mode".to_string(),
        0x40E => "Data Field: GPS Selection Mode".to_string(),
        0x40F => "Data Field: GPS Status".to_string(),
        0x410 => "Data Field: Position Dilution of Precision".to_string(),
        0x411 => "Data Field: Horizontal Dilution of Precision".to_string(),
        0x412 => "Data Field: Vertical Dilution of Precision".to_string(),
        0x413 => "Data Field: Latitude".to_string(),
        0x414 => "Data Field: Longitude".to_string(),
        0x415 => "Data Field: True Heading".to_string(),
        0x416 => "Data Field: Magnetic Heading".to_string(),
        0x417 => "Data Field: Magnetic Variation".to_string(),
        0x418 => "Data Field: Speed".to_string(),
        0x419 => "Data Field: Satellites in View".to_string(),
        0x41A => "Data Field: Satellites in View Azimuth".to_string(),
        0x41B => "Data Field: Satellites in View Elevation".to_string(),
        0x41C => "Data Field: Satellites in View IDs".to_string(),
        0x41D => "Data Field: Satellites in View PRNs".to_string(),
        0x41E => "Data Field: Satellites in View S/N Ratios".to_string(),
        0x41F => "Data Field: Satellites Used Count".to_string(),
        0x420 => "Data Field: Satellites Used PRNs".to_string(),
        0x421 => "Data Field: NMEA Sentence".to_string(),
        0x422 => "Data Field: Address Line 1".to_string(),
        0x423 => "Data Field: Address Line 2".to_string(),
        0x424 => "Data Field: City".to_string(),
        0x425 => "Data Field: State or Province".to_string(),
        0x426 => "Data Field: Country or Region".to_string(),
        0x427 => "Data Field: Postal Code".to_string(),
        _ if 0x428 <= usage && usage <= 0x429 => "Reserved".to_string(),
        0x42A => "Property: Location".to_string(),
        0x42B => "Property: Location Desired Accuracy".to_string(),
        _ if 0x42C <= usage && usage <= 0x42F => "Reserved".to_string(),
        0x430 => "Data Field: Environmental".to_string(),
        0x431 => "Data Field: Atmospheric Pressure".to_string(),
        0x432 => "Reserved".to_string(),
        0x433 => "Data Field: Relative Humidity".to_string(),
        0x434 => "Data Field: Temperature".to_string(),
        0x435 => "Data Field: Wind Direction".to_string(),
        0x436 => "Data Field: Wind Speed".to_string(),
        0x437 => "Data Field: Air Quality Index".to_string(),
        0x438 => "Data Field: Equivalent CO2".to_string(),
        0x439 => "Data Field: Volatile Organic Compound Concentration".to_string(),
        0x43A => "Data Field: Object Presence".to_string(),
        0x43B => "Data Field: Object Proximity Range".to_string(),
        0x43C => "Data Field: Object Proximity Out of Range".to_string(),
        _ if 0x43D <= usage && usage <= 0x43F => "Reserved".to_string(),
        0x440 => "Property: Environmental".to_string(),
        0x441 => "Property: Reference Pressure".to_string(),
        _ if 0x442 <= usage && usage <= 0x44F => "Reserved".to_string(),
        0x450 => "Data Field: Motion".to_string(),
        0x451 => "Data Field: Motion State".to_string(),
        0x452 => "Data Field: Acceleration".to_string(),
        0x453 => "Data Field: Acceleration Axis X".to_string(),
        0x454 => "Data Field: Acceleration Axis Y".to_string(),
        0x455 => "Data Field: Acceleration Axis Z".to_string(),
        0x456 => "Data Field: Angular Velocity".to_string(),
        0x457 => "Data Field: Angular Velocity about X Axis".to_string(),
        0x458 => "Data Field: Angular Velocity about Y Axis".to_string(),
        0x459 => "Data Field: Angular Velocity about Z Axis".to_string(),
        0x45A => "Data Field: Angular Position".to_string(),
        0x45B => "Data Field: Angular Position about X Axis".to_string(),
        0x45C => "Data Field: Angular Position about Y Axis".to_string(),
        0x45D => "Data Field: Angular Position about Z Axis".to_string(),
        0x45E => "Data Field: Motion Speed".to_string(),
        0x45F => "Data Field: Motion Intensity".to_string(),
        _ if 0x460 <= usage && usage <= 0x46F => "Reserved".to_string(),
        0x470 => "Data Field: Orientation".to_string(),
        0x471 => "Data Field: Heading".to_string(),
        0x472 => "Data Field: Heading X Axis".to_string(),
        0x473 => "Data Field: Heading Y Axis".to_string(),
        0x474 => "Data Field: Heading Z Axis".to_string(),
        0x475 => "Data Field: Heading Compensated Magnetic North".to_string(),
        0x476 => "Data Field: Heading Compensated True North".to_string(),
        0x477 => "Data Field: Heading Magnetic North".to_string(),
        0x478 => "Data Field: Heading True North".to_string(),
        0x479 => "Data Field: Distance".to_string(),
        0x47A => "Data Field: Distance X Axis".to_string(),
        0x47B => "Data Field: Distance Y Axis".to_string(),
        0x47C => "Data Field: Distance Z Axis".to_string(),
        0x47D => "Data Field: Distance Out-of-Range".to_string(),
        0x47E => "Data Field: Tilt".to_string(),
        0x47F => "Data Field: Tilt X Axis".to_string(),
        0x480 => "Data Field: Tilt Y Axis".to_string(),
        0x481 => "Data Field: Tilt Z Axis".to_string(),
        0x482 => "Data Field: Rotation Matrix".to_string(),
        0x483 => "Data Field: Quaternion".to_string(),
        0x484 => "Data Field: Magnetic Flux".to_string(),
        0x485 => "Data Field: Magnetic Flux X Axis".to_string(),
        0x486 => "Data Field: Magnetic Flux Y Axis".to_string(),
        0x487 => "Data Field: Magnetic Flux Z Axis".to_string(),
        0x488 => "Data Field: Magnetometer Accuracy".to_string(),
        0x489 => "Data Field: Simple Orientation Direction".to_string(),
        _ if 0x48A <= usage && usage <= 0x48F => "Reserved".to_string(),
        0x490 => "Data Field: Mechanical".to_string(),
        0x491 => "Data Field: Boolean Switch State".to_string(),
        0x492 => "Data Field: Boolean Switch Array States".to_string(),
        0x493 => "Data Field: Multivalue Switch Value".to_string(),
        0x494 => "Data Field: Force".to_string(),
        0x495 => "Data Field: Absolute Pressure".to_string(),
        0x496 => "Data Field: Gauge Pressure".to_string(),
        0x497 => "Data Field: Strain".to_string(),
        0x498 => "Data Field: Weight".to_string(),
        _ if 0x499 <= usage && usage <= 0x49F => "Reserved".to_string(),
        0x4A0 => "Property: Mechanical".to_string(),
        0x4A1 => "Property: Vibration State".to_string(),
        0x4A2 => "Property: Forward Vibration Speed".to_string(),
        0x4A3 => "Property: Backward Vibration Speed".to_string(),
        _ if 0x4A4 <= usage && usage <= 0x4AF => "Reserved".to_string(),
        0x4B0 => "Data Field: Biometric".to_string(),
        0x4B1 => "Data Field: Human Presence".to_string(),
        0x4B2 => "Data Field: Human Proximity Range".to_string(),
        0x4B3 => "Data Field: Human Proximity Out of Range".to_string(),
        0x4B4 => "Data Field: Human Touch State".to_string(),
        0x4B5 => "Data Field: Blood Pressure".to_string(),
        0x4B6 => "Data Field: Blood Pressure Diastolic".to_string(),
        0x4B7 => "Data Field: Blood Pressure Systolic".to_string(),
        0x4B8 => "Data Field: Heart Rate".to_string(),
        0x4B9 => "Data Field: Resting Heart Rate".to_string(),
        0x4BA => "Data Field: Heartbeat Interval".to_string(),
        0x4BB => "Data Field: Respiratory Rate".to_string(),
        0x4BC => "Data Field: SpO2".to_string(),
        _ if 0x4BD <= usage && usage <= 0x4CF => "Reserved".to_string(),
        0x4D0 => "Data Field: Light".to_string(),
        0x4D1 => "Data Field: Illuminance".to_string(),
        0x4D2 => "Data Field: Color Temperature".to_string(),
        0x4D3 => "Data Field: Chromaticity".to_string(),
        0x4D4 => "Data Field: Chromaticity X".to_string(),
        0x4D5 => "Data Field: Chromaticity Y".to_string(),
        0x4D6 => "Data Field: Consumer IR Sentence Receive".to_string(),
        0x4D7 => "Data Field: Infrared Light".to_string(),
        0x4D8 => "Data Field: Red Light".to_string(),
        0x4D9 => "Data Field: Green Light".to_string(),
        0x4DA => "Data Field: Blue Light".to_string(),
        0x4DB => "Data Field: Ultraviolet A Light".to_string(),
        0x4DC => "Data Field: Ultraviolet B Light".to_string(),
        0x4DD => "Data Field: Ultraviolet Index".to_string(),
        0x4DE => "Data Field: Near Infrared Light".to_string(),
        0x4DF => "Property: Light".to_string(),
        0x4E0 => "Property: Consumer IR Sentence Send".to_string(),
        0x4E1 => "Reserved".to_string(),
        0x4E2 => "Property: Auto Brightness Preferred".to_string(),
        0x4E3 => "Property: Auto Color Preferred".to_string(),
        _ if 0x4E4 <= usage && usage <= 0x4EF => "Reserved".to_string(),
        0x4F0 => "Data Field: Scanner".to_string(),
        0x4F1 => "Data Field: RFID Tag 40 Bit".to_string(),
        0x4F2 => "Data Field: NFC Sentence Receive".to_string(),
        _ if 0x4F3 <= usage && usage <= 0x4F7 => "Reserved".to_string(),
        0x4F8 => "Property: Scanner".to_string(),
        0x4F9 => "Property: NFC Sentence Send".to_string(),
        _ if 0x4FA <= usage && usage <= 0x4FF => "Reserved".to_string(),
        _ => format_hex(usage),
    }
}

/// The usages from 0x0500 to 0x07FF.
pub open spec fn sensors_usage_name_0500_07ff(usage: u32) -> Seq<char> {
    match usage {
        0x500 => "Data Field: Electrical"@,
        0x501 => "Data Field: Capacitance"@,
        0x502 => "Data Field: Current"@,
        0x503 => "Data Field: Electrical Power"@,
        0x504 => "Data Field: Inductance"@,
        0x505 => "Data Field: Resistance"@,
        0x506 => "Data Field: Voltage"@,
        0x507 => "Data Field: Frequency"@,
        0x508 => "Data Field: Period"@,
        0x509 => "Data Field: Percent of Range"@,
        _ if 0x50A <= usage <= 0x51F => "Reserved"@,
        0x520 => "Data Field: Time"@,
        0x521 => "Data Field: Year"@,
        0x522 => "Data Field: Month"@,
        0x523 => "Data Field: Day"@,
        0x524 => "Data Field: Day of Week"@,
        0x525 => "Data Field: Hour"@,
        0x526 => "Data Field: Minute"@,
        0x527 => "Data Field: Second"@,
        0x528 => "Data Field: Millisecond"@,
        0x529 => "Data Field: Timestamp"@,
        0x52A => "Data Field: Julian Day of Year"@,
        0x52B => "Data Field: Time Since System Boot"@,
        _ if 0x52C <= usage <= 0x52F => "Reserved"@,
        0x530 => "Property: Time"@,
        0x531 => "Property: Time Zone Offset from UTC"@,
        0x532 => "Property: Time Zone Name"@,
        0x533 => "Property: Daylight Savings Time Observed"@,
        0x534 => "Property: Time Trim Adjustment"@,
        0x535 => "Property: Arm Alarm"@,
        _ if 0x536 <= usage <= 0x53F => "Reserved"@,
        0x540 => "Data Field: Custom"@,
        0x541 => "Data Field: Custom Usage"@,
        0x542 => "Data Field: Custom Boolean Array"@,
        0x543 => "Data Field: Custom Value"@,
        0x544 => "Data Field: Custom Value 1"@,
        0x545 => "Data Field: Custom Value 2"@,
        0x546 => "Data Field: Custom Value 3"@,
        0x547 => "Data Field: Custom Value 4"@,
        0x548 => "Data Field: Custom Value 5"@,
        0x549 => "Data Field: Custom Value 6"@,
        0x54A => "Data Field: Custom Value 7"@,
        0x54B => "Data Field: Custom Value 8"@,
        0x54C => "Data Field: Custom Value 9"@,
        0x54D => "Data Field: Custom Value 10"@,
        0x54E => "Data Field: Custom Value 11"@,
        0x54F => "Data Field: Custom Value 12"@,
        0x550 => "Data Field: Custom Value 13"@,
        0x551 => "Data Field: Custom Value 14"@,
        0x552 => "Data Field: Custom Value 15"@,
        0x553 => "Data Field: Custom Value 16"@,
        0x554 => "Data Field: Custom Value 17"@,
        0x555 => "Data Field: Custom Value 18"@,
        0x556 => "Data Field: Custom Value 19"@,
        0x557 => "Data Field: Custom Value 20"@,
        0x558 => "Data Field: Custom Value 21"@,
        0x559 => "Data Field: Custom Value 22"@,
        0x55A => "Data Field: Custom Value 23"@,
        0x55B => "Data Field: Custom Value 24"@,
        0x55C => "Data Field: Custom Value 25"@,
        0x55D => "Data Field: Custom Value 26"@,
        0x55E => "Data Field: Custom Value 27"@,
        0x55F => "Data Field: Custom Value 28"@,
        0x560 => "Data Field: Generic"@,
        0x561 => "Data Field: Generic GUID or PROPERTYKEY"@,
        0x562 => "Data Field: Generic Category GUID"@,
        0x563 => "Data Field: Generic Type GUID"@,
        0x564 => "Data Field: Generic Event PROPERTYKEY"@,
        0x565 => "Data Field: Generic Property PROPERTYKEY"@,
        0x566 => "Data Field: Generic Data Field PROPERTYKEY"@,
        0x567 => "Data Field: Generic Event"@,
        0x568 => "Data Field: Generic Property"@,
        0x569 => "Data Field: Generic Data Field"@,
        0x56A => "Data Field: Enumerator Table Row Index"@,
        0x56B => "Data Field: Enumerator Table Row Count"@,
        0x56C => "Data Field: Generic GUID or PROPERTYKEY kind"@,
        0x56D => "Data Field: Generic GUID"@,
        0x56E => "Data Field: Generic PROPERTYKEY"@,
        0x56F => "Data Field: Generic Top Level Collection ID"@,
        0x570 => "Data Field: Generic Report ID"@,
        0x571 => "Data Field: Generic Report Item Position Index"@,
        0x572 => "Data Field: Generic Firmware VARTYPE"@,
        0x573 => "Data Field: Generic Unit of Measure"@,
        0x574 => "Data Field: Generic Unit Exponent"@,
        0x575 => "Data Field: Generic Report Size"@,
        0x576 => "Data Field: Generic Report Count"@,
        _ if 0x577 <= usage <= 0x57F => "Reserved"@,
        0x580 => "Property: Generic"@,
        0x581 => "Property: Enumerator Table Row Index"@,
        0x582 => "Property: Enumerator Table Row Count"@,
        _ if 0x583 <= usage <= 0x58F => "Reserved"@,
        0x590 => "Data Field: Personal Activity"@,
        0x591 => "Data Field: Activity Type"@,
        0x592 => "Data Field: Activity State"@,
        0x593 => "Data Field: Device Position"@,
        0x594 => "Data Field: Step Count"@,
        0x595 => "Data Field: Step Count Reset"@,
        0x596 => "Data Field: Step Duration"@,
        0x597 => "Data Field: Step Type"@,
        _ if 0x598 <= usage <= 0x59F => "Reserved"@,
        0x5A0 => "Property: Minimum Activity Detection Interval"@,
        0x5A1 => "Property: Supported Activity Types"@,
        0x5A2 => "Property: Subscribed Activity Types"@,
        0x5A3 => "Property: Supported Step Types"@,
        0x5A4 => "Property: Subscribed Step Types"@,
        0x5A5 => "Property: Floor Height"@,
        _ if 0x5A6 <= usage <= 0x5AF => "Reserved"@,
        0x5B0 => "Data Field: Custom Type ID"@,
        _ if 0x5B1 <= usage <= 0x5BF => "Reserved"@,
        0x5C0 => "Property: Custom"@,
        0x5C1 => "Property: Custom Value 1"@,
        0x5C2 => "Property: Custom Value 2"@,
        0x5C3 => "Property: Custom Value 3"@,
        0x5C4 => "Property: Custom Value 4"@,
        0x5C5 => "Property: Custom Value 5"@,
        0x5C6 => "Property: Custom Value 6"@,
        0x5C7 => "Property: Custom Value 7"@,
        0x5C8 => "Property: Custom Value 8"@,
        0x5C9 => "Property: Custom Value 9"@,
        0x5CA => "Property: Custom Value 10"@,
        0x5CB => "Property: Custom Value 11"@,
        0x5CC => "Property: Custom Value 12"@,
        0x5CD => "Property: Custom Value 13"@,
        0x5CE => "Property: Custom Value 14"@,
        0x5CF => "Property: Custom Value 15"@,
        0x5D0 => "Property: Custom Value 16"@,
        _ if 0x5D1 <= usage <= 0x5DF => "Reserved"@,
        0x5E0 => "Data Field: Hinge"@,
        0x5E1 => "Data Field: Hinge Angle"@,
        _ if 0x5E2 <= usage <= 0x5EF => "Reserved"@,
        0x5F0 => "Data Field: Gesture Sensor"@,
        0x5F1 => "Data Field: Gesture State"@,
        0x5F2 => "Data Field: Hinge Fold Initial Angle"@,
        0x5F3 => "Data Field: Hinge Fold Final Angle"@,
        0x5F4 => "Data Field: Hinge Fold Contributing Panel"@,
        0x5F5 => "Data Field: Hinge Fold Type"@,
        _ if 0x5F6 <= usage <= 0x7FF => "Reserved"@,
        _ => hex_text(usage),
    }
}

fn get_sensors_usage_name_0500_07ff(usage: u32) -> (name: String)
    ensures
        name@ == sensors_usage_name_0500_07ff(usage),
{
    match usage {
        0x500 => "Data Field: Electrical".to_string(),
        0x501 => "Data Field: Capacitance".to_string(),
        0x502 => "Data Field: Current".to_string(),
        0x503 => "Data Field: Electrical Power".to_string(),
        0x504 => "Data Field: Inductance".to_string(),
        0x505 => "Data Field: Resistance".to_string(),
        0x506 => "Data Field: Voltage".to_string(),
        0x507 => "Data Field: Frequency".to_string(),
        0x508 => "Data Field: Period".to_string(),
        0x509 => "Data Field: Percent of Range".to_string(),
        _ if 0x50A <= usage && usage <= 0x51F => "Reserved".to_string(),
        0x520 => "Data Field: Time".to_string(),
        0x521 => "Data Field: Year".to_string(),
        0x522 => "Data Field: Month".to_string(),
        0x523 => "Data Field: Day".to_string(),
        0x524 => "Data Field: Day of Week".to_string(),
        0x525 => "Data Field: Hour".to_string(),
        0x526 => "Data Field: Minute".to_string(),
        0x527 => "Data Field: Second".to_string(),
        0x528 => "Data Field: Millisecond".to_string(),
        0x529 => "Data Field: Timestamp".to_string(),
        0x52A => "Data Field: Julian Day of Year".to_string(),
        0x52B => "Data Field: Time Since System Boot".to_string(),
        _ if 0x52C <= usage && usage <= 0x52F => "Reserved".to_string(),
        0x530 => "Property: Time".to_string(),
        0x531 => "Property: Time Zone Offset from UTC".to_string(),
        0x532 => "Property: Time Zone Name".to_string(),
        0x533 => "Property: Daylight Savings Time Observed".to_string(),
        0x534 => "Property: Time Trim Adjustment".to_string(),
        0x535 => "Property: Arm Alarm".to_string(),
        _ if 0x536 <= usage && usage <= 0x53F => "Reserved".to_string(),
        0x540 => "Data Field: Custom".to_string(),
        0x541 => "Data Field: Custom Usage".to_string(),
        0x542 => "Data Field: Custom Boolean Array".to_string(),
        0x543 => "Data Field: Custom Value".to_string(),
        0x544 => "Data Field: Custom Value 1".to_string(),
        0x545 => "Data Field: Custom Value 2".to_string(),
        0x546 => "Data Field: Custom Value 3".to_string(),
        0x547 => "Data Field: Custom Value 4".to_string(),
        0x548 => "Data Field: Custom Value 5".to_string(),
        0x549 => "Data Field: Custom Value 6".to_string(),
        0x54A => "Data Field: Custom Value 7".to_string(),
        0x54B => "Data Field: Custom Value 8".to_string(),
        0x54C => "Data Field: Custom Value 9".to_string(),
        0x54D => "Data Field: Custom Value 10".to_string(),
        0x54E => "Data Field: Custom Value 11".to_string(),
        0x54F => "Data Field: Custom Value 12".to_string(),
        0x550 => "Data Field: Custom Value 13".to_string(),
        0x551 => "Data Field: Custom Value 14".to_string(),
        0x552 => "Data Field: Custom Value 15".to_string(),
        0x553 => "Data Field: Custom Value 16".to_string(),
        0x554 => "Data Field: Custom Value 17".to_string(),
        0x555 => "Data Field: Custom Value 18".to_string(),
        0x556 => "Data Field: Custom Value 19".to_string(),
        0x557 => "Data Field: Custom Value 20".to_string(),
        0x558 => "Data Field: Custom Value 21".to_string(),
        0x559 => "Data Field: Custom Value 22".to_string(),
        0x55A => "Data Field: Custom Value 23".to_string(),
        0x55B => "Data Field: Custom Value 24".to_string(),
        0x55C => "Data Field: Custom Value 25".to_string(),
        0x55D => "Data Field: Custom Value 26".to_string(),
        0x55E => "Data Field: Custom Value 27".to_string(),
        0x55F => "Data Field: Custom Value 28".to_string(),
        0x560 => "Data Field: Generic".to_string(),
        0x561 => "Data Field: Generic GUID or PROPERTYKEY".to_string(),
        0x562 => "Data Field: Generic Category GUID".to_string(),
        0x563 => "Data Field: Generic Type GUID".to_string(),
        0x564 => "Data Field: Generic Event PROPERTYKEY".to_string(),
        0x565 => "Data Field: Generic Property PROPERTYKEY".to_string(),
        0x566 => "Data Field: Generic Data Field PROPERTYKEY".to_string(),
        0x567 => "Data Field: Generic Event".to_string(),
        0x568 => "Data Field: Generic Property".to_string(),
        0x569 => "Data Field: Generic Data Field".to_string(),
        0x56A => "Data Field: Enumerator Table Row Index".to_string(),
        0x56B => "Data Field: Enumerator Table Row Count".to_string(),
        0x56C => "Data Field: Generic GUID or PROPERTYKEY kind".to_string(),
        0x56D => "Data Field: Generic GUID".to_string(),
        0x56E => "Data Field: Generic PROPERTYKEY".to_string(),
        0x56F => "Data Field: Generic Top Level Collection ID".to_string(),
        0x570 => "Data Field: Generic Report ID".to_string(),
        0x571 => "Data Field: Generic Report Item Position Index".to_string(),
        0x572 => "Data Field: Generic Firmware VARTYPE".to_string(),
        0x573 => "Data Field: Generic Unit of Measure".to_string(),
        0x574 => "Data Field: Generic Unit Exponent".to_string(),
        0x575 => "Data Field: Generic Report Size".to_string(),
        0x576 => "Data Field: Generic Report Count".to_string(),
        _ if 0x577 <= usage && usage <= 0x57F => "Reserved".to_string(),
        0x580 => "Property: Generic".to_string(),
        0x581 => "Property: Enumerator Table Row Index".to_string(),
        0x582 => "Property: Enumerator Table Row Count".to_string(),
        _ if 0x583 <= usage && usage <= 0x58F => "Reserved".to_string(),
        0x590 => "Data Field: Personal Activity".to_string(),
        0x591 => "Data Field: Activity Type".to_string(),
        0x592 => "Data Field: Activity State".to_string(),
        0x593 => "Data Field: Device Position".to_string(),
        0x594 => "Data Field: Step Count".to_string(),
        0x595 => "Data Field: Step Count Reset".to_string(),
        0x596 => "Data Field: Step Duration".to_string(),
        0x597 => "Data Field: Step Type".to_string(),
        _ if 0x598 <= usage && usage <= 0x59F => "Reserved".to_string(),
        0x5A0 => "Property: Minimum Activity Detection Interval".to_string(),
        0x5A1 => "Property: Supported Activity Types".to_string(),
        0x5A2 => "Property: Subscribed Activity Types".to_string(),
        0x5A3 => "Property: Supported Step Types".to_string(),
        0x5A4 => "Property: Subscribed Step Types".to_string(),
        0x5A5 => "Property: Floor Height".to_string(),
        _ if 0x5A6 <= usage && usage <= 0x5AF => "Reserved".to_string(),
        0x5B0 => "Data Field: Custom Type ID".to_string(),
        _ if 0x5B1 <= usage && usage <= 0x5BF => "Reserved".to_string(),
        0x5C0 => "Property: Custom".to_string(),
        0x5C1 => "Property: Custom Value 1".to_string(),
        0x5C2 => "Property: Custom Value 2".to_string(),
        0x5C3 => "Property: Custom Value 3".to_string(),
        0x5C4 => "Property: Custom Value 4".to_string(),
        0x5C5 => "Property: Custom Value 5".to_string(),
        0x5C6 => "Property: Custom Value 6".to_string(),
        0x5C7 => "Property: Custom Value 7".to_string(),
        0x5C8 => "Property: Custom Value 8".to_string(),
        0x5C9 => "Property: Custom Value 9".to_string(),
        0x5CA => "Property: Custom Value 10".to_string(),
        0x5CB => "Property: Custom Value 11".to_string(),
        0x5CC => "Property: Custom Value 12".to_string(),
        0x5CD => "Property: Custom Value 13".to_string(),
        0x5CE => "Property: Custom Value 14".to_string(),
        0x5CF => "Property: Custom Value 15".to_string(),
        0x5D0 => "Property: Custom Value 16".to_string(),
        _ if 0x5D1 <= usage && usage <= 0x5DF => "Reserved".to_string(),
        0x5E0 => "Data Field: Hinge".to_string(),
        0x5E1 => "Data Field: Hinge Angle".to_string(),
        _ if 0x5E2 <= usage && usage <= 0x5EF => "Reserved".to_string(),
        0x5F0 => "Data Field: Gesture Sensor".to_string(),
        0x5F1 => "Data Field: Gesture State".to_string(),
        0x5F2 => "Data Field: Hinge Fold Initial Angle".to_string(),
        0x5F3 => "Data Field: Hinge Fold Final Angle".to_string(),
        0x5F4 => "Data Field: Hinge Fold Contributing Panel".to_string(),
        0x5F5 => "Data Field: Hinge Fold Type".to_string(),
        _ if 0x5F6 <= usage && usage <= 0x7FF => "Reserved".to_string(),
        _ => format_hex(usage),
    }
}

/// The usages from 0x0800 to 0x08FF.
pub open spec fn sensors_usage_name_0800_08ff(usage: u32) -> Seq<char> {
    match usage {
        0x800 => "Sensor State: Undefined"@,
        0x801 => "Sensor State: Ready"@,
        0x802 => "Sensor State: Not Available"@,
        0x803 => "Sensor State: No Data"@,
        0x804 => "Sensor State: Initializing"@,
        0x805 => "Sensor State: Access Denied"@,
        0x806 => "Sensor State: Error"@,
        _ if 0x807 <= usage <= 0x80F => "Reserved"@,
        0x810 => "Sensor Event: Unknown"@,
        0x811 => "Sensor Event: State Changed"@,
        0x812 => "Sensor Event: Property Changed"@,
        0x813 => "Sensor Event: Data Updated"@,
        0x814 => "Sensor Event: Poll Response"@,
        0x815 => "Sensor Event: Change Sensitivity"@,
        0x816 => "Sensor Event: Range Maximum Reached"@,
        0x817 => "Sensor Event: Range Minimum Reached"@,
        0x818 => "Sensor Event: High Threshold Cross Upward"@,
        0x819 => "Sensor Event: High Threshold Cross Downward"@,
        0x81A => "Sensor Event: Low Threshold Cross Upward"@,
        0x81B => "Sensor Event: Low Threshold Cross Downward"@,
        0x81C => "Sensor Event: Zero Threshold Cross Upward"@,
        0x81D => "Sensor Event: Zero Threshold Cross Downward"@,
        0x81E => "Sensor Event: Period Exceeded"@,
        0x81F => "Sensor Event: Frequency Exceeded"@,
        0x820 => "Sensor Event: Complex Trigger"@,
        _ if 0x821 <= usage <= 0x82F => "Reserved"@,
        0x830 => "Connection Type: PC Integrated"@,
        0x831 => "Connection Type: PC Attached"@,
        0x832 => "Connection Type: PC External"@,
        _ if 0x833 <= usage <= 0x83F => "Reserved"@,
        0x840 => "Reporting State: Report No Events"@,
        0x841 => "Reporting State: Report All Events"@,
        0x842 => "Reporting State: Report Threshold Events"@,
        0x843 => "Reporting State: Wake On No Events"@,
        0x844 => "Reporting State: Wake On All Events"@,
        0x845 => "Reporting State: Wake On Threshold Events"@,
        _ if 0x846 <= usage <= 0x84F => "Reserved"@,
        0x850 => "Power State: Undefined"@,
        0x851 => "Power State: D0 Full Power"@,
        0x852 => "Power State: D1 Low Power"@,
        0x853 => "Power State: D2 Standby Power with Wakeup"@,
        0x854 => "Power State: D3 Sleep with Wakeup"@,
        0x855 => "Power State: D4 Power Off"@,
        _ if 0x856 <= usage <= 0x85F => "Reserved"@,
        0x860 => "Accuracy: Default"@,
        0x861 => "Accuracy: High"@,
        0x862 => "Accuracy: Medium"@,
        0x863 => "Accuracy: Low"@,
        _ if 0x864 <= usage <= 0x86F => "Reserved"@,
        0x870 => "Fix Quality: No Fix"@,
        0x871 => "Fix Quality: GPS"@,
        0x872 => "Fix Quality: DGPS"@,
        _ if 0x873 <= usage <= 0x87F => "Reserved"@,
        0x880 => "Fix Type: No Fix"@,
        0x881 => "Fix Type: GPS SPS Mode, Fix Valid"@,
        0x882 => "Fix Type: DGPS SPS Mode, Fix Valid"@,
        0x883 => "Fix Type: GPS PPS Mode, Fix Valid"@,
        0x884 => "Fix Type: Real Time Kinematic"@,
        0x885 => "Fix Type: Float RTK"@,
        0x886 => "Fix Type: Estimated (dead reckoned)"@,
        0x887 => "Fix Type: Manual Input Mode"@,
        0x888 => "Fix Type: Simulator Mode"@,
        _ if 0x889 <= usage <= 0x88F => "Reserved"@,
        0x890 => "GPS Operation Mode: Manual"@,
        0x891 => "GPS Operation Mode: Automatic"@,
        _ if 0x892 <= usage <= 0x89F => "Reserved"@,
        0x8A0 => "GPS Selection Mode: Autonomous"@,
        0x8A1 => "GPS Selection Mode: DGPS"@,
        0x8A2 => "GPS Selection Mode: Estimated (dead reckoned)"@,
        0x8A3 => "GPS Selection Mode: Manual Input"@,
        0x8A4 => "GPS Selection Mode: Simulator"@,
        0x8A5 => "GPS Selection Mode: Data Not Valid"@,
        _ if 0x8A6 <= usage <= 0x8AF => "Reserved"@,
        0x8B0 => "GPS Status Data: Valid"@,
        0x8B1 => "GPS Status Data: Not Valid"@,
        _ if 0x8B2 <= usage <= 0x8BF => "Reserved"@,
        0x8C0 => "Day of Week: Sunday"@,
        0x8C1 => "Day of Week: Monday"@,
        0x8C2 => "Day of Week: Tuesday"@,
        0x8C3 => "Day of Week: Wednesday"@,
        0x8C4 => "Day of Week: Thursday"@,
        0x8C5 => "Day of Week: Friday"@,
        0x8C6 => "Day of Week: Saturday"@,
        _ if 0x8C7 <= usage <= 0x8CF => "Reserved"@,
        0x8D0 => "Kind: Category"@,
        0x8D1 => "Kind: Type"@,
        0x8D2 => "Kind: Event"@,
        0x8D3 => "Kind: Property"@,
        0x8D4 => "Kind: Data Field"@,
        _ if 0x8D5 <= usage <= 0x8DF => "Reserved"@,
        0x8E0 => "Magnetometer Accuracy: Low"@,
        0x8E1 => "Magnetometer Accuracy: Medium"@,
        0x8E2 => "Magnetometer Accuracy: High"@,
        _ if 0x8E3 <= usage <= 0x8EF => "Reserved"@,
        0x8F0 => "Simple Orientation Direction: Not Rotated"@,
        0x8F1 => "Simple Orientation Direction: Rotated 90 Degrees CCW"@,
        0x8F2 => "Simple Orientation Direction: Rotated 180 Degrees CCW"@,
        0x8F3 => "Simple Orientation Direction: Rotated 270 Degrees CCW"@,
        0x8F4 => "Simple Orientation Direction: Face Up"@,
        0x8F5 => "Simple Orientation Direction: Face Down"@,
        _ if 0x8F6 <= usage <= 0x8FF => "Reserved"@,
        _ => hex_text(usage),
    }
}

fn get_sensors_usage_name_0800_08ff(usage: u32) -> (name: String)
    ensures
        name@ == sensors_usage_name_0800_08ff(usage),
{
    match usage {
        0x800 => "Sensor State: Undefined".to_string(),
        0x801 => "Sensor State: Ready".to_string(),
        0x802 => "Sensor State: Not Available".to_string(),
        0x803 => "Sensor State: No Data".to_string(),
        0x804 => "Sensor State: Initializing".to_string(),
        0x805 => "Sensor State: Access Denied".to_string(),
        0x806 => "Sensor State: Error".to_string(),
        _ if 0x807 <= usage && usage <= 0x80F => "Reserved".to_string(),
        0x810 => "Sensor Event: Unknown".to_string(),
        0x811 => "Sensor Event: State Changed".to_string(),
        0x812 => "Sensor Event: Property Changed".to_string(),
        0x813 => "Sensor Event: Data Updated".to_string(),
        0x814 => "Sensor Event: Poll Response".to_string(),
        0x815 => "Sensor Event: Change Sensitivity".to_string(),
        0x816 => "Sensor Event: Range Maximum Reached".to_string(),
        0x817 => "Sensor Event: Range Minimum Reached".to_string(),
        0x818 => "Sensor Event: High Threshold Cross Upward".to_string(),
        0x819 => "Sensor Event: High Threshold Cross Downward".to_string(),
        0x81A => "Sensor Event: Low Threshold Cross Upward".to_string(),
        0x81B => "Sensor Event: Low Threshold Cross Downward".to_string(),
        0x81C => "Sensor Event: Zero Threshold Cross Upward".to_string(),
        0x81D => "Sensor Event: Zero Threshold Cross Downward".to_string(),
        0x81E => "Sensor Event: Period Exceeded".to_string(),
        0x81F => "Sensor Event: Frequency Exceeded".to_string(),
        0x820 => "Sensor Event: Complex Trigger".to_string(),
        _ if 0x821 <= usage && usage <= 0x82F => "Reserved".to_string(),
        0x830 => "Connection Type: PC Integrated".to_string(),
        0x831 => "Connection Type: PC Attached".to_string(),
        0x832 => "Connection Type: PC External".to_string(),
        _ if 0x833 <= usage && usage <= 0x83F => "Reserved".to_string(),
        0x840 => "Reporting State: Report No Events".to_string(),
        0x841 => "Reporting State: Report All Events".to_string(),
        0x842 => "Reporting State: Report Threshold Events".to_string(),
        0x843 => "Reporting State: Wake On No Events".to_string(),
        0x844 => "Reporting State: Wake On All Events".to_string(),
        0x845 => "Reporting State: Wake On Threshold Events".to_string(),
        _ if 0x846 <= usage && usage <= 0x84F => "Reserved".to_string(),
        0x850 => "Power State: Undefined".to_string(),
        0x851 => "Power State: D0 Full Power".to_string(),
        0x852 => "Power State: D1 Low Power".to_string(),
        0x853 => "Power State: D2 Standby Power with Wakeup".to_string(),
        0x854 => "Power State: D3 Sleep with Wakeup".to_string(),
        0x855 => "Power State: D4 Power Off".to_string(),
        _ if 0x856 <= usage && usage <= 0x85F => "Reserved".to_string(),
        0x860 => "Accuracy: Default".to_string(),
        0x861 => "Accuracy: High".to_string(),
        0x862 => "Accuracy: Medium".to_string(),
        0x863 => "Accuracy: Low".to_string(),
        _ if 0x864 <= usage && usage <= 0x86F => "Reserved".to_string(),
        0x870 => "Fix Quality: No Fix".to_string(),
        0x871 => "Fix Quality: GPS".to_string(),
        0x872 => "Fix Quality: DGPS".to_string(),
        _ if 0x873 <= usage && usage <= 0x87F => "Reserved".to_string(),
        0x880 => "Fix Type: No Fix".to_string(),
        0x881 => "Fix Type: GPS SPS Mode, Fix Valid".to_string(),
        0x882 => "Fix Type: DGPS SPS Mode, Fix Valid".to_string(),
        0x883 => "Fix Type: GPS PPS Mode, Fix Valid".to_string(),
        0x884 => "Fix Type: Real Time Kinematic".to_string(),
        0x885 => "Fix Type: Float RTK".to_string(),
        0x886 => "Fix Type: Estimated (dead reckoned)".to_string(),
        0x887 => "Fix Type: Manual Input Mode".to_string(),
        0x888 => "Fix Type: Simulator Mode".to_string(),
        _ if 0x889 <= usage && usage <= 0x88F => "Reserved".to_string(),
        0x890 => "GPS Operation Mode: Manual".to_string(),
        0x891 => "GPS Operation Mode: Automatic".to_string(),
        _ if 0x892 <= usage && usage <= 0x89F => "Reserved".to_string(),
        0x8A0 => "GPS Selection Mode: Autonomous".to_string(),
        0x8A1 => "GPS Selection Mode: DGPS".to_string(),
        0x8A2 => "GPS Selection Mode: Estimated (dead reckoned)".to_string(),
        0x8A3 => "GPS Selection Mode: Manual Input".to_string(),
        0x8A4 => "GPS Selection Mode: Simulator".to_string(),
        0x8A5 => "GPS Selection Mode: Data Not Valid".to_string(),
        _ if 0x8A6 <= usage && usage <= 0x8AF => "Reserved".to_string(),
        0x8B0 => "GPS Status Data: Valid".to_string(),
        0x8B1 => "GPS Status Data: Not Valid".to_string(),
        _ if 0x8B2 <= usage && usage <= 0x8BF => "Reserved".to_string(),
        0x8C0 => "Day of Week: Sunday".to_string(),
        0x8C1 => "Day of Week: Monday".to_string(),
        0x8C2 => "Day of Week: Tuesday".to_string(),
        0x8C3 => "Day of Week: Wednesday".to_string(),
        0x8C4 => "Day of Week: Thursday".to_string(),
        0x8C5 => "Day of Week: Friday".to_string(),
        0x8C6 => "Day of Week: Saturday".to_string(),
        _ if 0x8C7 <= usage && usage <= 0x8CF => "Reserved".to_string(),
        0x8D0 => "Kind: Category".to_string(),
        0x8D1 => "Kind: Type".to_string(),
        0x8D2 => "Kind: Event".to_string(),
        0x8D3 => "Kind: Property".to_string(),
        0x8D4 => "Kind: Data Field".to_string(),
        _ if 0x8D5 <= usage && usage <= 0x8DF => "Reserved".to_string(),
        0x8E0 => "Magnetometer Accuracy: Low".to_string(),
        0x8E1 => "Magnetometer Accuracy: Medium".to_string(),
        0x8E2 => "Magnetometer Accuracy: High".to_string(),
        _ if 0x8E3 <= usage && usage <= 0x8EF => "Reserved".to_string(),
        0x8F0 => "Simple Orientation Direction: Not Rotated".to_string(),
        0x8F1 => "Simple Orientation Direction: Rotated 90 Degrees CCW".to_string(),
        0x8F2 => "Simple Orientation Direction: Rotated 180 Degrees CCW".to_string(),
        0x8F3 => "Simple Orientation Direction: Rotated 270 Degrees CCW".to_string(),
        0x8F4 => "Simple Orientation Direction: Face Up".to_string(),
        0x8F5 => "Simple Orientation Direction: Face Down".to_string(),
        _ if 0x8F6 <= usage && usage <= 0x8FF => "Reserved".to_string(),
        _ => format_hex(usage),
    }
}

/// The usages from 0x0900 to 0x0FFF.
pub open spec fn sensors_usage_name_0900_0fff(usage: u32) -> Seq<char> {
    match usage {
        0x900 => "VT_NULL"@,
        0x901 => "VT_BOOL"@,
        0x902 => "VT_UI1"@,
        0x903 => "VT_I1"@,
        0x904 => "VT_UI2"@,
        0x905 => "VT_I2"@,
        0x906 => "VT_UI4"@,
        0x907 => "VT_I4"@,
        0x908 => "VT_UI8"@,
        0x909 => "VT_I8"@,
        0x90A => "VT_R4"@,
        0x90B => "VT_R8"@,
        0x90C => "VT_WSTR"@,
        0x90D => "VT_STR"@,
        0x90E => "VT_CLSID"@,
        0x90F => "VT_VECTOR VT_UI1"@,
        0x910 => "VT_F16E0"@,
        0x911 => "VT_F16E1"@,
        0x912 => "VT_F16E2"@,
        0x913 => "VT_F16E3"@,
        0x914 => "VT_F16E4"@,
        0x915 => "VT_F16E5"@,
        0x916 => "VT_F16E6"@,
        0x917 => "VT_F16E7"@,
        0x918 => "VT_F16E8"@,
        0x919 => "VT_F16E9"@,
        0x91A => "VT_F16EA"@,
        0x91B => "VT_F16EB"@,
        0x91C => "VT_F16EC"@,
        0x91D => "VT_F16ED"@,
        0x91E => "VT_F16EE"@,
        0x91F => "VT_F16EF"@,
        0x920 => "VT_F32E0"@,
        0x921 => "VT_F32E1"@,
        0x922 => "VT_F32E2"@,
        0x923 => "VT_F32E3"@,
        0x924 => "VT_F32E4"@,
        0x925 => "VT_F32E5"@,
        0x926 => "VT_F32E6"@,
        0x927 => "VT_F32E7"@,
        0x928 => "VT_F32E8"@,
        0x929 => "VT_F32E9"@,
        0x92A => "VT_F32EA"@,
        0x92B => "VT_F32EB"@,
        0x92C => "VT_F32EC"@,
        0x92D => "VT_F32ED"@,
        0x92E => "VT_F32EE"@,
        0x92F => "VT_F32EF"@,
        0x930 => "Activity Type: Unknown"@,
        0x931 => "Activity Type: Stationary"@,
        0x932 => "Activity Type: Fidgeting"@,
        0x933 => "Activity Type: Walking"@,
        0x934 => "Activity Type: Running"@,
        0x935 => "Activity Type: In Vehicle"@,
        0x936 => "Activity Type: Biking"@,
        0x937 => "Activity Type: Idle"@,
        _ if 0x938 <= usage <= 0x93F => "Reserved"@,
        0x940 => "Unit: Not Specified"@,
        0x941 => "Unit: Lux"@,
        0x942 => "Unit: Degrees Kelvin"@,
        0x943 => "Unit: Degrees Celsius"@,
        0x944 => "Unit: Pascal"@,
        0x945 => "Unit: Newton"@,
        0x946 => "Unit: Meters/Second"@,
        0x947 => "Unit: Kilogram"@,
        0x948 => "Unit: Meter"@,
        0x949 => "Unit: Meters/Second/Second"@,
        0x94A => "Unit: Farad"@,
        0x94B => "Unit: Ampere"@,
        0x94C => "Unit: Watt"@,
        0x94D => "Unit: Henry"@,
        0x94E => "Unit: Ohm"@,
        0x94F => "Unit: Volt"@,
        0x950 => "Unit: Hertz"@,
        0x951 => "Unit: Bar"@,
        0x952 => "Unit: Degrees Anti-clockwise"@,
        0x953 => "Unit: Degrees Clockwise"@,
        0x954 => "Unit: Degrees"@,
        0x955 => "Unit: Degrees/Second"@,
        0x956 => "Unit: Degrees/Second/Second"@,
        0x957 => "Unit: Knot"@,
        0x958 => "Unit: Percent"@,
        0x959 => "Unit: Second"@,
        0x95A => "Unit: Millisecond"@,
        0x95B => "Unit: G"@,
        0x95C => "Unit: Bytes"@,
        0x95D => "Unit: Milligauss"@,
        0x95E => "Unit: Bits"@,
        0x95F => "Reserved"@,
        0x960 => "Activity State: No State Change"@,
        0x961 => "Activity State: Start Activity"@,
        0x962 => "Activity State: End Activity"@,
        _ if 0x963 <= usage <= 0x96F => "Reserved"@,
        0x970 => "Exponent 0"@,
        0x971 => "Exponent 1"@,
        0x972 => "Exponent 2"@,
        0x973 => "Exponent 3"@,
        0x974 => "Exponent 4"@,
        0x975 => "Exponent 5"@,
        0x976 => "Exponent 6"@,
        0x977 => "Exponent 7"@,
        0x978 => "Exponent 8"@,
        0x979 => "Exponent 9"@,
        0x97A => "Exponent A"@,
        0x97B => "Exponent B"@,
        0x97C => "Exponent C"@,
        0x97D => "Exponent D"@,
        0x97E => "Exponent E"@,
        0x97F => "Exponent F"@,
        0x980 => "Device Position: Unknown"@,
        0x981 => "Device Position: Unchanged"@,
        0x982 => "Device Position: On Desk"@,
        0x983 => "Device Position: In Hand"@,
        0x984 => "Device Position: Moving in Bag"@,
        0x985 => "Device Position: Stationary in Bag"@,
        _ if 0x986 <= usage <= 0x98F => "Reserved"@,
        0x990 => "Step Type: Unknown"@,
        0x991 => "Step Type: Running"@,
        0x992 => "Step Type: Walking"@,
        _ if 0x993 <= usage <= 0x99F => "Reserved"@,
        0x9A0 => "Gesture State: Unknown"@,
        0x9A1 => "Gesture State: Started"@,
        0x9A2 => "Gesture State: Completed"@,
        0x9A3 => "Gesture State: Cancelled"@,
        _ if 0x9A4 <= usage <= 0x9AF => "Reserved"@,
        0x9B0 => "Hinge Fold Contributing Panel: Unknown"@,
        0x9B1 => "Hinge Fold Contributing Panel: Panel 1"@,
        0x9B2 => "Hinge Fold Contributing Panel: Panel 2"@,
        0x9B3 => "Hinge Fold Contributing Panel: Both"@,
        0x9B4 => "Hinge Fold Type: Unknown"@,
        0x9B5 => "Hinge Fold Type: Increasing"@,
        0x9B6 => "Hinge Fold Type: Decreasing"@,
        _ if 0x9B7 <= usage <= 0xFFF => "Reserved"@,
        _ => hex_text(usage),
    }
}

fn get_sensors_usage_name_0900_0fff(usage: u32) -> (name: String)
    ensures
        name@ == sensors_usage_name_0900_0fff(usage),
{
    match usage {
        0x900 => "VT_NULL".to_string(),
        0x901 => "VT_BOOL".to_string(),
        0x902 => "VT_UI1".to_string(),
        0x903 => "VT_I1".to_string(),
        0x904 => "VT_UI2".to_string(),
        0x905 => "VT_I2".to_string(),
        0x906 => "VT_UI4".to_string(),
        0x907 => "VT_I4".to_string(),
        0x908 => "VT_UI8".to_string(),
        0x909 => "VT_I8".to_string(),
        0x90A => "VT_R4".to_string(),
        0x90B => "VT_R8".to_string(),
        0x90C => "VT_WSTR".to_string(),
        0x90D => "VT_STR".to_string(),
        0x90E => "VT_CLSID".to_string(),
        0x90F => "VT_VECTOR VT_UI1".to_string(),
        0x910 => "VT_F16E0".to_string(),
        0x911 => "VT_F16E1".to_string(),
        0x912 => "VT_F16E2".to_string(),
        0x913 => "VT_F16E3".to_string(),
        0x914 => "VT_F16E4".to_string(),
        0x915 => "VT_F16E5".to_string(),
        0x916 => "VT_F16E6".to_string(),
        0x917 => "VT_F16E7".to_string(),
        0x918 => "VT_F16E8".to_string(),
        0x919 => "VT_F16E9".to_string(),
        0x91A => "VT_F16EA".to_string(),
        0x91B => "VT_F16EB".to_string(),
        0x91C => "VT_F16EC".to_string(),
        0x91D => "VT_F16ED".to_string(),
        0x91E => "VT_F16EE".to_string(),
        0x91F => "VT_F16EF".to_string(),
        0x920 => "VT_F32E0".to_string(),
        0x921 => "VT_F32E1".to_string(),
        0x922 => "VT_F32E2".to_string(),
        0x923 => "VT_F32E3".to_string(),
        0x924 => "VT_F32E4".to_string(),
        0x925 => "VT_F32E5".to_string(),
        0x926 => "VT_F32E6".to_string(),
        0x927 => "VT_F32E7".to_string(),
        0x928 => "VT_F32E8".to_string(),
        0x929 => "VT_F32E9".to_string(),
        0x92A => "VT_F32EA".to_string(),
        0x92B => "VT_F32EB".to_string(),
        0x92C => "VT_F32EC".to_string(),
        0x92D => "VT_F32ED".to_string(),
        0x92E => "VT_F32EE".to_string(),
        0x92F => "VT_F32EF".to_string(),
        0x930 => "Activity Type: Unknown".to_string(),
        0x931 => "Activity Type: Stationary".to_string(),
        0x932 => "Activity Type: Fidgeting".to_string(),
        0x933 => "Activity Type: Walking".to_string(),
        0x934 => "Activity Type: Running".to_string(),
        0x935 => "Activity Type: In Vehicle".to_string(),
        0x936 => "Activity Type: Biking".to_string(),
        0x937 => "Activity Type: Idle".to_string(),
        _ if 0x938 <= usage && usage <= 0x93F => "Reserved".to_string(),
        0x940 => "Unit: Not Specified".to_string(),
        0x941 => "Unit: Lux".to_string(),
        0x942 => "Unit: Degrees Kelvin".to_string(),
        0x943 => "Unit: Degrees Celsius".to_string(),
        0x944 => "Unit: Pascal".to_string(),
        0x945 => "Unit: Newton".to_string(),
        0x946 => "Unit: Meters/Second".to_string(),
        0x947 => "Unit: Kilogram".to_string(),
        0x948 => "Unit: Meter".to_string(),
        0x949 => "Unit: Meters/Second/Second".to_string(),
        0x94A => "Unit: Farad".to_string(),
        0x94B => "Unit: Ampere".to_string(),
        0x94C => "Unit: Watt".to_string(),
        0x94D => "Unit: Henry".to_string(),
        0x94E => "Unit: Ohm".to_string(),
        0x94F => "Unit: Volt".to_string(),
        0x950 => "Unit: Hertz".to_string(),
        0x951 => "Unit: Bar".to_string(),
        0x952 => "Unit: Degrees Anti-clockwise".to_string(),
        0x953 => "Unit: Degrees Clockwise".to_string(),
        0x954 => "Unit: Degrees".to_string(),
        0x955 => "Unit: Degrees/Second".to_string(),
        0x956 => "Unit: Degrees/Second/Second".to_string(),
        0x957 => "Unit: Knot".to_string(),
        0x958 => "Unit: Percent".to_string(),
        0x959 => "Unit: Second".to_string(),
        0x95A => "Unit: Millisecond".to_string(),
        0x95B => "Unit: G".to_string(),
        0x95C => "Unit: Bytes".to_string(),
        0x95D => "Unit: Milligauss".to_string(),
        0x95E => "Unit: Bits".to_string(),
        0x95F => "Reserved".to_string(),
        0x960 => "Activity State: No State Change".to_string(),
        0x961 => "Activity State: Start Activity".to_string(),
        0x962 => "Activity State: End Activity".to_string(),
        _ if 0x963 <= usage && usage <= 0x96F => "Reserved".to_string(),
        0x970 => "Exponent 0".to_string(),
        0x971 => "Exponent 1".to_string(),
        0x972 => "Exponent 2".to_string(),
        0x973 => "Exponent 3".to_string(),
        0x974 => "Exponent 4".to_string(),
        0x975 => "Exponent 5".to_string(),
        0x976 => "Exponent 6".to_string(),
        0x977 => "Exponent 7".to_string(),
        0x978 => "Exponent 8".to_string(),
        0x979 => "Exponent 9".to_string(),
        0x97A => "Exponent A".to_string(),
        0x97B => "Exponent B".to_string(),
        0x97C => "Exponent C".to_string(),
        0x97D => "Exponent D".to_string(),
        0x97E => "Exponent E".to_string(),
        0x97F => "Exponent F".to_string(),
        0x980 => "Device Position: Unknown".to_string(),
        0x981 => "Device Position: Unchanged".to_string(),
        0x982 => "Device Position: On Desk".to_string(),
        0x983 => "Device Position: In Hand".to_string(),
        0x984 => "Device Position: Moving in Bag".to_string(),
        0x985 => "Device Position: Stationary in Bag".to_string(),
        _ if 0x986 <= usage && usage <= 0x98F => "Reserved".to_string(),
        0x990 => "Step Type: Unknown".to_string(),
        0x991 => "Step Type: Running".to_string(),
        0x992 => "Step Type: Walking".to_string(),
        _ if 0x993 <= usage && usage <= 0x99F => "Reserved".to_string(),
        0x9A0 => "Gesture State: Unknown".to_string(),
        0x9A1 => "Gesture State: Started".to_string(),
        0x9A2 => "Gesture State: Completed".to_string(),
        0x9A3 => "Gesture State: Cancelled".to_string(),
        _ if 0x9A4 <= usage && usage <= 0x9AF => "Reserved".to_string(),
        0x9B0 => "Hinge Fold Contributing Panel: Unknown".to_string(),
        0x9B1 => "Hinge Fold Contributing Panel: Panel 1".to_string(),
        0x9B2 => "Hinge Fold Contributing Panel: Panel 2".to_string(),
        0x9B3 => "Hinge Fold Contributing Panel: Both".to_string(),
        0x9B4 => "Hinge Fold Type: Unknown".to_string(),
        0x9B5 => "Hinge Fold Type: Increasing".to_string(),
        0x9B6 => "Hinge Fold Type: Decreasing".to_string(),
        _ if 0x9B7 <= usage && usage <= 0xFFF => "Reserved".to_string(),
        _ => format_hex(usage),
    }
}

/// The usages from 0x1000 on.
pub open spec fn sensors_usage_name_from_1000(usage: u32) -> Seq<char> {
    match usage {
        0x1000 => "Modifier: Change Sensitivity Absolute"@,
        _ if 0x1001 <= usage <= 0x10FF => "Reserved"@,
        _ if 0x1100 <= usage <= 0x17FF => "Reserved for use as Change Sensitivity Absolute modifier range"@,
        _ if 0x1800 <= usage <= 0x1FFF => "Reserved"@,
        0x2000 => "Modifier: Maximum"@,
        _ if 0x2001 <= usage <= 0x20FF => "Reserved"@,
        _ if 0x2100 <= usage <= 0x27FF => "Reserved for use as Maximum modifier range"@,
        _ if 0x2800 <= usage <= 0x2FFF => "Reserved"@,
        0x3000 => "Modifier: Minimum"@,
        _ if 0x3001 <= usage <= 0x30FF => "Reserved"@,
        _ if 0x3100 <= usage <= 0x37FF => "Reserved for use as Minimum modifier range"@,
        _ if 0x3800 <= usage <= 0x3FFF => "Reserved"@,
        0x4000 => "Modifier: Accuracy"@,
        _ if 0x4001 <= usage <= 0x40FF => "Reserved"@,
        _ if 0x4100 <= usage <= 0x47FF => "Reserved for use as Accuracy modifier range"@,
        _ if 0x4800 <= usage <= 0x4FFF => "Reserved"@,
        0x5000 => "Modifier: Resolution"@,
        _ if 0x5001 <= usage <= 0x50FF => "Reserved"@,
        _ if 0x5100 <= usage <= 0x57FF => "Reserved for use as Resolution modifier range"@,
        _ if 0x5800 <= usage <= 0x5FFF => "Reserved"@,
        0x6000 => "Modifier: Threshold High"@,
        _ if 0x6001 <= usage <= 0x60FF => "Reserved"@,
        _ if 0x6100 <= usage <= 0x67FF => "Reserved for use as Threshold High modifier range"@,
        _ if 0x6800 <= usage <= 0x6FFF => "Reserved"@,
        0x7000 => "Modifier: Threshold Low"@,
        _ if 0x7001 <= usage <= 0x70FF => "Reserved"@,
        _ if 0x7100 <= usage <= 0x77FF => "Reserved for use as Threshold Low modifier range"@,
        _ if 0x7800 <= usage <= 0x7FFF => "Reserved"@,
        0x8000 => "Modifier: Calibration Offset"@,
        _ if 0x8001 <= usage <= 0x80FF => "Reserved"@,
        _ if 0x8100 <= usage <= 0x87FF => "Reserved for use as Calibration Offset modifier range"@,
        _ if 0x8800 <= usage <= 0x8FFF => "Reserved"@,
        0x9000 => "Modifier: Calibration Multiplier"@,
        _ if 0x9001 <= usage <= 0x90FF => "Reserved"@,
        _ if 0x9100 <= usage <= 0x97FF => "Reserved for use as Calibration Multiplier modifier range"@,
        _ if 0x9800 <= usage <= 0x9FFF => "Reserved"@,
        0xA000 => "Modifier: Report Interval"@,
        _ if 0xA001 <= usage <= 0xA0FF => "Reserved"@,
        _ if 0xA100 <= usage <= 0xA7FF => "Reserved for use as Report Interval modifier range"@,
        _ if 0xA800 <= usage <= 0xAFFF => "Reserved"@,
        0xB000 => "Modifier: Frequency Max"@,
        _ if 0xB001 <= usage <= 0xB0FF => "Reserved"@,
        _ if 0xB100 <= usage <= 0xB7FF => "Reserved for use as Frequency Max modifier range"@,
        _ if 0xB800 <= usage <= 0xBFFF => "Reserved"@,
        0xC000 => "Modifier: Period Max"@,
        _ if 0xC001 <= usage <= 0xC0FF => "Reserved"@,
        _ if 0xC100 <= usage <= 0xC7FF => "Reserved for use as Period Max modifier range"@,
        _ if 0xC800 <= usage <= 0xCFFF => "Reserved"@,
        0xD000 => "Modifier: Change Sensitivity Percent of Range"@,
        _ if 0xD001 <= usage <= 0xD0FF => "Reserved"@,
        _ if 0xD100 <= usage <= 0xD7FF => "Reserved for use as Change Sensitivity Percent modifier range"@,
        _ if 0xD800 <= usage <= 0xDFFF => "Reserved"@,
        0xE000 => "Modifier: Change Sensitivity Percent Relative"@,
        _ if 0xE001 <= usage <= 0xE0FF => "Reserved"@,
        _ if 0xE100 <= usage <= 0xE7FF => "Reserved for use as Change Sensitivity Percent modifier range"@,
        _ if 0xE800 <= usage <= 0xEFFF => "Reserved"@,
        0xF000 => "Modifier: Vendor Reserved"@,
        _ if 0xF001 <= usage <= 0xF0FF => "Reserved"@,
        _ if 0xF100 <= usage <= 0xF7FF => "Reserved for use as Vendor Reserved modifier range"@,
        _ if 0xF800 <= usage <= 0xFFFF => "Reserved"@,
        _ => hex_text(usage),
    }
}

fn get_sensors_usage_name_from_1000(usage: u32) -> (name: String)
    ensures
        name@ == sensors_usage_name_from_1000(usage),
{
    match usage {
        0x1000 => "Modifier: Change Sensitivity Absolute".to_string(),
        _ if 0x1001 <= usage && usage <= 0x10FF => "Reserved".to_string(),
        _ if 0x1100 <= usage && usage <= 0x17FF => "Reserved for use as Change Sensitivity Absolute modifier range".to_string(),
        _ if 0x1800 <= usage && usage <= 0x1FFF => "Reserved".to_string(),
        0x2000 => "Modifier: Maximum".to_string(),
        _ if 0x2001 <= usage && usage <= 0x20FF => "Reserved".to_string(),
        _ if 0x2100 <= usage && usage <= 0x27FF => "Reserved for use as Maximum modifier range".to_string(),
        _ if 0x2800 <= usage && usage <= 0x2FFF => "Reserved".to_string(),
        0x3000 => "Modifier: Minimum".to_string(),
        _ if 0x3001 <= usage && usage <= 0x30FF => "Reserved".to_string(),
        _ if 0x3100 <= usage && usage <= 0x37FF => "Reserved for use as Minimum modifier range".to_string(),
        _ if 0x3800 <= usage && usage <= 0x3FFF => "Reserved".to_string(),
        0x4000 => "Modifier: Accuracy".to_string(),
        _ if 0x4001 <= usage && usage <= 0x40FF => "Reserved".to_string(),
        _ if 0x4100 <= usage && usage <= 0x47FF => "Reserved for use as Accuracy modifier range".to_string(),
        _ if 0x4800 <= usage && usage <= 0x4FFF => "Reserved".to_string(),
        0x5000 => "Modifier: Resolution".to_string(),
        _ if 0x5001 <= usage && usage <= 0x50FF => "Reserved".to_string(),
        _ if 0x5100 <= usage && usage <= 0x57FF => "Reserved for use as Resolution modifier range".to_string(),
        _ if 0x5800 <= usage && usage <= 0x5FFF => "Reserved".to_string(),
        0x6000 => "Modifier: Threshold High".to_string(),
        _ if 0x6001 <= usage && usage <= 0x60FF => "Reserved".to_string(),
        _ if 0x6100 <= usage && usage <= 0x67FF => "Reserved for use as Threshold High modifier range".to_string(),
        _ if 0x6800 <= usage && usage <= 0x6FFF => "Reserved".to_string(),
        0x7000 => "Modifier: Threshold Low".to_string(),
        _ if 0x7001 <= usage && usage <= 0x70FF => "Reserved".to_string(),
        _ if 0x7100 <= usage && usage <= 0x77FF => "Reserved for use as Threshold Low modifier range".to_string(),
        _ if 0x7800 <= usage && usage <= 0x7FFF => "Reserved".to_string(),
        0x8000 => "Modifier: Calibration Offset".to_string(),
        _ if 0x8001 <= usage && usage <= 0x80FF => "Reserved".to_string(),
        _ if 0x8100 <= usage && usage <= 0x87FF => "Reserved for use as Calibration Offset modifier range".to_string(),
        _ if 0x8800 <= usage && usage <= 0x8FFF => "Reserved".to_string(),
        0x9000 => "Modifier: Calibration Multiplier".to_string(),
        _ if 0x9001 <= usage && usage <= 0x90FF => "Reserved".to_string(),
        _ if 0x9100 <= usage && usage <= 0x97FF => "Reserved for use as Calibration Multiplier modifier range".to_string(),
        _ if 0x9800 <= usage && usage <= 0x9FFF => "Reserved".to_string(),
        0xA000 => "Modifier: Report Interval".to_string(),
        _ if 0xA001 <= usage && usage <= 0xA0FF => "Reserved".to_string(),
        _ if 0xA100 <= usage && usage <= 0xA7FF => "Reserved for use as Report Interval modifier range".to_string(),
        _ if 0xA800 <= usage && usage <= 0xAFFF => "Reserved".to_string(),
        0xB000 => "Modifier: Frequency Max".to_string(),
        _ if 0xB001 <= usage && usage <= 0xB0FF => "Reserved".to_string(),
        _ if 0xB100 <= usage && usage <= 0xB7FF => "Reserved for use as Frequency Max modifier range".to_string(),
        _ if 0xB800 <= usage && usage <= 0xBFFF => "Reserved".to_string(),
        0xC000 => "Modifier: Period Max".to_string(),
        _ if 0xC001 <= usage && usage <= 0xC0FF => "Reserved".to_string(),
        _ if 0xC100 <= usage && usage <= 0xC7FF => "Reserved for use as Period Max modifier range".to_string(),
        _ if 0xC800 <= usage && usage <= 0xCFFF => "Reserved".to_string(),
        0xD000 => "Modifier: Change Sensitivity Percent of Range".to_string(),
        _ if 0xD001 <= usage && usage <= 0xD0FF => "Reserved".to_string(),
        _ if 0xD100 <= usage && usage <= 0xD7FF => "Reserved for use as Change Sensitivity Percent modifier range".to_string(),
        _ if 0xD800 <= usage && usage <= 0xDFFF => "Reserved".to_string(),
        0xE000 => "Modifier: Change Sensitivity Percent Relative".to_string(),
        _ if 0xE001 <= usage && usage <= 0xE0FF => "Reserved".to_string(),
        _ if 0xE100 <= usage && usage <= 0xE7FF => "Reserved for use as Change Sensitivity Percent modifier range".to_string(),
        _ if 0xE800 <= usage && usage <= 0xEFFF => "Reserved".to_string(),
        0xF000 => "Modifier: Vendor Reserved".to_string(),
        _ if 0xF001 <= usage && usage <= 0xF0FF => "Reserved".to_string(),
        _ if 0xF100 <= usage && usage <= 0xF7FF => "Reserved for use as Vendor Reserved modifier range".to_string(),
        _ if 0xF800 <= usage && usage <= 0xFFFF => "Reserved".to_string(),
        _ => format_hex(usage),
    }
}

} // verus!
