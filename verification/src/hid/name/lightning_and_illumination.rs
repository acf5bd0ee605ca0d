//! Usages of the Lighting And Illumination page (0x59).

use crate::hid::text::{format_hex, hex_text};
use vstd::prelude::*;

verus! {

/// The name of `usage` on the Lighting And Illumination page, or its number where it has none.
pub open spec fn lightning_and_illumination_usage_name(usage: u32) -> Seq<char> {
    match usage {
        0x00 => "Undefined"@,
        0x01 => "LampArray"@,
        0x02 => "LampArrayAttributesReport"@,
        0x03 => "LampCount"@,
        0x04 => "BoundingBoxWidthInMicrometers"@,
        0x05 => "BoundingBoxHeightInMicrometers"@,
        0x06 => "BoundingBoxDepthInMicrometers"@,
        0x07 => "LampArrayKind"@,
        0x08 => "MinUpdateIntervalInMicroseconds"@,
        _ if 0x09 <= usage <= 0x1F => "Reserved"@,
        0x20 => "LampAttributesRequestReport"@,
        0x21 => "LampId"@,
        0x22 => "LampAttributesResponseReport"@,
        0x23 => "PositionXInMicrometers"@,
        0x24 => "PositionYInMicrometers"@,
        0x25 => "PositionZInMicrometers"@,
        0x26 => "LampPurposes"@,
        0x27 => "UpdateLatencyInMicroseconds"@,
        0x28 => "RedLevelCount"@,
        0x29 => "GreenLevelCount"@,
        0x2A => "BlueLevelCount"@,
        0x2B => "IntensityLevelCount"@,
        0x2C => "IsProgrammable"@,
        0x2D => "InputBinding"@,
        _ if 0x2E <= usage <= 0x4F => "Reserved"@,
        0x50 => "LampMultiUpdateReport"@,
        0x51 => "RedUpdateChannel"@,
        0x52 => "GreenUpdateChannel"@,
        0x53 => "BlueUpdateChannel"@,
        0x54 => "IntensityUpdateChannel"@,
        0x55 => "LampUpdateFlags"@,
        _ if 0x56 <= usage <= 0x5F => "Reserved"@,
        0x60 => "LampRangeUpdateReport"@,
        0x61 => "LampIdStart"@,
        0x62 => "LampIdEnd"@,
        _ if 0x63 <= usage <= 0x6F => "Reserved"@,
        0x70 => "LampArrayControlReport"@,
        0x71 => "AutonomousMode"@,
        _ if 0x72 <= usage <= 0xFFFF => "Reserved"@,
        _ => hex_text(usage),
    }
}

/// The name of `usage` on the Lighting And Illumination page, or its number where it has none.
pub fn get_lightning_and_illumination_usage_name(usage: u32) -> (name: String)
    ensures
        name@ == lightning_and_illumination_usage_name(usage),
{
    match usage {
        0x00 => "Undefined".to_string(),
        0x01 => "LampArray".to_string(),
        0x02 => "LampArrayAttributesReport".to_string(),
        0x03 => "LampCount".to_string(),
        0x04 => "BoundingBoxWidthInMicrometers".to_string(),
        0x05 => "BoundingBoxHeightInMicrometers".to_string(),
        0x06 => "BoundingBoxDepthInMicrometers".to_string(),
        0x07 => "LampArrayKind".to_string(),
        0x08 => "MinUpdateIntervalInMicroseconds".to_string(),
        _ if 0x09 <= usage && usage <= 0x1F => "Reserved".to_string(),
        0x20 => "LampAttributesRequestReport".to_string(),
        0x21 => "LampId".to_string(),
        0x22 => "LampAttributesResponseReport".to_string(),
        0x23 => "PositionXInMicrometers".to_string(),
        0x24 => "PositionYInMicrometers".to_string(),
        0x25 => "PositionZInMicrometers".to_string(),
        0x26 => "LampPurposes".to_string(),
        0x27 => "UpdateLatencyInMicroseconds".to_string(),
        0x28 => "RedLevelCount".to_string(),
        0x29 => "GreenLevelCount".to_string(),
        0x2A => "BlueLevelCount".to_string(),
        0x2B => "IntensityLevelCount".to_string(),
        0x2C => "IsProgrammable".to_string(),
        0x2D => "InputBinding".to_string(),
        _ if 0x2E <= usage && usage <= 0x4F => "Reserved".to_string(),
        0x50 => "LampMultiUpdateReport".to_string(),
        0x51 => "RedUpdateChannel".to_string(),
        0x52 => "GreenUpdateChannel".to_string(),
        0x53 => "BlueUpdateChannel".to_string(),
        0x54 => "IntensityUpdateChannel".to_string(),
        0x55 => "LampUpdateFlags".to_string(),
        _ if 0x56 <= usage && usage <= 0x5F => "Reserved".to_string(),
        0x60 => "LampRangeUpdateReport".to_string(),
        0x61 => "LampIdStart".to_string(),
        0x62 => "LampIdEnd".to_string(),
        _ if 0x63 <= usage && usage <= 0x6F => "Reserved".to_string(),
        0x70 => "LampArrayControlReport".to_string(),
        0x71 => "AutonomousMode".to_string(),
        _ if 0x72 <= usage && usage <= 0xFFFF => "Reserved".to_string(),
        _ => format_hex(usage),
    }
}

} // verus!
