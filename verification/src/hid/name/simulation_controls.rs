//! Usages of the Simulation Controls page (0x02).

use crate::hid::text::{format_hex, hex_text};
use vstd::prelude::*;

verus! {

/// The name of `usage` on the Simulation Controls page, or its number where it has none.
pub open spec fn simulation_controls_usage_name(usage: u32) -> Seq<char> {
    match usage {
        0x00 => "Undefined"@,
        0x01 => "Flight Simulation Device"@,
        0x02 => "Automobile Simulation Device"@,
        0x03 => "Tank Simulation Device"@,
        0x04 => "Spaceship Simulation Device"@,
        0x05 => "Submarine Simulation Device"@,
        0x06 => "Sailing Simulation Device"@,
        0x07 => "Motorcycle Simulation Device"@,
        0x08 => "Sports Simulation Device"@,
        0x09 => "Airplane Simulation Device"@,
        0x0A => "Helicopter Simulation Device"@,
        0x0B => "Magic Carpet Simulation Device"@,
        0x0C => "Bicycle Simulation Device"@,
        _ if 0x0D <= usage <= 0x1F => "Reserved"@,
        0x20 => "Flight Control Stick"@,
        0x21 => "Flight Stick"@,
        0x22 => "Cyclic Control"@,
        0x23 => "Cyclic Trim"@,
        0x24 => "Flight Yoke"@,
        0x25 => "Track Control"@,
        _ if 0x26 <= usage <= 0xAF => "Reserved"@,
        0xB0 => "Aileron"@,
        0xB1 => "Aileron Trim"@,
        0xB2 => "Anti-Torque Control"@,
        0xB3 => "Autopilot Enable"@,
        0xB4 => "Chaff Release"@,
        0xB5 => "Collective Control"@,
        0xB6 => "Dive Brake"@,
        0xB7 => "Electronic Countermeasures"@,
        0xB8 => "Elevator"@,
        0xB9 => "Elevator Trim"@,
        0xBA => "Rudder"@,
        0xBB => "Throttle"@,
        0xBC => "Flight Communications"@,
        0xBD => "Flare Release"@,
        0xBE => "Landing Gear"@,
        0xBF => "Toe Brake"@,
        0xC0 => "Trigger"@,
        0xC1 => "Weapons Arm"@,
        0xC2 => "Weapons Select"@,
        0xC3 => "Wing Flaps"@,
        0xC4 => "Accelerator"@,
        0xC5 => "Brake"@,
        0xC6 => "Clutch"@,
        0xC7 => "Shifter"@,
        0xC8 => "Steering"@,
        0xC9 => "Turret Direction"@,
        0xCA => "Barrel Elevation"@,
        0xCB => "Dive Plane"@,
        0xCC => "Ballast"@,
        0xCD => "Bicycle Crank"@,
        0xCE => "Handle Bars"@,
        0xCF => "Front Brake"@,
        0xD0 => "Rear Brake"@,
        _ if 0xD1 <= usage <= 0xFFFF => "Reserved"@,
        _ => hex_text(usage),
    }
}

/// The name of `usage` on the Simulation Controls page, or its number where it has none.
pub fn get_simulation_controls_usage_name(usage: u32) -> (name: String)
    ensures
        name@ == simulation_controls_usage_name(usage),
{
    match usage {
        0x00 => "Undefined".to_string(),
        0x01 => "Flight Simulation Device".to_string(),
        0x02 => "Automobile Simulation Device".to_string(),
        0x03 => "Tank Simulation Device".to_string(),
        0x04 => "Spaceship Simulation Device".to_string(),
        0x05 => "Submarine Simulation Device".to_string(),
        0x06 => "Sailing Simulation Device".to_string(),
        0x07 => "Motorcycle Simulation Device".to_string(),
        0x08 => "Sports Simulation Device".to_string(),
        0x09 => "Airplane Simulation Device".to_string(),
        0x0A => "Helicopter Simulation Device".to_string(),
        0x0B => "Magic Carpet Simulation Device".to_string(),
        0x0C => "Bicycle Simulation Device".to_string(),
        _ if 0x0D <= usage && usage <= 0x1F => "Reserved".to_string(),
        0x20 => "Flight Control Stick".to_string(),
        0x21 => "Flight Stick".to_string(),
        0x22 => "Cyclic Control".to_string(),
        0x23 => "Cyclic Trim".to_string(),
        0x24 => "Flight Yoke".to_string(),
        0x25 => "Track Control".to_string(),
        _ if 0x26 <= usage && usage <= 0xAF => "Reserved".to_string(),
        0xB0 => "Aileron".to_string(),
        0xB1 => "Aileron Trim".to_string(),
        0xB2 => "Anti-Torque Control".to_string(),
        0xB3 => "Autopilot Enable".to_string(),
        0xB4 => "Chaff Release".to_string(),
        0xB5 => "Collective Control".to_string(),
        0xB6 => "Dive Brake".to_string(),
        0xB7 => "Electronic Countermeasures".to_string(),
        0xB8 => "Elevator".to_string(),
        0xB9 => "Elevator Trim".to_string(),
        0xBA => "Rudder".to_string(),
        0xBB => "Throttle".to_string(),
        0xBC => "Flight Communications".to_string(),
        0xBD => "Flare Release".to_string(),
        0xBE => "Landing Gear".to_string(),
        0xBF => "Toe Brake".to_string(),
        0xC0 => "Trigger".to_string(),
        0xC1 => "Weapons Arm".to_string(),
        0xC2 => "Weapons Select".to_string(),
        0xC3 => "Wing Flaps".to_string(),
        0xC4 => "Accelerator".to_string(),
        0xC5 => "Brake".to_string(),
        0xC6 => "Clutch".to_string(),
        0xC7 => "Shifter".to_string(),
        0xC8 => "Steering".to_string(),
        0xC9 => "Turret Direction".to_string(),
        0xCA => "Barrel Elevation".to_string(),
        0xCB => "Dive Plane".to_string(),
        0xCC => "Ballast".to_string(),
        0xCD => "Bicycle Crank".to_string(),
        0xCE => "Handle Bars".to_string(),
        0xCF => "Front Brake".to_string(),
        0xD0 => "Rear Brake".to_string(),
        _ if 0xD1 <= usage && usage <= 0xFFFF => "Reserved".to_string(),
        _ => format_hex(usage),
    }
}

} // verus!
