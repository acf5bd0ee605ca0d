//! The names of usage pages and of usages, as the HID usage tables give
//! them. What has no name there is shown by its number.

pub mod arcade;
pub mod auxiliary_display;
pub mod bar_code_scanner;
pub mod braille_display;
pub mod button;
pub mod camera_control;
pub mod consumer;
pub mod digitizers;
pub mod eye_and_head_trackers;
pub mod fido_alliance;
pub mod game_controls;
pub mod gaming_device;
pub mod generic_desktop;
pub mod generic_device_controls;
pub mod haptics;
pub mod keyboard_keypad;
pub mod led;
pub mod lightning_and_illumination;
pub mod magnetic_stripe_reading_devices;
pub mod medical_instrument;
pub mod monitor;
pub mod ordinal;
pub mod physical_interface_device;
pub mod point_of_sale;
pub mod power;
pub mod scale;
pub mod sensors;
pub mod simulation_controls;
pub mod sport_controls;
pub mod telephony;
pub mod unicode;
pub mod vendor_defined;
pub mod vr_controls;

use crate::hid::name::arcade::{get_arcade_usage_name, arcade_usage_name};
use crate::hid::name::auxiliary_display::{get_auxiliary_display_usage_name, auxiliary_display_usage_name};
use crate::hid::name::bar_code_scanner::{get_bar_code_scanner_usage_name, bar_code_scanner_usage_name};
use crate::hid::name::braille_display::{get_braille_display_usage_name, braille_display_usage_name};
use crate::hid::name::button::{get_button_usage_name, button_usage_name};
use crate::hid::name::camera_control::{get_camera_control_usage_name, camera_control_usage_name};
use crate::hid::name::consumer::{get_consumer_usage_name, consumer_usage_name};
use crate::hid::name::digitizers::{get_digitizers_usage_name, digitizers_usage_name};
use crate::hid::name::eye_and_head_trackers::{get_eye_and_head_trackers_usage_name, eye_and_head_trackers_usage_name};
use crate::hid::name::fido_alliance::{get_fido_alliance_usage_name, fido_alliance_usage_name};
use crate::hid::name::game_controls::{get_game_controls_usage_name, game_controls_usage_name};
use crate::hid::name::gaming_device::{get_gaming_device_usage_name, gaming_device_usage_name};
use crate::hid::name::generic_desktop::{get_generic_desktop_usage_name, generic_desktop_usage_name};
use crate::hid::name::generic_device_controls::{get_generic_device_controls_usage_name, generic_device_controls_usage_name};
use crate::hid::name::haptics::{get_haptics_usage_name, haptics_usage_name};
use crate::hid::name::keyboard_keypad::{get_keyboard_keypad_usage_name, keyboard_keypad_usage_name};
use crate::hid::name::led::{get_led_usage_name, led_usage_name};
use crate::hid::name::lightning_and_illumination::{get_lightning_and_illumination_usage_name, lightning_and_illumination_usage_name};
use crate::hid::name::magnetic_stripe_reading_devices::{get_magnetic_stripe_reading_devices_usage_name, magnetic_stripe_reading_devices_usage_name};
use crate::hid::name::medical_instrument::{get_medical_instrument_usage_name, medical_instrument_usage_name};
use crate::hid::name::monitor::{get_monitor_usage_name, monitor_usage_name};
use crate::hid::name::ordinal::{get_ordinal_usage_name, ordinal_usage_name};
use crate::hid::name::physical_interface_device::{get_physical_interface_device_usage_name, physical_interface_device_usage_name};
use crate::hid::name::point_of_sale::{get_point_of_sale_usage_name, point_of_sale_usage_name};
use crate::hid::name::power::{get_power_usage_name, power_usage_name};
use crate::hid::name::scale::{get_scale_usage_name, scale_usage_name};
use crate::hid::name::sensors::{get_sensors_usage_name, sensors_usage_name};
use crate::hid::name::simulation_controls::{get_simulation_controls_usage_name, simulation_controls_usage_name};
use crate::hid::name::sport_controls::{get_sport_controls_usage_name, sport_controls_usage_name};
use crate::hid::name::telephony::{get_telephony_usage_name, telephony_usage_name};
use crate::hid::name::unicode::{get_unicode_usage_name, unicode_usage_name};
use crate::hid::name::vendor_defined::{get_vendor_defined_usage_name, vendor_defined_usage_name};
use crate::hid::name::vr_controls::{get_vr_controls_usage_name, vr_controls_usage_name};
use crate::hid::text::{format_hex, hex_text};
use vstd::prelude::*;

verus! {

/// The name of the usage page `usage_page`. A vendor-defined page is
/// shown as such with its number, any other page without a name by its
/// number alone.
pub open spec fn usage_page_name(usage_page: u32) -> Seq<char> {
    match usage_page {
        0x01 => "Generic Desktop Page"@,
        0x02 => "Simulation Controls Page"@,
        0x03 => "VR Controls Page"@,
        0x04 => "Sport Controls Page"@,
        0x05 => "Game Controls Page"@,
        0x06 => "Generic Device Controls Page"@,
        0x07 => "Keyboard/Keypad Page"@,
        0x08 => "LED Page"@,
        0x09 => "Button Page"@,
        0x0A => "Ordinal Page"@,
        0x0B => "Telephony Page"@,
        0x0C => "Consumer Page"@,
        0x0D => "Digitizers Page"@,
        0x0E => "Haptics Page"@,
        0x0F => "Physical Interface Device Page"@,
        0x10 => "Unicode Page"@,
        0x12 => "Eye and Head Trackers Page"@,
        0x14 => "Auxiliary Display Page"@,
        0x20 => "Sensors Page"@,
        0x40 => "Medical Instrument Page"@,
        0x41 => "Braille Display Page"@,
        0x59 => "Lighting And Illumination Page"@,
        _ if 0x80 <= usage_page <= 0x83 => "Monitor Pages"@,
        _ if 0x84 <= usage_page <= 0x87 => "Power Pages"@,
        0x8C => "Bar Code Scanner Page"@,
        0x8D => "Scale Page"@,
        0x8E => "Magnetic Stripe Reading (MSR) Devices Page"@,
        0x8F => "Point of Sale Pages"@,
        0x90 => "Camera Control Page"@,
        0x91 => "Arcade Page"@,
        0x92 => "Gaming Device Page"@,
        0xF1D0 => "FIDO Alliance Page"@,
        _ if 0xFF00 <= usage_page <= 0xFFFF => "Vendor-defined "@ + hex_text(usage_page),
        _ => hex_text(usage_page),
    }
}

/// The name of the usage page `usage_page`.
pub fn get_usage_page_name(usage_page: u32) -> (name: String)
    ensures
        name@ == usage_page_name(usage_page),
{
    match usage_page {
        0x01 => "Generic Desktop Page".to_string(),
        0x02 => "Simulation Controls Page".to_string(),
        0x03 => "VR Controls Page".to_string(),
        0x04 => "Sport Controls Page".to_string(),
        0x05 => "Game Controls Page".to_string(),
        0x06 => "Generic Device Controls Page".to_string(),
        0x07 => "Keyboard/Keypad Page".to_string(),
        0x08 => "LED Page".to_string(),
        0x09 => "Button Page".to_string(),
        0x0A => "Ordinal Page".to_string(),
        0x0B => "Telephony Page".to_string(),
        0x0C => "Consumer Page".to_string(),
        0x0D => "Digitizers Page".to_string(),
        0x0E => "Haptics Page".to_string(),
        0x0F => "Physical Interface Device Page".to_string(),
        0x10 => "Unicode Page".to_string(),
        0x12 => "Eye and Head Trackers Page".to_string(),
        0x14 => "Auxiliary Display Page".to_string(),
        0x20 => "Sensors Page".to_string(),
        0x40 => "Medical Instrument Page".to_string(),
        0x41 => "Braille Display Page".to_string(),
        0x59 => "Lighting And Illumination Page".to_string(),
        _ if 0x80 <= usage_page && usage_page <= 0x83 => "Monitor Pages".to_string(),
        _ if 0x84 <= usage_page && usage_page <= 0x87 => "Power Pages".to_string(),
        0x8C => "Bar Code Scanner Page".to_string(),
        0x8D => "Scale Page".to_string(),
        0x8E => "Magnetic Stripe Reading (MSR) Devices Page".to_string(),
        0x8F => "Point of Sale Pages".to_string(),
        0x90 => "Camera Control Page".to_string(),
        0x91 => "Arcade Page".to_string(),
        0x92 => "Gaming Device Page".to_string(),
        0xF1D0 => "FIDO Alliance Page".to_string(),
        _ if 0xFF00 <= usage_page && usage_page <= 0xFFFF => {
            let mut name = String::from_str("Vendor-defined ");
            let number = format_hex(usage_page);
            name.append(number.as_str());
            name
        },
        _ => format_hex(usage_page),
    }
}

/// The name of `usage` on the usage page `usage_page`. Where no usage
/// page is in effect, or the page has no table, or the table has no
/// name for the usage, the usage is shown by its number.
pub open spec fn usage_name(usage_page: Option<u32>, usage: u32) -> Seq<char> {
    match usage_page {
        Some(page) => match page {
            0x01 => generic_desktop_usage_name(usage),
            0x02 => simulation_controls_usage_name(usage),
            0x03 => vr_controls_usage_name(usage),
            0x04 => sport_controls_usage_name(usage),
            0x05 => game_controls_usage_name(usage),
            0x06 => generic_device_controls_usage_name(usage),
            0x07 => keyboard_keypad_usage_name(usage),
            0x08 => led_usage_name(usage),
            0x09 => button_usage_name(usage),
            0x0A => ordinal_usage_name(usage),
            0x0B => telephony_usage_name(usage),
            0x0C => consumer_usage_name(usage),
            0x0D => digitizers_usage_name(usage),
            0x0E => haptics_usage_name(usage),
            0x0F => physical_interface_device_usage_name(usage),
            0x10 => unicode_usage_name(usage),
            0x12 => eye_and_head_trackers_usage_name(usage),
            0x14 => auxiliary_display_usage_name(usage),
            0x20 => sensors_usage_name(usage),
            0x40 => medical_instrument_usage_name(usage),
            0x41 => braille_display_usage_name(usage),
            0x59 => lightning_and_illumination_usage_name(usage),
            _ if 0x80 <= page <= 0x83 => monitor_usage_name(page, usage),
            _ if 0x84 <= page <= 0x87 => power_usage_name(page, usage),
            0x8C => bar_code_scanner_usage_name(usage),
            0x8D => scale_usage_name(usage),
            0x8E => magnetic_stripe_reading_devices_usage_name(usage),
            0x8F => point_of_sale_usage_name(usage),
            0x90 => camera_control_usage_name(usage),
            0x91 => arcade_usage_name(usage),
            0x92 => gaming_device_usage_name(usage),
            0xF1D0 => fido_alliance_usage_name(usage),
            _ if 0xFF00 <= page <= 0xFFFF => vendor_defined_usage_name(page, usage),
            _ => hex_text(usage),
        },
        None => hex_text(usage),
    }
}

/// The name of `usage` on the usage page `usage_page`.
pub fn get_usage_name(usage_page: Option<u32>, usage: u32) -> (name: String)
    ensures
        name@ == usage_name(usage_page, usage),
        usage_page is None ==> name@ == hex_text(usage),
{
    match usage_page {
        Some(page) => match page {
            0x01 => get_generic_desktop_usage_name(usage),
            0x02 => get_simulation_controls_usage_name(usage),
            0x03 => get_vr_controls_usage_name(usage),
            0x04 => get_sport_controls_usage_name(usage),
            0x05 => get_game_controls_usage_name(usage),
            0x06 => get_generic_device_controls_usage_name(usage),
            0x07 => get_keyboard_keypad_usage_name(usage),
            0x08 => get_led_usage_name(usage),
            0x09 => get_button_usage_name(usage),
            0x0A => get_ordinal_usage_name(usage),
            0x0B => get_telephony_usage_name(usage),
            0x0C => get_consumer_usage_name(usage),
            0x0D => get_digitizers_usage_name(usage),
            0x0E => get_haptics_usage_name(usage),
            0x0F => get_physical_interface_device_usage_name(usage),
            0x10 => get_unicode_usage_name(usage),
            0x12 => get_eye_and_head_trackers_usage_name(usage),
            0x14 => get_auxiliary_display_usage_name(usage),
            0x20 => get_sensors_usage_name(usage),
            0x40 => get_medical_instrument_usage_name(usage),
            0x41 => get_braille_display_usage_name(usage),
            0x59 => get_lightning_and_illumination_usage_name(usage),
            _ if 0x80 <= page && page <= 0x83 => get_monitor_usage_name(page, usage),
            _ if 0x84 <= page && page <= 0x87 => get_power_usage_name(page, usage),
            0x8C => get_bar_code_scanner_usage_name(usage),
            0x8D => get_scale_usage_name(usage),
            0x8E => get_magnetic_stripe_reading_devices_usage_name(usage),
            0x8F => get_point_of_sale_usage_name(usage),
            0x90 => get_camera_control_usage_name(usage),
            0x91 => get_arcade_usage_name(usage),
            0x92 => get_gaming_device_usage_name(usage),
            0xF1D0 => get_fido_alliance_usage_name(usage),
            _ if 0xFF00 <= page && page <= 0xFFFF => get_vendor_defined_usage_name(page, usage),
            _ => format_hex(usage),
        },
        None => format_hex(usage),
    }
}

} // verus!
