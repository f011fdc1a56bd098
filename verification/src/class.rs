//! USB class codes.

use vstd::prelude::*;

verus! {

/// Class given at the interface level.
pub const INTERFACE_SPECIFIC: u8 = 0x00;
/// Audio class.
pub const AUDIO: u8 = 0x01;
/// Communications and CDC control.
pub const CDC: u8 = 0x02;
/// Human Interface Device.
pub const HID: u8 = 0x03;
/// Still Image class.
pub const IMAGE: u8 = 0x06;
/// Printer class.
pub const PRINTER: u8 = 0x07;
/// Mass Storage class.
pub const MASS_STORAGE: u8 = 0x08;
/// Hub class.
pub const HUB: u8 = 0x09;
/// CDC-Data class.
pub const CDC_DATA: u8 = 0x0a;
/// Video class.
pub const VIDEO: u8 = 0x0e;
/// Vendor specific class.
pub const VENDOR_SPECIFIC: u8 = 0xff;

} // verus!
