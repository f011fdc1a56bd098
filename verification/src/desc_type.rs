//! USB descriptor type codes.

use vstd::prelude::*;

verus! {

/// Device descriptor (18 bytes).
pub const DEVICE: u8 = 1;
/// Configuration descriptor (9 bytes plus what follows it).
pub const CONFIGURATION: u8 = 2;
/// String descriptor.
pub const STRING: u8 = 3;
/// Interface descriptor (9 bytes).
pub const INTERFACE: u8 = 4;
/// Endpoint descriptor (7 bytes).
pub const ENDPOINT: u8 = 5;
/// Device Qualifier descriptor (10 bytes).
pub const DEVICE_QUALIFIER: u8 = 6;
/// Interface Association Descriptor.
pub const INTERFACE_ASSOCIATION: u8 = 11;
/// Binary Object Store descriptor.
pub const BOS: u8 = 15;
/// Device Capability descriptor.
pub const DEVICE_CAPABILITY: u8 = 16;
/// SuperSpeed Endpoint Companion descriptor.
pub const SS_EP_COMPANION: u8 = 48;
/// HID descriptor.
pub const HID: u8 = 0x21;
/// HID report descriptor.
pub const HID_REPORT: u8 = 0x22;
/// Hub descriptor.
pub const HUB: u8 = 0x29;
/// SuperSpeed hub descriptor.
pub const SS_HUB: u8 = 0x2a;

} // verus!
