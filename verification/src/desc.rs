//! USB descriptor types, their byte-level parsers, and the Setup packet.
//!
//! Descriptors arrive from the device as little-endian byte strings; each
//! parser here states field by field which bytes it reads. The Setup packet
//! is the 8-byte request header of every control transfer, with builders for
//! the standard, HID, hub and mass-storage requests.

use vstd::prelude::*;

verus! {

/// The 16-bit little-endian value at positions `i`, `i + 1` of a byte string.
pub open spec fn spec_le16(s: Seq<u8>, i: int) -> u16 {
    (s[i] + 256 * s[i + 1]) as u16
}

/// Combines two bytes into the 16-bit value they encode little-endian.
pub fn le16(lo: u8, hi: u8) -> (r: u16)
    ensures
        r == lo + 256 * hi,
{
    lo as u16 + 256 * (hi as u16)
}

/// Bounds of the mask-and-shift fields the descriptor accessors read.
proof fn lemma_desc_bit_bounds()
    by (bit_vector)
    ensures
        forall|x: u16| #[trigger] (x >> 8) < 256,
        forall|x: u16| #[trigger] (x & 0xff) < 256,
        forall|x: u16| #[trigger] (x & 0x3) < 256,
        forall|x: u16, s: u16| s < 16 ==> #[trigger] ((x >> s) & 0x3) < 256,
{
}

/// USB device descriptor (18 bytes).
#[derive(Clone, Copy, Debug, PartialEq, Eq, Structural)]
pub struct DeviceDesc {
    /// Descriptor length (18).
    pub length: u8,
    /// Descriptor type (1 for device).
    pub desc_type: u8,
    /// USB specification version, binary-coded decimal.
    pub bcd_usb: u16,
    /// Device class code.
    pub device_class: u8,
    /// Device subclass code.
    pub device_subclass: u8,
    /// Device protocol code.
    pub device_protocol: u8,
    /// Maximum packet size for endpoint 0.
    pub max_packet_size0: u8,
    /// Vendor ID.
    pub vendor_id: u16,
    /// Product ID.
    pub product_id: u16,
    /// Device release number, binary-coded decimal.
    pub bcd_device: u16,
    /// Manufacturer string index.
    pub manufacturer: u8,
    /// Product string index.
    pub product: u8,
    /// Serial number string index.
    pub serial_number: u8,
    /// Number of configurations.
    pub num_configurations: u8,
}

impl DeviceDesc {
    /// The USB version as a (major, minor) pair of the two BCD bytes.
    pub fn usb_version(&self) -> (r: (u8, u8))
        ensures
            r.0 == self.bcd_usb >> 8,
            r.1 == self.bcd_usb & 0xff,
    {
        proof {
            lemma_desc_bit_bounds();
        }
        ((self.bcd_usb >> 8) as u8, (self.bcd_usb & 0xff) as u8)
    }

    /// The device version as a (major, minor) pair of the two BCD bytes.
    pub fn device_version(&self) -> (r: (u8, u8))
        ensures
            r.0 == self.bcd_device >> 8,
            r.1 == self.bcd_device & 0xff,
    {
        proof {
            lemma_desc_bit_bounds();
        }
        ((self.bcd_device >> 8) as u8, (self.bcd_device & 0xff) as u8)
    }
}

/// Parses a device descriptor from its 18-byte little-endian form.
pub fn parse_device_desc(b: &[u8]) -> (r: Option<DeviceDesc>)
    ensures
        (r is Some) <==> b@.len() >= 18,
        r is Some ==> r->0 == (DeviceDesc {
            length: b@[0],
            desc_type: b@[1],
            bcd_usb: spec_le16(b@, 2),
            device_class: b@[4],
            device_subclass: b@[5],
            device_protocol: b@[6],
            max_packet_size0: b@[7],
            vendor_id: spec_le16(b@, 8),
            product_id: spec_le16(b@, 10),
            bcd_device: spec_le16(b@, 12),
            manufacturer: b@[14],
            product: b@[15],
            serial_number: b@[16],
            num_configurations: b@[17],
        }),
{
    if b.len() < 18 {
        return None;
    }
    Some(
        DeviceDesc {
            length: b[0],
            desc_type: b[1],
            bcd_usb: le16(b[2], b[3]),
            device_class: b[4],
            device_subclass: b[5],
            device_protocol: b[6],
            max_packet_size0: b[7],
            vendor_id: le16(b[8], b[9]),
            product_id: le16(b[10], b[11]),
            bcd_device: le16(b[12], b[13]),
            manufacturer: b[14],
            product: b[15],
            serial_number: b[16],
            num_configurations: b[17],
        },
    )
}

/// USB configuration descriptor (9 bytes).
#[derive(Clone, Copy, Debug, PartialEq, Eq, Structural)]
pub struct ConfigDesc {
    /// Descriptor length (9).
    pub length: u8,
    /// Descriptor type (2 for configuration).
    pub desc_type: u8,
    /// Total length of the configuration data, all descriptors included.
    pub total_length: u16,
    /// Number of interfaces.
    pub num_interfaces: u8,
    /// Configuration value for SET_CONFIGURATION.
    pub config_value: u8,
    /// Configuration string index.
    pub configuration: u8,
    /// Attributes: bit 6 self-powered, bit 5 remote wakeup.
    pub attributes: u8,
    /// Maximum power in 2 mA units.
    pub max_power: u8,
}

impl ConfigDesc {
    /// Whether the device is self-powered in this configuration.
    pub fn self_powered(&self) -> (r: bool)
        ensures
            r == (self.attributes & 0x40 != 0),
    {
        self.attributes & 0x40 != 0
    }

    /// Whether remote wakeup is supported in this configuration.
    pub fn remote_wakeup(&self) -> (r: bool)
        ensures
            r == (self.attributes & 0x20 != 0),
    {
        self.attributes & 0x20 != 0
    }

    /// The maximum power draw in milliamps (2 mA units).
    pub fn max_power_ma(&self) -> (r: u16)
        ensures
            r == self.max_power * 2,
    {
        self.max_power as u16 * 2
    }
}

/// Parses a configuration descriptor from its 9-byte little-endian form.
pub fn parse_config_desc(b: &[u8]) -> (r: Option<ConfigDesc>)
    ensures
        (r is Some) <==> b@.len() >= 9,
        r is Some ==> r->0 == (ConfigDesc {
            length: b@[0],
            desc_type: b@[1],
            total_length: spec_le16(b@, 2),
            num_interfaces: b@[4],
            config_value: b@[5],
            configuration: b@[6],
            attributes: b@[7],
            max_power: b@[8],
        }),
{
    if b.len() < 9 {
        return None;
    }
    Some(
        ConfigDesc {
            length: b[0],
            desc_type: b[1],
            total_length: le16(b[2], b[3]),
            num_interfaces: b[4],
            config_value: b[5],
            configuration: b[6],
            attributes: b[7],
            max_power: b[8],
        },
    )
}

/// USB interface descriptor (9 bytes).
#[derive(Clone, Copy, Debug, PartialEq, Eq, Structural)]
pub struct InterfaceDesc {
    /// Descriptor length (9).
    pub length: u8,
    /// Descriptor type (4 for interface).
    pub desc_type: u8,
    /// Interface number.
    pub interface_number: u8,
    /// Alternate setting number.
    pub alternate_setting: u8,
    /// Number of endpoints, endpoint 0 excluded.
    pub num_endpoints: u8,
    /// Interface class code.
    pub interface_class: u8,
    /// Interface subclass code.
    pub interface_subclass: u8,
    /// Interface protocol code.
    pub interface_protocol: u8,
    /// Interface string index.
    pub interface: u8,
}

/// Parses an interface descriptor from its 9-byte form.
pub fn parse_interface_desc(b: &[u8]) -> (r: Option<InterfaceDesc>)
    ensures
        (r is Some) <==> b@.len() >= 9,
        r is Some ==> r->0 == (InterfaceDesc {
            length: b@[0],
            desc_type: b@[1],
            interface_number: b@[2],
            alternate_setting: b@[3],
            num_endpoints: b@[4],
            interface_class: b@[5],
            interface_subclass: b@[6],
            interface_protocol: b@[7],
            interface: b@[8],
        }),
{
    if b.len() < 9 {
        return None;
    }
    Some(
        InterfaceDesc {
            length: b[0],
            desc_type: b[1],
            interface_number: b[2],
            alternate_setting: b[3],
            num_endpoints: b[4],
            interface_class: b[5],
            interface_subclass: b[6],
            interface_protocol: b[7],
            interface: b[8],
        },
    )
}

/// USB endpoint descriptor (7 bytes).
#[derive(Clone, Copy, Debug, PartialEq, Eq, Structural)]
pub struct EndpointDesc {
    /// Descriptor length (7).
    pub length: u8,
    /// Descriptor type (5 for endpoint).
    pub desc_type: u8,
    /// Endpoint address: bit 7 direction, bits 3:0 endpoint number.
    pub endpoint_address: u8,
    /// Attributes: transfer type, sync type, usage type.
    pub attributes: u8,
    /// Bits 10:0 max packet size, bits 12:11 additional transactions.
    pub max_packet_size: u16,
    /// Polling interval.
    pub interval: u8,
}

impl EndpointDesc {
    /// The endpoint number (0 to 15).
    pub fn number(&self) -> (r: u8)
        ensures
            r == self.endpoint_address & 0x0f,
            r <= 15,
    {
        proof {
            let a = self.endpoint_address;
            assert((a & 0x0f) <= 15) by (bit_vector);
        }
        self.endpoint_address & 0x0f
    }

    /// Whether this is an IN endpoint (address bit 7 set).
    pub fn is_in(&self) -> (r: bool)
        ensures
            r == (self.endpoint_address & 0x80 != 0),
    {
        self.endpoint_address & 0x80 != 0
    }

    /// Whether this is an OUT endpoint (address bit 7 clear).
    pub fn is_out(&self) -> (r: bool)
        ensures
            r == (self.endpoint_address & 0x80 == 0),
    {
        self.endpoint_address & 0x80 == 0
    }

    /// The transfer type: attribute bits 1:0.
    pub fn transfer_type(&self) -> (r: u8)
        ensures
            r == self.attributes & 0x03,
    {
        self.attributes & 0x03
    }

    /// The synchronisation type (isochronous endpoints): attribute bits 3:2.
    pub fn sync_type(&self) -> (r: u8)
        ensures
            r == (self.attributes >> 2) & 0x03,
    {
        (self.attributes >> 2) & 0x03
    }

    /// The usage type (isochronous endpoints): attribute bits 5:4.
    pub fn usage_type(&self) -> (r: u8)
        ensures
            r == (self.attributes >> 4) & 0x03,
    {
        (self.attributes >> 4) & 0x03
    }

    /// The max packet size without the additional-transaction bits.
    pub fn packet_size(&self) -> (r: u16)
        ensures
            r == self.max_packet_size & 0x7ff,
    {
        self.max_packet_size & 0x7ff
    }

    /// The additional transactions per microframe (High Speed): bits 12:11.
    pub fn additional_transactions(&self) -> (r: u8)
        ensures
            r == (self.max_packet_size >> 11) & 0x03,
    {
        proof {
            lemma_desc_bit_bounds();
        }
        ((self.max_packet_size >> 11) & 0x03) as u8
    }
}

/// Parses an endpoint descriptor from its 7-byte little-endian form.
pub fn parse_endpoint_desc(b: &[u8]) -> (r: Option<EndpointDesc>)
    ensures
        (r is Some) <==> b@.len() >= 7,
        r is Some ==> r->0 == (EndpointDesc {
            length: b@[0],
            desc_type: b@[1],
            endpoint_address: b@[2],
            attributes: b@[3],
            max_packet_size: spec_le16(b@, 4),
            interval: b@[6],
        }),
{
    if b.len() < 7 {
        return None;
    }
    Some(
        EndpointDesc {
            length: b[0],
            desc_type: b[1],
            endpoint_address: b[2],
            attributes: b[3],
            max_packet_size: le16(b[4], b[5]),
            interval: b[6],
        },
    )
}

/// USB Device Qualifier descriptor (10 bytes): the device's capabilities at
/// its other operating speed.
#[derive(Clone, Copy, Debug, PartialEq, Eq, Structural)]
pub struct DeviceQualifierDesc {
    /// Descriptor length (10).
    pub length: u8,
    /// Descriptor type (6).
    pub desc_type: u8,
    /// USB specification version, binary-coded decimal.
    pub bcd_usb: u16,
    /// Device class code.
    pub device_class: u8,
    /// Device subclass code.
    pub device_subclass: u8,
    /// Device protocol code.
    pub device_protocol: u8,
    /// Maximum packet size for endpoint 0.
    pub max_packet_size0: u8,
    /// Number of configurations.
    pub num_configurations: u8,
    /// Reserved byte.
    pub reserved: u8,
}

/// Interface Association Descriptor (8 bytes): groups interfaces that form
/// one function.
#[derive(Clone, Copy, Debug, PartialEq, Eq, Structural)]
pub struct InterfaceAssocDesc {
    /// Descriptor length (8).
    pub length: u8,
    /// Descriptor type (11).
    pub desc_type: u8,
    /// First interface number.
    pub first_interface: u8,
    /// Number of contiguous interfaces.
    pub interface_count: u8,
    /// Function class code.
    pub function_class: u8,
    /// Function subclass code.
    pub function_subclass: u8,
    /// Function protocol code.
    pub function_protocol: u8,
    /// Function string index.
    pub function: u8,
}

/// Binary Object Store descriptor header (5 bytes).
#[derive(Clone, Copy, Debug, PartialEq, Eq, Structural)]
pub struct BosDesc {
    /// Descriptor length (5).
    pub length: u8,
    /// Descriptor type (15).
    pub desc_type: u8,
    /// Total length of the BOS block with all capability descriptors.
    pub total_length: u16,
    /// Number of device capability descriptors.
    pub num_device_caps: u8,
}

/// USB 2.0 Extension capability descriptor (7 bytes).
#[derive(Clone, Copy, Debug, PartialEq, Eq, Structural)]
pub struct Usb20ExtCapDesc {
    /// Descriptor length (7).
    pub length: u8,
    /// Descriptor type (16).
    pub desc_type: u8,
    /// Capability type (2).
    pub dev_capability_type: u8,
    /// Supported features: bit 1 is Link Power Management.
    pub bm_attributes: u32,
}

impl Usb20ExtCapDesc {
    /// Whether Link Power Management is supported.
    pub fn lpm_supported(&self) -> (r: bool)
        ensures
            r == (self.bm_attributes & 0x02 != 0),
    {
        self.bm_attributes & 0x02 != 0
    }
}

/// SuperSpeed USB Device Capability descriptor (10 bytes).
#[derive(Clone, Copy, Debug, PartialEq, Eq, Structural)]
pub struct SsDevCapDesc {
    /// Descriptor length (10).
    pub length: u8,
    /// Descriptor type (16).
    pub desc_type: u8,
    /// Capability type (3).
    pub dev_capability_type: u8,
    /// Supported features: bit 1 is Latency Tolerance Messaging.
    pub bm_attributes: u8,
    /// Supported speeds bitmap.
    pub speeds_supported: u16,
    /// U1 device exit latency.
    pub u1_dev_exit_lat: u8,
    /// U2 device exit latency.
    pub u2_dev_exit_lat: u16,
}

impl SsDevCapDesc {
    /// Whether Latency Tolerance Messaging is supported.
    pub fn ltm_capable(&self) -> (r: bool)
        ensures
            r == (self.bm_attributes & 0x02 != 0),
    {
        self.bm_attributes & 0x02 != 0
    }
}

/// SuperSpeed Endpoint Companion descriptor (6 bytes).
#[derive(Clone, Copy, Debug, PartialEq, Eq, Structural)]
pub struct SsEpCompDesc {
    /// Descriptor length (6).
    pub length: u8,
    /// Descriptor type (48).
    pub desc_type: u8,
    /// Maximum packets per burst.
    pub max_burst: u8,
    /// For bulk endpoints the max streams, for isochronous the mult.
    pub bm_attributes: u8,
    /// Bytes per service interval.
    pub bytes_per_interval: u16,
}

impl SsEpCompDesc {
    /// The maximum number of streams of a bulk endpoint: bits 4:0.
    pub fn max_streams(&self) -> (r: u8)
        ensures
            r == self.bm_attributes & 0x1f,
    {
        self.bm_attributes & 0x1f
    }

    /// The Mult value of an isochronous endpoint: bits 1:0.
    pub fn mult(&self) -> (r: u8)
        ensures
            r == self.bm_attributes & 0x03,
    {
        self.bm_attributes & 0x03
    }
}

/// HID descriptor (9 bytes in its one-report form).
#[derive(Clone, Copy, Debug, PartialEq, Eq, Structural)]
pub struct HidDesc {
    /// Descriptor length.
    pub length: u8,
    /// Descriptor type (0x21 for HID).
    pub desc_type: u8,
    /// HID specification version, binary-coded decimal.
    pub bcd_hid: u16,
    /// Country code.
    pub country_code: u8,
    /// Number of HID class descriptors.
    pub num_descriptors: u8,
    /// Report descriptor type.
    pub report_desc_type: u8,
    /// Report descriptor length.
    pub report_desc_length: u16,
}

/// USB 2.0 hub descriptor header (7 fixed bytes).
#[derive(Clone, Copy, Debug, PartialEq, Eq, Structural)]
pub struct HubDesc {
    /// Descriptor length.
    pub length: u8,
    /// Descriptor type (0x29 for a hub, 0x2a for a SuperSpeed hub).
    pub desc_type: u8,
    /// Number of downstream ports.
    pub num_ports: u8,
    /// Hub characteristics.
    pub hub_characteristics: u16,
    /// Power-on to power-good time in 2 ms units.
    pub pwr_on_2_pwr_good: u8,
    /// Hub controller current in milliamps.
    pub hub_contr_current: u8,
}

impl HubDesc {
    /// Whether the hub is part of a compound device: characteristics bit 2.
    pub fn is_compound(&self) -> (r: bool)
        ensures
            r == (self.hub_characteristics & 0x04 != 0),
    {
        self.hub_characteristics & 0x04 != 0
    }

    /// The power switching mode: characteristics bits 1:0.
    pub fn power_switching_mode(&self) -> (r: u8)
        ensures
            r == self.hub_characteristics & 0x03,
    {
        proof {
            lemma_desc_bit_bounds();
        }
        (self.hub_characteristics & 0x03) as u8
    }

    /// The overcurrent protection mode: characteristics bits 4:3.
    pub fn overcurrent_protection_mode(&self) -> (r: u8)
        ensures
            r == (self.hub_characteristics >> 3) & 0x03,
    {
        proof {
            lemma_desc_bit_bounds();
        }
        ((self.hub_characteristics >> 3) & 0x03) as u8
    }

    /// The transaction translator think time: characteristics bits 6:5.
    pub fn tt_think_time(&self) -> (r: u8)
        ensures
            r == (self.hub_characteristics >> 5) & 0x03,
    {
        proof {
            lemma_desc_bit_bounds();
        }
        ((self.hub_characteristics >> 5) & 0x03) as u8
    }
}

/// SuperSpeed hub descriptor (12 bytes).
#[derive(Clone, Copy, Debug, PartialEq, Eq, Structural)]
pub struct SsHubDesc {
    /// Descriptor length (12).
    pub length: u8,
    /// Descriptor type (0x2a).
    pub desc_type: u8,
    /// Number of downstream ports.
    pub num_ports: u8,
    /// Hub characteristics.
    pub hub_characteristics: u16,
    /// Power-on to power-good time in 2 ms units.
    pub pwr_on_2_pwr_good: u8,
    /// Hub controller current in milliamps.
    pub hub_contr_current: u8,
    /// Hub header decode latency.
    pub hub_hdr_dec_lat: u8,
    /// Hub delay.
    pub hub_delay: u16,
    /// Removable-device bitmap.
    pub device_removable: u16,
}

/// USB Setup packet (8 bytes): the request header of every control transfer.
#[derive(Clone, Copy, Debug, PartialEq, Eq, Structural)]
pub struct SetupPacket {
    /// Request type: bit 7 direction, bits 6:5 type, bits 4:0 recipient.
    pub request_type: u8,
    /// Request code.
    pub request: u8,
    /// Value parameter.
    pub value: u16,
    /// Index parameter.
    pub index: u16,
    /// Length of the data stage in bytes.
    pub length: u16,
}

/// The Setup packet's 8 bytes packed little-endian into the 64-bit TRB
/// parameter field, fields in wire order: request type, request, value,
/// index, length.
pub open spec fn spec_setup_param(s: SetupPacket) -> u64 {
    (s.request_type + s.request * 0x100 + s.value * 0x1_0000 + s.index * 0x1_0000_0000 + s.length
        * 0x1_0000_0000_0000) as u64
}

/// Packs a Setup packet into the immediate-data TRB parameter.
pub fn pack_setup(s: &SetupPacket) -> (r: u64)
    ensures
        r == spec_setup_param(*s),
{
    s.request_type as u64 + s.request as u64 * 0x100 + s.value as u64 * 0x1_0000 + s.index as u64
        * 0x1_0000_0000 + s.length as u64 * 0x1_0000_0000_0000
}

impl SetupPacket {
    /// Builds a Setup packet from its five fields.
    pub fn new(request_type: u8, request: u8, value: u16, index: u16, length: u16) -> (r:
        SetupPacket)
        ensures
            r == (SetupPacket { request_type, request, value, index, length }),
    {
        SetupPacket { request_type, request, value, index, length }
    }

    /// GET_STATUS for the device.
    pub fn get_device_status() -> (r: SetupPacket)
        ensures
            r == (SetupPacket { request_type: 0x80, request: 0, value: 0, index: 0, length: 2 }),
    {
        SetupPacket::new(0x80, 0, 0, 0, 2)
    }

    /// GET_STATUS for an interface.
    pub fn get_interface_status(interface: u8) -> (r: SetupPacket)
        ensures
            r == (SetupPacket {
                request_type: 0x81,
                request: 0,
                value: 0,
                index: interface as u16,
                length: 2,
            }),
    {
        SetupPacket::new(0x81, 0, 0, interface as u16, 2)
    }

    /// GET_STATUS for an endpoint.
    pub fn get_endpoint_status(endpoint: u8) -> (r: SetupPacket)
        ensures
            r == (SetupPacket {
                request_type: 0x82,
                request: 0,
                value: 0,
                index: endpoint as u16,
                length: 2,
            }),
    {
        SetupPacket::new(0x82, 0, 0, endpoint as u16, 2)
    }

    /// CLEAR_FEATURE for the device.
    pub fn clear_device_feature(feature: u16) -> (r: SetupPacket)
        ensures
            r == (SetupPacket {
                request_type: 0x00,
                request: 1,
                value: feature,
                index: 0,
                length: 0,
            }),
    {
        SetupPacket::new(0x00, 1, feature, 0, 0)
    }

    /// CLEAR_FEATURE for an interface.
    pub fn clear_interface_feature(feature: u16, interface: u8) -> (r: SetupPacket)
        ensures
            r == (SetupPacket {
                request_type: 0x01,
                request: 1,
                value: feature,
                index: interface as u16,
                length: 0,
            }),
    {
        SetupPacket::new(0x01, 1, feature, interface as u16, 0)
    }

    /// CLEAR_FEATURE for an endpoint — most often to clear a halt.
    pub fn clear_endpoint_feature(feature: u16, endpoint: u8) -> (r: SetupPacket)
        ensures
            r == (SetupPacket {
                request_type: 0x02,
                request: 1,
                value: feature,
                index: endpoint as u16,
                length: 0,
            }),
    {
        SetupPacket::new(0x02, 1, feature, endpoint as u16, 0)
    }

    /// SET_FEATURE for the device.
    pub fn set_device_feature(feature: u16) -> (r: SetupPacket)
        ensures
            r == (SetupPacket {
                request_type: 0x00,
                request: 3,
                value: feature,
                index: 0,
                length: 0,
            }),
    {
        SetupPacket::new(0x00, 3, feature, 0, 0)
    }

    /// SET_FEATURE for an endpoint.
    pub fn set_endpoint_feature(feature: u16, endpoint: u8) -> (r: SetupPacket)
        ensures
            r == (SetupPacket {
                request_type: 0x02,
                request: 3,
                value: feature,
                index: endpoint as u16,
                length: 0,
            }),
    {
        SetupPacket::new(0x02, 3, feature, endpoint as u16, 0)
    }

    /// GET_DESCRIPTOR: descriptor type in the value's high byte, index in
    /// its low byte.
    pub fn get_descriptor(desc_type: u8, index: u8, length: u16) -> (r: SetupPacket)
        ensures
            r == (SetupPacket {
                request_type: 0x80,
                request: 6,
                value: (desc_type * 0x100 + index) as u16,
                index: 0,
                length,
            }),
    {
        SetupPacket::new(0x80, 6, le16(index, desc_type), 0, length)
    }

    /// GET_DESCRIPTOR for a string descriptor in the given language.
    pub fn get_string_descriptor(index: u8, lang_id: u16, length: u16) -> (r: SetupPacket)
        ensures
            r == (SetupPacket {
                request_type: 0x80,
                request: 6,
                value: (3 * 0x100 + index) as u16,
                index: lang_id,
                length,
            }),
    {
        SetupPacket::new(0x80, 6, le16(index, 3), lang_id, length)
    }

    /// GET_CONFIGURATION.
    pub fn get_configuration() -> (r: SetupPacket)
        ensures
            r == (SetupPacket { request_type: 0x80, request: 8, value: 0, index: 0, length: 1 }),
    {
        SetupPacket::new(0x80, 8, 0, 0, 1)
    }

    /// SET_CONFIGURATION.
    pub fn set_configuration(config: u8) -> (r: SetupPacket)
        ensures
            r == (SetupPacket {
                request_type: 0x00,
                request: 9,
                value: config as u16,
                index: 0,
                length: 0,
            }),
    {
        SetupPacket::new(0x00, 9, config as u16, 0, 0)
    }

    /// GET_INTERFACE.
    pub fn get_interface(interface: u8) -> (r: SetupPacket)
        ensures
            r == (SetupPacket {
                request_type: 0x81,
                request: 10,
                value: 0,
                index: interface as u16,
                length: 1,
            }),
    {
        SetupPacket::new(0x81, 10, 0, interface as u16, 1)
    }

    /// SET_INTERFACE.
    pub fn set_interface(interface: u8, alt_setting: u8) -> (r: SetupPacket)
        ensures
            r == (SetupPacket {
                request_type: 0x01,
                request: 11,
                value: alt_setting as u16,
                index: interface as u16,
                length: 0,
            }),
    {
        SetupPacket::new(0x01, 11, alt_setting as u16, interface as u16, 0)
    }

    /// SYNCH_FRAME for an isochronous endpoint.
    pub fn synch_frame(endpoint: u8) -> (r: SetupPacket)
        ensures
            r == (SetupPacket {
                request_type: 0x82,
                request: 12,
                value: 0,
                index: endpoint as u16,
                length: 2,
            }),
    {
        SetupPacket::new(0x82, 12, 0, endpoint as u16, 2)
    }

    /// HID GET_REPORT: report type in the value's high byte, report id in
    /// its low byte.
    pub fn hid_get_report(interface: u8, report_type: u8, report_id: u8, length: u16) -> (r:
        SetupPacket)
        ensures
            r == (SetupPacket {
                request_type: 0xa1,
                request: 0x01,
                value: (report_type * 0x100 + report_id) as u16,
                index: interface as u16,
                length,
            }),
    {
        SetupPacket::new(0xa1, 0x01, le16(report_id, report_type), interface as u16, length)
    }

    /// HID GET_IDLE.
    pub fn hid_get_idle(interface: u8, report_id: u8) -> (r: SetupPacket)
        ensures
            r == (SetupPacket {
                request_type: 0xa1,
                request: 0x02,
                value: report_id as u16,
                index: interface as u16,
                length: 1,
            }),
    {
        SetupPacket::new(0xa1, 0x02, report_id as u16, interface as u16, 1)
    }

    /// HID GET_PROTOCOL.
    pub fn hid_get_protocol(interface: u8) -> (r: SetupPacket)
        ensures
            r == (SetupPacket {
                request_type: 0xa1,
                request: 0x03,
                value: 0,
                index: interface as u16,
                length: 1,
            }),
    {
        SetupPacket::new(0xa1, 0x03, 0, interface as u16, 1)
    }

    /// HID SET_REPORT: report type in the value's high byte, report id in
    /// its low byte.
    pub fn hid_set_report(interface: u8, report_type: u8, report_id: u8, length: u16) -> (r:
        SetupPacket)
        ensures
            r == (SetupPacket {
                request_type: 0x21,
                request: 0x09,
                value: (report_type * 0x100 + report_id) as u16,
                index: interface as u16,
                length,
            }),
    {
        SetupPacket::new(0x21, 0x09, le16(report_id, report_type), interface as u16, length)
    }

    /// HID SET_IDLE: duration in the value's high byte, report id in its low
    /// byte.
    pub fn set_idle(interface: u8, duration: u8, report_id: u8) -> (r: SetupPacket)
        ensures
            r == (SetupPacket {
                request_type: 0x21,
                request: 0x0a,
                value: (duration * 0x100 + report_id) as u16,
                index: interface as u16,
                length: 0,
            }),
    {
        SetupPacket::new(0x21, 0x0a, le16(report_id, duration), interface as u16, 0)
    }

    /// HID SET_PROTOCOL: 0 selects the boot protocol, 1 the report protocol.
    pub fn set_protocol(interface: u8, protocol: u8) -> (r: SetupPacket)
        ensures
            r == (SetupPacket {
                request_type: 0x21,
                request: 0x0b,
                value: protocol as u16,
                index: interface as u16,
                length: 0,
            }),
    {
        SetupPacket::new(0x21, 0x0b, protocol as u16, interface as u16, 0)
    }

    /// Hub GET_STATUS.
    pub fn hub_get_status() -> (r: SetupPacket)
        ensures
            r == (SetupPacket { request_type: 0xa0, request: 0, value: 0, index: 0, length: 4 }),
    {
        SetupPacket::new(0xa0, 0, 0, 0, 4)
    }

    /// Hub port GET_STATUS.
    pub fn hub_get_port_status(port: u8) -> (r: SetupPacket)
        ensures
            r == (SetupPacket {
                request_type: 0xa3,
                request: 0,
                value: 0,
                index: port as u16,
                length: 4,
            }),
    {
        SetupPacket::new(0xa3, 0, 0, port as u16, 4)
    }

    /// Hub SET_PORT_FEATURE.
    pub fn hub_set_port_feature(feature: u16, port: u8) -> (r: SetupPacket)
        ensures
            r == (SetupPacket {
                request_type: 0x23,
                request: 3,
                value: feature,
                index: port as u16,
                length: 0,
            }),
    {
        SetupPacket::new(0x23, 3, feature, port as u16, 0)
    }

    /// Hub CLEAR_PORT_FEATURE.
    pub fn hub_clear_port_feature(feature: u16, port: u8) -> (r: SetupPacket)
        ensures
            r == (SetupPacket {
                request_type: 0x23,
                request: 1,
                value: feature,
                index: port as u16,
                length: 0,
            }),
    {
        SetupPacket::new(0x23, 1, feature, port as u16, 0)
    }

    /// Hub GET_DESCRIPTOR.
    pub fn hub_get_descriptor(length: u16) -> (r: SetupPacket)
        ensures
            r == (SetupPacket {
                request_type: 0xa0,
                request: 6,
                value: 0x2900,
                index: 0,
                length,
            }),
    {
        SetupPacket::new(0xa0, 6, 0x2900, 0, length)
    }

    /// Mass storage GET_MAX_LUN.
    pub fn msc_get_max_lun(interface: u8) -> (r: SetupPacket)
        ensures
            r == (SetupPacket {
                request_type: 0xa1,
                request: 0xfe,
                value: 0,
                index: interface as u16,
                length: 1,
            }),
    {
        SetupPacket::new(0xa1, 0xfe, 0, interface as u16, 1)
    }

    /// Mass storage Bulk-Only Transport reset.
    pub fn msc_reset(interface: u8) -> (r: SetupPacket)
        ensures
            r == (SetupPacket {
                request_type: 0x21,
                request: 0xff,
                value: 0,
                index: interface as u16,
                length: 0,
            }),
    {
        SetupPacket::new(0x21, 0xff, 0, interface as u16, 0)
    }

    /// HID GET_REPORT under its older name.
    pub fn get_report(interface: u8, report_type: u8, report_id: u8, length: u16) -> (r:
        SetupPacket)
        ensures
            r == (SetupPacket {
                request_type: 0xa1,
                request: 0x01,
                value: (report_type * 0x100 + report_id) as u16,
                index: interface as u16,
                length,
            }),
    {
        SetupPacket::hid_get_report(interface, report_type, report_id, length)
    }
}

} // verus!
