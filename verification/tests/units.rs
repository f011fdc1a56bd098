//! Unit tests of the pure layers: TRB accessors, ring discipline, register
//! decode, contexts and DCI mapping, descriptors and Setup packets, HID and
//! MSC data structures.

use std::cell::RefCell;

use xhci_core::dev::TransferOutcome;
use xhci_core::HidType;
use xhci_core::{ctx, dev, msc, reg, xhci, Dma, EndpointDesc, SetupPacket, Trb};

/// A minimal bridge: a bump allocator over one arena, identity translation,
/// and plain memory access. No MMIO behavior.
struct MiniDma {
    mem: RefCell<Vec<u8>>,
    next: RefCell<usize>,
}

const BASE: usize = 0x1000;

impl MiniDma {
    fn new() -> MiniDma {
        MiniDma { mem: RefCell::new(vec![0u8; 0x10000]), next: RefCell::new(BASE) }
    }

    fn read_mem(&self, addr: usize, len: usize) -> Vec<u8> {
        let mem = self.mem.borrow();
        mem[addr - BASE..addr - BASE + len].to_vec()
    }
}

impl Dma for MiniDma {
    fn allocate(&self, size: usize, align: usize) -> Option<usize> {
        let mut next = self.next.borrow_mut();
        let a = align.max(1);
        let base = (*next + a - 1) / a * a;
        if base + size > BASE + self.mem.borrow().len() {
            return None;
        }
        *next = base + size.max(1);
        Some(base)
    }

    fn free(&self, _addr: usize, _size: usize, _align: usize) {}

    fn map_mmio(&self, _phys: usize, _size: usize) -> Option<usize> {
        None
    }

    fn unmap_mmio(&self, _virt: usize, _size: usize) {}

    fn virt_to_phys(&self, va: usize) -> u64 {
        va as u64
    }

    fn page_size(&self) -> usize {
        4096
    }

    fn read8(&self, addr: usize) -> u8 {
        self.mem.borrow()[addr - BASE]
    }

    fn read32(&self, addr: usize) -> u32 {
        u32::from_le_bytes(self.read_mem(addr, 4).try_into().unwrap())
    }

    fn write32(&self, addr: usize, value: u32) {
        let mut mem = self.mem.borrow_mut();
        mem[addr - BASE..addr - BASE + 4].copy_from_slice(&value.to_le_bytes());
    }

    fn read64(&self, addr: usize) -> u64 {
        u64::from_le_bytes(self.read_mem(addr, 8).try_into().unwrap())
    }

    fn write64(&self, addr: usize, value: u64) {
        let mut mem = self.mem.borrow_mut();
        mem[addr - BASE..addr - BASE + 8].copy_from_slice(&value.to_le_bytes());
    }

    fn write_bytes(&self, addr: usize, data: &Vec<u8>) {
        let mut mem = self.mem.borrow_mut();
        mem[addr - BASE..addr - BASE + data.len()].copy_from_slice(data);
    }

    fn read_bytes(&self, addr: usize, len: usize) -> Vec<u8> {
        self.read_mem(addr, len)
    }
}

#[test]
fn trb_field_accessors() {
    let t = Trb { param: 0x1122_3344_5566_7788, status: 0x0d00_0021, control: 0x0700_8401 };
    assert_eq!(t.trb_type(), 0x21); // bits 15:10
    assert_eq!(t.completion_code(), 0x0d);
    assert_eq!(t.slot_id(), 0x07);
    assert_eq!(t.transfer_length(), 0x21);
    assert_eq!(t.cycle(), 1);
}

#[test]
fn pack_status_control_layout() {
    let w = xhci_core::ring::pack_status_control(0x11223344, 0x55667788);
    assert_eq!(w, 0x5566_7788_1122_3344);
}

#[test]
fn ring_new_installs_link_trb() {
    let host = MiniDma::new();
    let ring = xhci_core::Ring::new(&host, 4).expect("ring alloc failed");
    assert_eq!(ring.capacity(), 4);
    assert_eq!(ring.index(), 0);
    assert!(ring.cycle_state());
    let link = ring.get(3);
    assert_eq!(link.param, ring.phys());
    assert_eq!(link.control, 0x1802); // type Link, Toggle Cycle, cycle 0
    // The ring memory mirrors the shadow.
    let bytes = host.read_mem(ring.phys() as usize + 48, 16);
    assert_eq!(&bytes[0..8], &ring.phys().to_le_bytes());
    assert_eq!(&bytes[12..16], &0x1802u32.to_le_bytes());
}

#[test]
fn p1_ring_wrap_and_cycle_bits() {
    // Capacity 4: three usable slots. Enqueue k = 7 TRBs.
    let host = MiniDma::new();
    let mut ring = xhci_core::Ring::new(&host, 4).expect("ring alloc failed");
    for k in 0..7u64 {
        ring.enqueue(&host, Trb { param: k, status: 0, control: 0x400 });
    }
    // enqueue_index == k mod (n-1) == 7 mod 3 == 1.
    assert_eq!(ring.index(), 1);
    // The link TRB's cycle bit was toggled floor(7/3) == 2 times: back to 0.
    assert_eq!(ring.get(3).control & 1, 0);
    // floor((k-1)/(n-1)) == 2 agrees while k is no multiple of n-1.
    assert_eq!((7 - 1) / 3, 2);
    // Slot 0 was last written by enqueue 7 (third era, cycle 0); slots 1 and
    // 2 by enqueues 5 and 6 (second era, cycle 0 after two toggles of PCS
    // means PCS was 1... the second era used PCS 0).
    assert_eq!(ring.get(0).control & 1, 1); // era 2 (wraps 2, even): PCS 1
    assert_eq!(ring.get(1).control & 1, 0); // era 1: PCS 0
    assert_eq!(ring.get(2).control & 1, 0); // era 1: PCS 0
    // PCS after two wraps is back to 1.
    assert!(ring.cycle_state());
    // The device memory mirrors the shadow: slot 0 carries enqueue 6's
    // parameter with the forced cycle bit.
    let slot0 = host.read_mem(ring.phys() as usize, 16);
    assert_eq!(&slot0[0..8], &6u64.to_le_bytes());
    assert_eq!(&slot0[12..16], &0x401u32.to_le_bytes());
}

#[test]
fn p2_event_ring_dequeue_cycle() {
    let host = MiniDma::new();
    let mut er = xhci_core::EventRing::new(&host, 4).expect("event ring alloc failed");
    // Empty ring: the slot's cycle bit (0) disagrees with CCS (1).
    assert!(er.try_dequeue(&host).is_none());
    // The hardware model produces 8 events (two wraps), flipping its cycle
    // on wrap; software consumes all of them.
    let base = er.ring_phys() as usize;
    let mut hw_index = 0usize;
    let mut hw_cycle = 1u32;
    for k in 0..8u64 {
        host.write64(base + 16 * hw_index, k);
        host.write64(base + 16 * hw_index + 8, ((0x8000u64 | hw_cycle as u64) << 32) | 0);
        hw_index += 1;
        if hw_index == 4 {
            hw_index = 0;
            hw_cycle ^= 1;
        }
        let got = er.try_dequeue(&host).expect("event expected");
        assert_eq!(got.param, k);
    }
    // After 2N events the consumer toggled CCS exactly twice: back to 1,
    // index 0, and the ring reads empty again.
    assert_eq!(er.index(), 0);
    assert!(er.cycle_state());
    assert!(er.try_dequeue(&host).is_none());
    assert_eq!(er.erdp_value(), er.ring_phys() | 8);
}

#[test]
fn reg_decode_helpers() {
    assert_eq!(reg::port_reg_base(0x20, 0), 0x420);
    assert_eq!(reg::port_reg_base(0x20, 2), 0x440);
    assert_eq!(reg::doorbell(0x2000, 0), 0x2000);
    assert_eq!(reg::doorbell(0x2000, 3), 0x200c);
    assert_eq!(reg::interrupter_base(0x3000, 0), 0x3020);
    assert_eq!(reg::portsc_speed(3 << 10), 3);
    assert_eq!(reg::portsc_pls(0x7 << 5), 7);
    assert_eq!(reg::portsc_set_pls(3), 3 << 5);
}

#[test]
fn capability_decode() {
    assert_eq!(xhci::decode_max_slots(0x04FF_0020), 0x20);
    assert_eq!(xhci::decode_max_ports(0x04FF_0020), 0x04);
    // Low five bits in 31:27, high five in 25:21.
    assert_eq!(xhci::decode_max_scratchpad(2 << 27), 2);
    assert_eq!(xhci::decode_max_scratchpad((1 << 21) | (3 << 27)), 32 | 3);
    assert_eq!(xhci::compute_mmio_size(0x3000, 0x2000, 8), 0x10000);
    assert_eq!(xhci::compute_mmio_size(0x2_0000, 0x2000, 8), 0x2_0040);
    assert_eq!(xhci::compute_mmio_size(0, 0x4_0000, 255), 0x4_0000 + 256 * 4);
}

#[test]
fn p3_dci_round_trip() {
    for n in 1u8..=15 {
        for &d in &[false, true] {
            let dci = ctx::dci(n, d);
            assert_eq!(dci, 2 * n + if d { 1 } else { 0 });
            assert!((2..=31).contains(&dci));
            assert_eq!(ctx::ep_of_dci(dci), (n, d));
        }
    }
}

#[test]
fn slot_context_fields() {
    let s = xhci_core::SlotContext::new(0, 3, 1, 5);
    assert_eq!(s.dw0, (3 << 20) | (1 << 27));
    assert_eq!(s.dw1, 5 << 16);
    assert_eq!(s.dw2, 0);
    assert_eq!(s.dw3, 0);
}

#[test]
fn endpoint_context_fields() {
    let e = xhci_core::EndpointContext::new(7, 8, 0, 9, 0x1234_5670);
    assert_eq!(e.dw0, 9 << 16);
    assert_eq!(e.dw1, (3 << 1) | (7 << 3) | (8 << 16));
    assert_eq!(e.tr_dequeue_lo, 0x1234_5670 | 1);
    assert_eq!(e.tr_dequeue_hi, 0);
    assert_eq!(e.dw4, 8);
}

#[test]
fn xhci_ep_type_table() {
    // Control either way is 4; Isoch OUT/IN 1/5; Bulk 2/6; Interrupt 3/7.
    assert_eq!(ctx::xhci_ep_type(0, false), 4);
    assert_eq!(ctx::xhci_ep_type(0, true), 4);
    assert_eq!(ctx::xhci_ep_type(1, false), 1);
    assert_eq!(ctx::xhci_ep_type(1, true), 5);
    assert_eq!(ctx::xhci_ep_type(2, false), 2);
    assert_eq!(ctx::xhci_ep_type(2, true), 6);
    assert_eq!(ctx::xhci_ep_type(3, false), 3);
    assert_eq!(ctx::xhci_ep_type(3, true), 7);
}

#[test]
fn xhci_interval_values() {
    // High Speed and above: descriptor interval minus one, floored at zero.
    assert_eq!(ctx::xhci_interval(3, 10), 9);
    assert_eq!(ctx::xhci_interval(4, 1), 0);
    assert_eq!(ctx::xhci_interval(3, 0), 0);
    // Full/Low Speed: ceil(log2(ms)) + 3.
    assert_eq!(ctx::xhci_interval(1, 10), 7);
    assert_eq!(ctx::xhci_interval(2, 1), 3);
    assert_eq!(ctx::xhci_interval(1, 0), 3);
    assert_eq!(ctx::xhci_interval(1, 8), 6);
    assert_eq!(ctx::xhci_interval(1, 255), 11);
}

#[test]
fn ep0_packet_size_by_speed() {
    assert_eq!(ctx::ep0_max_packet(1), 8);
    assert_eq!(ctx::ep0_max_packet(2), 8);
    assert_eq!(ctx::ep0_max_packet(3), 64);
    assert_eq!(ctx::ep0_max_packet(4), 512);
    assert_eq!(ctx::ep0_max_packet(0), 8);
}

#[test]
fn device_descriptor_parse_and_versions() {
    let bytes: Vec<u8> = vec![
        18, 1, 0x10, 0x02, 9, 0, 1, 64, 0x8a, 0x2e, 0x01, 0x40, 0x34, 0x12, 1, 2, 3, 1,
    ];
    let d = xhci_core::desc::parse_device_desc(&bytes).expect("parse failed");
    assert_eq!(d.length, 18);
    assert_eq!(d.bcd_usb, 0x0210);
    assert_eq!(d.usb_version(), (2, 0x10));
    assert_eq!(d.vendor_id, 0x2e8a);
    assert_eq!(d.product_id, 0x4001);
    assert_eq!(d.device_version(), (0x12, 0x34));
    assert_eq!(d.num_configurations, 1);
    assert!(xhci_core::desc::parse_device_desc(&bytes[..17]).is_none());
}

#[test]
fn config_descriptor_parse_and_flags() {
    let bytes: Vec<u8> = vec![9, 2, 0x22, 0x00, 1, 1, 0, 0xe0, 50];
    let c = xhci_core::desc::parse_config_desc(&bytes).expect("parse failed");
    assert_eq!(c.total_length, 0x22);
    assert!(c.self_powered());
    assert!(c.remote_wakeup());
    assert_eq!(c.max_power_ma(), 100);
}

#[test]
fn endpoint_descriptor_accessors() {
    let e = EndpointDesc {
        length: 7,
        desc_type: 5,
        endpoint_address: 0x85,
        attributes: 0b0001_1101,
        max_packet_size: (2 << 11) | 1024,
        interval: 4,
    };
    assert_eq!(e.number(), 5);
    assert!(e.is_in());
    assert!(!e.is_out());
    assert_eq!(e.transfer_type(), 1);
    assert_eq!(e.sync_type(), 3);
    assert_eq!(e.usage_type(), 1);
    assert_eq!(e.packet_size(), 1024);
    assert_eq!(e.additional_transactions(), 2);
}

#[test]
fn hub_descriptor_accessors() {
    let h = xhci_core::HubDesc {
        length: 9,
        desc_type: 0x29,
        num_ports: 4,
        hub_characteristics: 0b0110_1101,
        pwr_on_2_pwr_good: 50,
        hub_contr_current: 100,
    };
    assert!(h.is_compound());
    assert_eq!(h.power_switching_mode(), 1);
    assert_eq!(h.overcurrent_protection_mode(), 1);
    assert_eq!(h.tt_think_time(), 3);
}

#[test]
fn capability_descriptor_accessors() {
    let u = xhci_core::Usb20ExtCapDesc {
        length: 7,
        desc_type: 16,
        dev_capability_type: 2,
        bm_attributes: 2,
    };
    assert!(u.lpm_supported());
    let s = xhci_core::SsDevCapDesc {
        length: 10,
        desc_type: 16,
        dev_capability_type: 3,
        bm_attributes: 2,
        speeds_supported: 0xe,
        u1_dev_exit_lat: 0,
        u2_dev_exit_lat: 0,
    };
    assert!(s.ltm_capable());
    let c = xhci_core::SsEpCompDesc {
        length: 6,
        desc_type: 48,
        max_burst: 3,
        bm_attributes: 0x12,
        bytes_per_interval: 0,
    };
    assert_eq!(c.max_streams(), 0x12);
    assert_eq!(c.mult(), 2);
}

#[test]
fn setup_packet_standard_requests() {
    assert_eq!(
        SetupPacket::get_device_status(),
        SetupPacket { request_type: 0x80, request: 0, value: 0, index: 0, length: 2 }
    );
    assert_eq!(
        SetupPacket::get_interface_status(3),
        SetupPacket { request_type: 0x81, request: 0, value: 0, index: 3, length: 2 }
    );
    assert_eq!(
        SetupPacket::get_endpoint_status(0x81),
        SetupPacket { request_type: 0x82, request: 0, value: 0, index: 0x81, length: 2 }
    );
    assert_eq!(
        SetupPacket::clear_endpoint_feature(0, 0x81),
        SetupPacket { request_type: 0x02, request: 1, value: 0, index: 0x81, length: 0 }
    );
    assert_eq!(
        SetupPacket::get_descriptor(1, 0, 18),
        SetupPacket { request_type: 0x80, request: 6, value: 0x0100, index: 0, length: 18 }
    );
    assert_eq!(
        SetupPacket::get_string_descriptor(2, 0x0409, 64),
        SetupPacket { request_type: 0x80, request: 6, value: 0x0302, index: 0x0409, length: 64 }
    );
    assert_eq!(
        SetupPacket::set_configuration(1),
        SetupPacket { request_type: 0x00, request: 9, value: 1, index: 0, length: 0 }
    );
    assert_eq!(
        SetupPacket::set_interface(2, 1),
        SetupPacket { request_type: 0x01, request: 11, value: 1, index: 2, length: 0 }
    );
    assert_eq!(
        SetupPacket::synch_frame(0x81),
        SetupPacket { request_type: 0x82, request: 12, value: 0, index: 0x81, length: 2 }
    );
}

#[test]
fn setup_packet_class_requests() {
    assert_eq!(
        SetupPacket::hid_get_report(1, 2, 3, 8),
        SetupPacket { request_type: 0xa1, request: 1, value: 0x0203, index: 1, length: 8 }
    );
    assert_eq!(
        SetupPacket::hid_set_report(0, 2, 0, 1),
        SetupPacket { request_type: 0x21, request: 9, value: 0x0200, index: 0, length: 1 }
    );
    assert_eq!(
        SetupPacket::set_idle(1, 4, 0),
        SetupPacket { request_type: 0x21, request: 0x0a, value: 0x0400, index: 1, length: 0 }
    );
    assert_eq!(
        SetupPacket::set_protocol(1, 0),
        SetupPacket { request_type: 0x21, request: 0x0b, value: 0, index: 1, length: 0 }
    );
    assert_eq!(
        SetupPacket::hub_get_port_status(2),
        SetupPacket { request_type: 0xa3, request: 0, value: 0, index: 2, length: 4 }
    );
    assert_eq!(
        SetupPacket::hub_get_descriptor(9),
        SetupPacket { request_type: 0xa0, request: 6, value: 0x2900, index: 0, length: 9 }
    );
    assert_eq!(
        SetupPacket::msc_get_max_lun(0),
        SetupPacket { request_type: 0xa1, request: 0xfe, value: 0, index: 0, length: 1 }
    );
    assert_eq!(
        SetupPacket::msc_reset(0),
        SetupPacket { request_type: 0x21, request: 0xff, value: 0, index: 0, length: 0 }
    );
    assert_eq!(
        SetupPacket::get_report(1, 2, 3, 8),
        SetupPacket::hid_get_report(1, 2, 3, 8)
    );
}

#[test]
fn setup_packet_packs_little_endian() {
    let s = SetupPacket::new(0x80, 0x06, 0x0100, 0x0000, 18);
    let p = xhci_core::desc::pack_setup(&s);
    assert_eq!(p.to_le_bytes(), [0x80, 0x06, 0x00, 0x01, 0x00, 0x00, 18, 0]);
}

#[test]
fn classify_transfer_event_cases() {
    let mk = |code: u32, residual: u32, slot: u32, ty: u32| Trb {
        param: 0,
        status: (code << 24) | residual,
        control: (ty << 10) | (slot << 24),
    };
    // Wrong type or slot: ignored.
    assert_eq!(dev::classify_transfer_event(&mk(1, 0, 1, 33), 1, 8), TransferOutcome::Ignored);
    assert_eq!(dev::classify_transfer_event(&mk(1, 0, 2, 32), 1, 8), TransferOutcome::Ignored);
    // Success and Short Packet: requested minus residual.
    assert_eq!(dev::classify_transfer_event(&mk(1, 0, 1, 32), 1, 8), TransferOutcome::Done(8));
    assert_eq!(dev::classify_transfer_event(&mk(13, 3, 1, 32), 1, 8), TransferOutcome::Done(5));
    // A residual beyond the request floors at zero.
    assert_eq!(dev::classify_transfer_event(&mk(13, 99, 1, 32), 1, 8), TransferOutcome::Done(0));
    // Stall is distinct from failure with code 6.
    assert_eq!(dev::classify_transfer_event(&mk(6, 0, 1, 32), 1, 8), TransferOutcome::Stalled);
    assert_ne!(
        dev::classify_transfer_event(&mk(6, 0, 1, 32), 1, 8),
        TransferOutcome::Failed(6)
    );
    // Every other code is carried verbatim.
    assert_eq!(dev::classify_transfer_event(&mk(4, 0, 1, 32), 1, 8), TransferOutcome::Failed(4));
}

#[test]
fn scancode_table() {
    assert_eq!(xhci_core::scancode_to_ascii(0x04, false), Some('a'));
    assert_eq!(xhci_core::scancode_to_ascii(0x04, true), Some('A'));
    assert_eq!(xhci_core::scancode_to_ascii(0x1e, false), Some('1'));
    assert_eq!(xhci_core::scancode_to_ascii(0x1e, true), Some('!'));
    assert_eq!(xhci_core::scancode_to_ascii(0x28, false), Some('\n'));
    assert_eq!(xhci_core::scancode_to_ascii(0x2c, true), Some(' '));
    assert_eq!(xhci_core::scancode_to_ascii(0x38, false), Some('/'));
    assert_eq!(xhci_core::scancode_to_ascii(0x38, true), Some('?'));
    assert_eq!(xhci_core::scancode_to_ascii(0x00, false), None);
    assert_eq!(xhci_core::scancode_to_ascii(0x39, false), None); // caps lock
    assert_eq!(xhci_core::scancode_to_ascii(0xe1, true), None);
}

#[test]
fn keyboard_and_mouse_reports() {
    let k = xhci_core::hid::parse_keyboard_report(&[0x22, 0, 4, 5, 0, 0, 0, 0]).unwrap();
    assert!(k.shift());
    assert!(!k.alt());
    assert!(!k.gui());
    assert_eq!(k.keys, [4, 5, 0, 0, 0, 0]);
    assert!(xhci_core::hid::parse_keyboard_report(&[0; 7]).is_none());
    let m = xhci_core::hid::parse_mouse_report(&[0x05, 0xff, 0x02]).unwrap();
    assert!(m.left());
    assert!(!m.right());
    assert!(m.middle());
    assert_eq!(m.x, -1);
    assert_eq!(m.y, 2);
}

#[test]
fn hid_classification() {
    assert_eq!(xhci_core::hid::hid_type_of(1, 1), HidType::Keyboard);
    assert_eq!(xhci_core::hid::hid_type_of(1, 2), HidType::Mouse);
    assert_eq!(xhci_core::hid::hid_type_of(1, 0), HidType::Other);
    assert_eq!(xhci_core::hid::hid_type_of(0, 1), HidType::Other);
}

fn iface_bytes(num: u8, class: u8, subclass: u8, protocol: u8) -> Vec<u8> {
    vec![9, 4, num, 0, 1, class, subclass, protocol, 0]
}

fn ep_bytes(addr: u8, attrs: u8, mps: u16, interval: u8) -> Vec<u8> {
    vec![7, 5, addr, attrs, (mps & 0xff) as u8, (mps >> 8) as u8, interval]
}

#[test]
fn find_hid_interfaces_scans_config() {
    let mut blob: Vec<u8> = vec![9, 2, 0, 0, 2, 1, 0, 0xa0, 50];
    blob.extend(iface_bytes(0, 3, 1, 1)); // HID keyboard
    blob.extend(vec![9, 0x21, 0x11, 0x01, 0, 1, 0x22, 0x3f, 0]); // HID descriptor
    blob.extend(ep_bytes(0x81, 3, 8, 10)); // interrupt IN
    blob.extend(iface_bytes(1, 8, 6, 0x50)); // MSC, not HID
    blob.extend(ep_bytes(0x82, 2, 512, 0));
    let total = blob.len() as u16;
    blob[2] = (total & 0xff) as u8;
    blob[3] = (total >> 8) as u8;

    let found = xhci_core::find_hid_interfaces(&blob);
    assert_eq!(found.len(), 1);
    assert_eq!(found[0].0.interface_number, 0);
    assert_eq!(found[0].0.interface_protocol, 1);
    assert_eq!(found[0].1.endpoint_address, 0x81);
    assert_eq!(found[0].1.max_packet_size, 8);
}

#[test]
fn find_msc_interfaces_scans_config() {
    let mut blob: Vec<u8> = vec![9, 2, 0, 0, 2, 1, 0, 0xa0, 50];
    blob.extend(iface_bytes(0, 3, 1, 1)); // HID, not MSC
    blob.extend(ep_bytes(0x81, 3, 8, 10));
    blob.extend(iface_bytes(1, 8, 6, 0x50)); // MSC BOT
    blob.extend(ep_bytes(0x82, 2, 512, 0)); // bulk IN
    blob.extend(ep_bytes(0x03, 2, 512, 0)); // bulk OUT
    let total = blob.len() as u16;
    blob[2] = (total & 0xff) as u8;
    blob[3] = (total >> 8) as u8;

    let found = xhci_core::find_msc_interfaces(&blob);
    assert_eq!(found.len(), 1);
    assert_eq!(found[0].0.interface_number, 1);
    assert_eq!(found[0].1.endpoint_address, 0x82);
    assert_eq!(found[0].2.endpoint_address, 0x03);
    // A truncated blob yields nothing past the damage.
    assert_eq!(xhci_core::find_msc_interfaces(&blob[..12]).len(), 0);
}

#[test]
fn cbw_layout_and_bytes() {
    let cdb = vec![0x12u8, 0, 0, 0, 36, 0];
    let cbw = xhci_core::msc::Cbw::new(7, 36, true, 0x13, &cdb);
    assert_eq!(cbw.signature, 0x43425355);
    assert_eq!(cbw.tag, 7);
    assert_eq!(cbw.data_transfer_length, 36);
    assert_eq!(cbw.flags, 0x80);
    assert_eq!(cbw.lun, 0x03); // low four bits only
    assert_eq!(cbw.cb_length, 6);
    let wire = xhci_core::msc::cbw_bytes(&cbw);
    assert_eq!(wire.len(), 31);
    assert_eq!(&wire[0..4], b"USBC");
    assert_eq!(&wire[4..8], &7u32.to_le_bytes());
    assert_eq!(&wire[8..12], &36u32.to_le_bytes());
    assert_eq!(wire[12], 0x80);
    assert_eq!(wire[13], 0x03);
    assert_eq!(wire[14], 6);
    assert_eq!(&wire[15..21], &cdb[..]);
    assert_eq!(&wire[21..31], &[0u8; 10]);
}

#[test]
fn csw_parse_and_status() {
    let mut bytes = vec![0u8; 13];
    bytes[0..4].copy_from_slice(b"USBS");
    bytes[4..8].copy_from_slice(&9u32.to_le_bytes());
    bytes[8..12].copy_from_slice(&2u32.to_le_bytes());
    bytes[12] = 0;
    let csw = xhci_core::msc::parse_csw(&bytes).unwrap();
    assert_eq!(csw.signature, 0x53425355);
    assert_eq!(csw.tag, 9);
    assert_eq!(csw.data_residue, 2);
    assert!(csw.is_ok());
    bytes[12] = 1;
    assert!(!xhci_core::msc::parse_csw(&bytes).unwrap().is_ok());
    assert!(xhci_core::msc::parse_csw(&bytes[..12]).is_none());
}

#[test]
fn read_capacity_big_endian() {
    // last LBA 0x00100000 - 1, block size 512, both big-endian on the wire.
    let bytes = vec![0x00, 0x0f, 0xff, 0xff, 0x00, 0x00, 0x02, 0x00];
    let rc = xhci_core::msc::parse_read_capacity10(&bytes).unwrap();
    assert_eq!(rc.last_lba(), 0x000f_ffff);
    assert_eq!(rc.block_size(), 512);
    assert_eq!(rc.capacity_bytes(), 0x0010_0000u64 * 512);
}

#[test]
fn request_sense_key() {
    let mut bytes = vec![0u8; 18];
    bytes[0] = 0x70;
    bytes[2] = 0xf5; // flags above, sense key 5 (illegal request)
    bytes[12] = 0x24;
    let sense = xhci_core::msc::parse_request_sense(&bytes).unwrap();
    assert_eq!(sense.sense_key(), 5);
    assert_eq!(sense.asc, 0x24);
}

#[test]
fn scsi_cdb_builders() {
    assert_eq!(
        msc::read10_cdb(0x01020304, 0x0506),
        vec![0x28, 0, 0x01, 0x02, 0x03, 0x04, 0, 0x05, 0x06, 0]
    );
    assert_eq!(
        msc::write10_cdb(0xa0b0c0d0, 8),
        vec![0x2a, 0, 0xa0, 0xb0, 0xc0, 0xd0, 0, 0, 8, 0]
    );
    assert_eq!(msc::cdb6(0x12, 36), vec![0x12, 0, 0, 0, 36, 0]);
    assert_eq!(msc::cdb10(0x25), vec![0x25, 0, 0, 0, 0, 0, 0, 0, 0, 0]);
}

#[test]
fn swap32_round_trip() {
    assert_eq!(msc::swap32(0x11223344), 0x44332211);
    assert_eq!(msc::swap32(msc::swap32(0xdeadbeef)), 0xdeadbeef);
}

#[test]
fn inquiry_data_accessors() {
    let mut bytes = vec![0u8; 36];
    bytes[0] = 0x05; // CD-ROM device type
    bytes[1] = 0x80; // removable
    let d = msc::parse_inquiry(&bytes).unwrap();
    assert_eq!(d.device_type(), 5);
    assert!(d.is_removable());
}
