//! End-to-end tests of the controller, device and transfer paths against a
//! mock platform bridge driving a small simulated xHCI controller.

use std::cell::RefCell;
use std::collections::VecDeque;
use std::rc::Rc;

use xhci_core::{Dma, EndpointDesc, SetupPacket, UsbDevice, UsbError, XhciCtrl};

const MMIO_PHYS: usize = 0xf000_0000;
const CAPLENGTH: u8 = 0x20;
const DBOFF: u32 = 0x2000;
const RTSOFF: u32 = 0x3000;
const ARENA_BASE: usize = 0x10_0000;
const ARENA_SIZE: usize = 0x40_0000;

const MAX_SLOTS: u8 = 8;
const MAX_PORTS: u8 = 4;

#[derive(Clone)]
struct XferResponse {
    code: u8,
    residual: u32,
    payload: Option<Vec<u8>>,
}

struct MockState {
    mem: Vec<u8>,
    next_alloc: usize,
    allocs: Vec<(usize, usize)>,
    frees: Vec<(usize, usize)>,
    mmio_mapped: Vec<(usize, usize)>,
    mmio_unmapped: Vec<(usize, usize)>,

    usbcmd: u32,
    config: u32,
    dcbaap: u64,
    crcr_base: u64,
    cmd_cycle: bool,
    cmd_ptr: u64,
    erstsz: u32,
    erstba: u64,
    erdp: u64,
    erdp_writes: Vec<u64>,
    portsc: [u32; MAX_PORTS as usize],
    portsc_writes: Vec<(u8, u32)>,

    // Event ring producer state, learned from the ERST.
    ev_base: u64,
    ev_size: u32,
    ev_index: u32,
    ev_cycle: bool,

    next_slot: u8,
    // Transfer ring dequeue pointers per (slot, dci), with expected cycle.
    ep_rings: Vec<((u8, u8), (u64, bool))>,
    // Log of command TRBs the controller consumed.
    cmd_log: Vec<(u64, u32, u32)>,
    // Snapshot of the first 16 input-context words at each Address Device /
    // Configure Endpoint command.
    input_snapshots: Vec<Vec<u32>>,
    // Prepared transfer-event responses, consumed per doorbell ring.
    responses: VecDeque<XferResponse>,
    // Command completion code override (1 = success).
    cmd_code: u8,
}

struct MockDma {
    st: Rc<RefCell<MockState>>,
}

impl MockDma {
    fn new() -> MockDma {
        let mut portsc = [0u32; MAX_PORTS as usize];
        // Port 0: connected, powered, High Speed (3 in bits 13:10).
        portsc[0] = 1 | (1 << 9) | (3 << 10);
        // Port 1: connected, powered, Full Speed.
        portsc[1] = 1 | (1 << 9) | (1 << 10);
        MockDma {
            st: Rc::new(RefCell::new(MockState {
                mem: vec![0u8; ARENA_SIZE],
                next_alloc: ARENA_BASE,
                allocs: Vec::new(),
                frees: Vec::new(),
                mmio_mapped: Vec::new(),
                mmio_unmapped: Vec::new(),
                usbcmd: 1, // running at startup
                config: 0,
                dcbaap: 0,
                crcr_base: 0,
                cmd_cycle: true,
                cmd_ptr: 0,
                erstsz: 0,
                erstba: 0,
                erdp: 0,
                erdp_writes: Vec::new(),
                portsc,
                portsc_writes: Vec::new(),
                ev_base: 0,
                ev_size: 0,
                ev_index: 0,
                ev_cycle: true,
                next_slot: 1,
                ep_rings: Vec::new(),
                cmd_log: Vec::new(),
                input_snapshots: Vec::new(),
                responses: VecDeque::new(),
                cmd_code: 1,
            })),
        }
    }

    fn push_response(&self, code: u8, residual: u32, payload: Option<Vec<u8>>) {
        self.st.borrow_mut().responses.push_back(XferResponse { code, residual, payload });
    }
}

fn arena_index(addr: usize) -> usize {
    assert!(addr >= ARENA_BASE && addr < ARENA_BASE + ARENA_SIZE, "address out of arena");
    addr - ARENA_BASE
}

impl MockState {
    fn mem_read8(&self, addr: u64) -> u8 {
        self.mem[arena_index(addr as usize)]
    }

    fn mem_write8(&mut self, addr: u64, v: u8) {
        let i = arena_index(addr as usize);
        self.mem[i] = v;
    }

    fn mem_read32(&self, addr: u64) -> u32 {
        let mut v = 0u32;
        for i in 0..4 {
            v |= (self.mem_read8(addr + i) as u32) << (8 * i);
        }
        v
    }

    fn mem_write32(&mut self, addr: u64, v: u32) {
        for i in 0..4 {
            self.mem_write8(addr + i, (v >> (8 * i)) as u8);
        }
    }

    fn mem_read64(&self, addr: u64) -> u64 {
        (self.mem_read32(addr) as u64) | ((self.mem_read32(addr + 4) as u64) << 32)
    }

    fn mem_write64(&mut self, addr: u64, v: u64) {
        self.mem_write32(addr, v as u32);
        self.mem_write32(addr + 4, (v >> 32) as u32);
    }

    fn read_trb(&self, addr: u64) -> (u64, u32, u32) {
        (self.mem_read64(addr), self.mem_read32(addr + 8), self.mem_read32(addr + 12))
    }

    fn post_event(&mut self, param: u64, status: u32, control_sans_cycle: u32) {
        assert!(self.ev_base != 0 && self.ev_size > 0, "event ring not programmed");
        let slot = self.ev_base + 16 * (self.ev_index as u64);
        let cycle = if self.ev_cycle { 1 } else { 0 };
        self.mem_write64(slot, param);
        self.mem_write32(slot + 8, status);
        self.mem_write32(slot + 12, (control_sans_cycle & !1) | cycle);
        self.ev_index += 1;
        if self.ev_index == self.ev_size {
            self.ev_index = 0;
            self.ev_cycle = !self.ev_cycle;
        }
    }

    fn process_command_ring(&mut self) {
        loop {
            let addr = self.cmd_ptr;
            let (param, status, control) = self.read_trb(addr);
            let cycle = control & 1;
            let want = if self.cmd_cycle { 1 } else { 0 };
            if cycle != want {
                break;
            }
            let trb_type = (control >> 10) & 0x3f;
            if trb_type == 6 {
                // Link TRB: follow it; Toggle Cycle flips the consumer state.
                self.cmd_ptr = param;
                if control & 2 != 0 {
                    self.cmd_cycle = !self.cmd_cycle;
                }
                continue;
            }
            self.cmd_log.push((param, status, control));
            let mut slot_id = (control >> 24) & 0xff;
            match trb_type {
                9 => {
                    // Enable Slot: assign the next slot id.
                    slot_id = self.next_slot as u32;
                    self.next_slot += 1;
                }
                11 | 12 => {
                    // Address Device / Configure Endpoint: learn the transfer
                    // rings from the input context and snapshot its header.
                    let mut snap = Vec::new();
                    for w in 0..16 {
                        snap.push(self.mem_read32(param + 4 * w));
                    }
                    self.input_snapshots.push(snap);
                    let add_flags = self.mem_read32(param + 4);
                    for dci in 1..32u32 {
                        if add_flags & (1 << dci) != 0 {
                            let ep_off = param + 64 + 32 * ((dci - 1) as u64);
                            let deq = self.mem_read64(ep_off + 8);
                            let dcs = deq & 1 != 0;
                            let base = deq & !0xf;
                            self.ep_rings
                                .retain(|((s, d), _)| !(*s == slot_id as u8 && *d == dci as u8));
                            self.ep_rings
                                .push(((slot_id as u8, dci as u8), (base, dcs)));
                        }
                    }
                }
                _ => {}
            }
            self.cmd_ptr = addr + 16;
            let code = self.cmd_code;
            self.post_event(addr, (code as u32) << 24, (33 << 10) | (slot_id << 24));
        }
    }

    fn process_transfer_ring(&mut self, slot: u8, dci: u8) {
        let pos = self
            .ep_rings
            .iter()
            .position(|((s, d), _)| *s == slot && *d == dci)
            .expect("doorbell for an unknown transfer ring");
        let (mut ptr, mut cycle) = self.ep_rings[pos].1;
        let response = self.responses.pop_front().unwrap_or(XferResponse {
            code: 1,
            residual: 0,
            payload: None,
        });
        let mut data_buf: Option<(u64, u32)> = None;
        let mut last_addr = ptr;
        loop {
            let (param, status, control) = self.read_trb(ptr);
            let want = if cycle { 1 } else { 0 };
            if control & 1 != want {
                break;
            }
            let trb_type = (control >> 10) & 0x3f;
            if trb_type == 6 {
                ptr = param;
                if control & 2 != 0 {
                    cycle = !cycle;
                }
                continue;
            }
            if trb_type == 3 || trb_type == 1 {
                // Data Stage or Normal: the buffer to fill or drain.
                data_buf = Some((param, status & 0x1ffff));
            }
            last_addr = ptr;
            ptr += 16;
        }
        self.ep_rings[pos].1 = (ptr, cycle);
        if let (Some((buf, len)), Some(bytes)) = (data_buf, response.payload.as_ref()) {
            let n = bytes.len().min(len as usize);
            for i in 0..n {
                self.mem_write8(buf + i as u64, bytes[i]);
            }
        }
        self.post_event(
            last_addr,
            ((response.code as u32) << 24) | (response.residual & 0xff_ffff),
            (32 << 10) | ((slot as u32) << 24),
        );
    }

    fn mmio_read32(&mut self, off: usize) -> u32 {
        let op = CAPLENGTH as usize;
        if off == 0x04 {
            return (MAX_SLOTS as u32) | ((MAX_PORTS as u32) << 24);
        }
        if off == 0x08 {
            // Two scratchpad buffers: bits 31:27 carry the low five bits.
            return 2 << 27;
        }
        if off == 0x14 {
            return DBOFF;
        }
        if off == 0x18 {
            return RTSOFF;
        }
        if off == op {
            return self.usbcmd;
        }
        if off == op + 0x04 {
            // USBSTS: halted exactly when not running; never CNR.
            return if self.usbcmd & 1 == 0 { 1 } else { 0 };
        }
        if off == op + 0x38 {
            return self.config;
        }
        if off >= op + 0x400 {
            let port = (off - op - 0x400) / 0x10;
            if (off - op - 0x400) % 0x10 == 0 && port < MAX_PORTS as usize {
                return self.portsc[port];
            }
        }
        0
    }

    fn mmio_write32(&mut self, off: usize, v: u32) {
        let op = CAPLENGTH as usize;
        let db = DBOFF as usize;
        let rt = RTSOFF as usize;
        if off == op {
            // USBCMD: a reset completes at once.
            self.usbcmd = v & !2;
            return;
        }
        if off == op + 0x38 {
            self.config = v;
            return;
        }
        if off >= db && off < db + 4 * (MAX_SLOTS as usize + 1) {
            let slot = (off - db) / 4;
            if slot == 0 {
                self.process_command_ring();
            } else {
                self.process_transfer_ring(slot as u8, (v & 0xff) as u8);
            }
            return;
        }
        if off == rt + 0x20 + 0x08 {
            self.erstsz = v;
            return;
        }
        if off >= op + 0x400 {
            let port = (off - op - 0x400) / 0x10;
            if (off - op - 0x400) % 0x10 == 0 && port < MAX_PORTS as usize {
                self.portsc_writes.push((port as u8, v));
                let mut cur = self.portsc[port];
                if v & 0x10 != 0 {
                    // Port Reset: completes at once, sets PED and the
                    // write-1-to-clear Port Reset Change bit.
                    cur = (cur & !0x10) | 2 | (1 << 21);
                } else if v & (1 << 21) != 0 {
                    cur &= !(1 << 21);
                }
                self.portsc[port] = cur;
                return;
            }
        }
    }

    fn mmio_write64(&mut self, off: usize, v: u64) {
        let op = CAPLENGTH as usize;
        let rt = RTSOFF as usize;
        if off == op + 0x18 {
            self.crcr_base = v & !0x3f;
            self.cmd_cycle = v & 1 != 0;
            self.cmd_ptr = self.crcr_base;
            return;
        }
        if off == op + 0x30 {
            self.dcbaap = v;
            return;
        }
        if off == rt + 0x20 + 0x10 {
            self.erstba = v;
            // Learn the event ring from the one-entry segment table.
            self.ev_base = self.mem_read64(v);
            self.ev_size = self.mem_read64(v + 8) as u32;
            self.ev_index = 0;
            self.ev_cycle = true;
            return;
        }
        if off == rt + 0x20 + 0x18 {
            self.erdp = v;
            self.erdp_writes.push(v);
            return;
        }
    }
}

impl Dma for MockDma {
    fn allocate(&self, size: usize, align: usize) -> Option<usize> {
        let mut st = self.st.borrow_mut();
        let a = align.max(1);
        let base = (st.next_alloc + a - 1) / a * a;
        if base + size > ARENA_BASE + ARENA_SIZE {
            return None;
        }
        st.next_alloc = base + size.max(1);
        st.allocs.push((base, size));
        Some(base)
    }

    fn free(&self, addr: usize, size: usize, _align: usize) {
        self.st.borrow_mut().frees.push((addr, size));
    }

    fn map_mmio(&self, phys: usize, size: usize) -> Option<usize> {
        assert_eq!(phys, MMIO_PHYS);
        self.st.borrow_mut().mmio_mapped.push((phys, size));
        Some(MMIO_PHYS)
    }

    fn unmap_mmio(&self, virt: usize, size: usize) {
        self.st.borrow_mut().mmio_unmapped.push((virt, size));
    }

    fn virt_to_phys(&self, va: usize) -> u64 {
        va as u64
    }

    fn page_size(&self) -> usize {
        4096
    }

    fn read8(&self, addr: usize) -> u8 {
        if addr >= MMIO_PHYS {
            if addr == MMIO_PHYS {
                return CAPLENGTH;
            }
            return 0;
        }
        self.st.borrow().mem_read8(addr as u64)
    }

    fn read32(&self, addr: usize) -> u32 {
        if addr >= MMIO_PHYS {
            return self.st.borrow_mut().mmio_read32(addr - MMIO_PHYS);
        }
        self.st.borrow().mem_read32(addr as u64)
    }

    fn write32(&self, addr: usize, value: u32) {
        if addr >= MMIO_PHYS {
            self.st.borrow_mut().mmio_write32(addr - MMIO_PHYS, value);
            return;
        }
        self.st.borrow_mut().mem_write32(addr as u64, value);
    }

    fn read64(&self, addr: usize) -> u64 {
        if addr >= MMIO_PHYS {
            return 0;
        }
        self.st.borrow().mem_read64(addr as u64)
    }

    fn write64(&self, addr: usize, value: u64) {
        if addr >= MMIO_PHYS {
            self.st.borrow_mut().mmio_write64(addr - MMIO_PHYS, value);
            return;
        }
        self.st.borrow_mut().mem_write64(addr as u64, value);
    }

    fn write_bytes(&self, addr: usize, data: &Vec<u8>) {
        let mut st = self.st.borrow_mut();
        for (i, b) in data.iter().enumerate() {
            st.mem_write8((addr + i) as u64, *b);
        }
    }

    fn read_bytes(&self, addr: usize, len: usize) -> Vec<u8> {
        let st = self.st.borrow();
        (0..len).map(|i| st.mem_read8((addr + i) as u64)).collect()
    }
}

fn new_ctrl() -> XhciCtrl<MockDma> {
    XhciCtrl::new(MockDma::new(), MMIO_PHYS).expect("controller init failed")
}

#[test]
fn s1_init_sequence() {
    let ctrl = new_ctrl();
    let st = ctrl.host().st.borrow();
    // Final USBCMD reads Run | Interrupter Enable; the reset bit has cleared.
    assert_eq!(st.usbcmd, 1 | 4);
    // CONFIG low byte equals the slot count.
    assert_eq!(st.config & 0xff, MAX_SLOTS as u32);
    assert_eq!(st.erstsz, 1);
    assert_eq!(st.dcbaap, ctrl.dcbaa.phys);
    drop(st);
    assert_eq!(ctrl.max_slots(), MAX_SLOTS);
    assert_eq!(ctrl.max_ports(), MAX_PORTS);
    // CRCR carries the command ring base with the cycle state bit.
    assert_eq!(ctrl.host().st.borrow().crcr_base, ctrl.cmd_ring.phys());
}

#[test]
fn s1_scratchpad_installed() {
    let ctrl = new_ctrl();
    let st = ctrl.host().st.borrow();
    let (array, bufs) = ctrl.scratchpad.as_ref().expect("scratchpad expected");
    // DCBAA[0] points at the scratchpad pointer array.
    assert_eq!(st.mem_read64(ctrl.dcbaa.phys), array.phys);
    // Each array entry points at the matching page of the buffer block.
    assert_eq!(st.mem_read64(array.phys), bufs.phys);
    assert_eq!(st.mem_read64(array.phys + 8), bufs.phys + 4096);
}

#[test]
fn s2_port_reset_writes() {
    let ctrl = new_ctrl();
    assert!(ctrl.port_connected(0));
    ctrl.reset_port(0).expect("reset failed");
    let st = ctrl.host().st.borrow();
    // First write: Port Power preserved, Port Reset set.
    let first = st.portsc_writes.iter().find(|(p, _)| *p == 0).unwrap();
    assert_eq!(first.1, (1 << 9) | 0x10);
    // A later write carries Port Reset Change to clear it.
    assert!(st.portsc_writes.iter().any(|(p, v)| *p == 0 && v & (1 << 21) != 0));
    drop(st);
    assert_eq!(ctrl.port_speed(0), 3);
}

#[test]
fn s3_device_new_addresses_slot() {
    let mut ctrl = new_ctrl();
    let dev = UsbDevice::new(&mut ctrl, 0).expect("device init failed");
    assert_eq!(dev.slot_id(), 1);
    assert_eq!(dev.port(), 0);
    assert_eq!(dev.speed(), 3);
    let st = ctrl.host().st.borrow();
    // DCBAA[1] holds the device context.
    assert_eq!(st.mem_read64(st.dcbaap + 8), dev.device_ctx.phys);
    // An Address Device command (type 11) went by, carrying the input
    // context address and slot 1 in control bits 31:24.
    let addr_cmd = st
        .cmd_log
        .iter()
        .find(|(_, _, c)| (c >> 10) & 0x3f == 11)
        .expect("no Address Device command");
    assert_eq!(addr_cmd.0, dev.input_ctx.phys);
    assert_eq!((addr_cmd.2 >> 24) & 0xff, 1);
    // The input context asked to add the Slot and EP0 contexts.
    let snap = st.input_snapshots.last().unwrap();
    assert_eq!(snap[1], 0b11);
    // Slot context: root hub port is 1-based.
    assert_eq!((snap[8 + 1] >> 16) & 0xff, 1);
}

#[test]
fn s4_get_device_descriptor() {
    let mut ctrl = new_ctrl();
    let mut dev = UsbDevice::new(&mut ctrl, 0).expect("device init failed");
    let mut bytes = vec![0u8; 18];
    bytes[0] = 18; // bLength
    bytes[1] = 1; // bDescriptorType
    bytes[2] = 0x00; // bcdUSB low
    bytes[3] = 0x02; // bcdUSB high
    bytes[7] = 64;
    ctrl.host().push_response(1, 0, Some(bytes));
    let desc = dev.get_device_descriptor(&mut ctrl).expect("descriptor read failed");
    assert_eq!(desc.length, 18);
    assert_eq!(desc.desc_type, 1);
    assert_eq!(desc.bcd_usb, 0x0200);
    assert_eq!(desc.usb_version(), (2, 0));
    assert_eq!(desc.max_packet_size0, 64);
}

#[test]
fn s5_configure_interrupt_in_hs() {
    let mut ctrl = new_ctrl();
    let mut dev = UsbDevice::new(&mut ctrl, 0).expect("device init failed");
    // Interrupt IN endpoint 1, max packet 8, interval 10, on a High Speed
    // device.
    let ep = EndpointDesc {
        length: 7,
        desc_type: 5,
        endpoint_address: 0x81,
        attributes: 3,
        max_packet_size: 8,
        interval: 10,
    };
    dev.configure_endpoint(&mut ctrl, &ep).expect("configure failed");
    let input = dev.input_context();
    // Add flags: the endpoint's DCI (3) and the Slot.
    assert_eq!(input.input_control[1], (1 << 3) | 1);
    // endpoints[2] (DCI 3): xHCI type 7 (Interrupt IN), interval 9.
    let ectx = &input.endpoints[2];
    assert_eq!((ectx.dw1 >> 3) & 0x7, 7);
    assert_eq!((ectx.dw0 >> 16) & 0xff, 9);
    assert_eq!((ectx.dw1 >> 16) & 0xffff, 8);
    // The same words went to the hardware with Configure Endpoint.
    let st = ctrl.host().st.borrow();
    let snap = st.input_snapshots.last().unwrap();
    assert_eq!(snap[0], 0);
    assert_eq!(snap[1], (1 << 3) | 1);
}

#[test]
fn s6_configure_interrupt_in_fs_interval() {
    let mut ctrl = new_ctrl();
    // Port 1 reports Full Speed.
    let mut dev = UsbDevice::new(&mut ctrl, 1).expect("device init failed");
    assert_eq!(dev.speed(), 1);
    let ep = EndpointDesc {
        length: 7,
        desc_type: 5,
        endpoint_address: 0x81,
        attributes: 3,
        max_packet_size: 8,
        interval: 10,
    };
    dev.configure_endpoint(&mut ctrl, &ep).expect("configure failed");
    // ceil(log2(10)) + 3 == 4 + 3 == 7.
    let ectx = &dev.input_context().endpoints[2];
    assert_eq!((ectx.dw0 >> 16) & 0xff, 7);
}

#[test]
fn p4_control_transfer_no_data_emits_two_trbs() {
    let mut ctrl = new_ctrl();
    let mut dev = UsbDevice::new(&mut ctrl, 0).expect("device init failed");
    ctrl.host().push_response(1, 0, None);
    let setup = SetupPacket::set_configuration(1);
    let mut empty: Vec<u8> = Vec::new();
    let n = dev.control_transfer(&mut ctrl, &setup, &mut empty).expect("transfer failed");
    assert_eq!(n, 0);
    // Setup Stage: type 2, IDT, TRT 0, cycle bit 1.
    let t0 = dev.ep0_ring.get(0);
    assert_eq!(t0.control, 0x840 | 1);
    assert_eq!(t0.status, 8);
    // Status Stage: type 4, IOC, DIR IN, cycle 1; and no third TRB.
    let t1 = dev.ep0_ring.get(1);
    assert_eq!(t1.control, 0x1_1020 | 1);
    let t2 = dev.ep0_ring.get(2);
    assert_eq!(t2.control, 0);
    assert_eq!(dev.ep0_ring.index(), 2);
}

#[test]
fn p4_control_transfer_in_and_out_trt() {
    let mut ctrl = new_ctrl();
    let mut dev = UsbDevice::new(&mut ctrl, 0).expect("device init failed");
    // IN with data: Setup TRT 3, Data DIR 1, Status DIR 0.
    ctrl.host().push_response(1, 0, Some(vec![0u8; 4]));
    let setup_in = SetupPacket::new(0x80, 6, 0, 0, 4);
    let mut buf = vec![0u8; 4];
    dev.control_transfer(&mut ctrl, &setup_in, &mut buf).expect("IN transfer failed");
    assert_eq!(dev.ep0_ring.get(0).control, 0x3_0840 | 1);
    assert_eq!(dev.ep0_ring.get(1).control, 0x1_0c20 | 1);
    assert_eq!(dev.ep0_ring.get(1).status, 4);
    assert_eq!(dev.ep0_ring.get(2).control, 0x1020 | 1);
    // OUT with data: Setup TRT 2, Data DIR 0, Status DIR 1.
    ctrl.host().push_response(1, 0, None);
    let setup_out = SetupPacket::new(0x00, 9, 0, 0, 4);
    let mut out = vec![1u8, 2, 3, 4];
    dev.control_transfer(&mut ctrl, &setup_out, &mut out).expect("OUT transfer failed");
    assert_eq!(dev.ep0_ring.get(3).control, 0x2_0840 | 1);
    assert_eq!(dev.ep0_ring.get(4).control, 0xc20 | 1);
    assert_eq!(dev.ep0_ring.get(5).control, 0x1_1020 | 1);
}

#[test]
fn p5_short_packet_accounting() {
    let mut ctrl = new_ctrl();
    let mut dev = UsbDevice::new(&mut ctrl, 0).expect("device init failed");
    // The mock delivers 5 of the 8 requested bytes: Short Packet with
    // residual 3.
    ctrl.host().push_response(13, 3, Some(vec![0xaa, 0xbb, 0xcc, 0xdd, 0xee]));
    let setup = SetupPacket::new(0x80, 6, 0, 0, 8);
    let mut buf = vec![0u8; 8];
    let n = dev.control_transfer(&mut ctrl, &setup, &mut buf).expect("transfer failed");
    assert_eq!(n, 5);
    assert_eq!(&buf[..5], &[0xaa, 0xbb, 0xcc, 0xdd, 0xee]);
    assert_eq!(&buf[5..], &[0, 0, 0]);
}

#[test]
fn p6_stall_surfaces_distinctly_and_frees_buffer() {
    let mut ctrl = new_ctrl();
    let mut dev = UsbDevice::new(&mut ctrl, 0).expect("device init failed");
    ctrl.host().push_response(6, 0, None);
    let setup = SetupPacket::new(0x80, 6, 0, 0, 8);
    let mut buf = vec![0u8; 8];
    let before_allocs = ctrl.host().st.borrow().allocs.len();
    let r = dev.control_transfer(&mut ctrl, &setup, &mut buf);
    assert_eq!(r, Err(UsbError::Stall));
    assert_ne!(r, Err(UsbError::XferFail(6)));
    let st = ctrl.host().st.borrow();
    // Exactly one buffer was allocated for the transfer, and it was freed.
    assert_eq!(st.allocs.len(), before_allocs + 1);
    let (data_addr, data_size) = *st.allocs.last().unwrap();
    assert!(st.frees.contains(&(data_addr, data_size)));
}

#[test]
fn transfer_fail_code_carried() {
    let mut ctrl = new_ctrl();
    let mut dev = UsbDevice::new(&mut ctrl, 0).expect("device init failed");
    ctrl.host().push_response(4, 0, None); // USB Transaction Error
    let setup = SetupPacket::new(0x80, 6, 0, 0, 8);
    let mut buf = vec![0u8; 8];
    assert_eq!(dev.control_transfer(&mut ctrl, &setup, &mut buf), Err(UsbError::XferFail(4)));
}

#[test]
fn queue_transfer_unconfigured_endpoint_fails() {
    let mut ctrl = new_ctrl();
    let mut dev = UsbDevice::new(&mut ctrl, 0).expect("device init failed");
    let buf = xhci_core::PhysMem { virt: ARENA_BASE, phys: ARENA_BASE as u64, size: 16, align: 16 };
    assert_eq!(
        dev.queue_transfer(&mut ctrl, 2, true, &buf, 16),
        Err(UsbError::InvEndpoint)
    );
}

#[test]
fn queue_transfer_enqueues_normal_trb() {
    let mut ctrl = new_ctrl();
    let mut dev = UsbDevice::new(&mut ctrl, 0).expect("device init failed");
    let ep = EndpointDesc {
        length: 7,
        desc_type: 5,
        endpoint_address: 0x81,
        attributes: 3,
        max_packet_size: 8,
        interval: 10,
    };
    dev.configure_endpoint(&mut ctrl, &ep).expect("configure failed");
    ctrl.host().push_response(1, 0, Some(vec![9u8; 8]));
    let buf = xhci_core::PhysMem::allocate(ctrl.host(), 8, 64).expect("alloc failed");
    dev.queue_transfer(&mut ctrl, 1, true, &buf, 8).expect("queue failed");
    // DCI 3 serves EP1 IN; its ring got a Normal TRB with IOC.
    let ring = dev.ep_rings[2].as_ref().expect("ring missing");
    let t = ring.get(0);
    assert_eq!(t.control, 0x420 | 1);
    assert_eq!(t.param, buf.phys);
    assert_eq!(t.status, 8);
}

#[test]
fn command_failure_carries_code() {
    let mut ctrl = new_ctrl();
    ctrl.host().st.borrow_mut().cmd_code = 9; // e.g. No Slots Available
    let r = ctrl.enable_slot();
    assert_eq!(r, Err(UsbError::CmdFail(9)));
}

#[test]
fn event_ring_wraps_twice_with_ccs_toggles() {
    let mut ctrl = new_ctrl();
    // 2 * EVENT_RING_SIZE transfer events through the 256-slot ring.
    for _ in 0..2 {
        for _ in 0..256 {
            ctrl.host()
                .st
                .borrow_mut()
                .post_event(0, 1 << 24, (32 << 10) | (7 << 24));
        }
        for _ in 0..256 {
            let evt = ctrl.poll_event().expect("event missing");
            assert_eq!(evt.slot_id(), 7);
        }
    }
    // After two full wraps the consumer cycle state is back where it began.
    assert_eq!(ctrl.event_ring.index(), 0);
    assert!(ctrl.event_ring.cycle_state());
    assert!(ctrl.poll_event().is_none());
}

#[test]
fn controller_release_stops_and_unmaps() {
    let host = MockDma::new();
    let state = Rc::clone(&host.st);
    let ctrl = XhciCtrl::new(host, MMIO_PHYS).expect("controller init failed");
    let dcbaa = (ctrl.dcbaa.virt, ctrl.dcbaa.size);
    let cmd_ring = (ctrl.cmd_ring.mem.virt, ctrl.cmd_ring.mem.size);
    let mmio = ctrl.mmio;
    let mmio_size = ctrl.mmio_size;
    ctrl.release();
    let st = state.borrow();
    // The controller was stopped: Run is clear.
    assert_eq!(st.usbcmd & 1, 0);
    // The DCBAA and the command ring were released, and the full MMIO
    // window was unmapped.
    assert!(st.frees.contains(&dcbaa));
    assert!(st.frees.contains(&cmd_ring));
    assert!(st.mmio_unmapped.contains(&(mmio, mmio_size)));
}

#[test]
fn device_release_disables_slot_and_frees() {
    let mut ctrl = new_ctrl();
    let dev = UsbDevice::new(&mut ctrl, 0).expect("device init failed");
    let ep0 = (dev.ep0_ring.mem.virt, dev.ep0_ring.mem.size);
    let input_ctx = (dev.input_ctx.virt, dev.input_ctx.size);
    let device_ctx = (dev.device_ctx.virt, dev.device_ctx.size);
    dev.release(&mut ctrl);
    let st = ctrl.host().st.borrow();
    // A Disable Slot command (type 10) for slot 1 went by.
    let disable = st
        .cmd_log
        .iter()
        .find(|(_, _, c)| (c >> 10) & 0x3f == 10)
        .expect("no Disable Slot command");
    assert_eq!((disable.2 >> 24) & 0xff, 1);
    // The EP0 ring and both context regions were released via the bridge.
    assert!(st.frees.contains(&ep0));
    assert!(st.frees.contains(&input_ctx));
    assert!(st.frees.contains(&device_ctx));
}

#[test]
fn hid_device_keyboard_flow() {
    let mut ctrl = new_ctrl();
    let mut dev = UsbDevice::new(&mut ctrl, 0).expect("device init failed");
    let iface = xhci_core::InterfaceDesc {
        length: 9,
        desc_type: 4,
        interface_number: 0,
        alternate_setting: 0,
        num_endpoints: 1,
        interface_class: 3,
        interface_subclass: 1,
        interface_protocol: 1,
        interface: 0,
    };
    let ep = EndpointDesc {
        length: 7,
        desc_type: 5,
        endpoint_address: 0x81,
        attributes: 3,
        max_packet_size: 8,
        interval: 10,
    };
    // Responses for SET_PROTOCOL and SET_IDLE during binding.
    ctrl.host().push_response(1, 0, None);
    ctrl.host().push_response(1, 0, None);
    let hid = xhci_core::HidDevice::from_interface(&mut dev, &mut ctrl, &iface, &ep)
        .expect("hid bind failed");
    assert_eq!(hid.hid_type(), xhci_core::HidType::Keyboard);
    // 'a' pressed with left shift held.
    ctrl.host().push_response(1, 0, Some(vec![0x02, 0, 0x04, 0, 0, 0, 0, 0]));
    let report = hid.read_keyboard(&mut dev, &mut ctrl).expect("read failed");
    assert!(report.shift());
    assert!(!report.ctrl());
    assert_eq!(report.keys[0], 0x04);
    assert_eq!(
        xhci_core::scancode_to_ascii(report.keys[0], report.shift()),
        Some('A')
    );
}

#[test]
fn msc_device_inquiry_flow() {
    let mut ctrl = new_ctrl();
    let mut dev = UsbDevice::new(&mut ctrl, 0).expect("device init failed");
    let iface = xhci_core::InterfaceDesc {
        length: 9,
        desc_type: 4,
        interface_number: 0,
        alternate_setting: 0,
        num_endpoints: 2,
        interface_class: 8,
        interface_subclass: 6,
        interface_protocol: 0x50,
        interface: 0,
    };
    let ep_in = EndpointDesc {
        length: 7,
        desc_type: 5,
        endpoint_address: 0x81,
        attributes: 2,
        max_packet_size: 512,
        interval: 0,
    };
    let ep_out = EndpointDesc {
        length: 7,
        desc_type: 5,
        endpoint_address: 0x02,
        attributes: 2,
        max_packet_size: 512,
        interval: 0,
    };
    // GET MAX LUN answers 0.
    ctrl.host().push_response(1, 0, Some(vec![0u8]));
    let mut msc = xhci_core::MscDevice::from_interface(&mut dev, &mut ctrl, &iface, &ep_in, &ep_out)
        .expect("msc bind failed");
    assert_eq!(msc.max_lun(), 0);

    // INQUIRY: CBW out, data in, CSW in.
    let mut inquiry_bytes = vec![0u8; 36];
    inquiry_bytes[0] = 0x00; // direct access device
    inquiry_bytes[1] = 0x80; // removable
    ctrl.host().push_response(1, 0, None); // CBW accepted
    ctrl.host().push_response(1, 36, Some(inquiry_bytes)); // data phase
    let mut csw = vec![0u8; 13];
    csw[0..4].copy_from_slice(&0x53425355u32.to_le_bytes());
    csw[4..8].copy_from_slice(&1u32.to_le_bytes());
    csw[12] = 0;
    ctrl.host().push_response(1, 0, Some(csw)); // status phase
    let data = msc.inquiry(&mut dev, &mut ctrl, 0).expect("inquiry failed");
    assert_eq!(data.device_type(), 0);
    assert!(data.is_removable());
}
