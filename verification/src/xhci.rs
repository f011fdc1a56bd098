//! The xHCI controller: register decode, initialization, command
//! submission, port operations and event polling.
//!
//! All MMIO goes through the platform bridge as volatile loads and stores;
//! a well-formedness invariant keeps every access inside the mapped window.
//! Every wait is a bounded poll that reports `Timeout` when the controller
//! does not respond within the budget.

use vstd::prelude::*;

use crate::completion;
use crate::err::UsbError;
use crate::ram::{Dma, PhysMem};
use crate::reg;
use crate::ring::{
    cycle_after_enqueue, index_after_enqueue, slots_after_enqueue, EventRing, Ring,
};
use crate::trb::Trb;
use crate::trb_type;

verus! {

/// Size of the first, provisional MMIO mapping: enough for the capability
/// registers.
pub const MMIO_INIT_SIZE: usize = 0x1000;

/// Default number of TRBs in the command ring.
pub const CMD_RING_SIZE: usize = 256;

/// Default number of TRBs in the event ring.
pub const EVENT_RING_SIZE: usize = 256;

/// How many polls a blocking wait performs before it reports `Timeout`.
pub const SPIN_LIMIT: u64 = 10_000_000;

/// The number of device slots the controller supports: HCSPARAMS1 bits 7:0.
pub fn decode_max_slots(hcs1: u32) -> (r: u8)
    ensures
        r == hcs1 & 0xff,
{
    proof {
        assert((hcs1 & 0xff) < 256) by (bit_vector);
    }
    (hcs1 & 0xff) as u8
}

/// The number of root hub ports: HCSPARAMS1 bits 31:24.
pub fn decode_max_ports(hcs1: u32) -> (r: u8)
    ensures
        r == (hcs1 >> 24) & 0xff,
{
    proof {
        assert(((hcs1 >> 24) & 0xff) < 256) by (bit_vector);
    }
    ((hcs1 >> 24) & 0xff) as u8
}

/// The number of scratchpad buffers the controller requires: HCSPARAMS2
/// bits 31:27 are the low five bits and bits 25:21 the high five.
pub fn decode_max_scratchpad(hcs2: u32) -> (r: u32)
    ensures
        r == ((hcs2 >> 27) & 0x1f) | (((hcs2 >> 21) & 0x1f) << 5),
        r <= 1023,
{
    proof {
        assert((((hcs2 >> 27) & 0x1f) | (((hcs2 >> 21) & 0x1f) << 5)) <= 1023) by (bit_vector);
    }
    ((hcs2 >> 27) & 0x1f) | (((hcs2 >> 21) & 0x1f) << 5)
}

/// The full MMIO window: it must cover the runtime registers through
/// interrupter 0, the doorbell array, and at least 64 KiB.
pub open spec fn spec_mmio_size(rts_offset: u32, db_offset: u32, max_slots: u8) -> int {
    let a = rts_offset + 0x40;
    let b = db_offset + (max_slots + 1) * 4;
    if a >= b && a >= 0x10000 {
        a
    } else if b >= a && b >= 0x10000 {
        b
    } else {
        0x10000
    }
}

/// Computes the full MMIO window size from the capability registers.
pub fn compute_mmio_size(rts_offset: u32, db_offset: u32, max_slots: u8) -> (r: u64)
    ensures
        r == spec_mmio_size(rts_offset, db_offset, max_slots),
        r >= 0x10000,
        r >= rts_offset + 0x40,
        r >= db_offset + (max_slots + 1) * 4,
{
    let a: u64 = rts_offset as u64 + 0x40;
    let b: u64 = db_offset as u64 + (max_slots as u64 + 1) * 4;
    if a >= b && a >= 0x10000 {
        a
    } else if b >= a && b >= 0x10000 {
        b
    } else {
        0x10000
    }
}

/// An xHCI controller: the mapped MMIO window, the derived register bases,
/// the DCBAA and scratchpad regions, and the Command and Event Rings.
pub struct XhciCtrl<H: Dma> {
    /// The platform bridge.
    pub host: H,
    /// Virtual base of the mapped MMIO window.
    pub mmio: usize,
    /// Size of the mapped MMIO window.
    pub mmio_size: usize,
    /// CAPLENGTH: offset of the operational registers.
    pub cap_length: u8,
    /// Virtual base of the operational registers.
    pub op_base: usize,
    /// Virtual base of the runtime registers.
    pub rt_base: usize,
    /// Offset of the doorbell array inside the window.
    pub db_offset: u32,
    /// Number of device slots the controller supports.
    pub max_slots: u8,
    /// Number of root hub ports.
    pub max_ports: u8,
    /// The Device Context Base Address Array: `(max_slots + 1)` pointers.
    pub dcbaa: PhysMem,
    /// The scratchpad pointer array and buffer block, when the controller
    /// requires scratchpad pages; both stay alive for the controller's life.
    pub scratchpad: Option<(PhysMem, PhysMem)>,
    /// The Command Ring.
    pub cmd_ring: Ring,
    /// The Event Ring with its segment table.
    pub event_ring: EventRing,
}

impl<H: Dma> XhciCtrl<H> {
    /// Every register access the controller makes stays inside the mapped
    /// window, the derived bases agree with the capability values, and both
    /// rings are well-formed.
    pub open spec fn wf(self) -> bool {
        &&& self.mmio + self.mmio_size <= usize::MAX
        &&& self.mmio_size >= 0x10000
        &&& self.op_base == self.mmio + self.cap_length
        &&& self.mmio <= self.rt_base
        &&& self.rt_base + 0x40 <= self.mmio + self.mmio_size
        &&& self.db_offset + (self.max_slots + 1) * 4 <= self.mmio_size
        &&& self.dcbaa.wf()
        &&& self.dcbaa.size == (self.max_slots + 1) * 8
        &&& self.cmd_ring.wf()
        &&& self.event_ring.wf()
    }

    /// Volatile read of a 32-bit operational register.
    fn read_op(&self, offset: usize) -> u32
        requires
            self.wf(),
            offset + 4 <= 0x40,
    {
        self.host.read32(self.op_base + offset)
    }

    /// Volatile write of a 32-bit operational register.
    fn write_op(&self, offset: usize, value: u32)
        requires
            self.wf(),
            offset + 4 <= 0x40,
    {
        self.host.write32(self.op_base + offset, value);
    }

    /// Volatile write of a 64-bit operational register.
    fn write_op64(&self, offset: usize, value: u64)
        requires
            self.wf(),
            offset + 8 <= 0x40,
    {
        self.host.write64(self.op_base + offset, value);
    }

    /// Polls an operational register until the masked bits are all zero
    /// (or, with `want_zero` false, not all zero), up to the spin budget.
    fn wait_op_mask(&self, offset: usize, mask: u32, want_zero: bool) -> (r: Result<(), UsbError>)
        requires
            self.wf(),
            offset + 4 <= 0x40,
        ensures
            match r {
                Ok(_) => true,
                Err(e) => e == UsbError::Timeout,
            },
    {
        let mut tries: u64 = SPIN_LIMIT;
        while tries > 0
            invariant
                self.wf(),
                offset + 4 <= 0x40,
            decreases tries,
        {
            let v = self.read_op(offset);
            let hit = if want_zero {
                v & mask == 0
            } else {
                v & mask != 0
            };
            if hit {
                return Ok(());
            }
            tries = tries - 1;
        }
        Err(UsbError::Timeout)
    }

    /// Brings the controller from an unknown state to running.
    ///
    /// Stops it if it runs and awaits the halt; resets it and awaits both
    /// the reset bit and Controller Not Ready clearing; programs CONFIG
    /// with the slot count, DCBAAP, CRCR with the command ring base and the
    /// cycle state, and interrupter 0 with the event ring; then sets Run
    /// and Interrupter Enable and awaits the halt bit clearing.
    fn init(&mut self) -> (r: Result<(), UsbError>)
        requires
            old(self).wf(),
        ensures
            final (self).wf(),
            *final (self) == *old(self),
            match r {
                Ok(_) => true,
                Err(e) => e == UsbError::Timeout,
            },
    {
        // Stop the controller if it is running, then await the halt.
        let usbcmd = self.read_op(reg::USBCMD);
        if usbcmd & reg::USBCMD_RUN != 0 {
            self.write_op(reg::USBCMD, usbcmd & 0xffff_fffe);
            match self.wait_op_mask(reg::USBSTS, reg::USBSTS_HCH, false) {
                Ok(_) => (),
                Err(e) => return Err(e),
            }
        }
        // Reset, and await both HCRST and Controller Not Ready clearing.
        self.write_op(reg::USBCMD, reg::USBCMD_HCRST);
        match self.wait_op_mask(reg::USBCMD, reg::USBCMD_HCRST, true) {
            Ok(_) => (),
            Err(e) => return Err(e),
        }
        match self.wait_op_mask(reg::USBSTS, reg::USBSTS_CNR, true) {
            Ok(_) => (),
            Err(e) => return Err(e),
        }
        // Configure the slot count and the DCBAA.
        self.write_op(reg::CONFIG, self.max_slots as u32);
        self.write_op64(reg::DCBAAP, self.dcbaa.phys);
        // Command ring: base plus the Ring Cycle State bit.
        let crcr = self.cmd_ring.phys() | 1;
        self.write_op64(reg::CRCR, crcr);
        // Interrupter 0: one ERST segment, its base, and the dequeue pointer.
        let int_base = self.rt_base + 0x20;
        self.host.write32(int_base + reg::ERSTSZ, 1);
        self.host.write64(int_base + reg::ERSTBA, self.event_ring.erst_phys());
        self.host.write64(int_base + reg::ERDP, self.event_ring.ring_phys());
        // Run with interrupts enabled, and await the halt bit clearing.
        self.write_op(reg::USBCMD, reg::USBCMD_RUN | reg::USBCMD_INTE);
        match self.wait_op_mask(reg::USBSTS, reg::USBSTS_HCH, true) {
            Ok(_) => (),
            Err(e) => return Err(e),
        }
        Ok(())
    }

    /// Maps the controller at `mmio_phys`, reads its capabilities, remaps
    /// the full window, allocates the DCBAA, scratchpad, Command Ring and
    /// Event Ring, and runs the initialization sequence.
    pub fn new(host: H, mmio_phys: usize) -> (r: Result<XhciCtrl<H>, UsbError>)
        ensures
            match r {
                Ok(c) => {
                    &&& c.wf()
                    &&& c.cmd_ring.count@ == 0
                    &&& c.cmd_ring.slots@.len() == CMD_RING_SIZE
                    &&& c.event_ring.dequeued@ == 0
                    &&& c.event_ring.size == EVENT_RING_SIZE
                },
                Err(e) => e == UsbError::MapFail || e == UsbError::OoRam || e
                    == UsbError::Timeout,
            },
    {
        // Provisional mapping, just for the capability registers.
        let init_mmio = match host.map_mmio(mmio_phys, MMIO_INIT_SIZE) {
            Some(m) => m,
            None => return Err(UsbError::MapFail),
        };
        if init_mmio > usize::MAX - MMIO_INIT_SIZE {
            host.unmap_mmio(init_mmio, MMIO_INIT_SIZE);
            return Err(UsbError::MapFail);
        }
        let cap_length = host.read8(init_mmio);
        let hcs1 = host.read32(init_mmio + reg::HCSPARAMS1);
        let hcs2 = host.read32(init_mmio + reg::HCSPARAMS2);
        let db_offset = host.read32(init_mmio + reg::DBOFF);
        let rts_offset = host.read32(init_mmio + reg::RTSOFF);
        host.unmap_mmio(init_mmio, MMIO_INIT_SIZE);

        let max_slots = decode_max_slots(hcs1);
        let max_ports = decode_max_ports(hcs1);
        let max_scratchpad = decode_max_scratchpad(hcs2);

        // The full window, and the real mapping.
        let wanted = compute_mmio_size(rts_offset, db_offset, max_slots);
        if wanted > usize::MAX as u64 {
            return Err(UsbError::MapFail);
        }
        let mmio_size = wanted as usize;
        let mmio = match host.map_mmio(mmio_phys, mmio_size) {
            Some(m) => m,
            None => return Err(UsbError::MapFail),
        };
        if mmio > usize::MAX - mmio_size {
            host.unmap_mmio(mmio, mmio_size);
            return Err(UsbError::MapFail);
        }
        let op_base = mmio + cap_length as usize;
        let rt_base = mmio + rts_offset as usize;

        // The DCBAA: one 64-bit pointer per slot, slot 0 included, zeroed.
        let dcbaa = match PhysMem::allocate(&host, (max_slots as usize + 1) * 8, 64) {
            Ok(m) => m,
            Err(e) => {
                host.unmap_mmio(mmio, mmio_size);
                return Err(e);
            },
        };
        let mut i: usize = 0;
        while i < max_slots as usize + 1
            invariant
                dcbaa.wf(),
                dcbaa.size == (max_slots + 1) * 8,
                i <= max_slots + 1,
            decreases max_slots + 1 - i,
        {
            host.write64(dcbaa.virt + 8 * i, 0);
            i = i + 1;
        }

        // Scratchpad: a page-aligned buffer block and a pointer array whose
        // entries point at the block's pages; DCBAA[0] points at the array.
        // Both regions stay owned for the controller's lifetime.
        let scratchpad = if max_scratchpad > 0 {
            let count = max_scratchpad as usize;
            let page = host.page_size();
            if page == 0 || page > 0x1000_0000 {
                dcbaa.free(&host);
                host.unmap_mmio(mmio, mmio_size);
                return Err(UsbError::OoRam);
            }
            proof {
                assert(count * page <= 0x3ff * 0x1000_0000) by (nonlinear_arith)
                    requires
                        count <= 0x3ff,
                        page <= 0x1000_0000,
                ;
            }
            let total64: u64 = (count as u64) * (page as u64);
            if total64 > usize::MAX as u64 {
                dcbaa.free(&host);
                host.unmap_mmio(mmio, mmio_size);
                return Err(UsbError::OoRam);
            }
            let total = total64 as usize;
            let sp_array = match PhysMem::allocate(&host, count * 8, 64) {
                Ok(m) => m,
                Err(e) => {
                    dcbaa.free(&host);
                    host.unmap_mmio(mmio, mmio_size);
                    return Err(e);
                },
            };
            let sp_bufs = match PhysMem::allocate(&host, total, page) {
                Ok(m) => m,
                Err(e) => {
                    sp_array.free(&host);
                    dcbaa.free(&host);
                    host.unmap_mmio(mmio, mmio_size);
                    return Err(e);
                },
            };
            let mut k: usize = 0;
            while k < count
                invariant
                    sp_array.wf(),
                    sp_array.size == count * 8,
                    sp_bufs.wf(),
                    sp_bufs.size == total,
                    total == count * page,
                    page >= 1,
                    k <= count,
                decreases count - k,
            {
                proof {
                    assert(k * page + page <= count * page) by (nonlinear_arith)
                        requires
                            k < count,
                            page >= 1,
                    ;
                }
                host.write64(sp_array.virt + 8 * k, sp_bufs.phys + (k * page) as u64);
                k = k + 1;
            }
            host.write64(dcbaa.virt, sp_array.phys);
            Some((sp_array, sp_bufs))
        } else {
            None
        };

        let cmd_ring = match Ring::new(&host, CMD_RING_SIZE) {
            Ok(ring) => ring,
            Err(e) => {
                match scratchpad {
                    Some((a, b)) => {
                        a.free(&host);
                        b.free(&host);
                    },
                    None => (),
                }
                dcbaa.free(&host);
                host.unmap_mmio(mmio, mmio_size);
                return Err(e);
            },
        };
        let event_ring = match EventRing::new(&host, EVENT_RING_SIZE) {
            Ok(er) => er,
            Err(e) => {
                cmd_ring.free(&host);
                match scratchpad {
                    Some((a, b)) => {
                        a.free(&host);
                        b.free(&host);
                    },
                    None => (),
                }
                dcbaa.free(&host);
                host.unmap_mmio(mmio, mmio_size);
                return Err(e);
            },
        };

        let mut ctrl = XhciCtrl {
            host,
            mmio,
            mmio_size,
            cap_length,
            op_base,
            rt_base,
            db_offset,
            max_slots,
            max_ports,
            dcbaa,
            scratchpad,
            cmd_ring,
            event_ring,
        };
        match ctrl.init() {
            Ok(_) => Ok(ctrl),
            Err(e) => Err(e),
        }
    }

    /// Rings doorbell 0: new work on the command ring.
    fn ring_cmd_doorbell(&self)
        requires
            self.wf(),
    {
        self.host.write32(self.mmio + self.db_offset as usize, 0);
    }

    /// Rings a device slot's doorbell with the given target (the DCI for
    /// transfer rings).
    pub fn ring_doorbell(&self, slot: u8, target: u8)
        requires
            self.wf(),
            slot <= self.max_slots,
    {
        self.host.write32(self.mmio + self.db_offset as usize + slot as usize * 4, target as u32);
    }

    /// Writes the current dequeue pointer, with the Event Handler Busy bit,
    /// back to interrupter 0.
    fn update_erdp(&self)
        requires
            self.wf(),
            self.event_ring.wf(),
    {
        self.host.write64(self.rt_base + 0x20 + reg::ERDP, self.event_ring.erdp_value());
    }

    /// Polls the event ring once; a dequeued event is acknowledged through
    /// ERDP and returned.
    pub fn poll_event(&mut self) -> (r: Option<Trb>)
        requires
            old(self).wf(),
        ensures
            final (self).wf(),
            final (self).cmd_ring == old(self).cmd_ring,
            final (self).max_slots == old(self).max_slots,
            final (self).host == old(self).host,
            r is Some ==> final (self).event_ring.dequeued@ == old(self).event_ring.dequeued@ + 1,
            r is None ==> *final (self) == *old(self),
    {
        let t = self.event_ring.try_dequeue(&self.host);
        if t.is_some() {
            self.update_erdp();
        }
        t
    }

    /// Awaits the next Command Completion Event, discarding other events,
    /// up to the spin budget.
    ///
    /// Returns the completion TRB when its code is Success, `CmdFail` with
    /// the code when it is not, and `Timeout` when no completion arrives.
    pub fn wait_command(&mut self) -> (r: Result<Trb, UsbError>)
        requires
            old(self).wf(),
        ensures
            final (self).wf(),
            final (self).cmd_ring == old(self).cmd_ring,
            final (self).max_slots == old(self).max_slots,
            final (self).host == old(self).host,
            match r {
                Ok(t) => t.spec_trb_type() == trb_type::COMMAND_COMPLETION
                    && t.spec_completion_code() == completion::SUCCESS,
                Err(e) => e == UsbError::Timeout || (e matches UsbError::CmdFail(c)
                    && c != completion::SUCCESS),
            },
    {
        let mut tries: u64 = SPIN_LIMIT;
        while tries > 0
            invariant
                self.wf(),
                self.cmd_ring == old(self).cmd_ring,
                self.max_slots == old(self).max_slots,
                self.host == old(self).host,
            decreases tries,
        {
            let polled = self.poll_event();
            match polled {
                Some(trb) => {
                    if trb.trb_type() as u32 == trb_type::COMMAND_COMPLETION {
                        let code = trb.completion_code();
                        if code != completion::SUCCESS {
                            return Err(UsbError::CmdFail(code));
                        }
                        return Ok(trb);
                    }
                },
                None => (),
            }
            tries = tries - 1;
        }
        Err(UsbError::Timeout)
    }

    /// Enqueues a command TRB on the Command Ring, rings doorbell 0, and
    /// awaits its completion.
    pub fn submit_command(&mut self, trb: Trb) -> (r: Result<Trb, UsbError>)
        requires
            old(self).wf(),
        ensures
            final (self).wf(),
            final (self).max_slots == old(self).max_slots,
            final (self).host == old(self).host,
            final (self).cmd_ring.count@ == old(self).cmd_ring.count@ + 1,
            final (self).cmd_ring.slots@ == slots_after_enqueue(
                old(self).cmd_ring.slots@,
                old(self).cmd_ring.enqueue_index as int,
                old(self).cmd_ring.cycle,
                old(self).cmd_ring.mem.phys,
                trb,
            ),
            final (self).cmd_ring.enqueue_index as int == index_after_enqueue(
                old(self).cmd_ring.slots@,
                old(self).cmd_ring.enqueue_index as int,
            ),
            final (self).cmd_ring.cycle == cycle_after_enqueue(
                old(self).cmd_ring.slots@,
                old(self).cmd_ring.enqueue_index as int,
                old(self).cmd_ring.cycle,
            ),
            final (self).cmd_ring.mem == old(self).cmd_ring.mem,
            match r {
                Ok(t) => t.spec_trb_type() == trb_type::COMMAND_COMPLETION
                    && t.spec_completion_code() == completion::SUCCESS,
                Err(e) => e == UsbError::Timeout || (e matches UsbError::CmdFail(c)
                    && c != completion::SUCCESS),
            },
    {
        self.cmd_ring.enqueue(&self.host, trb);
        self.ring_cmd_doorbell();
        self.wait_command()
    }

    /// Issues an Enable Slot command and returns the slot id from the
    /// completion event.
    pub fn enable_slot(&mut self) -> (r: Result<u8, UsbError>)
        requires
            old(self).wf(),
        ensures
            final (self).wf(),
            final (self).max_slots == old(self).max_slots,
            final (self).host == old(self).host,
            final (self).cmd_ring.count@ == old(self).cmd_ring.count@ + 1,
            final (self).cmd_ring.slots@ == slots_after_enqueue(
                old(self).cmd_ring.slots@,
                old(self).cmd_ring.enqueue_index as int,
                old(self).cmd_ring.cycle,
                old(self).cmd_ring.mem.phys,
                Trb { param: 0, status: 0, control: trb_type::ENABLE_SLOT << 10 },
            ),
            final (self).cmd_ring.enqueue_index as int == index_after_enqueue(
                old(self).cmd_ring.slots@,
                old(self).cmd_ring.enqueue_index as int,
            ),
            final (self).cmd_ring.cycle == cycle_after_enqueue(
                old(self).cmd_ring.slots@,
                old(self).cmd_ring.enqueue_index as int,
                old(self).cmd_ring.cycle,
            ),
            final (self).cmd_ring.mem == old(self).cmd_ring.mem,
            match r {
                Ok(_) => true,
                Err(e) => e == UsbError::Timeout || (e matches UsbError::CmdFail(c)
                    && c != completion::SUCCESS),
            },
    {
        let trb = Trb { param: 0, status: 0, control: trb_type::ENABLE_SLOT << 10 };
        match self.submit_command(trb) {
            Ok(evt) => Ok(evt.slot_id()),
            Err(e) => Err(e),
        }
    }

    /// Issues a Disable Slot command for the given slot.
    pub fn disable_slot(&mut self, slot_id: u8) -> (r: Result<(), UsbError>)
        requires
            old(self).wf(),
        ensures
            final (self).wf(),
            final (self).max_slots == old(self).max_slots,
            final (self).host == old(self).host,
            final (self).cmd_ring.count@ == old(self).cmd_ring.count@ + 1,
            final (self).cmd_ring.slots@ == slots_after_enqueue(
                old(self).cmd_ring.slots@,
                old(self).cmd_ring.enqueue_index as int,
                old(self).cmd_ring.cycle,
                old(self).cmd_ring.mem.phys,
                Trb {
                    param: 0,
                    status: 0,
                    control: (trb_type::DISABLE_SLOT << 10) | ((slot_id as u32) << 24),
                },
            ),
            final (self).cmd_ring.enqueue_index as int == index_after_enqueue(
                old(self).cmd_ring.slots@,
                old(self).cmd_ring.enqueue_index as int,
            ),
            final (self).cmd_ring.cycle == cycle_after_enqueue(
                old(self).cmd_ring.slots@,
                old(self).cmd_ring.enqueue_index as int,
                old(self).cmd_ring.cycle,
            ),
            final (self).cmd_ring.mem == old(self).cmd_ring.mem,
            match r {
                Ok(_) => true,
                Err(e) => e == UsbError::Timeout || (e matches UsbError::CmdFail(c)
                    && c != completion::SUCCESS),
            },
    {
        let trb = Trb {
            param: 0,
            status: 0,
            control: (trb_type::DISABLE_SLOT << 10) | ((slot_id as u32) << 24),
        };
        match self.submit_command(trb) {
            Ok(_) => Ok(()),
            Err(e) => Err(e),
        }
    }

    /// Volatile read of a port's PORTSC register; ports are indexed from
    /// zero here.
    pub fn port_status(&self, port: u8) -> u32
        requires
            self.wf(),
    {
        let offset = reg::port_reg_base(self.cap_length, port);
        self.host.read32(self.mmio + offset)
    }

    /// Volatile write of a port's PORTSC register — for clearing change
    /// bits, starting a reset, and the like.
    pub fn write_port_status(&self, port: u8, value: u32)
        requires
            self.wf(),
    {
        let offset = reg::port_reg_base(self.cap_length, port);
        self.host.write32(self.mmio + offset, value);
    }

    /// Resets a port: writes Port Reset with only Port Power preserved,
    /// awaits the reset bit clearing (up to the spin budget), then writes
    /// Port Reset Change back to clear it.
    pub fn reset_port(&self, port: u8) -> (r: Result<(), UsbError>)
        requires
            self.wf(),
        ensures
            match r {
                Ok(_) => true,
                Err(e) => e == UsbError::Timeout,
            },
    {
        let portsc = self.port_status(port);
        self.write_port_status(port, (portsc & reg::PORTSC_PP) | reg::PORTSC_PR);
        let mut tries: u64 = SPIN_LIMIT;
        while tries > 0
            invariant
                self.wf(),
            decreases tries,
        {
            let v = self.port_status(port);
            if v & reg::PORTSC_PR == 0 {
                // Reset complete: clear the write-1-to-clear change bit.
                let after = self.port_status(port);
                self.write_port_status(port, after | reg::PORTSC_PRC);
                return Ok(());
            }
            tries = tries - 1;
        }
        Err(UsbError::Timeout)
    }

    /// The port's speed field: PORTSC bits 13:10.
    pub fn port_speed(&self, port: u8) -> u8
        requires
            self.wf(),
    {
        reg::portsc_speed(self.port_status(port))
    }

    /// Whether a device is connected on the port: PORTSC bit 0.
    pub fn port_connected(&self, port: u8) -> bool
        requires
            self.wf(),
    {
        self.port_status(port) & reg::PORTSC_CCS != 0
    }

    /// Writes a Device Context pointer into the DCBAA entry of a slot.
    pub fn set_device_context(&self, slot: u8, phys: u64)
        requires
            self.wf(),
            slot <= self.max_slots,
    {
        self.host.write64(self.dcbaa.virt + slot as usize * 8, phys);
    }

    /// The platform bridge.
    pub fn host(&self) -> (r: &H)
        ensures
            r == self.host,
    {
        &self.host
    }

    /// Number of device slots the controller supports.
    pub fn max_slots(&self) -> (r: u8)
        ensures
            r == self.max_slots,
    {
        self.max_slots
    }

    /// Number of root hub ports.
    pub fn max_ports(&self) -> (r: u8)
        ensures
            r == self.max_ports,
    {
        self.max_ports
    }

    /// Tears the controller down: stops it (clears Run and awaits the halt,
    /// up to the spin budget), releases the DCBAA, the scratchpad regions
    /// and both rings, and unmaps the MMIO window. The stop sequence and
    /// the frees are bridge effects no clause can name.
    pub fn release(self)
        requires
            self.wf(),
    {
        let usbcmd = self.read_op(reg::USBCMD);
        self.write_op(reg::USBCMD, usbcmd & 0xffff_fffe);
        let _ = self.wait_op_mask(reg::USBSTS, reg::USBSTS_HCH, false);
        let XhciCtrl { host, mmio, mmio_size, dcbaa, scratchpad, cmd_ring, event_ring, .. } = self;
        cmd_ring.free(&host);
        event_ring.free(&host);
        match scratchpad {
            Some((array, bufs)) => {
                array.free(&host);
                bufs.free(&host);
            },
            None => (),
        }
        dcbaa.free(&host);
        host.unmap_mmio(mmio, mmio_size);
    }
}

} // verus!
