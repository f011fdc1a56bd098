//! The USB device abstraction: slot enable and addressing, EP0 control
//! transfers, endpoint configuration and the generic endpoint queue.
//!
//! A control transfer assembles a Setup Stage TRB (the 8 request bytes as
//! immediate data), an optional Data Stage TRB, and a Status Stage TRB on
//! the device's EP0 ring, rings the doorbell, and drains Transfer Events
//! for its slot from the controller's event ring.

use vstd::prelude::*;

use crate::completion;
use crate::ctx::{
    dci, ep0_max_packet, spec_dci, spec_xhci_ep_type, spec_xhci_interval, xhci_ep_type,
    xhci_interval, EndpointContext, InputContext, SlotContext, CONTEXT_ALIGN,
    DEVICE_CONTEXT_BYTES, INPUT_CONTEXT_BYTES,
};
use crate::desc::{pack_setup, spec_setup_param, DeviceDesc, EndpointDesc, SetupPacket};
use crate::desc::{parse_config_desc, parse_device_desc};
use crate::err::UsbError;
use crate::ram::{Dma, PhysMem};
use crate::ring::{
    cycle_after_enqueue, index_after_enqueue, slots_after_enqueue, Ring,
};
use crate::trb::Trb;
use crate::trb_type;
use crate::xhci::{XhciCtrl, SPIN_LIMIT};

verus! {

/// Default number of TRBs in a transfer ring.
pub const TRANSFER_RING_SIZE: usize = 256;

/// Whether a Setup packet asks for a device-to-host (IN) data stage:
/// request type bit 7.
pub open spec fn spec_dir_in(s: SetupPacket) -> bool {
    s.request_type & 0x80 != 0
}

/// The Transfer Type field of a Setup Stage TRB: 3 for an IN data stage,
/// 2 for an OUT data stage, 0 when there is no data stage.
pub open spec fn spec_trt(s: SetupPacket, data_len: int) -> u32 {
    if data_len > 0 && s.length > 0 {
        if spec_dir_in(s) {
            3u32
        } else {
            2u32
        }
    } else {
        0u32
    }
}

/// The direction bit of the Status Stage TRB: IN, except after an IN data
/// stage.
pub open spec fn spec_status_dir(s: SetupPacket, data_len: int) -> bool {
    !(data_len > 0 && s.length > 0 && spec_dir_in(s))
}

/// The Setup Stage TRB: the packed Setup bytes as immediate data, a
/// transfer length of 8, type Setup (2), the Immediate Data bit, and the
/// Transfer Type field in bits 17:16.
pub open spec fn spec_setup_stage(s: SetupPacket, data_len: int) -> Trb {
    Trb {
        param: spec_setup_param(s),
        status: 8,
        control: (0x840 + spec_trt(s, data_len) * 0x1_0000) as u32,
    }
}

/// The Data Stage TRB: the data buffer's physical address, the transfer
/// length, type Data (3), Interrupt On Completion, and the direction bit.
pub open spec fn spec_data_stage(data_phys: u64, wlength: u16, dir_in: bool) -> Trb {
    Trb {
        param: data_phys,
        status: wlength as u32,
        control: if dir_in {
            0x1_0c20u32
        } else {
            0xc20u32
        },
    }
}

/// The Status Stage TRB: type Status (4), Interrupt On Completion, and the
/// direction bit.
pub open spec fn spec_status_stage(dir_in: bool) -> Trb {
    Trb {
        param: 0,
        status: 0,
        control: if dir_in {
            0x1_1020u32
        } else {
            0x1020u32
        },
    }
}

/// The TRB sequence a control transfer enqueues: Setup and Status Stage,
/// with a Data Stage between them when the caller passed a buffer.
pub open spec fn spec_control_trbs(s: SetupPacket, data_len: int, data_phys: u64) -> Seq<Trb> {
    if data_len > 0 {
        seq![
            spec_setup_stage(s, data_len),
            spec_data_stage(data_phys, s.length, spec_dir_in(s)),
            spec_status_stage(spec_status_dir(s, data_len)),
        ]
    } else {
        seq![spec_setup_stage(s, 0), spec_status_stage(spec_status_dir(s, 0))]
    }
}

/// A command TRB: the type in control bits 15:10 and the slot id in bits
/// 31:24, with the given parameter.
pub open spec fn spec_cmd_trb(ty: u32, param: u64, slot_id: u8) -> Trb {
    Trb { param, status: 0, control: (ty << 10) | ((slot_id as u32) << 24) }
}

/// The EP0 ring slots after the two or three control-transfer enqueues,
/// starting from ring state `r0`, with `p` the data buffer's physical
/// address (0 when there is no data stage).
pub open spec fn spec_ep0_after_control(
    r0: Ring,
    s: SetupPacket,
    data_len: int,
    p: u64,
    slots_now: Seq<Trb>,
) -> bool {
    let ts = spec_control_trbs(s, data_len, p);
    let s1 = slots_after_enqueue(r0.slots@, r0.enqueue_index as int, r0.cycle, r0.mem.phys, ts[0]);
    let i1 = index_after_enqueue(r0.slots@, r0.enqueue_index as int);
    let c1 = cycle_after_enqueue(r0.slots@, r0.enqueue_index as int, r0.cycle);
    let s2 = slots_after_enqueue(s1, i1, c1, r0.mem.phys, ts[1]);
    let i2 = index_after_enqueue(s1, i1);
    let c2 = cycle_after_enqueue(s1, i1, c1);
    if data_len > 0 {
        slots_now == slots_after_enqueue(s2, i2, c2, r0.mem.phys, ts[2])
    } else {
        slots_now == s2
    }
}

/// The enqueue index after the two or three control-transfer enqueues.
/// The advance depends only on the ring's slot count, which updates keep.
pub open spec fn spec_ep0_index_after_control(r0: Ring, data_len: int) -> int {
    let i1 = index_after_enqueue(r0.slots@, r0.enqueue_index as int);
    if data_len > 0 {
        let i2 = index_after_enqueue(r0.slots@, i1);
        index_after_enqueue(r0.slots@, i2)
    } else {
        index_after_enqueue(r0.slots@, i1)
    }
}

/// The producer cycle state after the two or three control-transfer
/// enqueues.
pub open spec fn spec_ep0_cycle_after_control(r0: Ring, data_len: int) -> bool {
    let i1 = index_after_enqueue(r0.slots@, r0.enqueue_index as int);
    let c1 = cycle_after_enqueue(r0.slots@, r0.enqueue_index as int, r0.cycle);
    if data_len > 0 {
        let i2 = index_after_enqueue(r0.slots@, i1);
        let c2 = cycle_after_enqueue(r0.slots@, i1, c1);
        cycle_after_enqueue(r0.slots@, i2, c2)
    } else {
        cycle_after_enqueue(r0.slots@, i1, c1)
    }
}

/// The GET_DESCRIPTOR request for a 9-byte configuration header probe.
pub open spec fn spec_config_probe_packet(index: u8) -> SetupPacket {
    SetupPacket {
        request_type: 0x80,
        request: 6,
        value: (2 * 0x100 + index) as u16,
        index: 0,
        length: 9,
    }
}

/// The GET_DESCRIPTOR request for a full configuration block of `tl` bytes.
pub open spec fn spec_config_full_packet(index: u8, tl: u16) -> SetupPacket {
    SetupPacket {
        request_type: 0x80,
        request: 6,
        value: (2 * 0x100 + index) as u16,
        index: 0,
        length: tl,
    }
}

/// A configuration-descriptor read as two chained control transfers: the
/// 9-byte probe brings the EP0 ring from its starting state to `mid`, the
/// full read of `tl` bytes — the total length the hardware answered —
/// brings it from `mid` to its final state, and the returned vector holds
/// `tl` bytes.
pub open spec fn spec_config_reads(
    d0: UsbDevice,
    d1: UsbDevice,
    index: u8,
    result: Seq<u8>,
    mid: Ring,
    tl: u16,
    p1: u64,
    p2: u64,
) -> bool {
    &&& spec_ep0_after_control(d0.ep0_ring, spec_config_probe_packet(index), 9, p1, mid.slots@)
    &&& mid.enqueue_index as int == spec_ep0_index_after_control(d0.ep0_ring, 9)
    &&& mid.cycle == spec_ep0_cycle_after_control(d0.ep0_ring, 9)
    &&& mid.mem == d0.ep0_ring.mem
    &&& mid.slots@.len() == d0.ep0_ring.slots@.len()
    &&& spec_ep0_after_control(
        mid,
        spec_config_full_packet(index, tl),
        tl as int,
        p2,
        d1.ep0_ring.slots@,
    )
    &&& result.len() == tl
    &&& d1.ep0_ring.count@ == d0.ep0_ring.count@ + 3 + (if tl > 0 {
        3int
    } else {
        2int
    })
}

/// A configuration-descriptor read took place: for some intermediate ring
/// state, answered total length and staging buffer addresses, the two
/// chained GET_DESCRIPTOR transfers of [`spec_config_reads`] connect the
/// starting device state to the final one.
pub open spec fn spec_config_read_happened(
    d0: UsbDevice,
    d1: UsbDevice,
    index: u8,
    result: Seq<u8>,
) -> bool {
    exists|mid: Ring, tl: u16, p1: u64, p2: u64|
        spec_config_reads(d0, d1, index, result, mid, tl, p1, p2)
}

/// The Input Context contents configure_endpoint leaves behind for DCI `d`:
/// no drop flags, add flags for the endpoint and the slot, and the Endpoint
/// Context words carrying the derived xHCI endpoint type, interval and max
/// packet size.
pub open spec fn spec_configured_input(
    input: InputContext,
    d: int,
    speed: u8,
    ep: EndpointDesc,
    ring_phys: u64,
) -> bool {
    &&& input.input_control@[0] == 0
    &&& input.input_control@[1] == ((1u32 << d as u32) | 1)
    &&& input.endpoints@[d - 1].dw0 == (spec_xhci_interval(speed, ep.interval) as u32) << 16
    &&& input.endpoints@[d - 1].dw1 == ((3u32 << 1) | ((spec_xhci_ep_type(
        ep.attributes & 0x03,
        ep.endpoint_address & 0x80 != 0,
    ) as u32) << 3) | ((0u8 as u32) << 8) | ((ep.max_packet_size as u32) << 16))
    &&& input.endpoints@[d - 1].tr_dequeue_lo == (ring_phys as u32) | 1
    &&& input.endpoints@[d - 1].tr_dequeue_hi == (ring_phys >> 32) as u32
    &&& input.endpoints@[d - 1].dw4 == 8
}

/// What device construction writes into the Input Context, stated over the
/// returned device: no drop flags; add flags for the Slot and EP0 contexts;
/// a Slot Context with route string 0, the port speed, one context entry
/// and the 1-based root hub port; and an EP0 Endpoint Context of type 4
/// (Control Bidirectional) with error count 3, the speed's default max
/// packet size, interval 0, the EP0 ring base with the cycle state bit as
/// dequeue pointer, and an average TRB length of 8.
pub open spec fn spec_device_input(d: UsbDevice, port: u8) -> bool {
    &&& d.input.input_control@[0] == 0
    &&& d.input.input_control@[1] == 3
    &&& d.input.slot.dw0 == ((0u32 & 0xfffff) | ((d.speed as u32) << 20) | ((1u8 as u32) << 27))
    &&& d.input.slot.dw1 == (((port + 1) as u32) << 16)
    &&& d.input.slot.dw2 == 0
    &&& d.input.slot.dw3 == 0
    &&& d.input.endpoints@[0].dw0 == ((0u8 as u32) << 16)
    &&& d.input.endpoints@[0].dw1 == ((3u32 << 1) | ((4u8 as u32) << 3) | ((0u8 as u32) << 8) | ((
    crate::ctx::spec_ep0_max_packet(d.speed) as u32) << 16))
    &&& d.input.endpoints@[0].tr_dequeue_lo == ((d.ep0_ring.mem.phys as u32) | 1)
    &&& d.input.endpoints@[0].tr_dequeue_hi == ((d.ep0_ring.mem.phys >> 32) as u32)
    &&& d.input.endpoints@[0].dw4 == 8
}

/// The command ring after device construction: an Enable Slot TRB (type 9)
/// followed by an Address Device TRB (type 11) carrying the Input Context
/// address and the slot id.
pub open spec fn spec_device_commands(
    r0: Ring,
    input_phys: u64,
    slot_id: u8,
    slots_now: Seq<Trb>,
) -> bool {
    let t1 = Trb { param: 0, status: 0, control: trb_type::ENABLE_SLOT << 10 };
    let s1 = slots_after_enqueue(r0.slots@, r0.enqueue_index as int, r0.cycle, r0.mem.phys, t1);
    let i1 = index_after_enqueue(r0.slots@, r0.enqueue_index as int);
    let c1 = cycle_after_enqueue(r0.slots@, r0.enqueue_index as int, r0.cycle);
    slots_now == slots_after_enqueue(
        s1,
        i1,
        c1,
        r0.mem.phys,
        spec_cmd_trb(trb_type::ADDRESS_DEVICE, input_phys, slot_id),
    )
}

/// Control-transfer TRB law.
///
/// With no data buffer the transfer emits exactly two TRBs — Setup with a
/// Transfer Type of 0 and Status with the direction bit set. With an IN
/// buffer it emits three: Setup with Transfer Type 3, Data with the
/// direction bit set, Status with it clear. With an OUT buffer: Setup with
/// Transfer Type 2, Data with the bit clear, Status with it set.
pub proof fn lemma_control_trt(s: SetupPacket, data_len: int, data_phys: u64)
    ensures
        data_len <= 0 ==> spec_control_trbs(s, data_len, data_phys) == seq![
            Trb { param: spec_setup_param(s), status: 8, control: 0x840u32 },
            Trb { param: 0, status: 0, control: 0x1_1020u32 },
        ],
        data_len > 0 && s.length > 0 && spec_dir_in(s) ==> spec_control_trbs(
            s,
            data_len,
            data_phys,
        ) == seq![
            Trb { param: spec_setup_param(s), status: 8, control: 0x3_0840u32 },
            Trb { param: data_phys, status: s.length as u32, control: 0x1_0c20u32 },
            Trb { param: 0, status: 0, control: 0x1020u32 },
        ],
        data_len > 0 && s.length > 0 && !spec_dir_in(s) ==> spec_control_trbs(
            s,
            data_len,
            data_phys,
        ) == seq![
            Trb { param: spec_setup_param(s), status: 8, control: 0x2_0840u32 },
            Trb { param: data_phys, status: s.length as u32, control: 0xc20u32 },
            Trb { param: 0, status: 0, control: 0x1_1020u32 },
        ],
{
    if data_len <= 0 {
        assert(spec_control_trbs(s, data_len, data_phys) =~= seq![
            Trb { param: spec_setup_param(s), status: 8, control: 0x840u32 },
            Trb { param: 0, status: 0, control: 0x1_1020u32 },
        ]);
    } else if s.length > 0 && spec_dir_in(s) {
        assert(spec_control_trbs(s, data_len, data_phys) =~= seq![
            Trb { param: spec_setup_param(s), status: 8, control: 0x3_0840u32 },
            Trb { param: data_phys, status: s.length as u32, control: 0x1_0c20u32 },
            Trb { param: 0, status: 0, control: 0x1020u32 },
        ]);
    } else if s.length > 0 {
        assert(spec_control_trbs(s, data_len, data_phys) =~= seq![
            Trb { param: spec_setup_param(s), status: 8, control: 0x2_0840u32 },
            Trb { param: data_phys, status: s.length as u32, control: 0xc20u32 },
            Trb { param: 0, status: 0, control: 0x1_1020u32 },
        ]);
    }
}

/// Builds the Setup Stage TRB for a Setup packet; `has_data` says whether a
/// data buffer follows.
pub fn setup_stage_trb(setup: &SetupPacket, has_data: bool) -> (r: Trb)
    ensures
        r == spec_setup_stage(*setup, if has_data { 1int } else { 0int }),
{
    let dir_in = setup.request_type & 0x80 != 0;
    let trt: u32 = if has_data && setup.length > 0 {
        if dir_in {
            3
        } else {
            2
        }
    } else {
        0
    };
    Trb { param: pack_setup(setup), status: 8, control: 0x840 + trt * 0x1_0000 }
}

/// Builds the Data Stage TRB for a control transfer.
pub fn data_stage_trb(data_phys: u64, wlength: u16, dir_in: bool) -> (r: Trb)
    ensures
        r == spec_data_stage(data_phys, wlength, dir_in),
{
    Trb {
        param: data_phys,
        status: wlength as u32,
        control: if dir_in {
            0x1_0c20
        } else {
            0xc20
        },
    }
}

/// Builds the Status Stage TRB for a control transfer.
pub fn status_stage_trb(dir_in: bool) -> (r: Trb)
    ensures
        r == spec_status_stage(dir_in),
{
    Trb {
        param: 0,
        status: 0,
        control: if dir_in {
            0x1_1020
        } else {
            0x1020
        },
    }
}

/// What one polled event means for a transfer awaiting completion on a
/// given slot.
#[derive(Clone, Copy, Debug, PartialEq, Eq, Structural)]
pub enum TransferOutcome {
    /// Not a Transfer Event for this slot; keep waiting.
    Ignored,
    /// Success or Short Packet: the number of bytes actually transferred.
    Done(u16),
    /// The endpoint stalled (completion code 6).
    Stalled,
    /// Any other completion code, carried verbatim.
    Failed(u8),
}

/// The transferred byte count: the requested length minus the residual the
/// event reports, floored at zero.
pub open spec fn spec_transferred(wlength: u16, residual: u32) -> u16 {
    if residual <= wlength {
        (wlength - residual) as u16
    } else {
        0u16
    }
}

/// Classifies one event for a transfer on `slot_id` that requested
/// `wlength` bytes.
///
/// Short-packet accounting and the stall distinction live here: a Success
/// or Short Packet completion yields `Done(wlength - residual)`, a
/// completion code of 6 yields `Stalled` — never `Failed(6)` — and every
/// other code is `Failed` with that code.
pub fn classify_transfer_event(evt: &Trb, slot_id: u8, wlength: u16) -> (r: TransferOutcome)
    ensures
        (r is Ignored) <==> !(evt.spec_trb_type() == trb_type::TRANSFER_EVENT
            && evt.spec_slot_id() == slot_id),
        !(r is Ignored) ==> {
            let code = evt.spec_completion_code();
            if code == completion::SUCCESS || code == completion::SHORT_PACKET {
                r == TransferOutcome::Done(spec_transferred(wlength, evt.spec_transfer_length()))
            } else if code == completion::STALL_ERROR {
                r == TransferOutcome::Stalled
            } else {
                r == TransferOutcome::Failed(code as u8)
            }
        },
        r matches TransferOutcome::Done(t) ==> t <= wlength,
{
    if evt.trb_type() as u32 != trb_type::TRANSFER_EVENT || evt.slot_id() != slot_id {
        return TransferOutcome::Ignored;
    }
    let code = evt.completion_code();
    if code == completion::SUCCESS || code == completion::SHORT_PACKET {
        let residual = evt.transfer_length();
        let transferred: u16 = if residual <= wlength as u32 {
            wlength - residual as u16
        } else {
            0
        };
        TransferOutcome::Done(transferred)
    } else if code == completion::STALL_ERROR {
        TransferOutcome::Stalled
    } else {
        TransferOutcome::Failed(code)
    }
}

/// A fresh vector of `len` zero bytes.
pub fn zero_vec(len: usize) -> (r: Vec<u8>)
    ensures
        r@.len() == len,
        forall|i: int| 0 <= i < len ==> r@[i] == 0,
{
    let mut v: Vec<u8> = Vec::new();
    let mut i: usize = 0;
    while i < len
        invariant
            i <= len,
            v@.len() == i,
            forall|j: int| 0 <= j < i ==> v@[j] == 0,
        decreases len - i,
    {
        v.push(0);
        i = i + 1;
    }
    v
}

/// Mirrors an Input Context into its DMA region: the eight control words,
/// the Slot Context with its four reserved words zeroed, and the 31
/// Endpoint Contexts with their three reserved words each zeroed.
fn write_input_context<H: Dma>(host: &H, mem: &PhysMem, input: &InputContext)
    requires
        mem.wf(),
        mem.size == INPUT_CONTEXT_BYTES,
        input.wf(),
{
    let mut w: usize = 0;
    while w < 8
        invariant
            w <= 8,
            mem.wf(),
            mem.size == INPUT_CONTEXT_BYTES,
            input.wf(),
        decreases 8 - w,
    {
        host.write32(mem.virt + 4 * w, input.input_control[w]);
        w = w + 1;
    }
    host.write32(mem.virt + 32, input.slot.dw0);
    host.write32(mem.virt + 36, input.slot.dw1);
    host.write32(mem.virt + 40, input.slot.dw2);
    host.write32(mem.virt + 44, input.slot.dw3);
    host.write32(mem.virt + 48, 0);
    host.write32(mem.virt + 52, 0);
    host.write32(mem.virt + 56, 0);
    host.write32(mem.virt + 60, 0);
    let mut i: usize = 0;
    while i < 31
        invariant
            i <= 31,
            mem.wf(),
            mem.size == INPUT_CONTEXT_BYTES,
            input.wf(),
        decreases 31 - i,
    {
        let base = mem.virt + 64 + 32 * i;
        let e = input.endpoints[i];
        host.write32(base, e.dw0);
        host.write32(base + 4, e.dw1);
        host.write32(base + 8, e.tr_dequeue_lo);
        host.write32(base + 12, e.tr_dequeue_hi);
        host.write32(base + 16, e.dw4);
        host.write32(base + 20, 0);
        host.write32(base + 24, 0);
        host.write32(base + 28, 0);
        i = i + 1;
    }
}

/// An addressed USB device: its slot, port and speed, its Device and Input
/// Context regions with the software shadow of the latter, the EP0 ring,
/// and one optional transfer ring per non-zero DCI.
pub struct UsbDevice {
    /// The slot id the controller assigned.
    pub slot_id: u8,
    /// The root hub port the device sits on, indexed from zero.
    pub port: u8,
    /// The port speed at enumeration.
    pub speed: u8,
    /// The hardware-owned Device Context region.
    pub device_ctx: PhysMem,
    /// The Input Context region handed to Address Device and Configure
    /// Endpoint commands.
    pub input_ctx: PhysMem,
    /// Software shadow of the Input Context region.
    pub input: InputContext,
    /// The EP0 transfer ring.
    pub ep0_ring: Ring,
    /// Transfer rings for DCIs 2 to 31; entry `i` serves DCI `i + 1`.
    pub ep_rings: Vec<Option<Ring>>,
}

impl UsbDevice {
    /// Both context regions have their layout sizes, the shadow and the
    /// rings are well-formed.
    pub open spec fn wf(self) -> bool {
        &&& self.device_ctx.wf()
        &&& self.device_ctx.size == DEVICE_CONTEXT_BYTES
        &&& self.input_ctx.wf()
        &&& self.input_ctx.size == INPUT_CONTEXT_BYTES
        &&& self.input.wf()
        &&& self.ep0_ring.wf()
        &&& self.ep_rings@.len() == 31
        &&& forall|i: int|
            0 <= i < 31 && (#[trigger] self.ep_rings@[i]) is Some ==> self.ep_rings@[i]->0.wf()
    }

    /// Enumerates the device on `port`: enables a slot, resets the port and
    /// reads its speed, allocates the contexts and the EP0 ring, fills the
    /// Input Context (add flags for Slot and EP0, the Slot Context with the
    /// speed and the 1-based root hub port, EP0 as a bidirectional control
    /// endpoint with the speed's default max packet size), installs the
    /// Device Context pointer in the DCBAA, and issues Address Device.
    #[verifier::loop_isolation(false)]
    pub fn new<H: Dma>(ctrl: &mut XhciCtrl<H>, port: u8) -> (r: Result<UsbDevice, UsbError>)
        requires
            old(ctrl).wf(),
            port < old(ctrl).max_ports,
        ensures
            final (ctrl).wf(),
            final (ctrl).max_slots == old(ctrl).max_slots,
            final (ctrl).host == old(ctrl).host,
            match r {
                Ok(d) => {
                    &&& d.wf()
                    &&& d.port == port
                    &&& d.slot_id <= final (ctrl).max_slots
                    &&& d.ep0_ring.count@ == 0
                    &&& d.ep0_ring.slots@.len() == TRANSFER_RING_SIZE
                    &&& forall|i: int| 0 <= i < 31 ==> (#[trigger] d.ep_rings@[i]) is None
                    &&& spec_device_input(d, port)
                    // Two commands went by: Enable Slot, then Address
                    // Device with the Input Context address and the slot.
                    &&& final (ctrl).cmd_ring.count@ == old(ctrl).cmd_ring.count@ + 2
                    &&& spec_device_commands(
                        old(ctrl).cmd_ring,
                        d.input_ctx.phys,
                        d.slot_id,
                        final (ctrl).cmd_ring.slots@,
                    )
                },
                Err(e) => e == UsbError::Timeout || e == UsbError::OoRam || e == UsbError::InvSlot
                    || (e matches UsbError::CmdFail(c) && c != completion::SUCCESS),
            },
    {
        let slot_id = match ctrl.enable_slot() {
            Ok(id) => id,
            Err(e) => return Err(e),
        };
        if slot_id > ctrl.max_slots() {
            // The completion event named a slot the DCBAA cannot hold.
            return Err(UsbError::InvSlot);
        }
        match ctrl.reset_port(port) {
            Ok(_) => (),
            Err(e) => return Err(e),
        }
        let speed = ctrl.port_speed(port);

        let device_ctx = match PhysMem::allocate(ctrl.host(), DEVICE_CONTEXT_BYTES, CONTEXT_ALIGN) {
            Ok(m) => m,
            Err(e) => return Err(e),
        };
        let input_ctx = match PhysMem::allocate(ctrl.host(), INPUT_CONTEXT_BYTES, CONTEXT_ALIGN) {
            Ok(m) => m,
            Err(e) => {
                device_ctx.free(ctrl.host());
                return Err(e);
            },
        };
        // The Device Context belongs to the hardware once addressed; hand
        // it over zeroed.
        let mut z: usize = 0;
        while z < DEVICE_CONTEXT_BYTES / 8
            invariant
                z <= DEVICE_CONTEXT_BYTES / 8,
                device_ctx.wf(),
                device_ctx.size == DEVICE_CONTEXT_BYTES,
            decreases DEVICE_CONTEXT_BYTES / 8 - z,
        {
            ctrl.host().write64(device_ctx.virt + 8 * z, 0);
            z = z + 1;
        }
        let ep0_ring = match Ring::new(ctrl.host(), TRANSFER_RING_SIZE) {
            Ok(ring) => ring,
            Err(e) => {
                input_ctx.free(ctrl.host());
                device_ctx.free(ctrl.host());
                return Err(e);
            },
        };

        let mut input = InputContext::new();
        // Add flags: Slot Context (bit 0) and EP0 (bit 1).
        input.input_control[1] = 3;
        input.slot = SlotContext::new(0, speed, 1, port + 1);
        input.endpoints[0] = EndpointContext::new(4, ep0_max_packet(speed), 0, 0, ep0_ring.phys());
        write_input_context(ctrl.host(), &input_ctx, &input);

        ctrl.set_device_context(slot_id, device_ctx.phys());

        let trb = Trb {
            param: input_ctx.phys(),
            status: 0,
            control: (trb_type::ADDRESS_DEVICE << 10) | ((slot_id as u32) << 24),
        };
        match ctrl.submit_command(trb) {
            Ok(_) => (),
            Err(e) => {
                ep0_ring.free(ctrl.host());
                input_ctx.free(ctrl.host());
                device_ctx.free(ctrl.host());
                return Err(e);
            },
        }

        let mut ep_rings: Vec<Option<Ring>> = Vec::new();
        let mut i: usize = 0;
        while i < 31
            invariant
                i <= 31,
                ep_rings@.len() == i,
                forall|j: int| 0 <= j < i ==> (#[trigger] ep_rings@[j]) is None,
            decreases 31 - i,
        {
            ep_rings.push(None);
            i = i + 1;
        }

        Ok(
            UsbDevice {
                slot_id,
                port,
                speed,
                device_ctx,
                input_ctx,
                input,
                ep0_ring,
                ep_rings,
            },
        )
    }

    /// Performs a control transfer.
    ///
    /// The Setup, optional Data and Status Stage TRBs — exactly the
    /// sequence [`spec_control_trbs`] describes, for some data buffer
    /// address — go onto the EP0 ring, the doorbell rings with target 1,
    /// and Transfer Events for this slot are drained. On Success or Short
    /// Packet the transferred count is the requested length minus the
    /// residual; for an IN transfer that many bytes (bounded by the
    /// caller's buffer) are copied back. A stall is reported as `Stall`,
    /// any other completion code as `XferFail` with that code, and an
    /// unanswered wait as `Timeout`.
    #[verifier::loop_isolation(false)]
    pub fn control_transfer<H: Dma>(
        &mut self,
        ctrl: &mut XhciCtrl<H>,
        setup: &SetupPacket,
        data: &mut Vec<u8>,
    ) -> (r: Result<usize, UsbError>)
        requires
            old(self).wf(),
            old(ctrl).wf(),
            old(self).slot_id <= old(ctrl).max_slots,
        ensures
            final (self).wf(),
            final (ctrl).wf(),
            final (ctrl).max_slots == old(ctrl).max_slots,
            final (ctrl).host == old(ctrl).host,
            final (ctrl).cmd_ring == old(ctrl).cmd_ring,
            final (self).slot_id == old(self).slot_id,
            final (self).ep_rings@ == old(self).ep_rings@,
            final (self).input == old(self).input,
            final (data)@.len() == old(data)@.len(),
            !spec_dir_in(*setup) ==> final (data)@ == old(data)@,
            r is Err ==> final (data)@ == old(data)@,
            old(data)@.len() == 0 ==> r != Err::<usize, UsbError>(UsbError::OoRam),
            r == Err::<usize, UsbError>(UsbError::OoRam) ==> *final (self) == *old(self),
            r != Err::<usize, UsbError>(UsbError::OoRam) ==> final (self).ep0_ring.count@ == old(
                self,
            ).ep0_ring.count@ + (
            if old(data)@.len() > 0 {
                3int
            } else {
                2int
            }),
            r != Err::<usize, UsbError>(UsbError::OoRam) ==> exists|p: u64|
                spec_ep0_after_control(
                    old(self).ep0_ring,
                    *setup,
                    old(data)@.len() as int,
                    p,
                    final (self).ep0_ring.slots@,
                ),
            r != Err::<usize, UsbError>(UsbError::OoRam) ==> {
                &&& final (self).ep0_ring.enqueue_index as int == spec_ep0_index_after_control(
                    old(self).ep0_ring,
                    old(data)@.len() as int,
                )
                &&& final (self).ep0_ring.cycle == spec_ep0_cycle_after_control(
                    old(self).ep0_ring,
                    old(data)@.len() as int,
                )
                &&& final (self).ep0_ring.mem == old(self).ep0_ring.mem
                &&& final (self).ep0_ring.slots@.len() == old(self).ep0_ring.slots@.len()
            },
            match r {
                Ok(n) => n <= setup.length,
                Err(e) => e == UsbError::Stall || e == UsbError::Timeout || e == UsbError::OoRam
                    || (e matches UsbError::XferFail(c)),
            },
    {
        let data_len = data.len();
        let dir_in = setup.request_type & 0x80 != 0;

        // For a data stage, stage the bytes in a DMA buffer; an OUT
        // transfer copies the caller's bytes in before the doorbell.
        let data_buf: Option<PhysMem> = if data_len > 0 {
            let buf = match PhysMem::allocate(ctrl.host(), data_len, 64) {
                Ok(b) => b,
                Err(e) => return Err(e),
            };
            if !dir_in {
                ctrl.host().write_bytes(buf.virt, data);
            }
            Some(buf)
        } else {
            None
        };
        let buf_phys: u64 = match &data_buf {
            Some(b) => b.phys,
            None => 0,
        };

        self.ep0_ring.enqueue(ctrl.host(), setup_stage_trb(setup, data_len > 0));
        if data_len > 0 {
            self.ep0_ring.enqueue(ctrl.host(), data_stage_trb(buf_phys, setup.length, dir_in));
        }
        let status_dir = !(data_len > 0 && setup.length > 0 && dir_in);
        self.ep0_ring.enqueue(ctrl.host(), status_stage_trb(status_dir));
        proof {
            assert(spec_ep0_after_control(
                old(self).ep0_ring,
                *setup,
                old(data)@.len() as int,
                buf_phys,
                self.ep0_ring.slots@,
            ));
        }

        // EP0's doorbell target is DCI 1.
        ctrl.ring_doorbell(self.slot_id, 1);

        let ghost witness: u64 = buf_phys;
        let mut tries: u64 = SPIN_LIMIT;
        while tries > 0
            invariant
                ctrl.wf(),
                ctrl.max_slots == old(ctrl).max_slots,
                ctrl.host == old(ctrl).host,
                ctrl.cmd_ring == old(ctrl).cmd_ring,
                data@.len() == old(data)@.len(),
                data@ == old(data)@,
            decreases tries,
        {
            let polled = ctrl.poll_event();
            match polled {
                Some(evt) => {
                    match classify_transfer_event(&evt, self.slot_id, setup.length) {
                        TransferOutcome::Ignored => (),
                        TransferOutcome::Done(transferred) => {
                            match data_buf {
                                Some(buf) => {
                                    if dir_in {
                                        // Copy back, bounded by both the
                                        // event's count and the caller's
                                        // buffer.
                                        let want = if (transferred as usize) < data_len {
                                            transferred as usize
                                        } else {
                                            data_len
                                        };
                                        let got = ctrl.host().read_bytes(buf.virt, want);
                                        let m = if got.len() < want {
                                            got.len()
                                        } else {
                                            want
                                        };
                                        let mut j: usize = 0;
                                        while j < m
                                            invariant
                                                m <= data@.len(),
                                                m <= got@.len(),
                                                data@.len() == old(data)@.len(),
                                            decreases m - j,
                                        {
                                            data[j] = got[j];
                                            j = j + 1;
                                        }
                                    }
                                    buf.free(ctrl.host());
                                },
                                None => (),
                            }
                            return Ok(transferred as usize);
                        },
                        TransferOutcome::Stalled => {
                            match data_buf {
                                Some(buf) => buf.free(ctrl.host()),
                                None => (),
                            }
                            return Err(UsbError::Stall);
                        },
                        TransferOutcome::Failed(code) => {
                            match data_buf {
                                Some(buf) => buf.free(ctrl.host()),
                                None => (),
                            }
                            return Err(UsbError::XferFail(code));
                        },
                    }
                },
                None => (),
            }
            tries = tries - 1;
        }
        match data_buf {
            Some(buf) => buf.free(ctrl.host()),
            None => (),
        }
        Err(UsbError::Timeout)
    }

    /// Reads the 18-byte device descriptor: one control transfer carrying
    /// GET_DESCRIPTOR for descriptor type device, index 0, length 18, its
    /// answer decoded by [`parse_device_desc`].
    pub fn get_device_descriptor<H: Dma>(&mut self, ctrl: &mut XhciCtrl<H>) -> (r: Result<
        DeviceDesc,
        UsbError,
    >)
        requires
            old(self).wf(),
            old(ctrl).wf(),
            old(self).slot_id <= old(ctrl).max_slots,
        ensures
            final (self).wf(),
            final (ctrl).wf(),
            final (ctrl).max_slots == old(ctrl).max_slots,
            final (ctrl).host == old(ctrl).host,
            final (self).slot_id == old(self).slot_id,
            r != Err::<DeviceDesc, UsbError>(UsbError::OoRam) ==> {
                &&& final (self).ep0_ring.count@ == old(self).ep0_ring.count@ + 3
                &&& exists|p: u64|
                    spec_ep0_after_control(
                        old(self).ep0_ring,
                        (SetupPacket {
                            request_type: 0x80,
                            request: 6,
                            value: 0x100,
                            index: 0,
                            length: 18,
                        }),
                        18,
                        p,
                        final (self).ep0_ring.slots@,
                    )
            },
    {
        let mut buf = zero_vec(18);
        let setup = SetupPacket::get_descriptor(1, 0, 18);
        proof {
            assert(setup == (SetupPacket {
                request_type: 0x80,
                request: 6,
                value: 0x100,
                index: 0,
                length: 18,
            }));
        }
        match self.control_transfer(ctrl, &setup, &mut buf) {
            Ok(_) => (),
            Err(e) => return Err(e),
        }
        match parse_device_desc(buf.as_slice()) {
            Some(d) => Ok(d),
            None => Err(UsbError::InvalidDescriptor),
        }
    }

    /// Reads the full configuration descriptor: one control transfer
    /// carrying GET_DESCRIPTOR for the 9-byte configuration header, whose
    /// answer gives the total length, then a second carrying GET_DESCRIPTOR
    /// for that many bytes. The total length is the hardware's answer, so
    /// the contract binds it existentially; both requests and the returned
    /// vector's size are pinned to it.
    pub fn get_config_descriptor<H: Dma>(&mut self, ctrl: &mut XhciCtrl<H>, index: u8) -> (r:
        Result<Vec<u8>, UsbError>)
        requires
            old(self).wf(),
            old(ctrl).wf(),
            old(self).slot_id <= old(ctrl).max_slots,
        ensures
            final (self).wf(),
            final (ctrl).wf(),
            final (ctrl).max_slots == old(ctrl).max_slots,
            final (ctrl).host == old(ctrl).host,
            final (self).slot_id == old(self).slot_id,
            r is Ok ==> spec_config_read_happened(*old(self), *final (self), index, r->Ok_0@),
    {
        let mut probe = zero_vec(9);
        let setup = SetupPacket::get_descriptor(2, index, 9);
        proof {
            assert(setup == spec_config_probe_packet(index));
        }
        match self.control_transfer(ctrl, &setup, &mut probe) {
            Ok(_) => (),
            Err(e) => return Err(e),
        }
        let ghost mid = self.ep0_ring;
        let header = match parse_config_desc(probe.as_slice()) {
            Some(c) => c,
            None => return Err(UsbError::InvalidDescriptor),
        };
        let total_len = header.total_length;
        let mut full = zero_vec(total_len as usize);
        let setup_full = SetupPacket::get_descriptor(2, index, total_len);
        proof {
            assert(setup_full == spec_config_full_packet(index, total_len));
        }
        match self.control_transfer(ctrl, &setup_full, &mut full) {
            Ok(_) => (),
            Err(e) => return Err(e),
        }
        proof {
            let p1 = choose|p: u64|
                spec_ep0_after_control(
                    old(self).ep0_ring,
                    spec_config_probe_packet(index),
                    9,
                    p,
                    mid.slots@,
                );
            let p2 = choose|p: u64|
                spec_ep0_after_control(
                    mid,
                    spec_config_full_packet(index, total_len),
                    total_len as int,
                    p,
                    self.ep0_ring.slots@,
                );
            assert(spec_config_reads(
                *old(self),
                *self,
                index,
                full@,
                mid,
                total_len,
                p1,
                p2,
            ));
            assert(spec_config_read_happened(*old(self), *self, index, full@));
        }
        Ok(full)
    }

    /// Selects a configuration: one control transfer carrying
    /// SET_CONFIGURATION with the configuration value and no data stage.
    pub fn set_configuration<H: Dma>(&mut self, ctrl: &mut XhciCtrl<H>, config: u8) -> (r: Result<
        (),
        UsbError,
    >)
        requires
            old(self).wf(),
            old(ctrl).wf(),
            old(self).slot_id <= old(ctrl).max_slots,
        ensures
            final (self).wf(),
            final (ctrl).wf(),
            final (ctrl).max_slots == old(ctrl).max_slots,
            final (ctrl).host == old(ctrl).host,
            final (self).slot_id == old(self).slot_id,
            final (self).ep0_ring.count@ == old(self).ep0_ring.count@ + 2,
            exists|p: u64| #[trigger]
                spec_ep0_after_control(
                    old(self).ep0_ring,
                    (SetupPacket {
                        request_type: 0x00,
                        request: 9,
                        value: config as u16,
                        index: 0,
                        length: 0,
                    }),
                    0,
                    p,
                    final (self).ep0_ring.slots@,
                ),
    {
        let setup = SetupPacket::set_configuration(config);
        let mut empty = zero_vec(0);
        match self.control_transfer(ctrl, &setup, &mut empty) {
            Ok(_) => Ok(()),
            Err(e) => Err(e),
        }
    }

    /// Configures a non-zero endpoint from its descriptor.
    ///
    /// Allocates a fresh transfer ring; sets the Input Context's drop flags
    /// to zero and its add flags to the endpoint's DCI bit plus the Slot
    /// bit; derives the xHCI endpoint type from the descriptor's transfer
    /// type and direction and the xHCI interval from the descriptor
    /// interval and the device speed; fills the Endpoint Context at DCI
    /// minus one; stores the ring; and issues Configure Endpoint.
    pub fn configure_endpoint<H: Dma>(&mut self, ctrl: &mut XhciCtrl<H>, ep: &EndpointDesc) -> (r:
        Result<(), UsbError>)
        requires
            old(self).wf(),
            old(ctrl).wf(),
            old(self).slot_id <= old(ctrl).max_slots,
            ep.endpoint_address & 0x0f >= 1,
        ensures
            final (self).wf(),
            final (ctrl).wf(),
            final (ctrl).max_slots == old(ctrl).max_slots,
            final (ctrl).host == old(ctrl).host,
            final (self).slot_id == old(self).slot_id,
            final (self).speed == old(self).speed,
            r == Err::<(), UsbError>(UsbError::OoRam) ==> *final (self) == *old(self)
                && *final (ctrl) == *old(ctrl),
            // Even a failed command leaves the shadow, the stored ring and
            // the command TRB behind, as the hardware saw them.
            r != Err::<(), UsbError>(UsbError::OoRam) ==> {
                let d = spec_dci(ep.endpoint_address & 0x0f, ep.endpoint_address & 0x80 != 0);
                &&& final (self).ep_rings@[d - 1] is Some
                &&& final (self).ep_rings@[d - 1]->0.count@ == 0
                &&& spec_configured_input(
                    final (self).input,
                    d,
                    old(self).speed,
                    *ep,
                    final (self).ep_rings@[d - 1]->0.mem.phys,
                )
                &&& final (ctrl).cmd_ring.count@ == old(ctrl).cmd_ring.count@ + 1
                &&& final (ctrl).cmd_ring.slots@ == slots_after_enqueue(
                    old(ctrl).cmd_ring.slots@,
                    old(ctrl).cmd_ring.enqueue_index as int,
                    old(ctrl).cmd_ring.cycle,
                    old(ctrl).cmd_ring.mem.phys,
                    spec_cmd_trb(
                        trb_type::CONFIGURE_ENDPOINT,
                        old(self).input_ctx.phys,
                        old(self).slot_id,
                    ),
                )
            },
            match r {
                Ok(_) => true,
                Err(e) => e == UsbError::Timeout || e == UsbError::OoRam || (
                e matches UsbError::CmdFail(c) && c != completion::SUCCESS),
            },
    {
        let ep_num = ep.number();
        let is_in = ep.is_in();
        let index = dci(ep_num, is_in);
        let ring_idx = (index - 1) as usize;

        let ring = match Ring::new(ctrl.host(), TRANSFER_RING_SIZE) {
            Ok(ring) => ring,
            Err(e) => return Err(e),
        };
        let ring_phys = ring.phys();

        self.input.input_control[0] = 0;
        self.input.input_control[1] = (1u32 << (index as u32)) | 1;
        let ep_type = xhci_ep_type(ep.transfer_type(), is_in);
        let interval = xhci_interval(self.speed, ep.interval);
        self.input.endpoints[ring_idx] = EndpointContext::new(
            ep_type,
            ep.max_packet_size,
            0,
            interval,
            ring_phys,
        );
        write_input_context(ctrl.host(), &self.input_ctx, &self.input);

        self.ep_rings[ring_idx] = Some(ring);

        let trb = Trb {
            param: self.input_ctx.phys(),
            status: 0,
            control: (trb_type::CONFIGURE_ENDPOINT << 10) | ((self.slot_id as u32) << 24),
        };
        match ctrl.submit_command(trb) {
            Ok(_) => Ok(()),
            Err(e) => Err(e),
        }
    }

    /// Queues a Normal TRB on the transfer ring of the endpoint, and rings
    /// the slot's doorbell with the DCI as target.
    ///
    /// Fails with `InvEndpoint`, changing nothing, exactly when no ring has
    /// been configured for that DCI.
    pub fn queue_transfer<H: Dma>(
        &mut self,
        ctrl: &mut XhciCtrl<H>,
        ep_num: u8,
        is_in: bool,
        buf: &PhysMem,
        len: usize,
    ) -> (r: Result<(), UsbError>)
        requires
            old(self).wf(),
            old(ctrl).wf(),
            old(self).slot_id <= old(ctrl).max_slots,
            1 <= ep_num <= 15,
            len <= u32::MAX,
        ensures
            final (self).wf(),
            final (ctrl).wf(),
            final (ctrl).max_slots == old(ctrl).max_slots,
            final (ctrl).host == old(ctrl).host,
            final (ctrl).cmd_ring == old(ctrl).cmd_ring,
            final (self).slot_id == old(self).slot_id,
            (r == Err::<(), UsbError>(UsbError::InvEndpoint)) <==> old(self).ep_rings@[spec_dci(
                ep_num,
                is_in,
            ) - 1] is None,
            r is Err ==> *final (self) == *old(self),
            r is Err ==> (r == Err::<(), UsbError>(UsbError::InvEndpoint)),
            r is Ok ==> {
                let d = spec_dci(ep_num, is_in);
                let r0 = old(self).ep_rings@[d - 1]->0;
                &&& final (self).ep_rings@[d - 1] is Some
                &&& final (self).ep_rings@[d - 1]->0.count@ == r0.count@ + 1
                &&& final (self).ep_rings@[d - 1]->0.slots@ == slots_after_enqueue(
                    r0.slots@,
                    r0.enqueue_index as int,
                    r0.cycle,
                    r0.mem.phys,
                    Trb { param: buf.phys, status: len as u32, control: 0x420 },
                )
                &&& final (self).ep_rings@ == old(self).ep_rings@.update(
                    d - 1,
                    final (self).ep_rings@[d - 1],
                )
            },
    {
        let index = dci(ep_num, is_in);
        let ring_idx = (index - 1) as usize;
        if self.ep_rings[ring_idx].is_none() {
            return Err(UsbError::InvEndpoint);
        }
        let trb = Trb { param: buf.phys(), status: len as u32, control: 0x420 };
        match &mut self.ep_rings[ring_idx] {
            Some(ring) => {
                ring.enqueue(ctrl.host(), trb);
            },
            None => {
                return Err(UsbError::InvEndpoint);
            },
        }
        ctrl.ring_doorbell(self.slot_id, index);
        Ok(())
    }

    /// The slot id the controller assigned.
    pub fn slot_id(&self) -> (r: u8)
        ensures
            r == self.slot_id,
    {
        self.slot_id
    }

    /// The root hub port the device sits on, indexed from zero.
    pub fn port(&self) -> (r: u8)
        ensures
            r == self.port,
    {
        self.port
    }

    /// The port speed at enumeration.
    pub fn speed(&self) -> (r: u8)
        ensures
            r == self.speed,
    {
        self.speed
    }

    /// The Input Context shadow — what the last command handed to the
    /// controller.
    pub fn input_context(&self) -> (r: &InputContext)
        ensures
            r == self.input,
    {
        &self.input
    }

    /// Tears the device down: issues Disable Slot for its slot, then
    /// releases every transfer ring, the EP0 ring, and both context
    /// regions. The frees are bridge effects no clause can name; the
    /// Disable Slot TRB on the command ring is stated.
    #[verifier::loop_isolation(false)]
    pub fn release<H: Dma>(self, ctrl: &mut XhciCtrl<H>)
        requires
            old(ctrl).wf(),
            self.wf(),
        ensures
            final (ctrl).wf(),
            final (ctrl).max_slots == old(ctrl).max_slots,
            final (ctrl).host == old(ctrl).host,
            final (ctrl).cmd_ring.count@ == old(ctrl).cmd_ring.count@ + 1,
            final (ctrl).cmd_ring.slots@ == slots_after_enqueue(
                old(ctrl).cmd_ring.slots@,
                old(ctrl).cmd_ring.enqueue_index as int,
                old(ctrl).cmd_ring.cycle,
                old(ctrl).cmd_ring.mem.phys,
                Trb {
                    param: 0,
                    status: 0,
                    control: (trb_type::DISABLE_SLOT << 10) | ((self.slot_id as u32) << 24),
                },
            ),
    {
        let _ = ctrl.disable_slot(self.slot_id);
        let UsbDevice { device_ctx, input_ctx, ep0_ring, mut ep_rings, .. } = self;
        while ep_rings.len() > 0
            invariant
                ctrl.wf(),
                ctrl.max_slots == old(ctrl).max_slots,
                ctrl.host == old(ctrl).host,
                forall|j: int|
                    0 <= j < ep_rings@.len() && (#[trigger] ep_rings@[j]) is Some
                        ==> ep_rings@[j]->0.wf(),
            decreases ep_rings@.len(),
        {
            let taken = ep_rings.pop();
            match taken {
                Some(entry) => match entry {
                    Some(ring) => ring.free(ctrl.host()),
                    None => (),
                },
                None => (),
            }
        }
        ep0_ring.free(ctrl.host());
        input_ctx.free(ctrl.host());
        device_ctx.free(ctrl.host());
    }
}

} // verus!
