//! xHCI context structures and the Device Context Index.
//!
//! The Slot, Endpoint and Input Contexts are the software-filled templates
//! behind the Address Device and Configure Endpoint commands; the Device
//! Context Index (DCI) encodes endpoint number and direction into the index
//! the contexts and doorbells use.

use vstd::prelude::*;

use crate::reg;

verus! {

/// Size in bytes of a Device Context: a Slot Context plus 31 Endpoint
/// Contexts, 32 bytes each.
pub const DEVICE_CONTEXT_BYTES: usize = 1024;

/// Size in bytes of an Input Context: an 8-word Input Control Context ahead
/// of a full Device Context layout.
pub const INPUT_CONTEXT_BYTES: usize = 1056;

/// Contexts and the arrays that point at them are 64-byte aligned.
pub const CONTEXT_ALIGN: usize = 64;

/// The Device Context Index of endpoint `ep_num` in direction `is_in`:
/// `2 * n + 1` for IN, `2 * n` for OUT. DCI 1 is EP0; DCI 0 is the Slot
/// Context.
pub open spec fn spec_dci(ep_num: u8, is_in: bool) -> int {
    2 * ep_num + if is_in {
        1int
    } else {
        0int
    }
}

/// Computes the Device Context Index for a non-zero endpoint.
pub fn dci(ep_num: u8, is_in: bool) -> (r: u8)
    requires
        1 <= ep_num <= 15,
    ensures
        r == spec_dci(ep_num, is_in),
        2 <= r <= 31,
{
    2 * ep_num + if is_in {
        1
    } else {
        0
    }
}

/// Recovers endpoint number and direction from a non-zero-endpoint DCI.
pub fn ep_of_dci(index: u8) -> (r: (u8, bool))
    requires
        2 <= index <= 31,
    ensures
        r.0 == index / 2,
        r.1 == (index % 2 == 1),
        spec_dci(r.0, r.1) == index,
        1 <= r.0 <= 15,
{
    (index / 2, index % 2 == 1)
}

/// Round-trip DCI law.
///
/// For every endpoint number in `[1, 15]` and direction, the derived DCI is
/// `2 * n + d`, lies in `[2, 31]`, and identifies the endpoint number and
/// direction uniquely, so it addresses one ring slot and no other.
pub proof fn lemma_dci_round_trip(ep_num: u8, is_in: bool)
    requires
        1 <= ep_num <= 15,
    ensures
        2 <= spec_dci(ep_num, is_in) <= 31,
        forall|m: u8, d: bool|
            1 <= m <= 15 && #[trigger] spec_dci(m, d) == spec_dci(ep_num, is_in) ==> m == ep_num
                && d == is_in,
{
}

/// xHCI Slot Context (32 bytes): device-level information the controller
/// keeps per slot. The four reserved trailing words are always zero and are
/// supplied when the context is written to memory.
#[derive(Clone, Copy, Debug, PartialEq, Eq, Structural)]
pub struct SlotContext {
    /// Route string, speed, multi-TT, hub flag, context entries.
    pub dw0: u32,
    /// Max exit latency, root hub port number, number of ports.
    pub dw1: u32,
    /// Interrupter target, TT think time, TT port number, TT hub slot id.
    pub dw2: u32,
    /// Device address, slot state.
    pub dw3: u32,
}

impl SlotContext {
    /// Builds a Slot Context: the route string in bits 19:0 of the first
    /// word, the speed in bits 23:20, the context-entries count in bits
    /// 31:27, and the root hub port number in bits 23:16 of the second word.
    pub fn new(route: u32, speed: u8, context_entries: u8, root_port: u8) -> (r: SlotContext)
        ensures
            r.dw0 == (route & 0xfffff) | ((speed as u32) << 20) | ((context_entries as u32) << 27),
            r.dw1 == (root_port as u32) << 16,
            r.dw2 == 0,
            r.dw3 == 0,
    {
        SlotContext {
            dw0: (route & 0xfffff) | ((speed as u32) << 20) | ((context_entries as u32) << 27),
            dw1: (root_port as u32) << 16,
            dw2: 0,
            dw3: 0,
        }
    }

    /// An all-zero Slot Context.
    pub fn zeroed() -> (r: SlotContext)
        ensures
            r == (SlotContext { dw0: 0, dw1: 0, dw2: 0, dw3: 0 }),
    {
        SlotContext { dw0: 0, dw1: 0, dw2: 0, dw3: 0 }
    }
}

/// xHCI Endpoint Context (32 bytes): the characteristics and state of one
/// endpoint. The three reserved trailing words are always zero and are
/// supplied when the context is written to memory.
#[derive(Clone, Copy, Debug, PartialEq, Eq, Structural)]
pub struct EndpointContext {
    /// Endpoint state, mult, max primary streams, interval.
    pub dw0: u32,
    /// Error count, endpoint type, max burst size, max packet size.
    pub dw1: u32,
    /// Transfer ring dequeue pointer, low half; bit 0 is the Dequeue Cycle
    /// State.
    pub tr_dequeue_lo: u32,
    /// Transfer ring dequeue pointer, high half.
    pub tr_dequeue_hi: u32,
    /// Average TRB length, max ESIT payload low.
    pub dw4: u32,
}

impl EndpointContext {
    /// Builds an Endpoint Context: the interval in bits 23:16 of the first
    /// word; an error count of 3, the xHCI endpoint type in bits 5:3, the
    /// max burst in bits 15:8 and the max packet size in bits 31:16 of the
    /// second; the transfer ring dequeue pointer with the Dequeue Cycle
    /// State bit set; and an average TRB length of 8.
    pub fn new(ep_type: u8, max_packet_size: u16, max_burst: u8, interval: u8, tr_ptr: u64) -> (r:
        EndpointContext)
        ensures
            r.dw0 == (interval as u32) << 16,
            r.dw1 == (3u32 << 1) | ((ep_type as u32) << 3) | ((max_burst as u32) << 8) | ((
            max_packet_size as u32) << 16),
            r.tr_dequeue_lo == (tr_ptr as u32) | 1,
            r.tr_dequeue_hi == (tr_ptr >> 32) as u32,
            r.dw4 == 8,
    {
        EndpointContext {
            dw0: (interval as u32) << 16,
            dw1: (3u32 << 1) | ((ep_type as u32) << 3) | ((max_burst as u32) << 8) | ((
            max_packet_size as u32) << 16),
            tr_dequeue_lo: (tr_ptr as u32) | 1,
            tr_dequeue_hi: (tr_ptr >> 32) as u32,
            dw4: 8,
        }
    }

    /// An all-zero Endpoint Context.
    pub fn zeroed() -> (r: EndpointContext)
        ensures
            r == (EndpointContext {
                dw0: 0,
                dw1: 0,
                tr_dequeue_lo: 0,
                tr_dequeue_hi: 0,
                dw4: 0,
            }),
    {
        EndpointContext { dw0: 0, dw1: 0, tr_dequeue_lo: 0, tr_dequeue_hi: 0, dw4: 0 }
    }
}

/// xHCI Input Context: the Input Control Context (drop flags, add flags, six
/// reserved words), a Slot Context, and 31 Endpoint Contexts indexed by
/// DCI minus one.
pub struct InputContext {
    /// The eight Input Control Context words; word 0 holds the drop flags
    /// and word 1 the add flags.
    pub input_control: Vec<u32>,
    /// The Slot Context template.
    pub slot: SlotContext,
    /// Endpoint Context templates: entry `i` corresponds to DCI `i + 1`.
    pub endpoints: Vec<EndpointContext>,
}

impl InputContext {
    /// The control word vector has its eight words and the endpoint vector
    /// its 31 entries.
    pub open spec fn wf(self) -> bool {
        &&& self.input_control@.len() == 8
        &&& self.endpoints@.len() == 31
    }

    /// A zero-filled Input Context.
    pub fn new() -> (r: InputContext)
        ensures
            r.wf(),
            forall|i: int| 0 <= i < 8 ==> (#[trigger] r.input_control@[i]) == 0,
            r.slot == (SlotContext { dw0: 0, dw1: 0, dw2: 0, dw3: 0 }),
            forall|i: int|
                0 <= i < 31 ==> (#[trigger] r.endpoints@[i]) == (EndpointContext {
                    dw0: 0,
                    dw1: 0,
                    tr_dequeue_lo: 0,
                    tr_dequeue_hi: 0,
                    dw4: 0,
                }),
    {
        let mut input_control: Vec<u32> = Vec::new();
        let mut i: usize = 0;
        while i < 8
            invariant
                i <= 8,
                input_control@.len() == i,
                forall|j: int| 0 <= j < i ==> (#[trigger] input_control@[j]) == 0,
            decreases 8 - i,
        {
            input_control.push(0);
            i = i + 1;
        }
        let mut endpoints: Vec<EndpointContext> = Vec::new();
        let mut j: usize = 0;
        while j < 31
            invariant
                j <= 31,
                endpoints@.len() == j,
                forall|k: int|
                    0 <= k < j ==> (#[trigger] endpoints@[k]) == (EndpointContext {
                        dw0: 0,
                        dw1: 0,
                        tr_dequeue_lo: 0,
                        tr_dequeue_hi: 0,
                        dw4: 0,
                    }),
            decreases 31 - j,
        {
            endpoints.push(EndpointContext::zeroed());
            j = j + 1;
        }
        InputContext { input_control, slot: SlotContext::zeroed(), endpoints }
    }
}

/// xHCI Device Context: the hardware-maintained per-device state, a Slot
/// Context and 31 Endpoint Contexts. Software allocates it zeroed and never
/// reads it back; the structure documents the layout behind
/// [`DEVICE_CONTEXT_BYTES`].
pub struct DeviceContext {
    /// The Slot Context the controller maintains.
    pub slot: SlotContext,
    /// Endpoint Context entries: entry `i` corresponds to DCI `i + 1`.
    pub endpoints: Vec<EndpointContext>,
}

/// The xHCI endpoint type (context bits 5:3) for a USB transfer type and
/// direction: Isoch OUT/IN are 1/5, Bulk OUT/IN 2/6, Interrupt OUT/IN 3/7,
/// and Control (either direction, or an unknown type) 4.
pub open spec fn spec_xhci_ep_type(transfer_type: u8, is_in: bool) -> u8 {
    if transfer_type == 1 {
        if is_in {
            5u8
        } else {
            1u8
        }
    } else if transfer_type == 2 {
        if is_in {
            6u8
        } else {
            2u8
        }
    } else if transfer_type == 3 {
        if is_in {
            7u8
        } else {
            3u8
        }
    } else {
        4u8
    }
}

/// Derives the xHCI endpoint type from a USB descriptor transfer type and
/// direction.
pub fn xhci_ep_type(transfer_type: u8, is_in: bool) -> (r: u8)
    ensures
        r == spec_xhci_ep_type(transfer_type, is_in),
{
    if transfer_type == 1 {
        if is_in {
            5
        } else {
            1
        }
    } else if transfer_type == 2 {
        if is_in {
            6
        } else {
            2
        }
    } else if transfer_type == 3 {
        if is_in {
            7
        } else {
            3
        }
    } else {
        4
    }
}

/// The ceiling of the base-2 logarithm: the smallest `e` with `2^e >= m`.
pub open spec fn ceil_log2(m: nat) -> nat
    decreases m,
{
    if m <= 1 {
        0
    } else {
        1 + ceil_log2((m + 1) / 2)
    }
}

/// Computes the ceiling of the base-2 logarithm of a small count.
pub fn ceil_log2_exec(m: u16) -> (r: u8)
    requires
        1 <= m <= 256,
    ensures
        r == ceil_log2(m as nat),
        m <= 2 ==> r <= 1,
        m <= 4 ==> r <= 2,
        m <= 8 ==> r <= 3,
        m <= 16 ==> r <= 4,
        m <= 32 ==> r <= 5,
        m <= 64 ==> r <= 6,
        m <= 128 ==> r <= 7,
        r <= 8,
    decreases m,
{
    if m <= 1 {
        0
    } else {
        1 + ceil_log2_exec((m + 1) / 2)
    }
}

/// The xHCI interval field for an endpoint: for High Speed and above, the
/// descriptor interval minus one (floored at zero); for Full/Low Speed, the
/// descriptor interval is in milliseconds, so the exponent is the ceiling
/// log2 of the interval (at least 1 ms) plus 3 to convert to 125 microsecond
/// units.
pub open spec fn spec_xhci_interval(speed: u8, descriptor_interval: u8) -> int {
    if speed >= reg::SPEED_HIGH {
        if descriptor_interval == 0 {
            0int
        } else {
            descriptor_interval - 1
        }
    } else {
        ceil_log2(
            if descriptor_interval == 0 {
                1nat
            } else {
                descriptor_interval as nat
            },
        ) as int + 3
    }
}

/// Derives the xHCI interval field from a descriptor interval and the
/// device speed.
pub fn xhci_interval(speed: u8, descriptor_interval: u8) -> (r: u8)
    ensures
        r == spec_xhci_interval(speed, descriptor_interval),
{
    if speed >= reg::SPEED_HIGH {
        if descriptor_interval == 0 {
            0
        } else {
            descriptor_interval - 1
        }
    } else {
        let ms: u16 = if descriptor_interval == 0 {
            1
        } else {
            descriptor_interval as u16
        };
        ceil_log2_exec(ms) + 3
    }
}

/// The default max packet size of endpoint zero for a port speed: 8 for
/// Low/Full Speed (and anything unknown), 64 for High Speed, 512 for
/// SuperSpeed.
pub open spec fn spec_ep0_max_packet(speed: u8) -> u16 {
    if speed == reg::SPEED_HIGH {
        64u16
    } else if speed == reg::SPEED_SUPER {
        512u16
    } else {
        8u16
    }
}

/// The default max packet size of endpoint zero for a port speed.
pub fn ep0_max_packet(speed: u8) -> (r: u16)
    ensures
        r == spec_ep0_max_packet(speed),
{
    if speed == reg::SPEED_HIGH {
        64
    } else if speed == reg::SPEED_SUPER {
        512
    } else {
        8
    }
}

} // verus!
