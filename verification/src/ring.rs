//! Producer TRB rings and the consumer Event Ring.
//!
//! A producer ring is an array of `n` TRBs whose last slot is a Link TRB
//! pointing back at the ring's own physical base, leaving `n - 1` usable
//! slots. Software owns a producer cycle state (PCS, initially 1); every
//! enqueued TRB has its cycle bit forced to the current PCS, and when the
//! enqueue index lands on the Link TRB the link's cycle bit is set to the
//! outgoing PCS, the PCS toggles, and the index wraps to zero.
//!
//! The Event Ring is written by the hardware; software keeps a consumer
//! cycle state (CCS, initially 1) and a dequeue index, and an event is ready
//! exactly when the cycle bit of the TRB at the dequeue index equals the CCS.
//!
//! Each ring keeps a software-owned shadow of its TRB slots beside the DMA
//! region, and mirrors every slot it writes into device memory through the
//! platform bridge; the verified invariants speak about the shadow.

use vstd::arithmetic::div_mod::{
    lemma_fundamental_div_mod, lemma_fundamental_div_mod_converse, lemma_small_mod,
};
use vstd::prelude::*;

use crate::err::UsbError;
use crate::ram::{Dma, PhysMem};
use crate::trb::Trb;

verus! {

/// The cycle bit as a control-word bit: 1 when the cycle state is set.
pub open spec fn cycle_bit(c: bool) -> u32 {
    if c {
        1u32
    } else {
        0u32
    }
}

/// A TRB as it lands in a producer ring slot: the argument's fields with the
/// cycle bit forced to the producer cycle state.
pub open spec fn with_cycle(trb: Trb, c: bool) -> Trb {
    Trb { param: trb.param, status: trb.status, control: (trb.control & 0xffff_fffe) | cycle_bit(c) }
}

/// The control word of a Link TRB before its cycle bit: type Link (6) in
/// bits 15:10 and the Toggle Cycle bit.
pub const LINK_CONTROL: u32 = 0x1802;

/// The Link TRB installed at the last slot of a producer ring: it points at
/// the ring's own physical base and has Toggle Cycle set; its control word
/// is the Link control word plus the cycle bit.
pub open spec fn spec_link_trb(base: u64, c: bool) -> Trb {
    Trb { param: base, status: 0, control: if c { 0x1803u32 } else { 0x1802u32 } }
}

/// The all-zero TRB that freshly allocated ring slots hold.
pub open spec fn zero_trb() -> Trb {
    Trb { param: 0, status: 0, control: 0 }
}

/// Whether an enqueue starting at `idx` wraps: the advance would land on
/// the Link TRB in the last slot.
pub open spec fn enqueue_wraps(slots: Seq<Trb>, idx: int) -> bool {
    !(idx + 1 < slots.len() - 1)
}

/// The slot contents after one enqueue: the slot at `idx` takes the TRB
/// with its cycle bit forced to `cycle`, and on a wrap the Link TRB in the
/// last slot takes the outgoing cycle state.
pub open spec fn slots_after_enqueue(
    slots: Seq<Trb>,
    idx: int,
    cycle: bool,
    phys: u64,
    trb: Trb,
) -> Seq<Trb> {
    if enqueue_wraps(slots, idx) {
        slots.update(idx, with_cycle(trb, cycle)).update(
            slots.len() - 1,
            spec_link_trb(phys, cycle),
        )
    } else {
        slots.update(idx, with_cycle(trb, cycle))
    }
}

/// The enqueue index after one enqueue: advanced, or zero on a wrap.
pub open spec fn index_after_enqueue(slots: Seq<Trb>, idx: int) -> int {
    if enqueue_wraps(slots, idx) {
        0int
    } else {
        idx + 1
    }
}

/// The producer cycle state after one enqueue: toggled on a wrap.
pub open spec fn cycle_after_enqueue(slots: Seq<Trb>, idx: int, cycle: bool) -> bool {
    if enqueue_wraps(slots, idx) {
        !cycle
    } else {
        cycle
    }
}

/// Packs the status and control words into the 64-bit little-endian word at
/// byte offset 8 of a TRB.
pub fn pack_status_control(status: u32, control: u32) -> (r: u64)
    ensures
        r == status + control * 0x1_0000_0000,
{
    proof {
        assert((status as u64) | ((control as u64) << 32) == (status as u64) + (control as u64)
            * 0x1_0000_0000) by (bit_vector);
    }
    (status as u64) | ((control as u64) << 32)
}

/// Mirrors one TRB into device memory at `addr` as two little-endian 64-bit
/// stores.
fn write_trb<H: Dma>(host: &H, addr: usize, trb: Trb)
    requires
        addr + 16 <= usize::MAX,
{
    host.write64(addr, trb.param);
    host.write64(addr + 8, pack_status_control(trb.status, trb.control));
}

/// Reads one TRB from device memory at `addr`.
fn read_trb<H: Dma>(host: &H, addr: usize) -> Trb
    requires
        addr + 16 <= usize::MAX,
{
    let lo = host.read64(addr);
    let hi = host.read64(addr + 8);
    Trb { param: lo, status: (hi & 0xffff_ffff) as u32, control: (hi >> 32) as u32 }
}

/// Forcing the cycle bit really sets bit 0 and leaves the rest alone.
proof fn lemma_cycle_force_bits()
    by (bit_vector)
    ensures
        forall|x: u32, b: u32|
            b == 0 || b == 1 ==> #[trigger] (((x & 0xffff_fffe) | b) & 1) == b,
        forall|b: u32| b == 0 || b == 1 ==> #[trigger] (0x1802u32 | b) == 0x1802 + b,
        0x1802u32 & 1 == 0,
        0x1803u32 & 1 == 1,
{
}

/// How one more enqueue moves `k % u` and `k / u`.
proof fn lemma_mod_div_step(k: int, u: int)
    requires
        k >= 0,
        u >= 1,
    ensures
        k % u + 1 < u ==> (k + 1) % u == k % u + 1 && (k + 1) / u == k / u,
        k % u + 1 == u ==> (k + 1) % u == 0 && (k + 1) / u == k / u + 1,
{
    lemma_fundamental_div_mod(k, u);
    if k % u + 1 < u {
        assert(k + 1 == (k / u) * u + (k % u + 1)) by (nonlinear_arith)
            requires
                k == u * (k / u) + k % u,
        ;
        lemma_fundamental_div_mod_converse(k + 1, u, k / u, k % u + 1);
    } else if k % u + 1 == u {
        assert(k + 1 == (k / u + 1) * u + 0) by (nonlinear_arith)
            requires
                k == u * (k / u) + k % u,
                k % u + 1 == u,
        ;
        lemma_fundamental_div_mod_converse(k + 1, u, k / u + 1, 0);
    }
}

/// A positive multiple of `u` is at least `u`.
proof fn lemma_div_at_least_one(x: int, u: int)
    requires
        x >= 0,
        u >= 1,
        x / u >= 1,
    ensures
        x >= u,
{
    lemma_fundamental_div_mod(x, u);
    assert(u * (x / u) >= u) by (nonlinear_arith)
        requires
            u >= 1,
            x / u >= 1,
    ;
    assert(x % u >= 0);
}

/// A producer TRB ring: `slots.len()` TRBs of which the last is the Link TRB.
pub struct Ring {
    /// The DMA region holding the ring (16 bytes per slot).
    pub mem: PhysMem,
    /// Software shadow of the ring's TRB slots.
    pub slots: Vec<Trb>,
    /// Index of the next slot to write; never rests on the Link TRB.
    pub enqueue_index: usize,
    /// Producer cycle state; initially set.
    pub cycle: bool,
    /// Total number of enqueues performed.
    pub count: Ghost<nat>,
}

impl Ring {
    /// Number of usable (non-Link) slots.
    pub open spec fn usable(self) -> int {
        self.slots@.len() - 1
    }

    /// How often the ring has wrapped — equally, how often the Link TRB's
    /// cycle bit has been toggled.
    pub open spec fn wraps(self) -> int {
        self.count@ as int / self.usable()
    }

    /// Whether data slot `i` has been written at least once.
    pub open spec fn slot_written(self, i: int) -> bool {
        i < self.count@ as int % self.usable() || self.count@ >= self.usable()
    }

    /// The producer cycle state at the moment data slot `i` was last written.
    pub open spec fn slot_pcs(self, i: int) -> bool {
        if i < self.count@ as int % self.usable() {
            self.wraps() % 2 == 0
        } else {
            (self.wraps() - 1) % 2 == 0
        }
    }

    /// Well-formedness: the shadow matches the ring discipline.
    ///
    /// The enqueue index is the enqueue count modulo the usable slot count,
    /// the producer cycle state is set on even wrap counts, the last slot is
    /// the Link TRB whose cycle bit reflects the outgoing cycle state of the
    /// latest wrap, every written data slot carries the cycle bit that was
    /// current when it was enqueued, and unwritten slots are still zero.
    pub open spec fn wf(self) -> bool {
        let n = self.slots@.len() as int;
        &&& n >= 2
        &&& self.mem.wf()
        &&& self.mem.size == 16 * n
        &&& self.enqueue_index < n - 1
        &&& self.enqueue_index as int == self.count@ as int % (n - 1)
        &&& self.cycle == (self.wraps() % 2 == 0)
        &&& self.slots@[n - 1] == spec_link_trb(self.mem.phys, self.wraps() % 2 == 1)
        &&& forall|i: int|
            0 <= i < n - 1 && self.slot_written(i) ==> (#[trigger] self.slots@[i]).control & 1
                == cycle_bit(self.slot_pcs(i))
        &&& forall|i: int|
            0 <= i < n - 1 && !self.slot_written(i) ==> (#[trigger] self.slots@[i]) == zero_trb()
    }

    /// Allocates and initialises a producer ring of `n` TRBs: the region is
    /// zero-filled and the Link TRB is installed at the last slot, pointing
    /// at the ring's own physical base, with Toggle Cycle set and cycle bit
    /// clear. The initial producer cycle state is 1 and the index is 0.
    pub fn new<H: Dma>(host: &H, n: usize) -> (r: Result<Ring, UsbError>)
        requires
            2 <= n,
            16 * n <= usize::MAX,
        ensures
            match r {
                Ok(ring) => {
                    &&& ring.wf()
                    &&& ring.slots@.len() == n
                    &&& ring.count@ == 0
                    &&& ring.enqueue_index == 0
                    &&& ring.cycle == true
                    &&& forall|i: int| 0 <= i < n - 1 ==> (#[trigger] ring.slots@[i]) == zero_trb()
                },
                Err(e) => e == UsbError::OoRam,
            },
    {
        let mem = match PhysMem::allocate(host, 16 * n, 16) {
            Ok(m) => m,
            Err(e) => return Err(e),
        };
        let mut slots: Vec<Trb> = Vec::new();
        let mut i: usize = 0;
        while i < n - 1
            invariant
                i <= n - 1,
                n >= 2,
                slots@.len() == i,
                forall|j: int| 0 <= j < i ==> (#[trigger] slots@[j]) == zero_trb(),
            decreases n - 1 - i,
        {
            slots.push(Trb { param: 0, status: 0, control: 0 });
            i = i + 1;
        }
        let link = Trb { param: mem.phys, status: 0, control: LINK_CONTROL };
        slots.push(link);

        let mut j: usize = 0;
        while j < n
            invariant
                j <= n,
                slots@.len() == n,
                mem.wf(),
                mem.size == 16 * n,
            decreases n - j,
        {
            let t = slots[j];
            write_trb(host, mem.virt + 16 * j, t);
            j = j + 1;
        }

        let ring = Ring { mem, slots, enqueue_index: 0, cycle: true, count: Ghost(0) };
        proof {
            lemma_small_mod(0, (n - 1) as nat);
            assert(ring.wraps() == 0);
            assert(ring.slots@[n as int - 1] == spec_link_trb(ring.mem.phys, false));
        }
        Ok(ring)
    }

    /// Overwrites the slot at the enqueue index with `trb`, forcing its
    /// cycle bit to the producer cycle state, and advances. If the advance
    /// lands on the Link TRB, the link's cycle bit is set to the outgoing
    /// cycle state, the cycle state toggles, and the index wraps to zero.
    /// Every write is mirrored into device memory.
    pub fn enqueue<H: Dma>(&mut self, host: &H, trb: Trb)
        requires
            old(self).wf(),
        ensures
            final (self).wf(),
            final (self).slots@.len() == old(self).slots@.len(),
            final (self).mem == old(self).mem,
            final (self).count@ == old(self).count@ + 1,
            final (self).slots@ == slots_after_enqueue(
                old(self).slots@,
                old(self).enqueue_index as int,
                old(self).cycle,
                old(self).mem.phys,
                trb,
            ),
            final (self).enqueue_index as int == index_after_enqueue(
                old(self).slots@,
                old(self).enqueue_index as int,
            ),
            final (self).cycle == cycle_after_enqueue(
                old(self).slots@,
                old(self).enqueue_index as int,
                old(self).cycle,
            ),
    {
        let n = self.slots.len();
        let i = self.enqueue_index;
        let cyc: u32 = if self.cycle {
            1
        } else {
            0
        };
        let written = Trb {
            param: trb.param,
            status: trb.status,
            control: (trb.control & 0xffff_fffe) | cyc,
        };
        self.slots[i] = written;
        write_trb(host, self.mem.virt + 16 * i, written);

        proof {
            lemma_cycle_force_bits();
            lemma_mod_div_step(self.count@ as int, n as int - 1);
            if self.count@ < (n - 1) as nat {
                lemma_small_mod(self.count@, (n - 1) as nat);
            }
        }

        if i + 1 < n - 1 {
            self.enqueue_index = i + 1;
            self.count = Ghost(self.count@ + 1);
        } else {
            let new_link = Trb { param: self.mem.phys, status: 0, control: LINK_CONTROL | cyc };
            self.slots[n - 1] = new_link;
            write_trb(host, self.mem.virt + 16 * (n - 1), new_link);
            self.enqueue_index = 0;
            self.cycle = !self.cycle;
            self.count = Ghost(self.count@ + 1);
            proof {
                let u = n as int - 1;
                if self.count@ as int / u >= 1 {
                    lemma_div_at_least_one(self.count@ as int, u);
                }
            }
        }
    }

    /// The physical address of slot 0 — what the Link TRB and the CRCR or
    /// endpoint dequeue pointers carry.
    pub fn phys(&self) -> (r: u64)
        ensures
            r == self.mem.phys,
    {
        self.mem.phys
    }

    /// Number of TRB slots, the Link TRB included.
    pub fn capacity(&self) -> (r: usize)
        ensures
            r == self.slots@.len(),
    {
        self.slots.len()
    }

    /// The current enqueue index.
    pub fn index(&self) -> (r: usize)
        ensures
            r == self.enqueue_index,
    {
        self.enqueue_index
    }

    /// The current producer cycle state.
    pub fn cycle_state(&self) -> (r: bool)
        ensures
            r == self.cycle,
    {
        self.cycle
    }

    /// The shadow copy of slot `i`.
    pub fn get(&self, i: usize) -> (r: Trb)
        requires
            i < self.slots@.len(),
        ensures
            r == self.slots@[i as int],
    {
        self.slots[i]
    }

    /// Releases the ring's DMA region.
    pub fn free<H: Dma>(self, host: &H) {
        self.mem.free(host);
    }
}

/// Ring wrap and cycle-bit law.
///
/// After `k` enqueues on a well-formed ring of capacity `n` with one Link
/// TRB at the end — `k` at least `n` and not a multiple of `n - 1` — the
/// enqueue index equals `k % (n - 1)`, the Link TRB's cycle bit has been
/// toggled exactly `(k - 1) / (n - 1)` times (each wrap rewrites it to the
/// outgoing cycle state, which differs from its previous value), and every
/// data slot carries the cycle bit that was the producer cycle state at the
/// moment it was last enqueued.
pub proof fn lemma_ring_wrap_cycle(ring: Ring, k: nat, n: nat)
    requires
        ring.wf(),
        ring.count@ == k,
        ring.slots@.len() == n,
        k >= n,
        k as int % (n as int - 1) != 0,
    ensures
        ring.enqueue_index as int == k as int % (n as int - 1),
        ring.wraps() == (k - 1) as int / (n as int - 1),
        ring.slots@[n as int - 1].control & 1 == cycle_bit(ring.wraps() % 2 == 1),
        forall|i: int|
            0 <= i < n - 1 ==> (#[trigger] ring.slots@[i]).control & 1 == cycle_bit(
                ring.slot_pcs(i),
            ),
{
    let u = n as int - 1;
    lemma_fundamental_div_mod(k as int, u);
    let q = k as int / u;
    let r = k as int % u;
    assert(k as int - 1 == q * u + (r - 1)) by (nonlinear_arith)
        requires
            k as int == u * q + r,
    ;
    lemma_fundamental_div_mod_converse(k as int - 1, u, q, r - 1);
    assert(ring.wraps() == (k - 1) as int / u);
    lemma_cycle_force_bits();
    assert forall|i: int| 0 <= i < n - 1 implies (#[trigger] ring.slots@[i]).control & 1
        == cycle_bit(ring.slot_pcs(i)) by {
        if !ring.slot_written(i) {
            // k >= n > n - 1 makes every data slot written at least once
            assert(k >= n - 1);
        }
    }
}

/// A consumer Event Ring with its one-entry Event Ring Segment Table.
///
/// The hardware produces into the ring; software only reads it and writes
/// the dequeue pointer back to the controller.
pub struct EventRing {
    /// The DMA region holding the ring (16 bytes per slot).
    pub mem: PhysMem,
    /// The DMA region holding the one-entry segment table (16 bytes).
    pub erst_mem: PhysMem,
    /// Number of TRB slots.
    pub size: usize,
    /// Index of the next slot to examine.
    pub dequeue_index: usize,
    /// Consumer cycle state; initially set.
    pub ccs: bool,
    /// Total number of events dequeued.
    pub dequeued: Ghost<nat>,
}

impl EventRing {
    /// How often the consumer has wrapped — equally, how often the consumer
    /// cycle state has been toggled.
    pub open spec fn toggles(self) -> int {
        self.dequeued@ as int / self.size as int
    }

    /// Well-formedness: the dequeue index is the dequeue count modulo the
    /// slot count, and the consumer cycle state is set on even wrap counts.
    pub open spec fn wf(self) -> bool {
        &&& self.size >= 1
        &&& self.mem.wf()
        &&& self.mem.size == 16 * self.size
        &&& self.erst_mem.wf()
        &&& self.erst_mem.size == 16
        &&& self.dequeue_index < self.size
        &&& self.dequeue_index as int == self.dequeued@ as int % (self.size as int)
        &&& self.ccs == (self.toggles() % 2 == 0)
    }

    /// Allocates a zero-filled event ring of `n` TRBs and its one-entry
    /// segment table; the table entry holds the ring's physical base and its
    /// size in TRBs. The initial consumer cycle state is 1 and the index 0.
    pub fn new<H: Dma>(host: &H, n: usize) -> (r: Result<EventRing, UsbError>)
        requires
            1 <= n,
            16 * n <= usize::MAX,
            n <= u32::MAX,
        ensures
            match r {
                Ok(er) => {
                    &&& er.wf()
                    &&& er.size == n
                    &&& er.dequeued@ == 0
                    &&& er.dequeue_index == 0
                    &&& er.ccs == true
                },
                Err(e) => e == UsbError::OoRam,
            },
    {
        let mem = match PhysMem::allocate(host, 16 * n, 64) {
            Ok(m) => m,
            Err(e) => return Err(e),
        };
        let erst_mem = match PhysMem::allocate(host, 16, 64) {
            Ok(m) => m,
            Err(e) => {
                mem.free(host);
                return Err(e);
            },
        };
        let mut j: usize = 0;
        while j < n
            invariant
                j <= n,
                mem.wf(),
                mem.size == 16 * n,
            decreases n - j,
        {
            host.write64(mem.virt + 16 * j, 0);
            host.write64(mem.virt + 16 * j + 8, 0);
            j = j + 1;
        }
        // One ERST entry: ring base (8 bytes), ring size in TRBs (4 bytes),
        // reserved (4 bytes).
        host.write64(erst_mem.virt, mem.phys);
        host.write64(erst_mem.virt + 8, n as u64);

        let er = EventRing {
            mem,
            erst_mem,
            size: n,
            dequeue_index: 0,
            ccs: true,
            dequeued: Ghost(0),
        };
        proof {
            lemma_small_mod(0, n as nat);
            lemma_fundamental_div_mod_converse(0, n as int, 0, 0);
        }
        Ok(er)
    }

    /// The pure dequeue decision: given the TRB sitting at the dequeue
    /// index, an event is ready exactly when its cycle bit equals the
    /// consumer cycle state. When it is, the index advances — wrapping past
    /// the last slot resets it to zero and toggles the cycle state — and the
    /// TRB is returned; otherwise nothing changes.
    pub fn accept(&mut self, trb: Trb) -> (r: Option<Trb>)
        requires
            old(self).wf(),
        ensures
            final (self).wf(),
            final (self).size == old(self).size,
            final (self).mem == old(self).mem,
            final (self).erst_mem == old(self).erst_mem,
            (r is Some) <==> trb.control & 1 == cycle_bit(old(self).ccs),
            r is Some ==> {
                &&& r == Some(trb)
                &&& final (self).dequeued@ == old(self).dequeued@ + 1
                &&& if old(self).dequeue_index + 1 < old(self).size {
                    final (self).dequeue_index == old(self).dequeue_index + 1 && final (self).ccs
                        == old(self).ccs
                } else {
                    final (self).dequeue_index == 0 && final (self).ccs == !old(self).ccs
                }
            },
            r is None ==> *final (self) == *old(self),
    {
        let want: u32 = if self.ccs {
            1
        } else {
            0
        };
        if trb.control & 1 == want {
            proof {
                lemma_mod_div_step(self.dequeued@ as int, self.size as int);
            }
            if self.dequeue_index + 1 < self.size {
                self.dequeue_index = self.dequeue_index + 1;
            } else {
                self.dequeue_index = 0;
                self.ccs = !self.ccs;
            }
            self.dequeued = Ghost(self.dequeued@ + 1);
            Some(trb)
        } else {
            None
        }
    }

    /// Reads the TRB at the dequeue index from device memory and applies the
    /// dequeue decision to it.
    pub fn try_dequeue<H: Dma>(&mut self, host: &H) -> (r: Option<Trb>)
        requires
            old(self).wf(),
        ensures
            final (self).wf(),
            final (self).size == old(self).size,
            final (self).mem == old(self).mem,
            final (self).erst_mem == old(self).erst_mem,
            r is Some ==> {
                &&& r->0.control & 1 == cycle_bit(old(self).ccs)
                &&& final (self).dequeued@ == old(self).dequeued@ + 1
            },
            r is None ==> *final (self) == *old(self),
    {
        let t = read_trb(host, self.mem.virt + 16 * self.dequeue_index);
        self.accept(t)
    }

    /// The physical address of the slot at the current dequeue index.
    pub fn dequeue_ptr(&self) -> (r: u64)
        requires
            self.wf(),
        ensures
            r == self.mem.phys + 16 * self.dequeue_index,
    {
        self.mem.phys + 16 * (self.dequeue_index as u64)
    }

    /// The value written to ERDP after a drain: the dequeue slot's physical
    /// address with the Event Handler Busy bit set to clear it.
    pub fn erdp_value(&self) -> (r: u64)
        requires
            self.wf(),
        ensures
            r == (self.mem.phys + 16 * self.dequeue_index) as u64 | 8,
    {
        self.dequeue_ptr() | 8
    }

    /// The physical address of the ring's first slot.
    pub fn ring_phys(&self) -> (r: u64)
        ensures
            r == self.mem.phys,
    {
        self.mem.phys
    }

    /// The physical address of the one-entry segment table.
    pub fn erst_phys(&self) -> (r: u64)
        ensures
            r == self.erst_mem.phys,
    {
        self.erst_mem.phys
    }

    /// The current dequeue index.
    pub fn index(&self) -> (r: usize)
        ensures
            r == self.dequeue_index,
    {
        self.dequeue_index
    }

    /// The current consumer cycle state.
    pub fn cycle_state(&self) -> (r: bool)
        ensures
            r == self.ccs,
    {
        self.ccs
    }

    /// Releases both DMA regions.
    pub fn free<H: Dma>(self, host: &H) {
        self.mem.free(host);
        self.erst_mem.free(host);
    }
}

/// Event dequeue cycle law.
///
/// An event is ready exactly when the consumer cycle state agrees with the
/// cycle bit of the slot at the dequeue index — that is [`EventRing::accept`]'s
/// contract — and after consuming `2 * n` events from an `n`-slot ring (the
/// hardware producer having filled it twice over), the consumer has toggled
/// its cycle state exactly twice and is back at index zero with the cycle
/// state it started with.
pub proof fn lemma_event_cycle(er: EventRing)
    requires
        er.wf(),
        er.dequeued@ == 2 * er.size,
    ensures
        er.toggles() == 2,
        er.dequeue_index == 0,
        er.ccs == true,
{
    let n = er.size as int;
    assert(2 * n == 2 * n + 0);
    lemma_fundamental_div_mod_converse(2 * n, n, 2, 0);
}

} // verus!
