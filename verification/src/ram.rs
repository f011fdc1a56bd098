//! The platform bridge capability and the DMA buffer built on it.
//!
//! Every allocation, MMIO mapping and volatile load or store the core makes
//! goes through the [`Dma`] trait that the embedder implements. The trait's
//! methods carry no postconditions: the core promises nothing about the
//! values the platform hands back, and proves its own state correct for
//! every possible answer.

use vstd::prelude::*;

use crate::err::UsbError;

verus! {

/// Platform bridge: physically contiguous allocation, MMIO mapping, and
/// volatile memory access.
///
/// Memory returned by `alloc` must be physically contiguous, mapped, and
/// coherent with device DMA (or the embedder inserts the needed barriers).
/// Addresses returned by `map_mmio` must be suitable for volatile access
/// through the `read*`/`write*` methods.
pub trait Dma {
    /// Allocates `size` bytes of physically contiguous memory with the given
    /// power-of-two alignment; returns the virtual base, or `None` on failure.
    ///
    /// The returned memory is uninitialised.
    fn allocate(&self, size: usize, align: usize) -> Option<usize>;

    /// Frees a region previously returned by `allocate`, with the same size and
    /// alignment.
    fn free(&self, addr: usize, size: usize, align: usize);

    /// Maps `[phys, phys + size)` of MMIO space; returns the virtual base,
    /// or `None` on failure.
    fn map_mmio(&self, phys: usize, size: usize) -> Option<usize>;

    /// Unmaps a region previously returned by `map_mmio`.
    fn unmap_mmio(&self, virt: usize, size: usize);

    /// Translates a virtual address inside an allocated region to its
    /// physical address.
    fn virt_to_phys(&self, va: usize) -> u64;

    /// The system page size in bytes.
    fn page_size(&self) -> usize;

    /// Volatile one-byte load.
    fn read8(&self, addr: usize) -> u8;

    /// Volatile 32-bit load.
    fn read32(&self, addr: usize) -> u32;

    /// Volatile 32-bit store.
    fn write32(&self, addr: usize, value: u32);

    /// Volatile 64-bit load (little-endian memory layout).
    fn read64(&self, addr: usize) -> u64;

    /// Volatile 64-bit store (little-endian memory layout).
    fn write64(&self, addr: usize, value: u64);

    /// Copies `data` into memory starting at `addr`.
    fn write_bytes(&self, addr: usize, data: &Vec<u8>);

    /// Copies `len` bytes starting at `addr` into a fresh vector.
    fn read_bytes(&self, addr: usize, len: usize) -> Vec<u8>;
}

/// An exclusively owned region of physically contiguous memory.
///
/// All fields are invariant after construction; the region is freed only by
/// an explicit [`PhysMem::free`], because a DMA buffer usually outlives the
/// call site through handoff to hardware.
pub struct PhysMem {
    /// Virtual base address.
    pub virt: usize,
    /// Physical base address, computed once via the bridge and cached.
    pub phys: u64,
    /// Region size in bytes.
    pub size: usize,
    /// Alignment the region was requested with.
    pub align: usize,
}

impl PhysMem {
    /// The region's addresses do not wrap: every offset below `size` can be
    /// added to either base.
    pub open spec fn wf(self) -> bool {
        &&& self.virt + self.size <= usize::MAX
        &&& self.phys + self.size <= u64::MAX
    }

    /// Allocates a region through the bridge and records its addresses.
    ///
    /// Returns `OoRam` when the bridge fails, or when the bridge hands back
    /// a region whose address range would wrap.
    pub fn allocate<H: Dma>(host: &H, size: usize, align: usize) -> (r: Result<PhysMem, UsbError>)
        ensures
            match r {
                Ok(m) => m.wf() && m.size == size && m.align == align,
                Err(e) => e == UsbError::OoRam,
            },
    {
        let got = host.allocate(size, align);
        match got {
            Some(virt) => {
                if virt > usize::MAX - size {
                    host.free(virt, size, align);
                    return Err(UsbError::OoRam);
                }
                let phys = host.virt_to_phys(virt);
                if phys > u64::MAX - (size as u64) {
                    host.free(virt, size, align);
                    return Err(UsbError::OoRam);
                }
                Ok(PhysMem { virt, phys, size, align })
            }
            None => Err(UsbError::OoRam),
        }
    }

    /// Releases the region through the bridge.
    pub fn free<H: Dma>(self, host: &H) {
        host.free(self.virt, self.size, self.align);
    }

    /// Virtual base address.
    pub fn virt(&self) -> (r: usize)
        ensures
            r == self.virt,
    {
        self.virt
    }

    /// Physical base address.
    pub fn phys(&self) -> (r: u64)
        ensures
            r == self.phys,
    {
        self.phys
    }

    /// Region size in bytes.
    pub fn size(&self) -> (r: usize)
        ensures
            r == self.size,
    {
        self.size
    }

    /// Alignment the region was requested with.
    pub fn align(&self) -> (r: usize)
        ensures
            r == self.align,
    {
        self.align
    }
}

} // verus!
