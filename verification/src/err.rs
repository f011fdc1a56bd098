//! USB error types.

use vstd::prelude::*;

verus! {

/// USB driver error.
#[derive(Debug, Clone, Copy, PartialEq, Eq, Structural)]
pub enum UsbError {
    /// Operation timed out: the controller did not respond within the poll budget.
    Timeout,
    /// Out of memory: the platform bridge could not allocate, or handed back
    /// a region the core cannot address safely.
    OoRam,
    /// Failed to map an MMIO region.
    MapFail,
    /// Invalid slot ID.
    InvSlot,
    /// Invalid port number.
    InvPort,
    /// Invalid endpoint: no transfer ring is configured for it.
    InvEndpoint,
    /// A command completed with the carried non-Success completion code.
    CmdFail(u8),
    /// A transfer completed with the carried non-Success completion code.
    XferFail(u8),
    /// Device not found.
    DeviceNotFound,
    /// Operation not supported.
    NotSupported,
    /// Invalid descriptor.
    InvalidDescriptor,
    /// Endpoint stalled (transfer completion code 6).
    Stall,
}

} // verus!
