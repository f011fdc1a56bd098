//! TRB control word flag bits.

use vstd::prelude::*;

verus! {

/// Cycle bit (bit 0): ownership marker toggled on each ring wrap.
pub const CYCLE: u32 = 1;
/// Toggle Cycle (bit 1): on a Link TRB, flip the consumer cycle state.
pub const TOGGLE_CYCLE: u32 = 2;
/// Interrupt On Completion (bit 5).
pub const IOC: u32 = 0x20;
/// Immediate Data (bit 6): the parameter field holds the data itself.
pub const IDT: u32 = 0x40;
/// Direction (bit 16): 1 = IN (device to host) on Data and Status Stage TRBs.
pub const DIR: u32 = 0x1_0000;

} // verus!
