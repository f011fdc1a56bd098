//! USB endpoint transfer type codes (descriptor attribute bits 1:0).

use vstd::prelude::*;

verus! {

/// Control transfer.
pub const CONTROL: u8 = 0;
/// Isochronous transfer.
pub const ISOCHRONOUS: u8 = 1;
/// Bulk transfer.
pub const BULK: u8 = 2;
/// Interrupt transfer.
pub const INTERRUPT: u8 = 3;

} // verus!
