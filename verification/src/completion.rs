//! xHCI completion codes (event TRB status bits 31:24).

use vstd::prelude::*;

verus! {

/// Invalid: the event holds no completion code.
pub const INVALID: u8 = 0;
/// Success.
pub const SUCCESS: u8 = 1;
/// Stall Error.
pub const STALL_ERROR: u8 = 6;
/// Short Packet: fewer bytes than requested; the residual is in the status field.
pub const SHORT_PACKET: u8 = 13;

} // verus!
