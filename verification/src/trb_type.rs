//! TRB type codes (control word bits 15:10).

use vstd::prelude::*;

verus! {

/// Normal transfer TRB.
pub const NORMAL: u32 = 1;
/// Setup Stage TRB (control transfers).
pub const SETUP: u32 = 2;
/// Data Stage TRB (control transfers).
pub const DATA: u32 = 3;
/// Status Stage TRB (control transfers).
pub const STATUS: u32 = 4;
/// Link TRB: chains the ring back to its own base.
pub const LINK: u32 = 6;
/// Enable Slot command.
pub const ENABLE_SLOT: u32 = 9;
/// Disable Slot command.
pub const DISABLE_SLOT: u32 = 10;
/// Address Device command.
pub const ADDRESS_DEVICE: u32 = 11;
/// Configure Endpoint command.
pub const CONFIGURE_ENDPOINT: u32 = 12;
/// Transfer Event.
pub const TRANSFER_EVENT: u32 = 32;
/// Command Completion Event.
pub const COMMAND_COMPLETION: u32 = 33;

} // verus!
