//! xHCI register offsets, bit definitions, and offset arithmetic.

use vstd::prelude::*;

verus! {

// Capability registers (offset from the MMIO base).

/// Capability Registers Length (one byte at offset 0).
pub const CAPLENGTH: usize = 0x00;
/// Structural Parameters 1.
pub const HCSPARAMS1: usize = 0x04;
/// Structural Parameters 2.
pub const HCSPARAMS2: usize = 0x08;
/// Doorbell array offset register.
pub const DBOFF: usize = 0x14;
/// Runtime register space offset register.
pub const RTSOFF: usize = 0x18;

// Operational registers (offset from the operational base).

/// USB Command register.
pub const USBCMD: usize = 0x00;
/// USB Status register.
pub const USBSTS: usize = 0x04;
/// Command Ring Control register.
pub const CRCR: usize = 0x18;
/// Device Context Base Address Array Pointer.
pub const DCBAAP: usize = 0x30;
/// Configure register.
pub const CONFIG: usize = 0x38;

// USBCMD bits.

/// Run/Stop: 1 = run, 0 = stop.
pub const USBCMD_RUN: u32 = 1;
/// Host Controller Reset.
pub const USBCMD_HCRST: u32 = 2;
/// Interrupter Enable.
pub const USBCMD_INTE: u32 = 4;

// USBSTS bits.

/// Host Controller Halted.
pub const USBSTS_HCH: u32 = 1;
/// Controller Not Ready.
pub const USBSTS_CNR: u32 = 0x800;

// PORTSC bits.

/// Current Connect Status.
pub const PORTSC_CCS: u32 = 1;
/// Port Enabled/Disabled.
pub const PORTSC_PED: u32 = 2;
/// Port Reset.
pub const PORTSC_PR: u32 = 0x10;
/// Port Power.
pub const PORTSC_PP: u32 = 0x200;
/// Port Reset Change (write 1 to clear).
pub const PORTSC_PRC: u32 = 0x20_0000;

// Port speed values (PORTSC bits 13:10).

/// Full Speed (12 Mbps).
pub const SPEED_FULL: u8 = 1;
/// Low Speed (1.5 Mbps).
pub const SPEED_LOW: u8 = 2;
/// High Speed (480 Mbps).
pub const SPEED_HIGH: u8 = 3;
/// SuperSpeed (5 Gbps).
pub const SPEED_SUPER: u8 = 4;
/// SuperSpeed Plus (10 Gbps).
pub const SPEED_SUPER_PLUS: u8 = 5;

// Interrupter registers (offset from an interrupter's base).

/// Event Ring Segment Table Size register.
pub const ERSTSZ: usize = 0x08;
/// Event Ring Segment Table Base Address register.
pub const ERSTBA: usize = 0x10;
/// Event Ring Dequeue Pointer register.
pub const ERDP: usize = 0x18;

/// Event Handler Busy bit of ERDP.
pub const ERDP_EHB: u64 = 8;

/// The base offset of a port's register set: `CAPLENGTH + 0x400 + port * 0x10`.
pub fn port_reg_base(cap_length: u8, port: u8) -> (r: usize)
    ensures
        r == cap_length + 0x400 + port * 0x10,
{
    cap_length as usize + 0x400 + (port as usize) * 0x10
}

/// The offset of a doorbell register: `db_offset + slot * 4`.
pub fn doorbell(db_offset: u32, slot: u8) -> (r: usize)
    requires
        db_offset + slot * 4 <= usize::MAX,
    ensures
        r == db_offset + slot * 4,
{
    db_offset as usize + (slot as usize) * 4
}

/// The base offset of an interrupter's register set:
/// `rts_offset + 0x20 + interrupter * 0x20`.
pub fn interrupter_base(rts_offset: u32, interrupter: u8) -> (r: usize)
    requires
        rts_offset + 0x20 + interrupter * 0x20 <= usize::MAX,
    ensures
        r == rts_offset + 0x20 + interrupter * 0x20,
{
    rts_offset as usize + 0x20 + (interrupter as usize) * 0x20
}

/// The port speed field of a PORTSC value (bits 13:10).
pub fn portsc_speed(portsc: u32) -> (r: u8)
    ensures
        r == (portsc >> 10) & 0xf,
{
    proof {
        assert(((portsc >> 10) & 0xf) < 256) by (bit_vector);
    }
    ((portsc >> 10) & 0xf) as u8
}

/// The port link state field of a PORTSC value (bits 8:5).
pub fn portsc_pls(portsc: u32) -> (r: u8)
    ensures
        r == (portsc >> 5) & 0xf,
{
    proof {
        assert(((portsc >> 5) & 0xf) < 256) by (bit_vector);
    }
    ((portsc >> 5) & 0xf) as u8
}

/// A PORTSC value with the given port link state in bits 8:5.
pub fn portsc_set_pls(pls: u32) -> (r: u32)
    ensures
        r == (pls & 0xf) << 5,
{
    (pls & 0xf) << 5
}

} // verus!
