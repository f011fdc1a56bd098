//! Transfer Request Blocks: the 16-byte quantum that xHCI rings carry.
//!
//! A TRB has three logical fields: a 64-bit `parameter`, a 32-bit `status`
//! and a 32-bit `control` word. The low bit of `control` is the cycle bit;
//! bits 15:10 carry the TRB type.

use vstd::prelude::*;

verus! {

/// One Transfer Request Block.
#[derive(Clone, Copy, Debug, PartialEq, Eq, Structural)]
pub struct Trb {
    /// Parameter field (bytes 0..8).
    pub param: u64,
    /// Status field (bytes 8..12).
    pub status: u32,
    /// Control field (bytes 12..16); bit 0 is the cycle bit, bits 15:10 the type.
    pub control: u32,
}

impl Trb {
    /// The TRB type carried in control bits 15:10.
    pub open spec fn spec_trb_type(self) -> u32 {
        (self.control >> 10) & 0x3f
    }

    /// The completion code carried in status bits 31:24 of event TRBs.
    pub open spec fn spec_completion_code(self) -> u32 {
        (self.status >> 24) & 0xff
    }

    /// The slot id carried in control bits 31:24.
    pub open spec fn spec_slot_id(self) -> u32 {
        (self.control >> 24) & 0xff
    }

    /// The residual transfer length in status bits 23:0 of Transfer Events.
    pub open spec fn spec_transfer_length(self) -> u32 {
        self.status & 0xff_ffff
    }

    /// The cycle bit: control bit 0.
    pub open spec fn spec_cycle(self) -> u32 {
        self.control & 1
    }

    /// A TRB with all three fields zero.
    pub fn zeroed() -> (r: Trb)
        ensures
            r == (Trb { param: 0, status: 0, control: 0 }),
    {
        Trb { param: 0, status: 0, control: 0 }
    }

    /// Reads the TRB type from control bits 15:10.
    pub fn trb_type(&self) -> (r: u8)
        ensures
            r == self.spec_trb_type(),
    {
        proof {
            let c = self.control;
            assert(((c >> 10) & 0x3f) < 256) by (bit_vector);
        }
        ((self.control >> 10) & 0x3f) as u8
    }

    /// Reads the completion code from status bits 31:24.
    pub fn completion_code(&self) -> (r: u8)
        ensures
            r == self.spec_completion_code(),
    {
        proof {
            let st = self.status;
            assert(((st >> 24) & 0xff) < 256) by (bit_vector);
        }
        ((self.status >> 24) & 0xff) as u8
    }

    /// Reads the slot id from control bits 31:24.
    pub fn slot_id(&self) -> (r: u8)
        ensures
            r == self.spec_slot_id(),
    {
        proof {
            let c = self.control;
            assert(((c >> 24) & 0xff) < 256) by (bit_vector);
        }
        ((self.control >> 24) & 0xff) as u8
    }

    /// Reads the residual transfer length from status bits 23:0.
    pub fn transfer_length(&self) -> (r: u32)
        ensures
            r == self.spec_transfer_length(),
    {
        self.status & 0xff_ffff
    }

    /// Reads the cycle bit.
    pub fn cycle(&self) -> (r: u32)
        ensures
            r == self.spec_cycle(),
    {
        self.control & 1
    }
}

} // verus!
