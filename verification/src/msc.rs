//! USB Mass Storage over Bulk-Only Transport: the Command Block and
//! Command Status Wrappers, SCSI command descriptor blocks, the BOT
//! transaction sequence, and the configuration-descriptor scan for mass
//! storage interfaces.

use vstd::prelude::*;

use crate::completion;
use crate::desc::{
    parse_endpoint_desc, parse_interface_desc, SetupPacket,
    EndpointDesc, InterfaceDesc,
};
use crate::dev::{spec_ep0_after_control, zero_vec, UsbDevice};
use crate::err::UsbError;
use crate::hid::{spec_endpoint_at, spec_interface_at};
use crate::ram::{Dma, PhysMem};
use crate::xhci::{XhciCtrl, SPIN_LIMIT};

verus! {

/// The Command Block Wrapper signature, "USBC" little-endian.
pub const CBW_SIGNATURE: u32 = 0x43425355;

/// The Command Status Wrapper signature, "USBS" little-endian.
pub const CSW_SIGNATURE: u32 = 0x53425355;

/// CSW status: command passed.
pub const CSW_STATUS_PASSED: u8 = 0;

/// CSW status: command failed.
pub const CSW_STATUS_FAILED: u8 = 1;

/// CSW status: phase error.
pub const CSW_STATUS_PHASE_ERROR: u8 = 2;

/// Mass storage protocol code for Bulk-Only Transport.
pub const MSC_PROTOCOL_BBB: u8 = 0x50;

// SCSI operation codes.

/// TEST UNIT READY.
pub const SCSI_TEST_UNIT_READY: u8 = 0x00;
/// REQUEST SENSE.
pub const SCSI_REQUEST_SENSE: u8 = 0x03;
/// INQUIRY.
pub const SCSI_INQUIRY: u8 = 0x12;
/// READ CAPACITY (10).
pub const SCSI_READ_CAPACITY_10: u8 = 0x25;
/// READ (10).
pub const SCSI_READ_10: u8 = 0x28;
/// WRITE (10).
pub const SCSI_WRITE_10: u8 = 0x2a;
/// SYNCHRONIZE CACHE (10).
pub const SCSI_SYNCHRONIZE_CACHE_10: u8 = 0x35;

/// Command Block Wrapper (31 bytes on the wire): carries one SCSI command
/// over Bulk-Only Transport.
#[derive(Clone, Debug, PartialEq)]
pub struct Cbw {
    /// Signature; always [`CBW_SIGNATURE`].
    pub signature: u32,
    /// Tag echoed back in the matching CSW.
    pub tag: u32,
    /// Number of bytes the data phase moves.
    pub data_transfer_length: u32,
    /// Bit 7: direction, 1 for IN.
    pub flags: u8,
    /// Logical unit number in bits 3:0.
    pub lun: u8,
    /// Length of the command block, 1 to 16.
    pub cb_length: u8,
    /// The command block (SCSI command descriptor block), padded to 16.
    pub cb: Vec<u8>,
}

impl Cbw {
    /// The command block always holds its 16 wire bytes.
    pub open spec fn wf(self) -> bool {
        self.cb@.len() == 16
    }

    /// Builds a CBW: the signature, the caller's tag, the data length, the
    /// direction flag, the LUN's low four bits, and the command block
    /// truncated to 16 bytes and zero-padded.
    pub fn new(tag: u32, length: u32, direction_in: bool, lun: u8, cdb: &Vec<u8>) -> (r: Cbw)
        ensures
            r.wf(),
            r.signature == CBW_SIGNATURE,
            r.tag == tag,
            r.data_transfer_length == length,
            r.flags == if direction_in {
                0x80u8
            } else {
                0u8
            },
            r.lun == lun & 0x0f,
            r.cb_length == if cdb@.len() < 16 {
                cdb@.len() as u8
            } else {
                16u8
            },
            forall|i: int| 0 <= i < r.cb_length ==> r.cb@[i] == cdb@[i],
            forall|i: int| r.cb_length <= i < 16 ==> r.cb@[i] == 0,
    {
        let n = if cdb.len() < 16 {
            cdb.len()
        } else {
            16
        };
        let mut cb: Vec<u8> = Vec::new();
        let mut i: usize = 0;
        while i < n
            invariant
                i <= n,
                n <= cdb@.len(),
                n <= 16,
                cb@.len() == i,
                forall|j: int| 0 <= j < i ==> cb@[j] == cdb@[j],
            decreases n - i,
        {
            cb.push(cdb[i]);
            i = i + 1;
        }
        while i < 16
            invariant
                n <= i <= 16,
                n <= 16,
                cb@.len() == i,
                forall|j: int| 0 <= j < n ==> cb@[j] == cdb@[j],
                forall|j: int| n <= j < i ==> cb@[j] == 0,
            decreases 16 - i,
        {
            cb.push(0);
            i = i + 1;
        }
        Cbw {
            signature: CBW_SIGNATURE,
            tag,
            data_transfer_length: length,
            flags: if direction_in {
                0x80
            } else {
                0
            },
            lun: lun & 0x0f,
            cb_length: n as u8,
            cb,
        }
    }
}

/// Appends a 32-bit value to a byte vector little-endian.
fn push_u32_le(v: &mut Vec<u8>, x: u32)
    ensures
        final (v)@.len() == old(v)@.len() + 4,
        forall|i: int| 0 <= i < old(v)@.len() ==> final (v)@[i] == old(v)@[i],
        final (v)@[old(v)@.len() as int] == (x & 0xff) as u8,
        final (v)@[old(v)@.len() as int + 1] == ((x / 0x100) & 0xff) as u8,
        final (v)@[old(v)@.len() as int + 2] == ((x / 0x1_0000) & 0xff) as u8,
        final (v)@[old(v)@.len() as int + 3] == (x / 0x100_0000) as u8,
{
    v.push((x & 0xff) as u8);
    v.push(((x / 0x100) & 0xff) as u8);
    v.push(((x / 0x1_0000) & 0xff) as u8);
    v.push((x / 0x100_0000) as u8);
}

/// Serialises a CBW into its 31 wire bytes: signature, tag and data length
/// little-endian, then flags, LUN, command length and the 16 command bytes.
#[verifier::loop_isolation(false)]
pub fn cbw_bytes(c: &Cbw) -> (r: Vec<u8>)
    requires
        c.wf(),
    ensures
        r@.len() == 31,
        r@[0] == (c.signature & 0xff) as u8,
        r@[1] == ((c.signature / 0x100) & 0xff) as u8,
        r@[2] == ((c.signature / 0x1_0000) & 0xff) as u8,
        r@[3] == (c.signature / 0x100_0000) as u8,
        r@[4] == (c.tag & 0xff) as u8,
        r@[5] == ((c.tag / 0x100) & 0xff) as u8,
        r@[6] == ((c.tag / 0x1_0000) & 0xff) as u8,
        r@[7] == (c.tag / 0x100_0000) as u8,
        r@[8] == (c.data_transfer_length & 0xff) as u8,
        r@[9] == ((c.data_transfer_length / 0x100) & 0xff) as u8,
        r@[10] == ((c.data_transfer_length / 0x1_0000) & 0xff) as u8,
        r@[11] == (c.data_transfer_length / 0x100_0000) as u8,
        r@[12] == c.flags,
        r@[13] == c.lun,
        r@[14] == c.cb_length,
        forall|i: int| 0 <= i < 16 ==> r@[15 + i] == c.cb@[i],
{
    let mut v: Vec<u8> = Vec::new();
    push_u32_le(&mut v, c.signature);
    push_u32_le(&mut v, c.tag);
    proof {
        assert(v@[0] == (c.signature & 0xff) as u8);
        assert(v@[1] == ((c.signature / 0x100) & 0xff) as u8);
        assert(v@[2] == ((c.signature / 0x1_0000) & 0xff) as u8);
        assert(v@[3] == (c.signature / 0x100_0000) as u8);
    }
    push_u32_le(&mut v, c.data_transfer_length);
    proof {
        assert(v@[0] == (c.signature & 0xff) as u8);
        assert(v@[1] == ((c.signature / 0x100) & 0xff) as u8);
        assert(v@[2] == ((c.signature / 0x1_0000) & 0xff) as u8);
        assert(v@[3] == (c.signature / 0x100_0000) as u8);
        assert(v@[4] == (c.tag & 0xff) as u8);
        assert(v@[5] == ((c.tag / 0x100) & 0xff) as u8);
        assert(v@[6] == ((c.tag / 0x1_0000) & 0xff) as u8);
        assert(v@[7] == (c.tag / 0x100_0000) as u8);
    }
    v.push(c.flags);
    v.push(c.lun);
    v.push(c.cb_length);
    let ghost pre = v@;
    proof {
        assert(v@.subrange(0, 15) =~= pre);
        assert(pre[0] == (c.signature & 0xff) as u8);
        assert(pre[1] == ((c.signature / 0x100) & 0xff) as u8);
        assert(pre[2] == ((c.signature / 0x1_0000) & 0xff) as u8);
        assert(pre[3] == (c.signature / 0x100_0000) as u8);
        assert(pre[4] == (c.tag & 0xff) as u8);
        assert(pre[5] == ((c.tag / 0x100) & 0xff) as u8);
        assert(pre[6] == ((c.tag / 0x1_0000) & 0xff) as u8);
        assert(pre[7] == (c.tag / 0x100_0000) as u8);
        assert(pre[8] == (c.data_transfer_length & 0xff) as u8);
        assert(pre[9] == ((c.data_transfer_length / 0x100) & 0xff) as u8);
        assert(pre[10] == ((c.data_transfer_length / 0x1_0000) & 0xff) as u8);
        assert(pre[11] == (c.data_transfer_length / 0x100_0000) as u8);
        assert(pre[12] == c.flags);
        assert(pre[13] == c.lun);
        assert(pre[14] == c.cb_length);
    }
    let mut i: usize = 0;
    while i < 16
        invariant
            i <= 16,
            v@.len() == 15 + i,
            c.wf(),
            pre.len() == 15,
            v@.subrange(0, 15) == pre,
            forall|j: int| 0 <= j < i ==> v@[15 + j] == c.cb@[j],
        decreases 16 - i,
    {
        v.push(c.cb[i]);
        i = i + 1;
        proof {
            assert(v@.subrange(0, 15) =~= pre);
        }
    }
    proof {
        assert forall|k: int| 0 <= k < 15 implies v@[k] == pre[k] by {
            assert(v@.subrange(0, 15)[k] == v@[k]);
        }
    }
    v
}

/// Command Status Wrapper (13 bytes on the wire): the status a device
/// returns after a SCSI command.
#[derive(Clone, Copy, Debug, PartialEq, Eq, Structural)]
pub struct Csw {
    /// Signature; [`CSW_SIGNATURE`] on a valid CSW.
    pub signature: u32,
    /// The tag of the CBW this answers.
    pub tag: u32,
    /// Difference between the expected and the moved byte count.
    pub data_residue: u32,
    /// 0 passed, 1 failed, 2 phase error.
    pub status: u8,
}

impl Csw {
    /// Whether the command completed successfully: a valid signature and a
    /// passed status.
    pub fn is_ok(&self) -> (r: bool)
        ensures
            r == (self.signature == CSW_SIGNATURE && self.status == CSW_STATUS_PASSED),
    {
        self.signature == CSW_SIGNATURE && self.status == CSW_STATUS_PASSED
    }
}

/// The 32-bit little-endian value at positions `i` to `i + 3`.
pub open spec fn spec_le32(s: Seq<u8>, i: int) -> u32 {
    (s[i] + 0x100 * s[i + 1] + 0x1_0000 * s[i + 2] + 0x100_0000 * s[i + 3]) as u32
}

/// Combines four bytes into the 32-bit value they encode little-endian.
pub fn le32(b0: u8, b1: u8, b2: u8, b3: u8) -> (r: u32)
    ensures
        r == b0 + 0x100 * b1 + 0x1_0000 * b2 + 0x100_0000 * b3,
{
    b0 as u32 + 0x100 * (b1 as u32) + 0x1_0000 * (b2 as u32) + 0x100_0000 * (b3 as u32)
}

/// Parses a CSW from its 13-byte little-endian form.
pub fn parse_csw(b: &[u8]) -> (r: Option<Csw>)
    ensures
        (r is Some) <==> b@.len() >= 13,
        r is Some ==> r->0 == (Csw {
            signature: spec_le32(b@, 0),
            tag: spec_le32(b@, 4),
            data_residue: spec_le32(b@, 8),
            status: b@[12],
        }),
{
    if b.len() < 13 {
        return None;
    }
    Some(
        Csw {
            signature: le32(b[0], b[1], b[2], b[3]),
            tag: le32(b[4], b[5], b[6], b[7]),
            data_residue: le32(b[8], b[9], b[10], b[11]),
            status: b[12],
        },
    )
}

/// SCSI INQUIRY data (the standard 36-byte response).
#[derive(Clone, Copy, Debug, PartialEq)]
pub struct InquiryData {
    /// Peripheral qualifier and device type.
    pub peripheral: u8,
    /// Removable-media bit in bit 7.
    pub rmb: u8,
    /// Version.
    pub version: u8,
    /// Response data format.
    pub response_format: u8,
    /// Additional length.
    pub additional_length: u8,
    /// Flag bytes 5 to 7.
    pub flags: [u8; 3],
    /// Vendor identification.
    pub vendor: [u8; 8],
    /// Product identification.
    pub product: [u8; 16],
    /// Product revision.
    pub revision: [u8; 4],
}

impl InquiryData {
    /// The peripheral device type: bits 4:0 (0 is a direct-access block
    /// device).
    pub fn device_type(&self) -> (r: u8)
        ensures
            r == self.peripheral & 0x1f,
    {
        self.peripheral & 0x1f
    }

    /// Whether the medium is removable: bit 7 of the second byte.
    pub fn is_removable(&self) -> (r: bool)
        ensures
            r == (self.rmb & 0x80 != 0),
    {
        self.rmb & 0x80 != 0
    }
}

/// Parses INQUIRY data from its 36-byte form.
pub fn parse_inquiry(b: &[u8]) -> (r: Option<InquiryData>)
    ensures
        (r is Some) <==> b@.len() >= 36,
        r is Some ==> {
            &&& r->0.peripheral == b@[0]
            &&& r->0.rmb == b@[1]
            &&& r->0.version == b@[2]
            &&& r->0.response_format == b@[3]
            &&& r->0.additional_length == b@[4]
            &&& r->0.flags@ == b@.subrange(5, 8)
            &&& r->0.vendor@ == b@.subrange(8, 16)
            &&& r->0.product@ == b@.subrange(16, 32)
            &&& r->0.revision@ == b@.subrange(32, 36)
        },
{
    if b.len() < 36 {
        return None;
    }
    let r = InquiryData {
        peripheral: b[0],
        rmb: b[1],
        version: b[2],
        response_format: b[3],
        additional_length: b[4],
        flags: [b[5], b[6], b[7]],
        vendor: [b[8], b[9], b[10], b[11], b[12], b[13], b[14], b[15]],
        product: [
            b[16],
            b[17],
            b[18],
            b[19],
            b[20],
            b[21],
            b[22],
            b[23],
            b[24],
            b[25],
            b[26],
            b[27],
            b[28],
            b[29],
            b[30],
            b[31],
        ],
        revision: [b[32], b[33], b[34], b[35]],
    };
    proof {
        assert(r.flags@ =~= b@.subrange(5, 8));
        assert(r.vendor@ =~= b@.subrange(8, 16));
        assert(r.product@ =~= b@.subrange(16, 32));
        assert(r.revision@ =~= b@.subrange(32, 36));
    }
    Some(r)
}

/// Swaps the four bytes of a 32-bit value — big-endian to native and back.
pub open spec fn spec_swap32(x: u32) -> u32 {
    ((x % 0x100) * 0x100_0000 + ((x / 0x100) % 0x100) * 0x1_0000 + ((x / 0x1_0000) % 0x100) * 0x100
        + x / 0x100_0000) as u32
}

/// Swaps the four bytes of a 32-bit value.
pub fn swap32(x: u32) -> (r: u32)
    ensures
        r == spec_swap32(x),
{
    (x % 0x100) * 0x100_0000 + ((x / 0x100) % 0x100) * 0x1_0000 + ((x / 0x1_0000) % 0x100) * 0x100
        + x / 0x100_0000
}

/// READ CAPACITY (10) response data; both fields arrive big-endian and are
/// stored raw.
#[derive(Clone, Copy, Debug, PartialEq, Eq, Structural)]
pub struct ReadCapacity10Data {
    /// Last logical block address, big-endian as received.
    pub last_lba: u32,
    /// Block size in bytes, big-endian as received.
    pub block_size: u32,
}

impl ReadCapacity10Data {
    /// The last logical block address in native byte order.
    pub fn last_lba(&self) -> (r: u32)
        ensures
            r == spec_swap32(self.last_lba),
    {
        swap32(self.last_lba)
    }

    /// The block size in native byte order.
    pub fn block_size(&self) -> (r: u32)
        ensures
            r == spec_swap32(self.block_size),
    {
        swap32(self.block_size)
    }

    /// The total capacity in bytes: blocks (the last address plus one)
    /// times the block size.
    pub fn capacity_bytes(&self) -> (r: u64)
        ensures
            r == (spec_swap32(self.last_lba) + 1) * spec_swap32(self.block_size),
    {
        let lba = swap32(self.last_lba) as u64;
        let bs = swap32(self.block_size) as u64;
        proof {
            assert((lba + 1) * bs <= 0x1_0000_0000 * 0xffff_ffff) by (nonlinear_arith)
                requires
                    lba <= 0xffff_ffff,
                    bs <= 0xffff_ffff,
            ;
        }
        (lba + 1) * bs
    }
}

/// Parses READ CAPACITY (10) data from its 8-byte form, keeping the fields
/// big-endian as the device sent them.
pub fn parse_read_capacity10(b: &[u8]) -> (r: Option<ReadCapacity10Data>)
    ensures
        (r is Some) <==> b@.len() >= 8,
        r is Some ==> r->0 == (ReadCapacity10Data {
            last_lba: spec_le32(b@, 0),
            block_size: spec_le32(b@, 4),
        }),
{
    if b.len() < 8 {
        return None;
    }
    Some(
        ReadCapacity10Data {
            last_lba: le32(b[0], b[1], b[2], b[3]),
            block_size: le32(b[4], b[5], b[6], b[7]),
        },
    )
}

/// REQUEST SENSE data, fixed format (18 bytes).
#[derive(Clone, Copy, Debug, PartialEq)]
pub struct RequestSenseData {
    /// Response code, 0x70 or 0x71.
    pub response_code: u8,
    /// Obsolete byte.
    pub obsolete: u8,
    /// Sense key in bits 3:0, with flags above.
    pub sense_key: u8,
    /// Information bytes.
    pub information: [u8; 4],
    /// Additional sense length.
    pub additional_sense_length: u8,
    /// Command-specific information.
    pub command_specific: [u8; 4],
    /// Additional sense code.
    pub asc: u8,
    /// Additional sense code qualifier.
    pub ascq: u8,
    /// Field-replaceable unit code.
    pub fruc: u8,
    /// Sense-key-specific bytes.
    pub sense_key_specific: [u8; 3],
}

impl RequestSenseData {
    /// The sense key: bits 3:0.
    pub fn sense_key(&self) -> (r: u8)
        ensures
            r == self.sense_key & 0x0f,
    {
        self.sense_key & 0x0f
    }
}

/// Parses fixed-format REQUEST SENSE data from its 18-byte form.
pub fn parse_request_sense(b: &[u8]) -> (r: Option<RequestSenseData>)
    ensures
        (r is Some) <==> b@.len() >= 18,
        r is Some ==> {
            &&& r->0.response_code == b@[0]
            &&& r->0.sense_key == b@[2]
            &&& r->0.asc == b@[12]
            &&& r->0.ascq == b@[13]
        },
{
    if b.len() < 18 {
        return None;
    }
    Some(
        RequestSenseData {
            response_code: b[0],
            obsolete: b[1],
            sense_key: b[2],
            information: [b[3], b[4], b[5], b[6]],
            additional_sense_length: b[7],
            command_specific: [b[8], b[9], b[10], b[11]],
            asc: b[12],
            ascq: b[13],
            fruc: b[14],
            sense_key_specific: [b[15], b[16], b[17]],
        },
    )
}

/// The READ (10) command descriptor block for a block address and count.
pub fn read10_cdb(lba: u32, count: u16) -> (r: Vec<u8>)
    ensures
        r@ == seq![
            SCSI_READ_10,
            0u8,
            (lba / 0x100_0000) as u8,
            ((lba / 0x1_0000) & 0xff) as u8,
            ((lba / 0x100) & 0xff) as u8,
            (lba & 0xff) as u8,
            0u8,
            (count / 0x100) as u8,
            (count & 0xff) as u8,
            0u8,
        ],
{
    let mut v: Vec<u8> = Vec::new();
    v.push(SCSI_READ_10);
    v.push(0);
    v.push((lba / 0x100_0000) as u8);
    v.push(((lba / 0x1_0000) & 0xff) as u8);
    v.push(((lba / 0x100) & 0xff) as u8);
    v.push((lba & 0xff) as u8);
    v.push(0);
    v.push((count / 0x100) as u8);
    v.push((count & 0xff) as u8);
    v.push(0);
    proof {
        assert(v@ =~= seq![
            SCSI_READ_10,
            0u8,
            (lba / 0x100_0000) as u8,
            ((lba / 0x1_0000) & 0xff) as u8,
            ((lba / 0x100) & 0xff) as u8,
            (lba & 0xff) as u8,
            0u8,
            (count / 0x100) as u8,
            (count & 0xff) as u8,
            0u8,
        ]);
    }
    v
}

/// The WRITE (10) command descriptor block for a block address and count.
pub fn write10_cdb(lba: u32, count: u16) -> (r: Vec<u8>)
    ensures
        r@ == seq![
            SCSI_WRITE_10,
            0u8,
            (lba / 0x100_0000) as u8,
            ((lba / 0x1_0000) & 0xff) as u8,
            ((lba / 0x100) & 0xff) as u8,
            (lba & 0xff) as u8,
            0u8,
            (count / 0x100) as u8,
            (count & 0xff) as u8,
            0u8,
        ],
{
    let mut v: Vec<u8> = Vec::new();
    v.push(SCSI_WRITE_10);
    v.push(0);
    v.push((lba / 0x100_0000) as u8);
    v.push(((lba / 0x1_0000) & 0xff) as u8);
    v.push(((lba / 0x100) & 0xff) as u8);
    v.push((lba & 0xff) as u8);
    v.push(0);
    v.push((count / 0x100) as u8);
    v.push((count & 0xff) as u8);
    v.push(0);
    proof {
        assert(v@ =~= seq![
            SCSI_WRITE_10,
            0u8,
            (lba / 0x100_0000) as u8,
            ((lba / 0x1_0000) & 0xff) as u8,
            ((lba / 0x100) & 0xff) as u8,
            (lba & 0xff) as u8,
            0u8,
            (count / 0x100) as u8,
            (count & 0xff) as u8,
            0u8,
        ]);
    }
    v
}

/// A six-byte command descriptor block with the opcode and an allocation
/// length in its fifth byte — the INQUIRY, REQUEST SENSE and TEST UNIT
/// READY shape.
pub fn cdb6(op: u8, alloc_len: u8) -> (r: Vec<u8>)
    ensures
        r@ == seq![op, 0u8, 0u8, 0u8, alloc_len, 0u8],
{
    let mut v: Vec<u8> = Vec::new();
    v.push(op);
    v.push(0);
    v.push(0);
    v.push(0);
    v.push(alloc_len);
    v.push(0);
    proof {
        assert(v@ =~= seq![op, 0u8, 0u8, 0u8, alloc_len, 0u8]);
    }
    v
}

/// A ten-byte command descriptor block holding only its opcode — the READ
/// CAPACITY (10) and SYNCHRONIZE CACHE (10) shape.
pub fn cdb10(op: u8) -> (r: Vec<u8>)
    ensures
        r@ == seq![op, 0u8, 0u8, 0u8, 0u8, 0u8, 0u8, 0u8, 0u8, 0u8],
{
    let mut v: Vec<u8> = Vec::new();
    let mut i: usize = 0;
    v.push(op);
    while i < 9
        invariant
            i <= 9,
            v@.len() == 1 + i,
            v@[0] == op,
            forall|j: int| 1 <= j < 1 + i ==> v@[j] == 0,
        decreases 9 - i,
    {
        v.push(0);
        i = i + 1;
    }
    proof {
        assert(v@ =~= seq![op, 0u8, 0u8, 0u8, 0u8, 0u8, 0u8, 0u8, 0u8, 0u8]);
    }
    v
}

/// The MSC interfaces a configuration-descriptor scan finds from `off`
/// onward: each Bulk-Only Transport interface with its bulk IN and bulk OUT
/// endpoints. A gathered triple is emitted when the next interface begins,
/// or at the end of the data.
pub open spec fn spec_find_msc(
    s: Seq<u8>,
    off: int,
    cur: Option<InterfaceDesc>,
    ein: Option<EndpointDesc>,
    eout: Option<EndpointDesc>,
) -> Seq<(InterfaceDesc, EndpointDesc, EndpointDesc)>
    decreases s.len() - off,
{
    if off < 0 || off + 2 > s.len() || s[off] == 0 || off + s[off] > s.len() {
        spec_msc_flush(cur, ein, eout)
    } else {
        let dlen = s[off] as int;
        let dtype = s[off + 1];
        if dtype == 4 && dlen >= 9 {
            let iface = spec_interface_at(s, off);
            if iface.interface_class == crate::class::MASS_STORAGE && iface.interface_protocol
                == MSC_PROTOCOL_BBB {
                spec_msc_flush(cur, ein, eout) + spec_find_msc(
                    s,
                    off + dlen,
                    Some(iface),
                    None,
                    None,
                )
            } else {
                spec_msc_flush(cur, ein, eout) + spec_find_msc(s, off + dlen, None, ein, eout)
            }
        } else if dtype == 5 && dlen >= 7 && cur is Some {
            let ep = spec_endpoint_at(s, off);
            if ep.attributes & 0x03 == 2 {
                if ep.endpoint_address & 0x80 != 0 {
                    spec_find_msc(s, off + dlen, cur, Some(ep), eout)
                } else {
                    spec_find_msc(s, off + dlen, cur, ein, Some(ep))
                }
            } else {
                spec_find_msc(s, off + dlen, cur, ein, eout)
            }
        } else {
            spec_find_msc(s, off + dlen, cur, ein, eout)
        }
    }
}

/// The triple a finished interface contributes: one entry when interface,
/// bulk IN and bulk OUT have all been seen, none otherwise.
pub open spec fn spec_msc_flush(
    cur: Option<InterfaceDesc>,
    ein: Option<EndpointDesc>,
    eout: Option<EndpointDesc>,
) -> Seq<(InterfaceDesc, EndpointDesc, EndpointDesc)> {
    if cur is Some && ein is Some && eout is Some {
        seq![(cur->0, ein->0, eout->0)]
    } else {
        Seq::empty()
    }
}

/// Scans a full configuration descriptor for Bulk-Only Transport mass
/// storage interfaces, pairing each with its bulk IN and bulk OUT
/// endpoints.
pub fn find_msc_interfaces(config_data: &[u8]) -> (r: Vec<
    (InterfaceDesc, EndpointDesc, EndpointDesc),
>)
    ensures
        r@ == spec_find_msc(
            config_data@,
            0,
            None::<InterfaceDesc>,
            None::<EndpointDesc>,
            None::<EndpointDesc>,
        ),
{
    let mut result: Vec<(InterfaceDesc, EndpointDesc, EndpointDesc)> = Vec::new();
    let mut offset: usize = 0;
    let mut current: Option<InterfaceDesc> = None;
    let mut ep_in: Option<EndpointDesc> = None;
    let mut ep_out: Option<EndpointDesc> = None;
    proof {
        assert(result@ + spec_find_msc(config_data@, 0, current, ep_in, ep_out) =~= spec_find_msc(
            config_data@,
            0,
            None::<InterfaceDesc>,
            None::<EndpointDesc>,
            None::<EndpointDesc>,
        ));
    }
    while config_data.len() >= 2 && offset <= config_data.len() - 2
        invariant
            offset <= config_data@.len(),
            result@ + spec_find_msc(config_data@, offset as int, current, ep_in, ep_out)
                == spec_find_msc(
                config_data@,
                0,
                None::<InterfaceDesc>,
                None::<EndpointDesc>,
                None::<EndpointDesc>,
            ),
        decreases config_data@.len() - offset,
    {
        let dlen = config_data[offset] as usize;
        let dtype = config_data[offset + 1];
        if dlen == 0 || dlen > config_data.len() - offset {
            match (current, ep_in, ep_out) {
                (Some(iface), Some(ein), Some(eout)) => {
                    result.push((iface, ein, eout));
                },
                _ => (),
            }
            proof {
                assert(result@ =~= spec_find_msc(
                    config_data@,
                    0,
                    None::<InterfaceDesc>,
                    None::<EndpointDesc>,
                    None::<EndpointDesc>,
                ));
            }
            return result;
        }
        if dtype == 4 && dlen >= 9 {
            let iface = match parse_interface_desc(&config_data[offset..offset + 9]) {
                Some(i) => i,
                None => {
                    proof {
                        assert(false);
                    }
                    return result;
                },
            };
            proof {
                assert(iface == spec_interface_at(config_data@, offset as int));
            }
            match (current, ep_in, ep_out) {
                (Some(prev), Some(ein), Some(eout)) => {
                    result.push((prev, ein, eout));
                },
                _ => (),
            }
            if iface.interface_class == crate::class::MASS_STORAGE && iface.interface_protocol
                == MSC_PROTOCOL_BBB {
                current = Some(iface);
                ep_in = None;
                ep_out = None;
            } else {
                current = None;
            }
            proof {
                assert(result@ + spec_find_msc(
                    config_data@,
                    offset + dlen,
                    current,
                    ep_in,
                    ep_out,
                ) =~= spec_find_msc(
                    config_data@,
                    0,
                    None::<InterfaceDesc>,
                    None::<EndpointDesc>,
                    None::<EndpointDesc>,
                ));
            }
        } else if dtype == 5 && dlen >= 7 && current.is_some() {
            let ep = match parse_endpoint_desc(&config_data[offset..offset + 7]) {
                Some(e) => e,
                None => {
                    proof {
                        assert(false);
                    }
                    return result;
                },
            };
            proof {
                assert(ep == spec_endpoint_at(config_data@, offset as int));
            }
            if ep.transfer_type() == crate::ep_type::BULK {
                if ep.is_in() {
                    ep_in = Some(ep);
                } else {
                    ep_out = Some(ep);
                }
            }
        }
        offset = offset + dlen;
    }
    match (current, ep_in, ep_out) {
        (Some(iface), Some(ein), Some(eout)) => {
            result.push((iface, ein, eout));
        },
        _ => (),
    }
    proof {
        assert(result@ =~= spec_find_msc(
            config_data@,
            0,
            None::<InterfaceDesc>,
            None::<EndpointDesc>,
            None::<EndpointDesc>,
        ));
    }
    result
}

/// A Bulk-Only Transport mass storage device bound to one interface with a
/// bulk IN and a bulk OUT endpoint.
pub struct MscDevice {
    /// The interface number.
    pub interface: u8,
    /// The bulk IN endpoint number.
    pub ep_in: u8,
    /// The bulk OUT endpoint number.
    pub ep_out: u8,
    /// The bulk IN endpoint's max packet size.
    pub ep_in_max_packet: u16,
    /// The bulk OUT endpoint's max packet size.
    pub ep_out_max_packet: u16,
    /// The maximum logical unit number the device reported.
    pub max_lun: u8,
    /// The tag the next CBW carries; advances by one per command.
    pub tag: u32,
}

impl MscDevice {
    /// Both endpoint numbers name real endpoints.
    pub open spec fn wf(self) -> bool {
        &&& 1 <= self.ep_in <= 15
        &&& 1 <= self.ep_out <= 15
    }

    /// Binds a mass storage interface: checks the class, configures both
    /// bulk endpoints, and asks for the maximum LUN (a stall means a
    /// single-LUN device).
    ///
    /// `NotSupported` is returned exactly when the interface class is not
    /// mass storage; `InvEndpoint` when a descriptor names endpoint zero.
    pub fn from_interface<H: Dma>(
        dev: &mut UsbDevice,
        ctrl: &mut XhciCtrl<H>,
        iface: &InterfaceDesc,
        ep_in: &EndpointDesc,
        ep_out: &EndpointDesc,
    ) -> (r: Result<MscDevice, UsbError>)
        requires
            old(dev).wf(),
            old(ctrl).wf(),
            old(dev).slot_id <= old(ctrl).max_slots,
        ensures
            final (dev).wf(),
            final (ctrl).wf(),
            final (ctrl).max_slots == old(ctrl).max_slots,
            final (ctrl).host == old(ctrl).host,
            final (dev).slot_id == old(dev).slot_id,
            (r == Err::<MscDevice, UsbError>(UsbError::NotSupported)) <==> iface.interface_class
                != crate::class::MASS_STORAGE,
            match r {
                Ok(m) => {
                    &&& m.wf()
                    &&& m.interface == iface.interface_number
                    &&& m.ep_in == ep_in.endpoint_address & 0x0f
                    &&& m.ep_out == ep_out.endpoint_address & 0x0f
                    &&& m.tag == 1
                },
                Err(_) => true,
            },
    {
        if iface.interface_class != crate::class::MASS_STORAGE {
            return Err(UsbError::NotSupported);
        }
        if ep_in.number() == 0 || ep_out.number() == 0 {
            // Bulk pipes need real endpoint numbers; EP0 cannot carry them.
            return Err(UsbError::InvEndpoint);
        }
        match dev.configure_endpoint(ctrl, ep_in) {
            Ok(_) => (),
            Err(e) => return Err(e),
        }
        match dev.configure_endpoint(ctrl, ep_out) {
            Ok(_) => (),
            Err(e) => return Err(e),
        }
        let mut msc = MscDevice {
            interface: iface.interface_number,
            ep_in: ep_in.number(),
            ep_out: ep_out.number(),
            ep_in_max_packet: ep_in.max_packet_size,
            ep_out_max_packet: ep_out.max_packet_size,
            max_lun: 0,
            tag: 1,
        };
        msc.max_lun = match msc.get_max_lun(dev, ctrl) {
            Ok(lun) => lun,
            Err(_) => 0,
        };
        Ok(msc)
    }

    /// The maximum logical unit number the device reported.
    pub fn max_lun(&self) -> (r: u8)
        ensures
            r == self.max_lun,
    {
        self.max_lun
    }

    /// The interface number.
    pub fn interface(&self) -> (r: u8)
        ensures
            r == self.interface,
    {
        self.interface
    }

    /// Asks the device for its maximum LUN — one control transfer carrying
    /// GET MAX LUN for one byte; a stalled request means the device has a
    /// single LUN and yields 0.
    fn get_max_lun<H: Dma>(&self, dev: &mut UsbDevice, ctrl: &mut XhciCtrl<H>) -> (r: Result<
        u8,
        UsbError,
    >)
        requires
            old(dev).wf(),
            old(ctrl).wf(),
            old(dev).slot_id <= old(ctrl).max_slots,
        ensures
            final (dev).wf(),
            final (ctrl).wf(),
            final (ctrl).max_slots == old(ctrl).max_slots,
            final (ctrl).host == old(ctrl).host,
            final (dev).slot_id == old(dev).slot_id,
            r != Err::<u8, UsbError>(UsbError::OoRam) ==> {
                &&& final (dev).ep0_ring.count@ == old(dev).ep0_ring.count@ + 3
                &&& exists|p: u64| #[trigger]
                    spec_ep0_after_control(
                        old(dev).ep0_ring,
                        (SetupPacket {
                            request_type: 0xa1,
                            request: 0xfe,
                            value: 0,
                            index: self.interface as u16,
                            length: 1,
                        }),
                        1,
                        p,
                        final (dev).ep0_ring.slots@,
                    )
            },
    {
        let setup = SetupPacket::msc_get_max_lun(self.interface);
        let mut buf = zero_vec(1);
        match dev.control_transfer(ctrl, &setup, &mut buf) {
            Ok(_) => Ok(buf[0]),
            Err(e) => {
                if e == UsbError::Stall {
                    // A single-LUN device may stall GET MAX LUN.
                    Ok(0)
                } else {
                    Err(e)
                }
            },
        }
    }

    /// Performs a Bulk-Only Mass Storage Reset: one control transfer
    /// carrying the class reset request and no data stage.
    pub fn reset<H: Dma>(&self, dev: &mut UsbDevice, ctrl: &mut XhciCtrl<H>) -> (r: Result<
        (),
        UsbError,
    >)
        requires
            old(dev).wf(),
            old(ctrl).wf(),
            old(dev).slot_id <= old(ctrl).max_slots,
        ensures
            final (dev).wf(),
            final (ctrl).wf(),
            final (ctrl).max_slots == old(ctrl).max_slots,
            final (ctrl).host == old(ctrl).host,
            final (dev).slot_id == old(dev).slot_id,
            final (dev).ep0_ring.count@ == old(dev).ep0_ring.count@ + 2,
            exists|p: u64| #[trigger]
                spec_ep0_after_control(
                    old(dev).ep0_ring,
                    (SetupPacket {
                        request_type: 0x21,
                        request: 0xff,
                        value: 0,
                        index: self.interface as u16,
                        length: 0,
                    }),
                    0,
                    p,
                    final (dev).ep0_ring.slots@,
                ),
    {
        let setup = SetupPacket::msc_reset(self.interface);
        let mut empty = zero_vec(0);
        match dev.control_transfer(ctrl, &setup, &mut empty) {
            Ok(_) => Ok(()),
            Err(e) => Err(e),
        }
    }

    /// Awaits the next Transfer Event for the device's slot, up to the spin
    /// budget; Success and Short Packet yield the event's residual count,
    /// any other completion code fails with `XferFail`.
    fn wait_transfer<H: Dma>(dev: &UsbDevice, ctrl: &mut XhciCtrl<H>) -> (r: Result<
        usize,
        UsbError,
    >)
        requires
            old(ctrl).wf(),
        ensures
            final (ctrl).wf(),
            final (ctrl).max_slots == old(ctrl).max_slots,
            final (ctrl).host == old(ctrl).host,
            match r {
                Ok(n) => n <= 0xff_ffff,
                Err(e) => e == UsbError::Timeout || (e matches UsbError::XferFail(_)),
            },
    {
        let mut tries: u64 = SPIN_LIMIT;
        while tries > 0
            invariant
                ctrl.wf(),
                ctrl.max_slots == old(ctrl).max_slots,
                ctrl.host == old(ctrl).host,
            decreases tries,
        {
            let polled = ctrl.poll_event();
            match polled {
                Some(evt) => {
                    if evt.slot_id() == dev.slot_id() {
                        let code = evt.completion_code();
                        if code == completion::SUCCESS || code == completion::SHORT_PACKET {
                            proof {
                                let st = evt.status;
                                assert((st & 0xff_ffff) <= 0xff_ffff) by (bit_vector);
                            }
                            return Ok(evt.transfer_length() as usize);
                        }
                        return Err(UsbError::XferFail(code));
                    }
                },
                None => (),
            }
            tries = tries - 1;
        }
        Err(UsbError::Timeout)
    }

    /// Executes one SCSI command as a Bulk-Only Transport transaction:
    /// sends the 31-byte CBW on the bulk OUT pipe, runs the data phase in
    /// the commanded direction, receives the 13-byte CSW on the bulk IN
    /// pipe, and checks its signature and status. The CBW tag advances by
    /// one.
    #[verifier::loop_isolation(false)]
    pub fn scsi_command<H: Dma>(
        &mut self,
        dev: &mut UsbDevice,
        ctrl: &mut XhciCtrl<H>,
        lun: u8,
        cdb: &Vec<u8>,
        data: &mut Vec<u8>,
        direction_in: bool,
    ) -> (r: Result<usize, UsbError>)
        requires
            old(self).wf(),
            old(dev).wf(),
            old(ctrl).wf(),
            old(dev).slot_id <= old(ctrl).max_slots,
            old(data)@.len() <= u32::MAX,
        ensures
            final (self).wf(),
            final (dev).wf(),
            final (ctrl).wf(),
            final (ctrl).max_slots == old(ctrl).max_slots,
            final (ctrl).host == old(ctrl).host,
            final (dev).slot_id == old(dev).slot_id,
            final (self).interface == old(self).interface,
            final (self).ep_in == old(self).ep_in,
            final (self).ep_out == old(self).ep_out,
            final (self).max_lun == old(self).max_lun,
            // The tag advances by one, wrapping, once the transaction has
            // begun; a buffer allocation failure leaves it untouched.
            r == Err::<usize, UsbError>(UsbError::OoRam) ==> final (self).tag == old(self).tag,
            r != Err::<usize, UsbError>(UsbError::OoRam) ==> final (self).tag == (
            if old(self).tag == 0xffff_ffff {
                0u32
            } else {
                (old(self).tag + 1) as u32
            }),
            final (data)@.len() == old(data)@.len(),
            !direction_in ==> final (data)@ == old(data)@,
            match r {
                Ok(n) => n <= 0xff_ffff,
                Err(e) => e == UsbError::Timeout || e == UsbError::OoRam || e
                    == UsbError::InvEndpoint || (e matches UsbError::XferFail(_)),
            },
    {
        let data_len = data.len();

        let cbw_buf = match PhysMem::allocate(ctrl.host(), 31, 64) {
            Ok(b) => b,
            Err(e) => return Err(e),
        };
        let csw_buf = match PhysMem::allocate(ctrl.host(), 13, 64) {
            Ok(b) => b,
            Err(e) => {
                cbw_buf.free(ctrl.host());
                return Err(e);
            },
        };
        let data_buf: Option<PhysMem> = if data_len > 0 {
            match PhysMem::allocate(ctrl.host(), data_len, 64) {
                Ok(b) => Some(b),
                Err(e) => {
                    csw_buf.free(ctrl.host());
                    cbw_buf.free(ctrl.host());
                    return Err(e);
                },
            }
        } else {
            None
        };

        // Command phase: the CBW on the bulk OUT pipe.
        let cbw = Cbw::new(self.tag, data_len as u32, direction_in, lun, cdb);
        self.tag = if self.tag == 0xffff_ffff {
            0
        } else {
            self.tag + 1
        };
        let wire = cbw_bytes(&cbw);
        ctrl.host().write_bytes(cbw_buf.virt(), &wire);
        match dev.queue_transfer(ctrl, self.ep_out, false, &cbw_buf, 31) {
            Ok(_) => (),
            Err(e) => {
                return Self::cleanup(ctrl, cbw_buf, csw_buf, data_buf, e);
            },
        }
        match Self::wait_transfer(dev, ctrl) {
            Ok(_) => (),
            Err(e) => {
                return Self::cleanup(ctrl, cbw_buf, csw_buf, data_buf, e);
            },
        }

        // Data phase, in the commanded direction.
        let mut transferred: usize = 0;
        match &data_buf {
            Some(buf) => {
                if direction_in {
                    match dev.queue_transfer(ctrl, self.ep_in, true, buf, data_len) {
                        Ok(_) => (),
                        Err(e) => {
                            return Self::cleanup(ctrl, cbw_buf, csw_buf, data_buf, e);
                        },
                    }
                    let n = match Self::wait_transfer(dev, ctrl) {
                        Ok(n) => n,
                        Err(e) => {
                            return Self::cleanup(ctrl, cbw_buf, csw_buf, data_buf, e);
                        },
                    };
                    let want = if n < data_len {
                        n
                    } else {
                        data_len
                    };
                    let got = ctrl.host().read_bytes(buf.virt(), want);
                    let m = if got.len() < want {
                        got.len()
                    } else {
                        want
                    };
                    let mut j: usize = 0;
                    while j < m
                        invariant
                            m <= data@.len(),
                            m <= got@.len(),
                            data@.len() == old(data)@.len(),
                        decreases m - j,
                    {
                        data[j] = got[j];
                        j = j + 1;
                    }
                    transferred = n;
                } else {
                    ctrl.host().write_bytes(buf.virt(), data);
                    match dev.queue_transfer(ctrl, self.ep_out, false, buf, data_len) {
                        Ok(_) => (),
                        Err(e) => {
                            return Self::cleanup(ctrl, cbw_buf, csw_buf, data_buf, e);
                        },
                    }
                    transferred = match Self::wait_transfer(dev, ctrl) {
                        Ok(n) => n,
                        Err(e) => {
                            return Self::cleanup(ctrl, cbw_buf, csw_buf, data_buf, e);
                        },
                    };
                }
            },
            None => (),
        }

        // Status phase: the CSW on the bulk IN pipe.
        match dev.queue_transfer(ctrl, self.ep_in, true, &csw_buf, 13) {
            Ok(_) => (),
            Err(e) => {
                return Self::cleanup(ctrl, cbw_buf, csw_buf, data_buf, e);
            },
        }
        match Self::wait_transfer(dev, ctrl) {
            Ok(_) => (),
            Err(e) => {
                return Self::cleanup(ctrl, cbw_buf, csw_buf, data_buf, e);
            },
        }
        let csw_bytes = ctrl.host().read_bytes(csw_buf.virt(), 13);
        let csw = match parse_csw(csw_bytes.as_slice()) {
            Some(c) => c,
            None => {
                // The platform handed back fewer than the 13 bytes asked for.
                return Self::cleanup(ctrl, cbw_buf, csw_buf, data_buf, UsbError::XferFail(0));
            },
        };

        cbw_buf.free(ctrl.host());
        csw_buf.free(ctrl.host());
        match data_buf {
            Some(b) => b.free(ctrl.host()),
            None => (),
        }

        if !csw.is_ok() {
            return Err(UsbError::XferFail(csw.status));
        }
        Ok(transferred)
    }

    /// Frees the transaction buffers and hands the error through.
    fn cleanup<H: Dma>(
        ctrl: &XhciCtrl<H>,
        cbw_buf: PhysMem,
        csw_buf: PhysMem,
        data_buf: Option<PhysMem>,
        e: UsbError,
    ) -> (r: Result<usize, UsbError>)
        ensures
            r == Err::<usize, UsbError>(e),
    {
        cbw_buf.free(&ctrl.host);
        csw_buf.free(&ctrl.host);
        match data_buf {
            Some(b) => b.free(&ctrl.host),
            None => (),
        }
        Err(e)
    }

    /// Sends TEST UNIT READY; a command that fails its CSW reports "not
    /// ready" rather than an error.
    pub fn test_unit_ready<H: Dma>(
        &mut self,
        dev: &mut UsbDevice,
        ctrl: &mut XhciCtrl<H>,
        lun: u8,
    ) -> (r: Result<bool, UsbError>)
        requires
            old(self).wf(),
            old(dev).wf(),
            old(ctrl).wf(),
            old(dev).slot_id <= old(ctrl).max_slots,
        ensures
            final (self).wf(),
            final (dev).wf(),
            final (ctrl).wf(),
            final (ctrl).max_slots == old(ctrl).max_slots,
            final (ctrl).host == old(ctrl).host,
            final (dev).slot_id == old(dev).slot_id,
    {
        let cdb = cdb6(SCSI_TEST_UNIT_READY, 0);
        let mut empty = zero_vec(0);
        match self.scsi_command(dev, ctrl, lun, &cdb, &mut empty, false) {
            Ok(_) => Ok(true),
            Err(e) => {
                if e == UsbError::XferFail(CSW_STATUS_FAILED) {
                    Ok(false)
                } else {
                    Err(e)
                }
            },
        }
    }

    /// Sends INQUIRY and parses the standard 36-byte response.
    pub fn inquiry<H: Dma>(&mut self, dev: &mut UsbDevice, ctrl: &mut XhciCtrl<H>, lun: u8) -> (r:
        Result<InquiryData, UsbError>)
        requires
            old(self).wf(),
            old(dev).wf(),
            old(ctrl).wf(),
            old(dev).slot_id <= old(ctrl).max_slots,
        ensures
            final (self).wf(),
            final (dev).wf(),
            final (ctrl).wf(),
            final (ctrl).max_slots == old(ctrl).max_slots,
            final (ctrl).host == old(ctrl).host,
            final (dev).slot_id == old(dev).slot_id,
    {
        let cdb = cdb6(SCSI_INQUIRY, 36);
        let mut data = zero_vec(36);
        match self.scsi_command(dev, ctrl, lun, &cdb, &mut data, true) {
            Ok(_) => (),
            Err(e) => return Err(e),
        }
        match parse_inquiry(data.as_slice()) {
            Some(d) => Ok(d),
            None => Err(UsbError::InvalidDescriptor),
        }
    }

    /// Sends READ CAPACITY (10) and parses the 8-byte response.
    pub fn read_capacity<H: Dma>(
        &mut self,
        dev: &mut UsbDevice,
        ctrl: &mut XhciCtrl<H>,
        lun: u8,
    ) -> (r: Result<ReadCapacity10Data, UsbError>)
        requires
            old(self).wf(),
            old(dev).wf(),
            old(ctrl).wf(),
            old(dev).slot_id <= old(ctrl).max_slots,
        ensures
            final (self).wf(),
            final (dev).wf(),
            final (ctrl).wf(),
            final (ctrl).max_slots == old(ctrl).max_slots,
            final (ctrl).host == old(ctrl).host,
            final (dev).slot_id == old(dev).slot_id,
    {
        let cdb = cdb10(SCSI_READ_CAPACITY_10);
        let mut data = zero_vec(8);
        match self.scsi_command(dev, ctrl, lun, &cdb, &mut data, true) {
            Ok(_) => (),
            Err(e) => return Err(e),
        }
        match parse_read_capacity10(data.as_slice()) {
            Some(d) => Ok(d),
            None => Err(UsbError::InvalidDescriptor),
        }
    }

    /// Sends REQUEST SENSE and parses the fixed-format 18-byte response.
    pub fn request_sense<H: Dma>(
        &mut self,
        dev: &mut UsbDevice,
        ctrl: &mut XhciCtrl<H>,
        lun: u8,
    ) -> (r: Result<RequestSenseData, UsbError>)
        requires
            old(self).wf(),
            old(dev).wf(),
            old(ctrl).wf(),
            old(dev).slot_id <= old(ctrl).max_slots,
        ensures
            final (self).wf(),
            final (dev).wf(),
            final (ctrl).wf(),
            final (ctrl).max_slots == old(ctrl).max_slots,
            final (ctrl).host == old(ctrl).host,
            final (dev).slot_id == old(dev).slot_id,
    {
        let cdb = cdb6(SCSI_REQUEST_SENSE, 18);
        let mut data = zero_vec(18);
        match self.scsi_command(dev, ctrl, lun, &cdb, &mut data, true) {
            Ok(_) => (),
            Err(e) => return Err(e),
        }
        match parse_request_sense(data.as_slice()) {
            Some(d) => Ok(d),
            None => Err(UsbError::InvalidDescriptor),
        }
    }

    /// Reads `count` blocks starting at `lba` with READ (10) into the
    /// caller's buffer.
    pub fn read_blocks<H: Dma>(
        &mut self,
        dev: &mut UsbDevice,
        ctrl: &mut XhciCtrl<H>,
        lun: u8,
        lba: u32,
        count: u16,
        buf: &mut Vec<u8>,
    ) -> (r: Result<usize, UsbError>)
        requires
            old(self).wf(),
            old(dev).wf(),
            old(ctrl).wf(),
            old(dev).slot_id <= old(ctrl).max_slots,
            old(buf)@.len() <= u32::MAX,
        ensures
            final (self).wf(),
            final (dev).wf(),
            final (ctrl).wf(),
            final (ctrl).max_slots == old(ctrl).max_slots,
            final (ctrl).host == old(ctrl).host,
            final (dev).slot_id == old(dev).slot_id,
            final (buf)@.len() == old(buf)@.len(),
    {
        let cdb = read10_cdb(lba, count);
        self.scsi_command(dev, ctrl, lun, &cdb, buf, true)
    }

    /// Writes `count` blocks starting at `lba` with WRITE (10) from the
    /// caller's buffer.
    pub fn write_blocks<H: Dma>(
        &mut self,
        dev: &mut UsbDevice,
        ctrl: &mut XhciCtrl<H>,
        lun: u8,
        lba: u32,
        count: u16,
        buf: &mut Vec<u8>,
    ) -> (r: Result<usize, UsbError>)
        requires
            old(self).wf(),
            old(dev).wf(),
            old(ctrl).wf(),
            old(dev).slot_id <= old(ctrl).max_slots,
            old(buf)@.len() <= u32::MAX,
        ensures
            final (self).wf(),
            final (dev).wf(),
            final (ctrl).wf(),
            final (ctrl).max_slots == old(ctrl).max_slots,
            final (ctrl).host == old(ctrl).host,
            final (dev).slot_id == old(dev).slot_id,
            final (buf)@ == old(buf)@,
    {
        let cdb = write10_cdb(lba, count);
        self.scsi_command(dev, ctrl, lun, &cdb, buf, false)
    }

    /// Flushes the device cache with SYNCHRONIZE CACHE (10).
    pub fn sync_cache<H: Dma>(&mut self, dev: &mut UsbDevice, ctrl: &mut XhciCtrl<H>, lun: u8) -> (r:
        Result<(), UsbError>)
        requires
            old(self).wf(),
            old(dev).wf(),
            old(ctrl).wf(),
            old(dev).slot_id <= old(ctrl).max_slots,
        ensures
            final (self).wf(),
            final (dev).wf(),
            final (ctrl).wf(),
            final (ctrl).max_slots == old(ctrl).max_slots,
            final (ctrl).host == old(ctrl).host,
            final (dev).slot_id == old(dev).slot_id,
    {
        let cdb = cdb10(SCSI_SYNCHRONIZE_CACHE_10);
        let mut empty = zero_vec(0);
        match self.scsi_command(dev, ctrl, lun, &cdb, &mut empty, false) {
            Ok(_) => Ok(()),
            Err(e) => Err(e),
        }
    }
}

} // verus!
