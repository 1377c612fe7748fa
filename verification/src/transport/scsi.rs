//! SCSI command blocks and the description of one submission.

use vstd::prelude::*;
use crate::types::constants::TIMEOUT_MS;

verus! {

/// Transfer direction of a submission that moves no data.
pub const SG_DXFER_NONE: i32 = -1;

/// Transfer direction of a submission that writes to the device.
pub const SG_DXFER_TO_DEV: i32 = -2;

/// Transfer direction of a submission that reads from the device.
pub const SG_DXFER_FROM_DEV: i32 = -3;

/// Room for sense data that every submission offers, in bytes.
pub const SENSE_LEN: u8 = 32;

/// A SCSI command block of 12 bytes.
#[derive(Debug, Clone, Copy)]
pub struct ScsiCdb12 {
    pub data: [u8; 12],
}

impl ScsiCdb12 {
    /// A command block of zeros.
    pub fn new() -> (r: Self)
        ensures
            r.data@ == Seq::new(12, |i: int| 0u8),
    {
        let r = Self { data: [0u8; 12] };
        assert(r.data@ =~= Seq::new(12, |i: int| 0u8));
        r
    }
}

/// A SCSI command block of 16 bytes.
#[derive(Debug, Clone, Copy)]
pub struct ScsiCdb16 {
    pub data: [u8; 16],
}

impl ScsiCdb16 {
    /// A command block of zeros.
    pub fn new() -> (r: Self)
        ensures
            r.data@ == Seq::new(16, |i: int| 0u8),
    {
        let r = Self { data: [0u8; 16] };
        assert(r.data@ =~= Seq::new(16, |i: int| 0u8));
        r
    }
}

/// The command block of a submission, in one of its two lengths.
#[derive(Debug, Clone, Copy)]
pub enum ScsiCdb {
    Cdb12(ScsiCdb12),
    Cdb16(ScsiCdb16),
}

impl View for ScsiCdb {
    type V = Seq<u8>;

    /// The bytes of the command block.
    open spec fn view(&self) -> Seq<u8> {
        match *self {
            ScsiCdb::Cdb12(cdb) => cdb.data@,
            ScsiCdb::Cdb16(cdb) => cdb.data@,
        }
    }
}

/// Which buffer the data phase of a submission uses.
#[derive(Debug, Clone, Copy, PartialEq, Eq, Structural)]
pub enum DataBuffer {
    /// The data buffer of the ATA command that is being carried out.
    Payload,
    /// A buffer of the driver's own; what the device wrote there is handed
    /// back with the outcome of the submission.
    Scratch,
}

/// One submission to the generic SCSI interface of the kernel: the fields of
/// its descriptor that the dispatcher decides.
#[derive(Debug, Clone, Copy)]
pub struct ScsiRequest {
    /// The letter that marks the descriptor's format.
    pub interface_id: i32,
    /// One of `SG_DXFER_NONE`, `SG_DXFER_TO_DEV`, `SG_DXFER_FROM_DEV`.
    pub dxfer_direction: i32,
    /// Length of the command block in bytes.
    pub cmd_len: u8,
    /// Room for sense data in bytes.
    pub mx_sb_len: u8,
    /// Number of bytes that the data phase moves.
    pub dxfer_len: u32,
    /// Time limit in milliseconds.
    pub timeout: u32,
    /// The command block.
    pub cdb: ScsiCdb,
    /// The buffer of the data phase.
    pub buffer: DataBuffer,
}

/// A submission as a mathematical value.
pub struct ScsiRequestView {
    pub interface_id: i32,
    pub dxfer_direction: i32,
    pub cmd_len: u8,
    pub mx_sb_len: u8,
    pub dxfer_len: u32,
    pub timeout: u32,
    pub cdb: Seq<u8>,
    pub buffer: DataBuffer,
}

impl View for ScsiRequest {
    type V = ScsiRequestView;

    open spec fn view(&self) -> ScsiRequestView {
        ScsiRequestView {
            interface_id: self.interface_id,
            dxfer_direction: self.dxfer_direction,
            cmd_len: self.cmd_len,
            mx_sb_len: self.mx_sb_len,
            dxfer_len: self.dxfer_len,
            timeout: self.timeout,
            cdb: self.cdb@,
            buffer: self.buffer,
        }
    }
}

/// The submission that carries the command block `cdb` with a data phase of
/// `dxfer_len` bytes in direction `dxfer_direction` on `buffer`.
pub open spec fn submission(
    cdb: Seq<u8>,
    dxfer_direction: i32,
    dxfer_len: u32,
    buffer: DataBuffer,
) -> ScsiRequestView {
    ScsiRequestView {
        interface_id: 0x53,
        dxfer_direction,
        cmd_len: cdb.len() as u8,
        mx_sb_len: SENSE_LEN,
        dxfer_len,
        timeout: TIMEOUT_MS,
        cdb,
        buffer,
    }
}

impl ScsiRequest {
    /// Describes the submission of `cdb` with the fixed time limit and sense
    /// room of this library.
    pub fn new(cdb: ScsiCdb, dxfer_direction: i32, dxfer_len: u32, buffer: DataBuffer) -> (r: Self)
        ensures
            r@ == submission(cdb@, dxfer_direction, dxfer_len, buffer),
    {
        let cmd_len: u8 = match cdb {
            ScsiCdb::Cdb12(_) => 12,
            ScsiCdb::Cdb16(_) => 16,
        };
        ScsiRequest {
            interface_id: 0x53,
            dxfer_direction,
            cmd_len,
            mx_sb_len: SENSE_LEN,
            dxfer_len,
            timeout: TIMEOUT_MS,
            cdb,
            buffer,
        }
    }
}

/// How a submission ended.
#[derive(Debug)]
pub enum ScsiOutcome {
    /// The kernel carried the submission out.  `sense` is what the sense
    /// buffer holds afterwards; `data` is what a scratch buffer holds
    /// afterwards, and empty where the submission used the payload buffer.
    Completed { sense: Vec<u8>, data: Vec<u8> },
    /// The kernel refused the submission with this OS error code.
    Failed { errno: i32 },
}

} // verus!
