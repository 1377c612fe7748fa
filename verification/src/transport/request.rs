//! One ATA command as the facade asks for it, and what comes back.

use vstd::prelude::*;
use crate::error::Error;
use crate::transport::ata::{AtaCommand, Direction};
use crate::transport::commands::AtaRegisters;
use crate::types::enums::DiskType;

verus! {

/// An ATA command that is to be carried out on a device.
#[derive(Debug, Clone, Copy)]
pub struct AtaRequest {
    /// The dialect to carry the command in.
    pub disk_type: DiskType,
    /// The command.
    pub command: AtaCommand,
    /// Which way the command's data moves.
    pub direction: Direction,
    /// The registers to send with the command.
    pub registers: AtaRegisters,
    /// Number of bytes of data that the command moves.
    pub data_len: u32,
}

/// An ATA command as a mathematical value.
pub struct AtaRequestView {
    pub disk_type: DiskType,
    pub command: AtaCommand,
    pub direction: Direction,
    pub registers: Seq<u8>,
    pub data_len: u32,
}

impl View for AtaRequest {
    type V = AtaRequestView;

    open spec fn view(&self) -> AtaRequestView {
        AtaRequestView {
            disk_type: self.disk_type,
            command: self.command,
            direction: self.direction,
            registers: self.registers.data@,
            data_len: self.data_len,
        }
    }
}

/// What a device answered to an ATA command.
#[derive(Debug)]
pub struct AtaResponse {
    /// The registers that the device returned.
    pub registers: AtaRegisters,
    /// The data that the device sent; empty for a command that reads none.
    pub data: Vec<u8>,
}

/// What an operation of the facade wants done next.
#[derive(Debug)]
pub enum Step<T> {
    /// Carry this command out, then call the operation again with what came
    /// of it.
    Send(AtaRequest),
    /// The operation is over, with this result.
    Done(Result<T, Error>),
}

/// The registers of a command that sets FEATURES, SECTOR COUNT and LBA LOW
/// as given, and the signature 0x4F, 0xC2 in LBA MID and LBA HIGH where
/// `signed`.
pub open spec fn command_registers(features: u8, sector_count: u8, lba_low: u8, signed: bool) -> Seq<
    u8,
> {
    seq![
        0u8,
        features,
        0u8,
        sector_count,
        0u8,
        0u8,
        0u8,
        if signed {
            0xC2u8
        } else {
            0u8
        },
        if signed {
            0x4Fu8
        } else {
            0u8
        },
        lba_low,
        0u8,
        0u8,
    ]
}

impl AtaRequest {
    /// The request for `command` with the registers FEATURES, SECTOR COUNT
    /// and LBA LOW as given, and with the SMART signature where `signed`.
    pub fn new(
        disk_type: DiskType,
        command: AtaCommand,
        direction: Direction,
        features: u8,
        sector_count: u8,
        lba_low: u8,
        signed: bool,
        data_len: u32,
    ) -> (r: AtaRequest)
        ensures
            r@ == (AtaRequestView {
                disk_type,
                command,
                direction,
                registers: command_registers(features, sector_count, lba_low, signed),
                data_len,
            }),
    {
        let mut registers = AtaRegisters::new();
        registers.set_features(features);
        registers.set_sector_count(sector_count);
        registers.set_lba_low(lba_low);
        if signed {
            registers.set_lba_mid(0x4F);
            registers.set_lba_high(0xC2);
        }
        assert(registers.data@ =~= command_registers(features, sector_count, lba_low, signed));
        AtaRequest { disk_type, command, direction, registers, data_len }
    }
}

} // verus!
