//! The register file of an ATA command and the dialects that carry it.

use vstd::prelude::*;
use crate::error::Error;
use crate::transport::ata::{AtaCommand, Direction};
use crate::transport::scsi::{
    submission, DataBuffer, ScsiCdb, ScsiCdb12, ScsiCdb16, ScsiOutcome, ScsiRequest,
    SG_DXFER_FROM_DEV, SG_DXFER_NONE, SG_DXFER_TO_DEV,
};
use crate::types::DiskType;

verus! {

/// The twelve bytes that hold the registers of an ATA command, before the
/// command as the host sets them and after it as the device returns them.
#[derive(Debug, Clone, Copy)]
pub struct AtaRegisters {
    pub data: [u8; 12],
}

impl AtaRegisters {
    /// A register file of zeros.
    pub fn new() -> (r: Self)
        ensures
            r.data@ == Seq::new(12, |i: int| 0u8),
    {
        let r = Self { data: [0u8; 12] };
        assert(r.data@ =~= Seq::new(12, |i: int| 0u8));
        r
    }

    /// Sets the FEATURES register.
    pub fn set_features(&mut self, value: u8)
        ensures
            final(self).data@ == old(self).data@.update(1, value),
    {
        self.data[1] = value;
    }

    /// Sets the SECTOR COUNT register.
    pub fn set_sector_count(&mut self, value: u8)
        ensures
            final(self).data@ == old(self).data@.update(3, value),
    {
        self.data[3] = value;
    }

    /// Sets the LBA LOW register.
    pub fn set_lba_low(&mut self, value: u8)
        ensures
            final(self).data@ == old(self).data@.update(9, value),
    {
        self.data[9] = value;
    }

    /// Sets the LBA MID register.
    pub fn set_lba_mid(&mut self, value: u8)
        ensures
            final(self).data@ == old(self).data@.update(8, value),
    {
        self.data[8] = value;
    }

    /// Sets the LBA HIGH register.
    pub fn set_lba_high(&mut self, value: u8)
        ensures
            final(self).data@ == old(self).data@.update(7, value),
    {
        self.data[7] = value;
    }

    /// Sets the DEVICE register.
    pub fn set_device(&mut self, value: u8)
        ensures
            final(self).data@ == old(self).data@.update(10, value),
    {
        self.data[10] = value;
    }

    /// The STATUS register.
    pub fn status(&self) -> (r: u8)
        ensures
            r == self.data@[11],
    {
        self.data[11]
    }

    /// The ERROR register.
    pub fn error(&self) -> (r: u8)
        ensures
            r == self.data@[2],
    {
        self.data[2]
    }
}

/// How far an ATA command has come on its way through a dialect.
#[derive(Debug, Clone, Copy, PartialEq, Eq, Structural)]
pub enum Progress {
    /// Nothing has been submitted yet.
    Start,
    /// The read of the bridge's port register has been submitted.
    PortQuery,
    /// The submission that carries the ATA command itself has been made.
    /// `port` is the bridge's port register where the dialect reads one, else 0.
    Command { port: u8 },
    /// The read of the bridge's copy of the return registers has been submitted.
    Registers { port: u8 },
}

/// What the dispatcher wants done next.
#[derive(Debug)]
pub enum Action {
    /// Make this submission, then call the dispatcher again with its outcome
    /// and with `next` as the progress.
    Submit { request: ScsiRequest, next: Progress },
    /// The command is over, with this result.
    Finish(Result<(), Error>),
}

/// The direction code of the generic SCSI interface for `direction`.
pub open spec fn sg_direction(direction: Direction) -> i32 {
    match direction {
        Direction::NonData => SG_DXFER_NONE,
        Direction::In => SG_DXFER_FROM_DEV,
        Direction::Out => SG_DXFER_TO_DEV,
    }
}

/// Byte 1 of an ATA pass-through command block: the protocol (3 non-data,
/// 4 PIO data-in, 5 PIO data-out), shifted left by one bit.
pub open spec fn protocol_byte(direction: Direction) -> u8 {
    match direction {
        Direction::NonData => 6,
        Direction::In => 8,
        Direction::Out => 10,
    }
}

/// Byte 2 of an ATA pass-through command block: always CK_COND; with data,
/// also BYT_BLOK and T_LENGTH = 2, and T_DIR when the device sends.
pub open spec fn transfer_flags(direction: Direction) -> u8 {
    match direction {
        Direction::NonData => 0x20,
        Direction::In => 0x2e,
        Direction::Out => 0x26,
    }
}

/// The 16-byte ATA pass-through command block for `command` with the
/// registers `regs`.
pub open spec fn passthrough_16_cdb(command: AtaCommand, direction: Direction, regs: Seq<u8>) -> Seq<
    u8,
> {
    seq![
        0x85u8,
        protocol_byte(direction),
        transfer_flags(direction),
        regs[0],
        regs[1],
        regs[2],
        regs[3],
        0u8,
        regs[9],
        0u8,
        regs[8],
        0u8,
        regs[7],
        regs[10] & 0x4F,
        command.spec_code(),
        0u8,
    ]
}

/// The 12-byte ATA pass-through command block for `command` with the
/// registers `regs`.
pub open spec fn passthrough_12_cdb(command: AtaCommand, direction: Direction, regs: Seq<u8>) -> Seq<
    u8,
> {
    seq![
        0xa1u8,
        protocol_byte(direction),
        transfer_flags(direction),
        regs[1],
        regs[3],
        regs[9],
        regs[8],
        regs[7],
        regs[10] & 0x4F,
        command.spec_code(),
        0u8,
        0u8,
    ]
}

/// Whether `sense` is sense data in descriptor format whose first descriptor
/// is an ATA status return descriptor.
pub open spec fn is_ata_return(sense: Seq<u8>) -> bool {
    &&& sense.len() >= 22
    &&& sense[0] == 0x72
    &&& sense[8] == 0x09
    &&& sense[9] == 0x0c
}

/// The register file after a pass-through command: the registers that the
/// ATA status return descriptor at offset 8 of `sense` reports, and the
/// bytes of `before` that it does not speak of.
pub open spec fn registers_from_sense(before: Seq<u8>, sense: Seq<u8>) -> Seq<u8> {
    seq![
        0u8,
        sense[11],
        sense[12],
        sense[13],
        before[4],
        before[5],
        before[6],
        sense[19],
        sense[17],
        sense[15],
        sense[20],
        sense[21],
    ]
}

/// The step asks for the submission `request`, to be followed by a step at
/// `next`, and leaves the registers as they were.
pub open spec fn submits(
    request: crate::transport::scsi::ScsiRequestView,
    next: Progress,
    before: AtaRegisters,
    action: Action,
    after: AtaRegisters,
) -> bool {
    &&& action matches Action::Submit { request: r, next: n }
    &&& r@ == request
    &&& n == next
    &&& after.data@ == before.data@
}

/// The step ends the command with `NotSupported` and leaves the registers as
/// they were.
pub open spec fn ends_unsupported(before: AtaRegisters, action: Action, after: AtaRegisters) -> bool {
    &&& action matches Action::Finish(Err(Error::NotSupported(_)))
    &&& after.data@ == before.data@
}

/// The step ends the command with `InvalidData` and leaves the registers as
/// they were.
pub open spec fn ends_invalid(before: AtaRegisters, action: Action, after: AtaRegisters) -> bool {
    &&& action matches Action::Finish(Err(Error::InvalidData(_)))
    &&& after.data@ == before.data@
}

/// The step ends the command with the I/O error `errno` and leaves the
/// registers as they were.
pub open spec fn ends_io(errno: i32, before: AtaRegisters, action: Action, after: AtaRegisters) -> bool {
    &&& action == Action::Finish(Err(Error::Io(errno)))
    &&& after.data@ == before.data@
}

/// The step ends the command with success and with `registers` as the
/// register file.
pub open spec fn ends_with(registers: Seq<u8>, action: Action, after: AtaRegisters) -> bool {
    &&& action == Action::Finish(Ok(()))
    &&& after.data@ == registers
}

/// How a pass-through command ends once the submission that carried it has
/// the outcome `outcome`: with the registers decoded from the sense data,
/// with `InvalidData` where the sense data holds no ATA status return, with
/// `Io` where the kernel refused the submission.
pub open spec fn passthrough_end(
    outcome: Option<&ScsiOutcome>,
    before: AtaRegisters,
    action: Action,
    after: AtaRegisters,
) -> bool {
    match outcome {
        Some(ScsiOutcome::Completed { sense, .. }) => if is_ata_return(sense@) {
            ends_with(registers_from_sense(before.data@, sense@), action, after)
        } else {
            ends_invalid(before, action, after)
        },
        Some(ScsiOutcome::Failed { errno }) => ends_io(*errno, before, action, after),
        None => ends_unsupported(before, action, after),
    }
}

/// What one step of an ATA pass-through command with the command block `cdb`
/// does: from `Start` it submits `cdb`; when that submission has an outcome
/// it ends the command.
pub open spec fn passthrough_step(
    cdb: Seq<u8>,
    progress: Progress,
    outcome: Option<&ScsiOutcome>,
    direction: Direction,
    data_len: u32,
    before: AtaRegisters,
    action: Action,
    after: AtaRegisters,
) -> bool {
    match progress {
        Progress::Start => submits(
            submission(cdb, sg_direction(direction), data_len, DataBuffer::Payload),
            Progress::Command { port: 0 },
            before,
            action,
            after,
        ),
        Progress::Command { .. } => passthrough_end(outcome, before, action, after),
        _ => ends_unsupported(before, action, after),
    }
}

/// Byte 3 of a Sunplus command block: the kind of transfer.
pub open spec fn sunplus_transfer(direction: Direction) -> u8 {
    match direction {
        Direction::NonData => 0x00,
        Direction::In => 0x10,
        Direction::Out => 0x11,
    }
}

/// The Sunplus command block that passes `command` with the registers `regs`
/// to the device.
pub open spec fn sunplus_cdb(command: AtaCommand, direction: Direction, regs: Seq<u8>) -> Seq<u8> {
    seq![
        0xF8u8,
        0x00u8,
        0x22u8,
        sunplus_transfer(direction),
        regs[3],
        regs[1],
        regs[3],
        regs[9],
        regs[8],
        regs[7],
        regs[10] | 0xA0,
        command.spec_code(),
    ]
}

/// The Sunplus command block that reads the bridge's copy of the return
/// registers, eight bytes.
pub open spec fn sunplus_registers_cdb() -> Seq<u8> {
    seq![0xF8u8, 0x00u8, 0x21u8, 0u8, 0u8, 0u8, 0u8, 0u8, 0u8, 0u8, 0u8, 0u8]
}

/// The register file after a Sunplus command whose register read returned
/// `buf`.  The bridge reports no FEATURES register.
pub open spec fn registers_from_sunplus(before: Seq<u8>, buf: Seq<u8>) -> Seq<u8> {
    seq![
        0u8,
        before[1],
        buf[1],
        buf[2],
        before[4],
        before[5],
        before[6],
        buf[5],
        buf[4],
        buf[3],
        buf[6],
        buf[7],
    ]
}

/// What one step of an ATA command through a Sunplus bridge does: it submits
/// the command, then a read of eight bytes of return registers, and ends with
/// the register file taken from those.
pub open spec fn sunplus_step(
    progress: Progress,
    outcome: Option<&ScsiOutcome>,
    command: AtaCommand,
    direction: Direction,
    data_len: u32,
    before: AtaRegisters,
    action: Action,
    after: AtaRegisters,
) -> bool {
    match progress {
        Progress::Start => submits(
            submission(
                sunplus_cdb(command, direction, before.data@),
                sg_direction(direction),
                data_len,
                DataBuffer::Payload,
            ),
            Progress::Command { port: 0 },
            before,
            action,
            after,
        ),
        Progress::Command { .. } => match outcome {
            Some(ScsiOutcome::Completed { .. }) => submits(
                submission(sunplus_registers_cdb(), SG_DXFER_FROM_DEV, 8, DataBuffer::Scratch),
                Progress::Registers { port: 0 },
                before,
                action,
                after,
            ),
            Some(ScsiOutcome::Failed { errno }) => ends_io(*errno, before, action, after),
            None => ends_unsupported(before, action, after),
        },
        Progress::Registers { .. } => match outcome {
            Some(ScsiOutcome::Completed { data, .. }) => if data@.len() >= 8 {
                ends_with(registers_from_sunplus(before.data@, data@), action, after)
            } else {
                ends_invalid(before, action, after)
            },
            Some(ScsiOutcome::Failed { errno }) => ends_io(*errno, before, action, after),
            None => ends_unsupported(before, action, after),
        },
        Progress::PortQuery => ends_unsupported(before, action, after),
    }
}

/// The JMicron command block that reads the bridge's port register, one byte
/// at address 0x720F.
pub open spec fn jmicron_port_cdb() -> Seq<u8> {
    seq![0xdfu8, 0x10u8, 0x00u8, 0x00u8, 1u8, 0x00u8, 0x72u8, 0x0fu8, 0x00u8, 0x00u8, 0x00u8, 0xfdu8]
}

/// Whether the port register says that a device sits on one of the bridge's
/// two ports: bit 0x04 stands for the first port, bit 0x40 for the second.
pub open spec fn jmicron_port_valid(port: u8) -> bool {
    (port & 0x04) != 0 || (port & 0x40) != 0
}

/// The bits that select the device behind the port that `port` names.
pub open spec fn jmicron_device_select(port: u8) -> u8 {
    if (port & 0x04) != 0 {
        0xA0
    } else {
        0xB0
    }
}

/// The address of the bridge's copy of the return registers of the port that
/// `port` names.
pub open spec fn jmicron_register_base(port: u8) -> u8 {
    if (port & 0x04) != 0 {
        0x80
    } else {
        0x90
    }
}

/// The JMicron command block that passes `command` with the registers `regs`
/// and `data_len` bytes of data to the device behind `port`.
pub open spec fn jmicron_cdb(command: AtaCommand, regs: Seq<u8>, data_len: u32, port: u8) -> Seq<
    u8,
> {
    seq![
        0xdfu8,
        0x10u8,
        0x00u8,
        ((data_len / 256) % 256) as u8,
        (data_len % 256) as u8,
        regs[1],
        regs[3],
        regs[9],
        regs[8],
        regs[7],
        regs[10] | jmicron_device_select(port),
        command.spec_code(),
    ]
}

/// The JMicron command block that reads the sixteen bytes of return
/// registers of the port that `port` names.
pub open spec fn jmicron_registers_cdb(port: u8) -> Seq<u8> {
    seq![
        0xdfu8,
        0x10u8,
        0x00u8,
        0x00u8,
        16u8,
        0x00u8,
        jmicron_register_base(port),
        0x00u8,
        0x00u8,
        0x00u8,
        0x00u8,
        0xfdu8,
    ]
}

/// The register file after a JMicron command whose register read returned
/// `buf`.  The bridge reports no FEATURES register.
pub open spec fn registers_from_jmicron(before: Seq<u8>, buf: Seq<u8>) -> Seq<u8> {
    seq![
        0u8,
        before[1],
        buf[14],
        buf[0],
        before[4],
        before[5],
        before[6],
        buf[10],
        buf[4],
        buf[6],
        buf[9],
        buf[13],
    ]
}

/// What one step of an ATA command through a JMicron bridge does: it reads
/// the port register, refuses with `NotSupported` where neither port holds a
/// device, submits the command for the port found, reads sixteen bytes of
/// return registers, and ends with the register file taken from those.
pub open spec fn jmicron_step(
    progress: Progress,
    outcome: Option<&ScsiOutcome>,
    command: AtaCommand,
    direction: Direction,
    data_len: u32,
    before: AtaRegisters,
    action: Action,
    after: AtaRegisters,
) -> bool {
    match progress {
        Progress::Start => submits(
            submission(jmicron_port_cdb(), SG_DXFER_FROM_DEV, 1, DataBuffer::Scratch),
            Progress::PortQuery,
            before,
            action,
            after,
        ),
        Progress::PortQuery => match outcome {
            Some(ScsiOutcome::Completed { data, .. }) => if data@.len() < 1 {
                ends_invalid(before, action, after)
            } else if !jmicron_port_valid(data@[0]) {
                ends_unsupported(before, action, after)
            } else {
                submits(
                    submission(
                        jmicron_cdb(command, before.data@, data_len, data@[0]),
                        sg_direction(direction),
                        data_len,
                        DataBuffer::Payload,
                    ),
                    Progress::Command { port: data@[0] },
                    before,
                    action,
                    after,
                )
            },
            Some(ScsiOutcome::Failed { errno }) => ends_io(*errno, before, action, after),
            None => ends_unsupported(before, action, after),
        },
        Progress::Command { port } => match outcome {
            Some(ScsiOutcome::Completed { .. }) => submits(
                submission(jmicron_registers_cdb(port), SG_DXFER_FROM_DEV, 16, DataBuffer::Scratch),
                Progress::Registers { port },
                before,
                action,
                after,
            ),
            Some(ScsiOutcome::Failed { errno }) => ends_io(*errno, before, action, after),
            None => ends_unsupported(before, action, after),
        },
        Progress::Registers { .. } => match outcome {
            Some(ScsiOutcome::Completed { data, .. }) => if data@.len() >= 16 {
                ends_with(registers_from_jmicron(before.data@, data@), action, after)
            } else {
                ends_invalid(before, action, after)
            },
            Some(ScsiOutcome::Failed { errno }) => ends_io(*errno, before, action, after),
            None => ends_unsupported(before, action, after),
        },
    }
}

/// What one step of an ATA command does on a device of type `disk_type`: the
/// step of the type's dialect.  A snapshot has no device to command, and the
/// types without a dialect of their own have none either: there every step
/// ends with `NotSupported`.
pub open spec fn send_ata_command_step(
    disk_type: DiskType,
    progress: Progress,
    outcome: Option<&ScsiOutcome>,
    command: AtaCommand,
    direction: Direction,
    data_len: u32,
    before: AtaRegisters,
    action: Action,
    after: AtaRegisters,
) -> bool {
    match disk_type {
        DiskType::AtaPassthrough16 => passthrough_step(
            passthrough_16_cdb(command, direction, before.data@),
            progress,
            outcome,
            direction,
            data_len,
            before,
            action,
            after,
        ),
        DiskType::AtaPassthrough12 => passthrough_step(
            passthrough_12_cdb(command, direction, before.data@),
            progress,
            outcome,
            direction,
            data_len,
            before,
            action,
            after,
        ),
        DiskType::Sunplus => sunplus_step(
            progress,
            outcome,
            command,
            direction,
            data_len,
            before,
            action,
            after,
        ),
        DiskType::Jmicron => jmicron_step(
            progress,
            outcome,
            command,
            direction,
            data_len,
            before,
            action,
            after,
        ),
        DiskType::Blob | DiskType::Auto | DiskType::NoDialect | DiskType::LinuxIde => ends_unsupported(
            before,
            action,
            after,
        ),
    }
}

/// A snapshot refuses every command: on a handle of type `Blob` each step,
/// whatever the progress, the outcome and the command, ends with
/// `NotSupported`, asks for no submission and leaves the registers as they
/// were.
pub proof fn lemma_snapshot_refuses_commands(
    progress: Progress,
    outcome: Option<&ScsiOutcome>,
    command: AtaCommand,
    direction: Direction,
    data_len: u32,
    before: AtaRegisters,
    action: Action,
    after: AtaRegisters,
)
    requires
        send_ata_command_step(
            DiskType::Blob,
            progress,
            outcome,
            command,
            direction,
            data_len,
            before,
            action,
            after,
        ),
    ensures
        action matches Action::Finish(Err(Error::NotSupported(_))),
        after.data@ == before.data@,
{
}

/// An ATA pass-through command never succeeds on sense data whose byte 0 is
/// not 0x72, whose byte 8 is not 0x09 or whose byte 9 is not 0x0C: it ends
/// with `InvalidData` and leaves the registers as they were.
pub proof fn lemma_passthrough_rejects_other_sense(
    sense: Vec<u8>,
    data: Vec<u8>,
    before: AtaRegisters,
    action: Action,
    after: AtaRegisters,
)
    requires
        sense@.len() < 22 || sense@[0] != 0x72 || sense@[8] != 0x09 || sense@[9] != 0x0c,
        passthrough_end(Some(&ScsiOutcome::Completed { sense, data }), before, action, after),
    ensures
        action matches Action::Finish(Err(Error::InvalidData(_))),
        after.data@ == before.data@,
{
}

/// The direction code of the generic SCSI interface for `direction`.
pub fn dxfer_direction(direction: Direction) -> (r: i32)
    ensures
        r == sg_direction(direction),
{
    match direction {
        Direction::NonData => SG_DXFER_NONE,
        Direction::In => SG_DXFER_FROM_DEV,
        Direction::Out => SG_DXFER_TO_DEV,
    }
}

/// The result of a step that was asked for in a state that the dialect never
/// reaches, or without the outcome that the state waits for.
fn out_of_step() -> (action: Action)
    ensures
        action matches Action::Finish(Err(Error::NotSupported(_))),
{
    Action::Finish(Err(Error::NotSupported("no such step in this dialect".to_owned())))
}

/// Decodes the sense data of an ATA pass-through command into the register
/// file.  Sense data that is not in descriptor format (byte 0 is not 0x72),
/// or whose descriptor at offset 8 is not an ATA status return descriptor
/// (code 0x09, length 0x0C), or that is too short to hold one, is refused
/// as invalid and leaves the registers as they were.
pub fn decode_sense(sense: &Vec<u8>, registers: &mut AtaRegisters) -> (r: Result<(), Error>)
    ensures
        if is_ata_return(sense@) {
            &&& r == Ok::<(), Error>(())
            &&& final(registers).data@ == registers_from_sense(old(registers).data@, sense@)
        } else {
            &&& r matches Err(Error::InvalidData(_))
            &&& final(registers).data@ == old(registers).data@
        },
{
    if sense.len() < 22 || sense[0] != 0x72 || sense[8] != 0x09 || sense[9] != 0x0c {
        return Err(Error::InvalidData("sense data holds no ATA status return".to_owned()));
    }
    registers.data[0] = 0;
    registers.data[1] = sense[11];
    registers.data[2] = sense[12];
    registers.data[3] = sense[13];
    registers.data[7] = sense[19];
    registers.data[8] = sense[17];
    registers.data[9] = sense[15];
    registers.data[10] = sense[20];
    registers.data[11] = sense[21];
    assert(registers.data@ =~= registers_from_sense(old(registers).data@, sense@));
    Ok(())
}

/// The second half of a pass-through command: reads the outcome of the
/// submission that carried the command.
fn finish_passthrough(outcome: Option<&ScsiOutcome>, registers: &mut AtaRegisters) -> (action:
    Action)
    ensures
        passthrough_end(outcome, *old(registers), action, *final(registers)),
{
    match outcome {
        Some(ScsiOutcome::Completed { sense, data: _ }) => Action::Finish(
            decode_sense(sense, registers),
        ),
        Some(ScsiOutcome::Failed { errno }) => Action::Finish(Err(Error::Io(*errno))),
        None => out_of_step(),
    }
}

/// Byte 1 and byte 2 of an ATA pass-through command block.
fn passthrough_header(direction: Direction) -> (r: (u8, u8))
    ensures
        r.0 == protocol_byte(direction),
        r.1 == transfer_flags(direction),
{
    match direction {
        Direction::NonData => (6, 0x20),
        Direction::In => (8, 0x2e),
        Direction::Out => (10, 0x26),
    }
}

/// One step of an ATA command through ATA pass-through with 16-byte command
/// blocks.
///
/// From `Progress::Start` the step asks for one submission, which carries the
/// command and moves `data_len` bytes of the command's own data.  Called
/// again with the outcome of that submission, it ends the command: with the
/// return registers decoded from the sense data into `registers`, with
/// `InvalidData` where the sense data is not an ATA status return, or with
/// `Io` where the kernel refused the submission.
pub fn passthrough_16(
    progress: Progress,
    outcome: Option<&ScsiOutcome>,
    command: AtaCommand,
    direction: Direction,
    registers: &mut AtaRegisters,
    data_len: u32,
) -> (action: Action)
    ensures
        passthrough_step(
            passthrough_16_cdb(command, direction, old(registers).data@),
            progress,
            outcome,
            direction,
            data_len,
            *old(registers),
            action,
            *final(registers),
        ),
{
    match progress {
        Progress::Start => {
            let header = passthrough_header(direction);
            let mut cdb = ScsiCdb16::new();
            cdb.data[0] = 0x85;
            cdb.data[1] = header.0;
            cdb.data[2] = header.1;
            cdb.data[3] = registers.data[0];
            cdb.data[4] = registers.data[1];
            cdb.data[5] = registers.data[2];
            cdb.data[6] = registers.data[3];
            cdb.data[8] = registers.data[9];
            cdb.data[10] = registers.data[8];
            cdb.data[12] = registers.data[7];
            cdb.data[13] = registers.data[10] & 0x4F;
            cdb.data[14] = command.code();
            assert(cdb.data@ =~= passthrough_16_cdb(command, direction, registers.data@));
            Action::Submit {
                request: ScsiRequest::new(
                    ScsiCdb::Cdb16(cdb),
                    dxfer_direction(direction),
                    data_len,
                    DataBuffer::Payload,
                ),
                next: Progress::Command { port: 0 },
            }
        },
        Progress::Command { port: _ } => finish_passthrough(outcome, registers),
        _ => out_of_step(),
    }
}

/// One step of an ATA command through ATA pass-through with 12-byte command
/// blocks.  It goes as `passthrough_16` does, with the shorter command block.
pub fn passthrough_12(
    progress: Progress,
    outcome: Option<&ScsiOutcome>,
    command: AtaCommand,
    direction: Direction,
    registers: &mut AtaRegisters,
    data_len: u32,
) -> (action: Action)
    ensures
        passthrough_step(
            passthrough_12_cdb(command, direction, old(registers).data@),
            progress,
            outcome,
            direction,
            data_len,
            *old(registers),
            action,
            *final(registers),
        ),
{
    match progress {
        Progress::Start => {
            let header = passthrough_header(direction);
            let mut cdb = ScsiCdb12::new();
            cdb.data[0] = 0xa1;
            cdb.data[1] = header.0;
            cdb.data[2] = header.1;
            cdb.data[3] = registers.data[1];
            cdb.data[4] = registers.data[3];
            cdb.data[5] = registers.data[9];
            cdb.data[6] = registers.data[8];
            cdb.data[7] = registers.data[7];
            cdb.data[8] = registers.data[10] & 0x4F;
            cdb.data[9] = command.code();
            assert(cdb.data@ =~= passthrough_12_cdb(command, direction, registers.data@));
            Action::Submit {
                request: ScsiRequest::new(
                    ScsiCdb::Cdb12(cdb),
                    dxfer_direction(direction),
                    data_len,
                    DataBuffer::Payload,
                ),
                next: Progress::Command { port: 0 },
            }
        },
        Progress::Command { port: _ } => finish_passthrough(outcome, registers),
        _ => out_of_step(),
    }
}

/// The end of a command whose submission the kernel refused, or whose
/// outcome is missing.
fn submission_lost(outcome: Option<&ScsiOutcome>) -> (action: Action)
    requires
        !(outcome matches Some(ScsiOutcome::Completed { .. })),
    ensures
        match outcome {
            Some(ScsiOutcome::Failed { errno }) => action == Action::Finish(Err(Error::Io(*errno))),
            _ => action matches Action::Finish(Err(Error::NotSupported(_))),
        },
{
    match outcome {
        Some(ScsiOutcome::Failed { errno }) => Action::Finish(Err(Error::Io(*errno))),
        _ => out_of_step(),
    }
}

/// One step of an ATA command through a Sunplus USB bridge.
///
/// The bridge takes the command in a command block of its own and keeps the
/// return registers, which a second submission reads: eight bytes into a
/// scratch buffer.  The step ends the command with `Io` as soon as the kernel
/// refuses a submission, and with `InvalidData` where the register read
/// brought fewer than eight bytes.
pub fn sunplus_command(
    progress: Progress,
    outcome: Option<&ScsiOutcome>,
    command: AtaCommand,
    direction: Direction,
    registers: &mut AtaRegisters,
    data_len: u32,
) -> (action: Action)
    ensures
        sunplus_step(
            progress,
            outcome,
            command,
            direction,
            data_len,
            *old(registers),
            action,
            *final(registers),
        ),
{
    match progress {
        Progress::Start => {
            let mut cdb = ScsiCdb12::new();
            cdb.data[0] = 0xF8;
            cdb.data[1] = 0x00;
            cdb.data[2] = 0x22;
            cdb.data[3] = match direction {
                Direction::NonData => 0x00,
                Direction::In => 0x10,
                Direction::Out => 0x11,
            };
            cdb.data[4] = registers.data[3];
            cdb.data[5] = registers.data[1];
            cdb.data[6] = registers.data[3];
            cdb.data[7] = registers.data[9];
            cdb.data[8] = registers.data[8];
            cdb.data[9] = registers.data[7];
            cdb.data[10] = registers.data[10] | 0xA0;
            cdb.data[11] = command.code();
            assert(cdb.data@ =~= sunplus_cdb(command, direction, registers.data@));
            Action::Submit {
                request: ScsiRequest::new(
                    ScsiCdb::Cdb12(cdb),
                    dxfer_direction(direction),
                    data_len,
                    DataBuffer::Payload,
                ),
                next: Progress::Command { port: 0 },
            }
        },
        Progress::Command { port: _ } => match outcome {
            Some(ScsiOutcome::Completed { sense: _, data: _ }) => {
                let mut cdb = ScsiCdb12::new();
                cdb.data[0] = 0xF8;
                cdb.data[1] = 0x00;
                cdb.data[2] = 0x21;
                assert(cdb.data@ =~= sunplus_registers_cdb());
                Action::Submit {
                    request: ScsiRequest::new(
                        ScsiCdb::Cdb12(cdb),
                        SG_DXFER_FROM_DEV,
                        8,
                        DataBuffer::Scratch,
                    ),
                    next: Progress::Registers { port: 0 },
                }
            },
            _ => submission_lost(outcome),
        },
        Progress::Registers { port: _ } => match outcome {
            Some(ScsiOutcome::Completed { sense: _, data }) => {
                if data.len() < 8 {
                    return Action::Finish(
                        Err(Error::InvalidData("short register read from the bridge".to_owned())),
                    );
                }
                registers.data[0] = 0;
                registers.data[2] = data[1];
                registers.data[3] = data[2];
                registers.data[7] = data[5];
                registers.data[8] = data[4];
                registers.data[9] = data[3];
                registers.data[10] = data[6];
                registers.data[11] = data[7];
                assert(registers.data@ =~= registers_from_sunplus(old(registers).data@, data@));
                Action::Finish(Ok(()))
            },
            _ => submission_lost(outcome),
        },
        Progress::PortQuery => out_of_step(),
    }
}

/// One step of an ATA command through a JMicron USB bridge.
///
/// Three submissions make one command.  The first reads the bridge's port
/// register into a scratch buffer of one byte; where neither bit 0x04 nor bit
/// 0x40 of it is set, no device is there and the command ends with
/// `NotSupported`.  The second carries the command to the device behind the
/// port found.  The third reads the sixteen bytes of return registers that
/// the bridge keeps for that port.  The step ends the command with `Io` as
/// soon as the kernel refuses a submission, and with `InvalidData` where a
/// scratch read brought fewer bytes than were asked for.
pub fn jmicron_command(
    progress: Progress,
    outcome: Option<&ScsiOutcome>,
    command: AtaCommand,
    direction: Direction,
    registers: &mut AtaRegisters,
    data_len: u32,
) -> (action: Action)
    ensures
        jmicron_step(
            progress,
            outcome,
            command,
            direction,
            data_len,
            *old(registers),
            action,
            *final(registers),
        ),
{
    match progress {
        Progress::Start => {
            let mut cdb = ScsiCdb12::new();
            cdb.data[0] = 0xdf;
            cdb.data[1] = 0x10;
            cdb.data[4] = 1;
            cdb.data[6] = 0x72;
            cdb.data[7] = 0x0f;
            cdb.data[11] = 0xfd;
            assert(cdb.data@ =~= jmicron_port_cdb());
            Action::Submit {
                request: ScsiRequest::new(
                    ScsiCdb::Cdb12(cdb),
                    SG_DXFER_FROM_DEV,
                    1,
                    DataBuffer::Scratch,
                ),
                next: Progress::PortQuery,
            }
        },
        Progress::PortQuery => match outcome {
            Some(ScsiOutcome::Completed { sense: _, data }) => {
                if data.len() < 1 {
                    return Action::Finish(
                        Err(Error::InvalidData("no port register from the bridge".to_owned())),
                    );
                }
                let port: u8 = data[0];
                if (port & 0x04) == 0 && (port & 0x40) == 0 {
                    return Action::Finish(
                        Err(Error::NotSupported("no device on either port of the bridge".to_owned())),
                    );
                }
                let mut cdb = ScsiCdb12::new();
                cdb.data[0] = 0xdf;
                cdb.data[1] = 0x10;
                cdb.data[3] = ((data_len / 256) % 256) as u8;
                cdb.data[4] = (data_len % 256) as u8;
                cdb.data[5] = registers.data[1];
                cdb.data[6] = registers.data[3];
                cdb.data[7] = registers.data[9];
                cdb.data[8] = registers.data[8];
                cdb.data[9] = registers.data[7];
                cdb.data[10] = registers.data[10] | if (port & 0x04) != 0 {
                    0xA0
                } else {
                    0xB0
                };
                cdb.data[11] = command.code();
                assert(cdb.data@ =~= jmicron_cdb(command, registers.data@, data_len, port));
                Action::Submit {
                    request: ScsiRequest::new(
                        ScsiCdb::Cdb12(cdb),
                        dxfer_direction(direction),
                        data_len,
                        DataBuffer::Payload,
                    ),
                    next: Progress::Command { port },
                }
            },
            _ => submission_lost(outcome),
        },
        Progress::Command { port } => match outcome {
            Some(ScsiOutcome::Completed { sense: _, data: _ }) => {
                let mut cdb = ScsiCdb12::new();
                cdb.data[0] = 0xdf;
                cdb.data[1] = 0x10;
                cdb.data[4] = 16;
                cdb.data[6] = if (port & 0x04) != 0 {
                    0x80
                } else {
                    0x90
                };
                cdb.data[11] = 0xfd;
                assert(cdb.data@ =~= jmicron_registers_cdb(port));
                Action::Submit {
                    request: ScsiRequest::new(
                        ScsiCdb::Cdb12(cdb),
                        SG_DXFER_FROM_DEV,
                        16,
                        DataBuffer::Scratch,
                    ),
                    next: Progress::Registers { port },
                }
            },
            _ => submission_lost(outcome),
        },
        Progress::Registers { port: _ } => match outcome {
            Some(ScsiOutcome::Completed { sense: _, data }) => {
                if data.len() < 16 {
                    return Action::Finish(
                        Err(Error::InvalidData("short register read from the bridge".to_owned())),
                    );
                }
                registers.data[0] = 0;
                registers.data[2] = data[14];
                registers.data[3] = data[0];
                registers.data[7] = data[10];
                registers.data[8] = data[4];
                registers.data[9] = data[6];
                registers.data[10] = data[9];
                registers.data[11] = data[13];
                assert(registers.data@ =~= registers_from_jmicron(old(registers).data@, data@));
                Action::Finish(Ok(()))
            },
            _ => submission_lost(outcome),
        },
    }
}

/// One step of an ATA command on a device of type `disk_type`.
///
/// The caller starts with `Progress::Start`, makes each submission that a
/// step asks for, and calls again with the outcome and the progress that the
/// step named, until a step ends the command.  On success `registers` then
/// holds the return registers; every other step leaves them as they were.  A
/// snapshot, and every type without a dialect, ends each step with
/// `NotSupported` and is never given a submission.
pub fn send_ata_command(
    disk_type: DiskType,
    progress: Progress,
    outcome: Option<&ScsiOutcome>,
    command: AtaCommand,
    direction: Direction,
    registers: &mut AtaRegisters,
    data_len: u32,
) -> (action: Action)
    ensures
        send_ata_command_step(
            disk_type,
            progress,
            outcome,
            command,
            direction,
            data_len,
            *old(registers),
            action,
            *final(registers),
        ),
{
    match disk_type {
        DiskType::AtaPassthrough16 => passthrough_16(
            progress,
            outcome,
            command,
            direction,
            registers,
            data_len,
        ),
        DiskType::AtaPassthrough12 => passthrough_12(
            progress,
            outcome,
            command,
            direction,
            registers,
            data_len,
        ),
        DiskType::Sunplus => sunplus_command(
            progress,
            outcome,
            command,
            direction,
            registers,
            data_len,
        ),
        DiskType::Jmicron => jmicron_command(
            progress,
            outcome,
            command,
            direction,
            registers,
            data_len,
        ),
        DiskType::Blob => Action::Finish(
            Err(Error::NotSupported("a snapshot takes no commands".to_owned())),
        ),
        DiskType::Auto | DiskType::NoDialect | DiskType::LinuxIde => Action::Finish(
            Err(Error::NotSupported("no dialect for this type of disk".to_owned())),
        ),
    }
}

} // verus!
