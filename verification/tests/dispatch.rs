//! The dialects, driven by a transport that plays the device.

use atasmart::transport::ata::{AtaCommand, Direction};
use atasmart::transport::commands::{
    decode_sense, dxfer_direction, jmicron_command, passthrough_12, passthrough_16,
    send_ata_command, sunplus_command, Action, AtaRegisters, Progress,
};
use atasmart::transport::scsi::{
    DataBuffer, ScsiCdb, ScsiOutcome, ScsiRequest, SG_DXFER_FROM_DEV, SG_DXFER_NONE,
    SG_DXFER_TO_DEV,
};
use atasmart::{DiskType, Error};

fn cdb_bytes(request: &ScsiRequest) -> Vec<u8> {
    match request.cdb {
        ScsiCdb::Cdb12(cdb) => cdb.data.to_vec(),
        ScsiCdb::Cdb16(cdb) => cdb.data.to_vec(),
    }
}

fn sample_registers() -> AtaRegisters {
    let mut regs = AtaRegisters::new();
    regs.data = [0x10, 0x11, 0x12, 0x13, 0x14, 0x15, 0x16, 0x17, 0x18, 0x19, 0xFA, 0x1B];
    regs
}

fn ata_return_sense() -> Vec<u8> {
    let mut sense = vec![0u8; 32];
    sense[0] = 0x72;
    sense[8] = 0x09;
    sense[9] = 0x0c;
    for i in 10..22 {
        sense[i] = 0xA0 + i as u8;
    }
    sense
}

fn completed(sense: Vec<u8>, data: Vec<u8>) -> ScsiOutcome {
    ScsiOutcome::Completed { sense, data }
}

fn submitted(action: Action) -> (ScsiRequest, Progress) {
    match action {
        Action::Submit { request, next } => (request, next),
        Action::Finish(result) => panic!("the command ended: {:?}", result),
    }
}

fn finished(action: Action) -> Result<(), Error> {
    match action {
        Action::Finish(result) => result,
        Action::Submit { .. } => panic!("the command asked for a submission"),
    }
}

/// Carries a command out against a device that `device` plays, and counts
/// the submissions.
fn run(
    disk_type: DiskType,
    command: AtaCommand,
    direction: Direction,
    registers: &mut AtaRegisters,
    data_len: u32,
    device: &mut dyn FnMut(&ScsiRequest) -> ScsiOutcome,
) -> (Result<(), Error>, usize) {
    let mut progress = Progress::Start;
    let mut outcome: Option<ScsiOutcome> = None;
    let mut submissions = 0;
    loop {
        match send_ata_command(
            disk_type,
            progress,
            outcome.as_ref(),
            command,
            direction,
            registers,
            data_len,
        ) {
            Action::Finish(result) => return (result, submissions),
            Action::Submit { request, next } => {
                submissions += 1;
                assert!(submissions <= 3);
                outcome = Some(device(&request));
                progress = next;
            }
        }
    }
}

#[test]
fn test_dxfer_direction() {
    assert_eq!(dxfer_direction(Direction::NonData), SG_DXFER_NONE);
    assert_eq!(dxfer_direction(Direction::In), SG_DXFER_FROM_DEV);
    assert_eq!(dxfer_direction(Direction::Out), SG_DXFER_TO_DEV);
}

#[test]
fn test_passthrough_16_command_block() {
    let mut regs = sample_registers();
    let before = regs.data;
    let (request, next) = submitted(passthrough_16(
        Progress::Start,
        None,
        AtaCommand::Smart,
        Direction::In,
        &mut regs,
        512,
    ));
    assert_eq!(
        cdb_bytes(&request),
        vec![
            0x85, 0x08, 0x2e, 0x10, 0x11, 0x12, 0x13, 0x00, 0x19, 0x00, 0x18, 0x00, 0x17, 0x4A,
            0xB0, 0x00
        ]
    );
    assert_eq!(request.interface_id, 'S' as i32);
    assert_eq!(request.dxfer_direction, SG_DXFER_FROM_DEV);
    assert_eq!(request.cmd_len, 16);
    assert_eq!(request.mx_sb_len, 32);
    assert_eq!(request.dxfer_len, 512);
    assert_eq!(request.timeout, 2000);
    assert_eq!(request.buffer, DataBuffer::Payload);
    assert_eq!(next, Progress::Command { port: 0 });
    assert_eq!(regs.data, before);
}

#[test]
fn test_passthrough_16_protocol_bytes() {
    let mut regs = AtaRegisters::new();
    let (none, _) = submitted(passthrough_16(
        Progress::Start,
        None,
        AtaCommand::CheckPowerMode,
        Direction::NonData,
        &mut regs,
        0,
    ));
    assert_eq!(&cdb_bytes(&none)[..3], &[0x85, 0x06, 0x20]);
    assert_eq!(cdb_bytes(&none)[14], 0xE5);
    assert_eq!(none.dxfer_direction, SG_DXFER_NONE);
    let (out, _) = submitted(passthrough_16(
        Progress::Start,
        None,
        AtaCommand::IdentifyDevice,
        Direction::Out,
        &mut regs,
        512,
    ));
    assert_eq!(&cdb_bytes(&out)[..3], &[0x85, 0x0A, 0x26]);
    assert_eq!(out.dxfer_direction, SG_DXFER_TO_DEV);
}

#[test]
fn test_passthrough_12_command_block() {
    let mut regs = sample_registers();
    let (request, next) = submitted(passthrough_12(
        Progress::Start,
        None,
        AtaCommand::IdentifyDevice,
        Direction::In,
        &mut regs,
        512,
    ));
    assert_eq!(
        cdb_bytes(&request),
        vec![0xa1, 0x08, 0x2e, 0x11, 0x13, 0x19, 0x18, 0x17, 0x4A, 0xEC, 0x00, 0x00]
    );
    assert_eq!(request.cmd_len, 12);
    assert_eq!(request.dxfer_len, 512);
    assert_eq!(request.buffer, DataBuffer::Payload);
    assert_eq!(next, Progress::Command { port: 0 });
}

#[test]
fn test_decode_sense_reads_registers() {
    let mut regs = sample_registers();
    let sense = ata_return_sense();
    assert_eq!(decode_sense(&sense, &mut regs), Ok(()));
    assert_eq!(
        regs.data,
        [0x00, 0xAB, 0xAC, 0xAD, 0x14, 0x15, 0x16, 0xB3, 0xB1, 0xAF, 0xB4, 0xB5]
    );
}

#[test]
fn test_decode_sense_rejects_other_layouts() {
    for (index, value) in [(0usize, 0x70u8), (8, 0x08), (9, 0x0e), (0, 0x00), (8, 0x00), (9, 0x00)]
    {
        let mut regs = sample_registers();
        let before = regs.data;
        let mut sense = ata_return_sense();
        sense[index] = value;
        let result = decode_sense(&sense, &mut regs);
        assert!(matches!(result, Err(Error::InvalidData(_))));
        assert_eq!(regs.data, before);
    }
    let mut regs = sample_registers();
    let mut short = ata_return_sense();
    short.truncate(21);
    assert!(matches!(
        decode_sense(&short, &mut regs),
        Err(Error::InvalidData(_))
    ));
    assert!(matches!(
        decode_sense(&Vec::new(), &mut regs),
        Err(Error::InvalidData(_))
    ));
    let mut exact = ata_return_sense();
    exact.truncate(22);
    assert_eq!(decode_sense(&exact, &mut regs), Ok(()));
}

#[test]
fn test_passthrough_16_whole_command() {
    let mut regs = sample_registers();
    let mut seen: Vec<Vec<u8>> = Vec::new();
    let (result, submissions) = run(
        DiskType::AtaPassthrough16,
        AtaCommand::Smart,
        Direction::NonData,
        &mut regs,
        0,
        &mut |request| {
            seen.push(cdb_bytes(request));
            completed(ata_return_sense(), Vec::new())
        },
    );
    assert_eq!(result, Ok(()));
    assert_eq!(submissions, 1);
    assert_eq!(seen[0][0], 0x85);
    assert_eq!(regs.data[8], 0xB1);
    assert_eq!(regs.data[7], 0xB3);
    assert_eq!(regs.status(), 0xB5);
}

#[test]
fn test_passthrough_failures() {
    for disk_type in [DiskType::AtaPassthrough16, DiskType::AtaPassthrough12] {
        let mut regs = sample_registers();
        let before = regs.data;
        let (result, submissions) = run(
            disk_type,
            AtaCommand::Smart,
            Direction::NonData,
            &mut regs,
            0,
            &mut |_| ScsiOutcome::Failed { errno: 25 },
        );
        assert_eq!(result, Err(Error::Io(25)));
        assert_eq!(submissions, 1);
        assert_eq!(regs.data, before);

        let (result, _) = run(
            disk_type,
            AtaCommand::Smart,
            Direction::NonData,
            &mut regs,
            0,
            &mut |_| completed(vec![0u8; 32], Vec::new()),
        );
        assert!(matches!(result, Err(Error::InvalidData(_))));
        assert_eq!(regs.data, before);
    }
}

#[test]
fn test_steps_out_of_order_are_refused() {
    let mut regs = sample_registers();
    let before = regs.data;
    let sense = completed(ata_return_sense(), vec![0u8; 16]);
    let r = finished(passthrough_16(
        Progress::PortQuery,
        Some(&sense),
        AtaCommand::Smart,
        Direction::NonData,
        &mut regs,
        0,
    ));
    assert!(matches!(r, Err(Error::NotSupported(_))));
    let r = finished(passthrough_12(
        Progress::Registers { port: 0 },
        Some(&sense),
        AtaCommand::Smart,
        Direction::NonData,
        &mut regs,
        0,
    ));
    assert!(matches!(r, Err(Error::NotSupported(_))));
    let r = finished(passthrough_16(
        Progress::Command { port: 0 },
        None,
        AtaCommand::Smart,
        Direction::NonData,
        &mut regs,
        0,
    ));
    assert!(matches!(r, Err(Error::NotSupported(_))));
    let r = finished(sunplus_command(
        Progress::PortQuery,
        Some(&sense),
        AtaCommand::Smart,
        Direction::NonData,
        &mut regs,
        0,
    ));
    assert!(matches!(r, Err(Error::NotSupported(_))));
    let r = finished(jmicron_command(
        Progress::Registers { port: 4 },
        None,
        AtaCommand::Smart,
        Direction::NonData,
        &mut regs,
        0,
    ));
    assert!(matches!(r, Err(Error::NotSupported(_))));
    assert_eq!(regs.data, before);
}

#[test]
fn test_sunplus_whole_command() {
    let mut regs = sample_registers();
    let mut seen: Vec<ScsiRequest> = Vec::new();
    let (result, submissions) = run(
        DiskType::Sunplus,
        AtaCommand::Smart,
        Direction::In,
        &mut regs,
        512,
        &mut |request| {
            seen.push(*request);
            match request.buffer {
                DataBuffer::Payload => completed(vec![0u8; 32], Vec::new()),
                DataBuffer::Scratch => completed(
                    vec![0u8; 32],
                    vec![0x50, 0x51, 0x52, 0x53, 0x54, 0x55, 0x56, 0x57],
                ),
            }
        },
    );
    assert_eq!(result, Ok(()));
    assert_eq!(submissions, 2);
    assert_eq!(
        cdb_bytes(&seen[0]),
        vec![0xF8, 0x00, 0x22, 0x10, 0x13, 0x11, 0x13, 0x19, 0x18, 0x17, 0xFA, 0xB0]
    );
    assert_eq!(seen[0].dxfer_direction, SG_DXFER_FROM_DEV);
    assert_eq!(seen[0].dxfer_len, 512);
    assert_eq!(
        cdb_bytes(&seen[1]),
        vec![0xF8, 0x00, 0x21, 0, 0, 0, 0, 0, 0, 0, 0, 0]
    );
    assert_eq!(seen[1].dxfer_direction, SG_DXFER_FROM_DEV);
    assert_eq!(seen[1].dxfer_len, 8);
    assert_eq!(seen[1].buffer, DataBuffer::Scratch);
    assert_eq!(
        regs.data,
        [0x00, 0x11, 0x51, 0x52, 0x14, 0x15, 0x16, 0x55, 0x54, 0x53, 0x56, 0x57]
    );
}

#[test]
fn test_sunplus_device_select_and_directions() {
    let mut regs = AtaRegisters::new();
    regs.set_device(0x05);
    let (request, _) = submitted(sunplus_command(
        Progress::Start,
        None,
        AtaCommand::CheckPowerMode,
        Direction::NonData,
        &mut regs,
        0,
    ));
    assert_eq!(cdb_bytes(&request)[3], 0x00);
    assert_eq!(cdb_bytes(&request)[10], 0xA5);
    let (request, _) = submitted(sunplus_command(
        Progress::Start,
        None,
        AtaCommand::CheckPowerMode,
        Direction::Out,
        &mut regs,
        0,
    ));
    assert_eq!(cdb_bytes(&request)[3], 0x11);
}

#[test]
fn test_sunplus_failures() {
    let mut regs = sample_registers();
    let before = regs.data;
    let (result, submissions) = run(
        DiskType::Sunplus,
        AtaCommand::Smart,
        Direction::NonData,
        &mut regs,
        0,
        &mut |_| ScsiOutcome::Failed { errno: 5 },
    );
    assert_eq!(result, Err(Error::Io(5)));
    assert_eq!(submissions, 1);

    let (result, submissions) = run(
        DiskType::Sunplus,
        AtaCommand::Smart,
        Direction::NonData,
        &mut regs,
        0,
        &mut |request| match request.buffer {
            DataBuffer::Payload => completed(vec![0u8; 32], Vec::new()),
            DataBuffer::Scratch => ScsiOutcome::Failed { errno: 6 },
        },
    );
    assert_eq!(result, Err(Error::Io(6)));
    assert_eq!(submissions, 2);

    let (result, _) = run(
        DiskType::Sunplus,
        AtaCommand::Smart,
        Direction::NonData,
        &mut regs,
        0,
        &mut |_| completed(vec![0u8; 32], vec![1, 2, 3, 4, 5, 6, 7]),
    );
    assert!(matches!(result, Err(Error::InvalidData(_))));
    assert_eq!(regs.data, before);
}

fn jmicron_device(port: u8, seen: &mut Vec<ScsiRequest>, request: &ScsiRequest) -> ScsiOutcome {
    seen.push(*request);
    match (request.buffer, request.dxfer_len) {
        (DataBuffer::Scratch, 1) => completed(vec![0u8; 32], vec![port]),
        (DataBuffer::Scratch, _) => completed(vec![0u8; 32], (0x60..0x70).collect()),
        (DataBuffer::Payload, _) => completed(vec![0u8; 32], Vec::new()),
    }
}

#[test]
fn test_jmicron_whole_command_first_port() {
    let mut regs = sample_registers();
    let mut seen: Vec<ScsiRequest> = Vec::new();
    let (result, submissions) = run(
        DiskType::Jmicron,
        AtaCommand::Smart,
        Direction::In,
        &mut regs,
        512,
        &mut |request| jmicron_device(0x04, &mut seen, request),
    );
    assert_eq!(result, Ok(()));
    assert_eq!(submissions, 3);
    assert_eq!(
        cdb_bytes(&seen[0]),
        vec![0xdf, 0x10, 0x00, 0x00, 0x01, 0x00, 0x72, 0x0f, 0x00, 0x00, 0x00, 0xfd]
    );
    assert_eq!(seen[0].dxfer_len, 1);
    assert_eq!(seen[0].dxfer_direction, SG_DXFER_FROM_DEV);
    assert_eq!(seen[0].buffer, DataBuffer::Scratch);
    assert_eq!(
        cdb_bytes(&seen[1]),
        vec![0xdf, 0x10, 0x00, 0x02, 0x00, 0x11, 0x13, 0x19, 0x18, 0x17, 0xFA, 0xB0]
    );
    assert_eq!(seen[1].dxfer_len, 512);
    assert_eq!(seen[1].buffer, DataBuffer::Payload);
    assert_eq!(
        cdb_bytes(&seen[2]),
        vec![0xdf, 0x10, 0x00, 0x00, 0x10, 0x00, 0x80, 0x00, 0x00, 0x00, 0x00, 0xfd]
    );
    assert_eq!(seen[2].dxfer_len, 16);
    assert_eq!(seen[2].buffer, DataBuffer::Scratch);
    assert_eq!(
        regs.data,
        [0x00, 0x11, 0x6E, 0x60, 0x14, 0x15, 0x16, 0x6A, 0x64, 0x66, 0x69, 0x6D]
    );
}

#[test]
fn test_jmicron_second_port() {
    let mut regs = AtaRegisters::new();
    regs.set_device(0x01);
    let mut seen: Vec<ScsiRequest> = Vec::new();
    let (result, submissions) = run(
        DiskType::Jmicron,
        AtaCommand::IdentifyDevice,
        Direction::In,
        &mut regs,
        0x1234,
        &mut |request| jmicron_device(0x40, &mut seen, request),
    );
    assert_eq!(result, Ok(()));
    assert_eq!(submissions, 3);
    assert_eq!(cdb_bytes(&seen[1])[3], 0x12);
    assert_eq!(cdb_bytes(&seen[1])[4], 0x34);
    assert_eq!(cdb_bytes(&seen[1])[10], 0xB1);
    assert_eq!(cdb_bytes(&seen[1])[11], 0xEC);
    assert_eq!(cdb_bytes(&seen[2])[6], 0x90);
}

#[test]
fn test_jmicron_port_masks() {
    for (port, valid) in [
        (0x00u8, false),
        (0x04, true),
        (0x40, true),
        (0x44, true),
        (0xBB, false),
        (0xFF, true),
        (0x03, false),
    ] {
        let mut regs = sample_registers();
        let before = regs.data;
        let mut seen: Vec<ScsiRequest> = Vec::new();
        let (result, submissions) = run(
            DiskType::Jmicron,
            AtaCommand::Smart,
            Direction::NonData,
            &mut regs,
            0,
            &mut |request| jmicron_device(port, &mut seen, request),
        );
        if valid {
            assert_eq!(result, Ok(()));
            assert_eq!(submissions, 3);
        } else {
            assert!(matches!(result, Err(Error::NotSupported(_))));
            assert_eq!(submissions, 1);
            assert_eq!(regs.data, before);
        }
    }
}

#[test]
fn test_jmicron_failures() {
    for failing in 0..3usize {
        let mut regs = sample_registers();
        let before = regs.data;
        let mut count = 0usize;
        let mut seen: Vec<ScsiRequest> = Vec::new();
        let (result, submissions) = run(
            DiskType::Jmicron,
            AtaCommand::Smart,
            Direction::NonData,
            &mut regs,
            0,
            &mut |request| {
                count += 1;
                if count - 1 == failing {
                    ScsiOutcome::Failed { errno: 100 + failing as i32 }
                } else {
                    jmicron_device(0x04, &mut seen, request)
                }
            },
        );
        assert_eq!(result, Err(Error::Io(100 + failing as i32)));
        assert_eq!(submissions, failing + 1);
        assert_eq!(regs.data, before);
    }
    let mut regs = sample_registers();
    let (result, _) = run(
        DiskType::Jmicron,
        AtaCommand::Smart,
        Direction::NonData,
        &mut regs,
        0,
        &mut |_| completed(vec![0u8; 32], Vec::new()),
    );
    assert!(matches!(result, Err(Error::InvalidData(_))));
    let (result, submissions) = run(
        DiskType::Jmicron,
        AtaCommand::Smart,
        Direction::NonData,
        &mut regs,
        0,
        &mut |request| match request.dxfer_len {
            16 => completed(vec![0u8; 32], vec![0u8; 15]),
            _ => completed(vec![0u8; 32], vec![0x04]),
        },
    );
    assert!(matches!(result, Err(Error::InvalidData(_))));
    assert_eq!(submissions, 3);
}

#[test]
fn test_blob_and_undetected_types_refuse_every_command() {
    let outcomes = [
        None,
        Some(completed(ata_return_sense(), vec![0x04; 16])),
        Some(ScsiOutcome::Failed { errno: 1 }),
    ];
    let steps = [
        Progress::Start,
        Progress::PortQuery,
        Progress::Command { port: 4 },
        Progress::Registers { port: 4 },
    ];
    let commands = [
        AtaCommand::IdentifyDevice,
        AtaCommand::IdentifyPacketDevice,
        AtaCommand::Smart,
        AtaCommand::CheckPowerMode,
    ];
    for disk_type in [
        DiskType::Blob,
        DiskType::NoDialect,
        DiskType::Auto,
        DiskType::LinuxIde,
    ] {
        for outcome in &outcomes {
            for progress in steps {
                for command in commands {
                    for direction in [Direction::NonData, Direction::In, Direction::Out] {
                        let mut regs = sample_registers();
                        let before = regs.data;
                        let result = finished(send_ata_command(
                            disk_type,
                            progress,
                            outcome.as_ref(),
                            command,
                            direction,
                            &mut regs,
                            512,
                        ));
                        assert!(matches!(result, Err(Error::NotSupported(_))));
                        assert_eq!(regs.data, before);
                    }
                }
            }
        }
    }
}
