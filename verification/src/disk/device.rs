//! The handle itself.

use vstd::prelude::*;
use crate::disk::detect::{plausible_identify, try_identify_device};
use crate::error::Error;
use crate::identify::{parse_identify_data, smart_supported, supports_smart};
use crate::smart::attributes::{parse_attributes, parsed_attributes, records_view};
use crate::smart::blob::{copy_sector, sector_view};
use crate::smart::parse::{parse_smart_data, parsed_smart_data};
use crate::transport::ata::{AtaCommand, Direction, SmartCommand};
use crate::transport::request::{command_registers, AtaRequest, AtaRequestView, AtaResponse, Step};
use crate::types::enums::{DiskType, SmartSelfTest};
use crate::types::structs::{IdentifyParsedData, SmartAttributeParsedData, SmartParsedData};
use crate::utils::ata_string;

verus! {

/// A handle on a disk, or on a snapshot of one: the dialect that reaches
/// it, its size, and the sectors that have been read so far.
#[derive(Debug)]
pub struct Disk {
    disk_type: DiskType,
    size: u64,
    identify_data: Option<[u8; 512]>,
    smart_data: Option<[u8; 512]>,
    smart_thresholds: Option<[u8; 512]>,
    smart_status: Option<bool>,
}

/// A handle as a mathematical value.
pub struct DiskView {
    /// The dialect; `Blob` for a snapshot.
    pub disk_type: DiskType,
    /// Size in bytes; zero for a snapshot.
    pub size: u64,
    /// The IDENTIFY DEVICE sector.
    pub identify: Option<Seq<u8>>,
    /// The SMART DATA sector.
    pub smart_data: Option<Seq<u8>>,
    /// The SMART THRESHOLDS sector.
    pub smart_thresholds: Option<Seq<u8>>,
    /// What the device last said of its health.
    pub smart_status: Option<bool>,
}

impl View for Disk {
    type V = DiskView;

    closed spec fn view(&self) -> DiskView {
        DiskView {
            disk_type: self.disk_type,
            size: self.size,
            identify: sector_view(self.identify_data),
            smart_data: sector_view(self.smart_data),
            smart_thresholds: sector_view(self.smart_thresholds),
            smart_status: self.smart_status,
        }
    }
}

impl DiskView {
    /// A handle that has read nothing yet.
    pub open spec fn fresh(disk_type: DiskType, size: u64) -> DiskView {
        DiskView {
            disk_type,
            size,
            identify: None,
            smart_data: None,
            smart_thresholds: None,
            smart_status: None,
        }
    }
}

/// Why SMART cannot be used on the handle `disk`, if it cannot: the
/// IDENTIFY DEVICE sector has not been read, or says that the device has no
/// SMART.
pub open spec fn smart_refusal(disk: DiskView) -> Option<Error> {
    match disk.identify {
        None => Some(Error::NoData),
        Some(identify) => if smart_supported(identify) {
            None
        } else {
            Some(Error::SmartNotAvailable)
        },
    }
}

/// The request of the SMART subcommand `features` on the handle `disk`.
pub open spec fn smart_request(
    disk: DiskView,
    features: u8,
    direction: Direction,
    sector_count: u8,
    lba_low: u8,
    data_len: u32,
) -> AtaRequestView {
    AtaRequestView {
        disk_type: disk.disk_type,
        command: AtaCommand::Smart,
        direction,
        registers: command_registers(features, sector_count, lba_low, true),
        data_len,
    }
}

/// Whether the registers that CHECK POWER MODE returned say that the device
/// is awake: SECTOR COUNT is 0xFF (active or idle) or 0x80 (idle), and bit 0
/// of STATUS, the error bit, is clear.
pub open spec fn awake(registers: Seq<u8>) -> bool {
    (registers[3] == 0xFF || registers[3] == 0x80) && (registers[11] & 1) == 0
}

/// What one step of the check for sleep does.  A snapshot is refused with
/// `NotSupported`.  Else the step asks for CHECK POWER MODE, and with the
/// reply says whether the device is awake.
pub open spec fn check_sleep_mode_step(
    disk: DiskView,
    reply: Option<Result<AtaResponse, Error>>,
    out: Step<bool>,
) -> bool {
    if disk.disk_type == DiskType::Blob {
        out matches Step::Done(Err(Error::NotSupported(_)))
    } else {
        match reply {
            None => out matches Step::Send(request) && request@ == (AtaRequestView {
                disk_type: disk.disk_type,
                command: AtaCommand::CheckPowerMode,
                direction: Direction::NonData,
                registers: command_registers(0, 0, 0, false),
                data_len: 0,
            }),
            Some(Err(e)) => out == Step::Done(Err::<bool, Error>(e)),
            Some(Ok(response)) => out == Step::Done(
                Ok::<bool, Error>(awake(response.registers.data@)),
            ),
        }
    }
}

/// What one step of reading the IDENTIFY DEVICE sector does.  A snapshot
/// has its sector already, and the step ends at once.  Else the step asks
/// for IDENTIFY DEVICE, and with the reply keeps the sector that came, or
/// ends with `InvalidData` where what came is no sector or all zeros.
pub open spec fn read_identify_step(
    before: DiskView,
    reply: Option<Result<AtaResponse, Error>>,
    out: Step<()>,
    after: DiskView,
) -> bool {
    if before.disk_type == DiskType::Blob {
        out == Step::Done(Ok::<(), Error>(())) && after == before
    } else {
        match reply {
            None => {
                &&& out matches Step::Send(request)
                &&& request@ == crate::disk::detect::identify_request(before.disk_type)
                &&& after == before
            },
            Some(Err(e)) => out == Step::Done(Err::<(), Error>(e)) && after == before,
            Some(Ok(response)) => if plausible_identify(response.data@) {
                &&& out == Step::Done(Ok::<(), Error>(()))
                &&& after == (DiskView { identify: Some(response.data@), ..before })
            } else {
                &&& out matches Step::Done(Err(Error::InvalidData(_)))
                &&& after == before
            },
        }
    }
}

/// What one step of reading a SMART sector with the subcommand `features`
/// does, where `kept` is the handle with the sector that came.  The step
/// refuses where SMART cannot be used.  A snapshot has its sectors already,
/// and the step ends at once.  Else the step asks for the sector, and with
/// the reply keeps it, or ends with `InvalidData` where what came is no
/// sector.
pub open spec fn read_smart_step(
    before: DiskView,
    features: u8,
    reply: Option<Result<AtaResponse, Error>>,
    out: Step<()>,
    after: DiskView,
    kept: DiskView,
) -> bool {
    if smart_refusal(before) is Some {
        out == Step::Done(Err::<(), Error>(smart_refusal(before)->0)) && after == before
    } else if before.disk_type == DiskType::Blob {
        out == Step::Done(Ok::<(), Error>(())) && after == before
    } else {
        match reply {
            None => {
                &&& out matches Step::Send(request)
                &&& request@ == smart_request(before, features, Direction::In, 1, 0, 512)
                &&& after == before
            },
            Some(Err(e)) => out == Step::Done(Err::<(), Error>(e)) && after == before,
            Some(Ok(response)) => if response.data@.len() == 512 {
                out == Step::Done(Ok::<(), Error>(())) && after == kept
            } else {
                out matches Step::Done(Err(Error::InvalidData(_))) && after == before
            },
        }
    }
}

/// What the registers that SMART RETURN STATUS returned say of the disk:
/// healthy with 0x4F in LBA MID and 0xC2 in LBA HIGH, failing with 0xF4 and
/// 0x2C, and nothing with anything else.  A 12-byte pass-through does not
/// return LBA HIGH reliably; there LBA MID decides alone.
pub open spec fn status_verdict(disk_type: DiskType, registers: Seq<u8>) -> Option<bool> {
    let mid = registers[8];
    let high = registers[7];
    let lenient = disk_type == DiskType::AtaPassthrough12;
    if (lenient || high == 0xC2) && mid == 0x4F {
        Some(true)
    } else if (lenient || high == 0x2C) && mid == 0xF4 {
        Some(false)
    } else {
        None
    }
}

/// What one step of asking the device for its health does.  The step
/// refuses where SMART cannot be used.  A snapshot answers with the status
/// that it holds, or with `NoData` where it holds none.  Else the step asks
/// for SMART RETURN STATUS, and with the reply keeps and gives the verdict,
/// or ends with `InvalidData` where the registers spell none.
pub open spec fn smart_status_step(
    before: DiskView,
    reply: Option<Result<AtaResponse, Error>>,
    out: Step<bool>,
    after: DiskView,
) -> bool {
    if smart_refusal(before) is Some {
        out == Step::Done(Err::<bool, Error>(smart_refusal(before)->0)) && after == before
    } else if before.disk_type == DiskType::Blob {
        &&& after == before
        &&& out == Step::Done(
            match before.smart_status {
                Some(good) => Ok::<bool, Error>(good),
                None => Err::<bool, Error>(Error::NoData),
            },
        )
    } else {
        match reply {
            None => {
                &&& out matches Step::Send(request)
                &&& request@ == smart_request(
                    before,
                    SmartCommand::ReturnStatus.spec_code(),
                    Direction::NonData,
                    0,
                    0,
                    0,
                )
                &&& after == before
            },
            Some(Err(e)) => out == Step::Done(Err::<bool, Error>(e)) && after == before,
            Some(Ok(response)) => match status_verdict(
                before.disk_type,
                response.registers.data@,
            ) {
                Some(good) => {
                    &&& out == Step::Done(Ok::<bool, Error>(good))
                    &&& after == (DiskView { smart_status: Some(good), ..before })
                },
                None => {
                    &&& out matches Step::Done(Err(Error::InvalidData(_)))
                    &&& after == before
                },
            },
        }
    }
}

/// What one step of starting the self-test `test` does.  The step refuses
/// where SMART cannot be used, refuses a snapshot with `NotSupported`,
/// refuses with `NoData` where the SMART DATA sector has not been read, and
/// with `NotSupported` where that sector says that the device does not
/// offer the test.  Else the step asks for SMART EXECUTE OFF-LINE IMMEDIATE
/// with the test's code in LBA LOW, and ends with what came of it.
pub open spec fn start_self_test_step(
    disk: DiskView,
    test: SmartSelfTest,
    reply: Option<Result<AtaResponse, Error>>,
    out: Step<()>,
) -> bool {
    if smart_refusal(disk) is Some {
        out == Step::Done(Err::<(), Error>(smart_refusal(disk)->0))
    } else if disk.disk_type == DiskType::Blob {
        out matches Step::Done(Err(Error::NotSupported(_)))
    } else if disk.smart_data is None {
        out == Step::Done(Err::<(), Error>(Error::NoData))
    } else if !parsed_smart_data(disk.smart_data->0).spec_self_test_available(test) {
        out matches Step::Done(Err(Error::NotSupported(_)))
    } else {
        match reply {
            None => out matches Step::Send(request) && request@ == smart_request(
                disk,
                SmartCommand::ExecuteOfflineImmediate.spec_code(),
                Direction::NonData,
                0,
                test.spec_code(),
                0,
            ),
            Some(Err(e)) => out == Step::Done(Err::<(), Error>(e)),
            Some(Ok(_)) => out == Step::Done(Ok::<(), Error>(())),
        }
    }
}

/// A snapshot is never given a command: whatever the reply, each operation
/// on a handle of type `Blob` ends at once, and the two that need a device,
/// the check for sleep and the start of a self-test, end with a refusal.
pub proof fn lemma_snapshot_takes_no_command(
    disk: DiskView,
    test: SmartSelfTest,
    features: u8,
    reply: Option<Result<AtaResponse, Error>>,
    answer: Step<bool>,
    done: Step<()>,
    after: DiskView,
    kept: DiskView,
)
    requires
        disk.disk_type == DiskType::Blob,
    ensures
        check_sleep_mode_step(disk, reply, answer) ==> answer matches Step::Done(
            Err(Error::NotSupported(_)),
        ),
        read_identify_step(disk, reply, done, after) ==> done is Done,
        read_smart_step(disk, features, reply, done, after, kept) ==> done is Done,
        smart_status_step(disk, reply, answer, after) ==> answer is Done,
        start_self_test_step(disk, test, reply, done) ==> done matches Step::Done(Err(_)),
{
}

impl Disk {
    /// A handle on a device of `size` bytes that the dialect `disk_type`
    /// reaches.  Nothing has been read yet.
    pub fn new(disk_type: DiskType, size: u64) -> (r: Self)
        ensures
            r@ == DiskView::fresh(disk_type, size),
    {
        Self {
            disk_type,
            size,
            identify_data: None,
            smart_data: None,
            smart_thresholds: None,
            smart_status: None,
        }
    }

    /// A handle on a snapshot that holds nothing yet.
    pub fn from_blob() -> (r: Result<Self, Error>)
        ensures
            r matches Ok(disk) && disk@ == DiskView::fresh(DiskType::Blob, 0),
    {
        Ok(Self::new(DiskType::Blob, 0))
    }

    /// Size of the disk in bytes.
    pub fn size(&self) -> (r: u64)
        ensures
            r == self@.size,
    {
        self.size
    }

    /// The dialect that reaches the disk.
    pub fn disk_type(&self) -> (r: DiskType)
        ensures
            r == self@.disk_type,
    {
        self.disk_type
    }

    /// The IDENTIFY DEVICE sector, if it has been read.
    pub fn identify_data(&self) -> (r: Option<&[u8; 512]>)
        ensures
            crate::smart::attributes::sector_bytes(r) == self@.identify,
    {
        self.identify_data.as_ref()
    }

    /// The SMART DATA sector, if it has been read.
    pub fn smart_data(&self) -> (r: Option<&[u8; 512]>)
        ensures
            crate::smart::attributes::sector_bytes(r) == self@.smart_data,
    {
        self.smart_data.as_ref()
    }

    /// The SMART THRESHOLDS sector, if it has been read.
    pub fn smart_thresholds(&self) -> (r: Option<&[u8; 512]>)
        ensures
            crate::smart::attributes::sector_bytes(r) == self@.smart_thresholds,
    {
        self.smart_thresholds.as_ref()
    }

    /// Gives the handle its IDENTIFY DEVICE sector.
    pub fn set_identify_data(&mut self, data: [u8; 512])
        ensures
            final(self)@ == (DiskView { identify: Some(data@), ..old(self)@ }),
    {
        self.identify_data = Some(data);
    }

    /// Gives the handle its SMART DATA sector.
    pub fn set_smart_data(&mut self, data: [u8; 512])
        ensures
            final(self)@ == (DiskView { smart_data: Some(data@), ..old(self)@ }),
    {
        self.smart_data = Some(data);
    }

    /// Gives the handle its SMART THRESHOLDS sector.
    pub fn set_smart_thresholds(&mut self, data: [u8; 512])
        ensures
            final(self)@ == (DiskView { smart_thresholds: Some(data@), ..old(self)@ }),
    {
        self.smart_thresholds = Some(data);
    }

    /// Tells the handle what the device said of its health.
    pub fn set_smart_status(&mut self, status: bool)
        ensures
            final(self)@ == (DiskView { smart_status: Some(status), ..old(self)@ }),
    {
        self.smart_status = Some(status);
    }

    /// What the device last said of its health, if it was asked.
    pub fn get_smart_status_internal(&self) -> (r: Option<bool>)
        ensures
            r == self@.smart_status,
    {
        self.smart_status
    }

    /// Whether SMART can be used: `NoData` before the IDENTIFY DEVICE sector
    /// has been read, else what that sector says.
    pub fn is_smart_available(&self) -> (r: Result<bool, Error>)
        ensures
            match self@.identify {
                None => r == Err::<bool, Error>(Error::NoData),
                Some(identify) => r == Ok::<bool, Error>(smart_supported(identify)),
            },
    {
        match &self.identify_data {
            None => Err(Error::NoData),
            Some(identify) => Ok(supports_smart(identify)),
        }
    }

    /// The refusal of an operation that needs SMART, if it must be refused.
    fn refuse_smart(&self) -> (r: Option<Error>)
        ensures
            r == smart_refusal(self@),
    {
        match self.is_smart_available() {
            Err(e) => Some(e),
            Ok(false) => Some(Error::SmartNotAvailable),
            Ok(true) => None,
        }
    }

    /// One step of the check whether the device is awake.
    ///
    /// The caller starts with no reply, carries out the command that the
    /// step asks for, and calls again with what came of it.
    pub fn check_sleep_mode(&self, reply: Option<Result<AtaResponse, Error>>) -> (out: Step<bool>)
        ensures
            check_sleep_mode_step(self@, reply, out),
    {
        if self.disk_type == DiskType::Blob {
            return Step::Done(
                Err(Error::NotSupported("a snapshot has no power mode".to_owned())),
            );
        }
        match reply {
            None => Step::Send(
                AtaRequest::new(
                    self.disk_type,
                    AtaCommand::CheckPowerMode,
                    Direction::NonData,
                    0,
                    0,
                    0,
                    false,
                    0,
                ),
            ),
            Some(Err(e)) => Step::Done(Err(e)),
            Some(Ok(response)) => {
                let mode: u8 = response.registers.data[3];
                let status: u8 = response.registers.status();
                Step::Done(Ok((mode == 0xFF || mode == 0x80) && (status & 1) == 0))
            },
        }
    }

    /// One step of reading the IDENTIFY DEVICE sector into the handle.
    pub fn read_identify(&mut self, reply: Option<Result<AtaResponse, Error>>) -> (out: Step<()>)
        ensures
            read_identify_step(old(self)@, reply, out, final(self)@),
    {
        if self.disk_type == DiskType::Blob {
            return Step::Done(Ok(()));
        }
        match try_identify_device(self.disk_type, reply) {
            Step::Send(request) => Step::Send(request),
            Step::Done(Err(e)) => Step::Done(Err(e)),
            Step::Done(Ok(sector)) => {
                self.identify_data = Some(sector);
                Step::Done(Ok(()))
            },
        }
    }

    /// The common part of reading a SMART sector: everything but keeping
    /// the sector that came.
    fn read_smart_sector(&self, features: u8, reply: Option<Result<AtaResponse, Error>>) -> (out:
        Step<[u8; 512]>)
        ensures
            smart_refusal(self@) is Some ==> out == Step::Done(
                Err::<[u8; 512], Error>(smart_refusal(self@)->0),
            ),
            smart_refusal(self@) is None ==> match reply {
                None => out matches Step::Send(request) && request@ == smart_request(
                    self@,
                    features,
                    Direction::In,
                    1,
                    0,
                    512,
                ),
                Some(Err(e)) => out == Step::Done(Err::<[u8; 512], Error>(e)),
                Some(Ok(response)) => if response.data@.len() == 512 {
                    out matches Step::Done(Ok(sector)) && sector@ == response.data@
                } else {
                    out matches Step::Done(Err(Error::InvalidData(_)))
                },
            },
    {
        if let Some(e) = self.refuse_smart() {
            return Step::Done(Err(e));
        }
        match reply {
            None => Step::Send(
                AtaRequest::new(
                    self.disk_type,
                    AtaCommand::Smart,
                    Direction::In,
                    features,
                    1,
                    0,
                    true,
                    512,
                ),
            ),
            Some(Err(e)) => Step::Done(Err(e)),
            Some(Ok(response)) => {
                if response.data.len() != 512 {
                    return Step::Done(
                        Err(Error::InvalidData("the device returned no full sector".to_owned())),
                    );
                }
                let sector = copy_sector(response.data.as_slice(), 0);
                assert(response.data@.subrange(0, 512) =~= response.data@);
                Step::Done(Ok(sector))
            },
        }
    }

    /// One step of reading the SMART DATA sector into the handle.
    pub fn read_smart_data(&mut self, reply: Option<Result<AtaResponse, Error>>) -> (out: Step<()>)
        ensures
            read_smart_step(
                old(self)@,
                SmartCommand::ReadData.spec_code(),
                reply,
                out,
                final(self)@,
                DiskView {
                    smart_data: match reply {
                        Some(Ok(response)) => Some(response.data@),
                        _ => None,
                    },
                    ..old(self)@
                },
            ),
    {
        if self.disk_type == DiskType::Blob {
            return match self.refuse_smart() {
                Some(e) => Step::Done(Err(e)),
                None => Step::Done(Ok(())),
            };
        }
        match self.read_smart_sector(SmartCommand::ReadData.code(), reply) {
            Step::Send(request) => Step::Send(request),
            Step::Done(Err(e)) => Step::Done(Err(e)),
            Step::Done(Ok(sector)) => {
                self.smart_data = Some(sector);
                Step::Done(Ok(()))
            },
        }
    }

    /// One step of reading the SMART THRESHOLDS sector into the handle.
    pub fn read_smart_thresholds(&mut self, reply: Option<Result<AtaResponse, Error>>) -> (out:
        Step<()>)
        ensures
            read_smart_step(
                old(self)@,
                SmartCommand::ReadThresholds.spec_code(),
                reply,
                out,
                final(self)@,
                DiskView {
                    smart_thresholds: match reply {
                        Some(Ok(response)) => Some(response.data@),
                        _ => None,
                    },
                    ..old(self)@
                },
            ),
    {
        if self.disk_type == DiskType::Blob {
            return match self.refuse_smart() {
                Some(e) => Step::Done(Err(e)),
                None => Step::Done(Ok(())),
            };
        }
        match self.read_smart_sector(SmartCommand::ReadThresholds.code(), reply) {
            Step::Send(request) => Step::Send(request),
            Step::Done(Err(e)) => Step::Done(Err(e)),
            Step::Done(Ok(sector)) => {
                self.smart_thresholds = Some(sector);
                Step::Done(Ok(()))
            },
        }
    }

    /// One step of asking the device whether it calls itself healthy.
    pub fn smart_status(&mut self, reply: Option<Result<AtaResponse, Error>>) -> (out: Step<bool>)
        ensures
            smart_status_step(old(self)@, reply, out, final(self)@),
    {
        if let Some(e) = self.refuse_smart() {
            return Step::Done(Err(e));
        }
        if self.disk_type == DiskType::Blob {
            return match self.smart_status {
                Some(good) => Step::Done(Ok(good)),
                None => Step::Done(Err(Error::NoData)),
            };
        }
        match reply {
            None => Step::Send(
                AtaRequest::new(
                    self.disk_type,
                    AtaCommand::Smart,
                    Direction::NonData,
                    SmartCommand::ReturnStatus.code(),
                    0,
                    0,
                    true,
                    0,
                ),
            ),
            Some(Err(e)) => Step::Done(Err(e)),
            Some(Ok(response)) => {
                let mid: u8 = response.registers.data[8];
                let high: u8 = response.registers.data[7];
                let lenient: bool = self.disk_type == DiskType::AtaPassthrough12;
                let good: bool = if (lenient || high == 0xC2) && mid == 0x4F {
                    true
                } else if (lenient || high == 0x2C) && mid == 0xF4 {
                    false
                } else {
                    return Step::Done(
                        Err(Error::InvalidData("unknown answer to SMART RETURN STATUS".to_owned())),
                    );
                };
                self.smart_status = Some(good);
                Step::Done(Ok(good))
            },
        }
    }

    /// One step of starting the self-test `test`, or of aborting the one
    /// that runs.  The device runs the test by itself; the operation does
    /// not wait for it.
    pub fn start_self_test(&self, test: SmartSelfTest, reply: Option<Result<AtaResponse, Error>>) -> (out:
        Step<()>)
        ensures
            start_self_test_step(self@, test, reply, out),
    {
        if let Some(e) = self.refuse_smart() {
            return Step::Done(Err(e));
        }
        if self.disk_type == DiskType::Blob {
            return Step::Done(Err(Error::NotSupported("a snapshot runs no self-test".to_owned())));
        }
        let offered: bool = match &self.smart_data {
            None => {
                return Step::Done(Err(Error::NoData));
            },
            Some(sector) => match parse_smart_data(sector) {
                Ok(parsed) => parsed.self_test_available(test),
                Err(_) => false,
            },
        };
        if !offered {
            return Step::Done(
                Err(Error::NotSupported("the device does not offer this self-test".to_owned())),
            );
        }
        match reply {
            None => Step::Send(
                AtaRequest::new(
                    self.disk_type,
                    AtaCommand::Smart,
                    Direction::NonData,
                    SmartCommand::ExecuteOfflineImmediate.code(),
                    0,
                    test.code(),
                    true,
                    0,
                ),
            ),
            Some(Err(e)) => Step::Done(Err(e)),
            Some(Ok(_)) => Step::Done(Ok(())),
        }
    }

    /// Reads serial number, firmware revision and model name from the
    /// IDENTIFY DEVICE sector; `NoData` where that has not been read.
    pub fn parse_identify(&self) -> (r: Result<IdentifyParsedData, Error>)
        ensures
            match self@.identify {
                None => r == Err::<IdentifyParsedData, Error>(Error::NoData),
                Some(identify) => r matches Ok(parsed) && {
                    &&& parsed.serial@ == ata_string(identify.subrange(20, 40))
                    &&& parsed.firmware@ == ata_string(identify.subrange(46, 54))
                    &&& parsed.model@ == ata_string(identify.subrange(54, 94))
                },
            },
    {
        match &self.identify_data {
            None => Err(Error::NoData),
            Some(identify) => parse_identify_data(identify),
        }
    }

    /// Decodes the fixed part of the SMART DATA sector; `NoData` where that
    /// has not been read.
    pub fn parse_smart(&self) -> (r: Result<SmartParsedData, Error>)
        ensures
            match self@.smart_data {
                None => r == Err::<SmartParsedData, Error>(Error::NoData),
                Some(smart) => r == Ok::<SmartParsedData, Error>(parsed_smart_data(smart)),
            },
    {
        match &self.smart_data {
            None => Err(Error::NoData),
            Some(smart) => parse_smart_data(smart),
        }
    }

    /// Decodes the attributes of the SMART DATA sector, each held against
    /// its threshold where the SMART THRESHOLDS sector has been read;
    /// `NoData` where the SMART DATA sector has not been read.  No record
    /// has the number zero.
    pub fn parse_smart_attributes(&self) -> (r: Result<Vec<SmartAttributeParsedData>, Error>)
        ensures
            match self@.smart_data {
                None => r == Err::<Vec<SmartAttributeParsedData>, Error>(Error::NoData),
                Some(smart) => r matches Ok(records) && {
                    &&& records_view(records@) == parsed_attributes(
                        smart,
                        self@.smart_thresholds,
                        self@.size,
                    )
                    &&& forall|k: int| 0 <= k < records@.len() ==> (#[trigger] records@[k]).id != 0
                    &&& forall|k: int|
                        0 <= k < records@.len() ==> (((#[trigger] records@[k]).id == 5
                            || records@[k].id == 197) ==> records@[k].pretty_value <= 0xFFFF_FFFF)
                },
            },
    {
        match &self.smart_data {
            None => Err(Error::NoData),
            Some(smart) => Ok(parse_attributes(smart, self.smart_thresholds.as_ref(), self.size)),
        }
    }
}

} // verus!
