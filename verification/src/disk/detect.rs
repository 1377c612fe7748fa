//! Finding the dialect that a device answers to.

use vstd::prelude::*;
use crate::error::Error;
use crate::smart::blob::copy_sector;
use crate::transport::ata::{AtaCommand, Direction};
use crate::transport::request::{command_registers, AtaRequest, AtaRequestView, AtaResponse, Step};
use crate::types::enums::DiskType;

verus! {

/// Whether every byte of `data` is zero.
pub open spec fn all_zero(data: Seq<u8>) -> bool {
    forall|i: int| 0 <= i < data.len() ==> data[i] == 0
}

/// Whether every byte of `data` is zero.
pub fn is_all_zero(data: &[u8]) -> (r: bool)
    ensures
        r == all_zero(data@),
{
    let n: usize = data.len();
    let mut i: usize = 0;
    while i < n
        invariant
            n == data@.len(),
            i <= n,
            forall|j: int| 0 <= j < i ==> data@[j] == 0,
        decreases n - i,
    {
        if data[i] != 0 {
            return false;
        }
        i += 1;
    }
    true
}

/// The IDENTIFY DEVICE command in the dialect `disk_type`: one sector to
/// read.
pub open spec fn identify_request(disk_type: DiskType) -> AtaRequestView {
    AtaRequestView {
        disk_type,
        command: AtaCommand::IdentifyDevice,
        direction: Direction::In,
        registers: command_registers(0, 1, 0, false),
        data_len: 512,
    }
}

/// Whether `data` can be an IDENTIFY DEVICE sector: 512 bytes, not all of
/// them zero.
pub open spec fn plausible_identify(data: Seq<u8>) -> bool {
    data.len() == 512 && !all_zero(data)
}

/// What one step of an attempt at IDENTIFY DEVICE in the dialect
/// `disk_type` does: without a reply it asks for the command; with the
/// reply it ends, with the sector that came, with `InvalidData` where what
/// came is no sector or all zeros, or with the error of the command.
pub open spec fn try_identify_step(
    disk_type: DiskType,
    reply: Option<Result<AtaResponse, Error>>,
    out: Step<[u8; 512]>,
) -> bool {
    match reply {
        None => out matches Step::Send(request) && request@ == identify_request(disk_type),
        Some(Err(e)) => out == Step::Done(Err::<[u8; 512], Error>(e)),
        Some(Ok(response)) => if plausible_identify(response.data@) {
            out matches Step::Done(Ok(sector)) && sector@ == response.data@
        } else {
            out matches Step::Done(Err(Error::InvalidData(_)))
        },
    }
}

/// One step of an attempt at IDENTIFY DEVICE in the dialect `disk_type`.
pub fn try_identify_device(disk_type: DiskType, reply: Option<Result<AtaResponse, Error>>) -> (out:
    Step<[u8; 512]>)
    ensures
        try_identify_step(disk_type, reply, out),
{
    match reply {
        None => Step::Send(
            AtaRequest::new(
                disk_type,
                AtaCommand::IdentifyDevice,
                Direction::In,
                0,
                1,
                0,
                false,
                512,
            ),
        ),
        Some(Err(e)) => Step::Done(Err(e)),
        Some(Ok(response)) => {
            if response.data.len() != 512 {
                return Step::Done(
                    Err(Error::InvalidData("IDENTIFY DEVICE returned no full sector".to_owned())),
                );
            }
            if is_all_zero(response.data.as_slice()) {
                return Step::Done(
                    Err(Error::InvalidData("IDENTIFY DEVICE returned zeros only".to_owned())),
                );
            }
            let sector = copy_sector(response.data.as_slice(), 0);
            assert(response.data@.subrange(0, 512) =~= response.data@);
            Step::Done(Ok(sector))
        },
    }
}

/// What a step of IDENTIFY DEVICE on a handle of type `disk_type` does: a
/// snapshot has no device and gives a sector of zeros at once; every other
/// type makes the attempt in its dialect.
pub open spec fn identify_step(
    disk_type: DiskType,
    reply: Option<Result<AtaResponse, Error>>,
    out: Step<[u8; 512]>,
) -> bool {
    if disk_type == DiskType::Blob {
        out matches Step::Done(Ok(sector)) && sector@ == Seq::new(512, |i: int| 0u8)
    } else {
        try_identify_step(disk_type, reply, out)
    }
}

/// One step of IDENTIFY DEVICE on a handle of type `disk_type`.
pub fn identify_device(disk_type: DiskType, reply: Option<Result<AtaResponse, Error>>) -> (out:
    Step<[u8; 512]>)
    ensures
        identify_step(disk_type, reply, out),
{
    if disk_type == DiskType::Blob {
        let sector = [0u8; 512];
        assert(sector@ =~= Seq::new(512, |i: int| 0u8));
        return Step::Done(Ok(sector));
    }
    try_identify_device(disk_type, reply)
}

/// What the search for a dialect wants done next.
#[derive(Debug)]
pub enum Probe {
    /// Carry this command out, then call the search again with `candidate`
    /// and with what came of the command.
    Try { request: AtaRequest, candidate: usize },
    /// The search is over; `DiskType::NoDialect` says that it found nothing.
    Detected(DiskType),
}

/// The dialects that the search tries, in this order.
pub open spec fn candidates() -> Seq<DiskType> {
    seq![DiskType::AtaPassthrough16, DiskType::AtaPassthrough12]
}

/// Whether `reply` is the reply of a device that answered IDENTIFY DEVICE
/// with a plausible sector.
pub open spec fn identified(reply: Option<Result<AtaResponse, Error>>) -> bool {
    reply matches Some(Ok(response)) && plausible_identify(response.data@)
}

/// What one step of the search for a dialect does.  `candidate` numbers the
/// dialect whose attempt `reply` answers.  Without a reply the search asks
/// for the attempt in that dialect.  A reply with a plausible sector ends
/// the search with that dialect.  Any other reply moves on to the next
/// dialect, and ends the search with nothing found after the last.
pub open spec fn detect_step(
    candidate: usize,
    reply: Option<Result<AtaResponse, Error>>,
    out: Probe,
) -> bool {
    if candidate >= candidates().len() {
        out == Probe::Detected(DiskType::NoDialect)
    } else if reply is None {
        out matches Probe::Try { request, candidate: c } && c == candidate && request@
            == identify_request(candidates()[candidate as int])
    } else if identified(reply) {
        out == Probe::Detected(candidates()[candidate as int])
    } else if candidate + 1 < candidates().len() {
        out matches Probe::Try { request, candidate: c } && c == candidate + 1 && request@
            == identify_request(candidates()[candidate + 1])
    } else {
        out == Probe::Detected(DiskType::NoDialect)
    }
}

/// The dialect that the search tries as number `candidate`.
fn candidate_type(candidate: usize) -> (r: DiskType)
    requires
        candidate < candidates().len(),
    ensures
        r == candidates()[candidate as int],
{
    if candidate == 0 {
        DiskType::AtaPassthrough16
    } else {
        DiskType::AtaPassthrough12
    }
}

/// One step of the search for the dialect that a device answers to.
///
/// The search starts with candidate 0 and no reply.  It tries ATA
/// pass-through with 16-byte command blocks, then with 12-byte ones, each
/// once, and takes the first in which IDENTIFY DEVICE returns a sector that
/// is not all zeros.
pub fn detect_disk_type(candidate: usize, reply: Option<Result<AtaResponse, Error>>) -> (out: Probe)
    ensures
        detect_step(candidate, reply, out),
{
    if candidate >= 2 {
        return Probe::Detected(DiskType::NoDialect);
    }
    let disk_type = candidate_type(candidate);
    match try_identify_device(disk_type, reply) {
        Step::Send(request) => Probe::Try { request, candidate },
        Step::Done(Ok(_)) => Probe::Detected(disk_type),
        Step::Done(Err(_)) => {
            if candidate + 1 < 2 {
                match try_identify_device(candidate_type(candidate + 1), None) {
                    Step::Send(request) => Probe::Try { request, candidate: candidate + 1 },
                    Step::Done(_) => Probe::Detected(DiskType::NoDialect),
                }
            } else {
                Probe::Detected(DiskType::NoDialect)
            }
        },
    }
}

} // verus!
