//! The IDENTIFY DEVICE sector: who the device is and whether it has SMART.

use vstd::prelude::*;
use crate::error::Error;
use crate::types::structs::IdentifyParsedData;
use crate::utils::{ata_string, read_ata_string};

verus! {

/// Whether the IDENTIFY DEVICE sector `raw` says that the device has the
/// SMART feature set: bit 0 of word 82, which is bit 0 of byte 164.
pub open spec fn smart_supported(raw: Seq<u8>) -> bool {
    (raw[164] & 1) != 0
}

/// Whether an IDENTIFY DEVICE sector says that the device has the SMART
/// feature set.
pub fn supports_smart(raw: &[u8; 512]) -> (r: bool)
    ensures
        r == smart_supported(raw@),
{
    (raw[164] & 1) != 0
}

/// Reads serial number, firmware revision and model name from an IDENTIFY
/// DEVICE sector: the ATA strings in bytes 20 to 39, 46 to 53 and 54 to 93.
/// Every sector decodes.
pub fn parse_identify_data(raw: &[u8; 512]) -> (r: Result<IdentifyParsedData, Error>)
    ensures
        r matches Ok(parsed) && {
            &&& parsed.serial@ == ata_string(raw@.subrange(20, 40))
            &&& parsed.firmware@ == ata_string(raw@.subrange(46, 54))
            &&& parsed.model@ == ata_string(raw@.subrange(54, 94))
        },
{
    let serial = read_ata_string(&raw[20..40]);
    let firmware = read_ata_string(&raw[46..54]);
    let model = read_ata_string(&raw[54..94]);
    Ok(IdentifyParsedData { serial, firmware, model })
}

} // verus!
