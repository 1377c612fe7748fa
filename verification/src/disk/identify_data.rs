//! An IDENTIFY DEVICE sector as a value of its own.

use vstd::prelude::*;
use crate::error::Error;
use crate::identify::parse_identify_data;
use crate::types::structs::IdentifyParsedData;
use crate::utils::ata_string;

verus! {

/// An IDENTIFY DEVICE sector.
#[derive(Debug, Clone, Copy)]
pub struct IdentifyData {
    raw: [u8; 512],
}

impl View for IdentifyData {
    type V = Seq<u8>;

    /// The bytes of the sector.
    closed spec fn view(&self) -> Seq<u8> {
        self.raw@
    }
}

impl IdentifyData {
    /// Wraps a sector.
    pub fn new(raw: [u8; 512]) -> (r: Self)
        ensures
            r@ == raw@,
    {
        Self { raw }
    }

    /// The bytes of the sector.
    pub fn raw(&self) -> (r: &[u8; 512])
        ensures
            r@ == self@,
    {
        &self.raw
    }

    /// Reads serial number, firmware revision and model name.
    pub fn parse(&self) -> (r: Result<IdentifyParsedData, Error>)
        ensures
            r matches Ok(parsed) && {
                &&& parsed.serial@ == ata_string(self@.subrange(20, 40))
                &&& parsed.firmware@ == ata_string(self@.subrange(46, 54))
                &&& parsed.model@ == ata_string(self@.subrange(54, 94))
            },
    {
        parse_identify_data(&self.raw)
    }
}

} // verus!
