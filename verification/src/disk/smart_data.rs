//! SMART DATA and SMART THRESHOLDS sectors as values of their own.

use vstd::prelude::*;
use crate::error::Error;
use crate::smart::attributes::{parse_attributes, parsed_attributes, records_view};
use crate::smart::parse::{parse_smart_data, parsed_smart_data};
use crate::types::structs::{SmartAttributeParsedData, SmartParsedData};

verus! {

/// A SMART DATA sector, with the size of the disk that it came from.
#[derive(Debug, Clone, Copy)]
pub struct SmartData {
    raw: [u8; 512],
    disk_size: u64,
}

/// A SMART THRESHOLDS sector.
#[derive(Debug, Clone, Copy)]
pub struct SmartThresholds {
    raw: [u8; 512],
}

impl View for SmartThresholds {
    type V = Seq<u8>;

    /// The bytes of the sector.
    closed spec fn view(&self) -> Seq<u8> {
        self.raw@
    }
}

impl SmartThresholds {
    /// Wraps a sector.
    pub fn new(raw: [u8; 512]) -> (r: Self)
        ensures
            r@ == raw@,
    {
        Self { raw }
    }

    /// The bytes of the sector.
    pub fn raw(&self) -> (r: &[u8; 512])
        ensures
            r@ == self@,
    {
        &self.raw
    }
}

/// The bytes of a SMART THRESHOLDS sector that may be missing.
pub open spec fn thresholds_view(thresholds: Option<&SmartThresholds>) -> Option<Seq<u8>> {
    match thresholds {
        Some(t) => Some(t@),
        None => None,
    }
}

impl View for SmartData {
    type V = Seq<u8>;

    /// The bytes of the sector.
    closed spec fn view(&self) -> Seq<u8> {
        self.raw@
    }
}

impl SmartData {
    /// The size in bytes of the disk that the sector came from; zero where
    /// it is not known.
    pub closed spec fn spec_disk_size(&self) -> u64 {
        self.disk_size
    }

    /// Wraps a sector that came from a disk of `disk_size` bytes.
    pub fn new(raw: [u8; 512], disk_size: u64) -> (r: Self)
        ensures
            r@ == raw@,
            r.spec_disk_size() == disk_size,
    {
        Self { raw, disk_size }
    }

    /// The bytes of the sector.
    pub fn raw(&self) -> (r: &[u8; 512])
        ensures
            r@ == self@,
    {
        &self.raw
    }

    /// Decodes the fixed part of the sector.
    pub fn parse(&self) -> (r: Result<SmartParsedData, Error>)
        ensures
            r == Ok::<SmartParsedData, Error>(parsed_smart_data(self@)),
    {
        parse_smart_data(&self.raw)
    }

    /// Decodes the attributes of the sector, each held against its
    /// threshold where `thresholds` is there.  No record has the number
    /// zero.
    pub fn parse_attributes(&self, thresholds: Option<&SmartThresholds>) -> (r: Result<
        Vec<SmartAttributeParsedData>,
        Error,
    >)
        ensures
            r matches Ok(records) && {
                &&& records_view(records@) == parsed_attributes(
                    self@,
                    thresholds_view(thresholds),
                    self.spec_disk_size(),
                )
                &&& forall|k: int| 0 <= k < records@.len() ==> (#[trigger] records@[k]).id != 0
            },
    {
        let thresholds_raw: Option<&[u8; 512]> = match thresholds {
            Some(t) => Some(t.raw()),
            None => None,
        };
        Ok(parse_attributes(&self.raw, thresholds_raw, self.disk_size))
    }
}

/// A SMART DATA sector together with the SMART THRESHOLDS sector, where
/// that was read.
#[derive(Debug, Clone, Copy)]
pub struct SmartInfo {
    /// The SMART DATA sector.
    pub data: SmartData,
    /// The SMART THRESHOLDS sector.
    pub thresholds: Option<SmartThresholds>,
}

impl SmartInfo {
    /// Puts the two sectors together.
    pub fn new(data: SmartData, thresholds: Option<SmartThresholds>) -> (r: Self)
        ensures
            r.data == data,
            r.thresholds == thresholds,
    {
        Self { data, thresholds }
    }

    /// Decodes the attributes, each held against its threshold where the
    /// thresholds are there.
    pub fn parse_attributes(&self) -> (r: Result<Vec<SmartAttributeParsedData>, Error>)
        ensures
            r matches Ok(records) && {
                &&& records_view(records@) == parsed_attributes(
                    self.data@,
                    match self.thresholds {
                        Some(t) => Some(t@),
                        None => None,
                    },
                    self.data.spec_disk_size(),
                )
                &&& forall|k: int| 0 <= k < records@.len() ==> (#[trigger] records@[k]).id != 0
            },
    {
        self.data.parse_attributes(self.thresholds.as_ref())
    }
}

} // verus!
