//! What the attributes say of the disk as a whole.

use vstd::prelude::*;
use crate::disk::device::{Disk, DiskView};
use crate::error::Error;
use crate::smart::attributes::{parsed_attributes, records_view};
use crate::types::enums::{AttributeUnit, SmartOverall};
use crate::types::structs::{AttributeView, SmartAttributeParsedData};
use crate::types::units::Duration;
use crate::utils::{contains, str_contains, str_eq};

verus! {

/// Whether the pretty value of `a` passed the check for plausibility: an
/// attribute that failed it has lost its unit.
pub open spec fn validated(a: AttributeView) -> bool {
    a.pretty_unit != AttributeUnit::Unknown
}

/// The pretty value of the last attribute of `attrs` that has the number
/// `id` and is validated.
pub open spec fn last_valid(attrs: Seq<AttributeView>, id: u8) -> Option<u64>
    decreases attrs.len(),
{
    if attrs.len() == 0 {
        None
    } else if attrs.last().id == id && validated(attrs.last()) {
        Some(attrs.last().pretty_value)
    } else {
        last_valid(attrs.drop_last(), id)
    }
}

/// The number of bad sectors that `attrs` report: reallocated sectors
/// (attribute 5) and sectors that wait to be reallocated (attribute 197)
/// together; the one alone where the other is not reported; nothing where
/// neither is.
pub open spec fn bad_sectors_of(attrs: Seq<AttributeView>) -> Option<int> {
    match (last_valid(attrs, 5), last_valid(attrs, 197)) {
        (Some(r), Some(p)) => Some(r + p),
        (Some(r), None) => Some(r as int),
        (None, Some(p)) => Some(p as int),
        (None, None) => None,
    }
}

/// Whether `a` reports the time that the disk was powered on.
pub open spec fn is_power_on(a: AttributeView) -> bool {
    a.id == 9 && a.name == "power-on-hours"@ && validated(a)
}

/// Whether `a` reports how often the disk was powered on.
pub open spec fn is_power_cycle(a: AttributeView) -> bool {
    a.id == 12 && a.name == "power-cycle-count"@ && validated(a)
}

/// Whether `a` reports a temperature.
pub open spec fn is_temperature(a: AttributeView) -> bool {
    (a.id == 194 || a.id == 190 || a.id == 231) && contains(a.name, "temperature"@) && validated(a)
}

/// The pretty value of the first attribute of `attrs`, from index `from`
/// on, of which `wanted` holds.
pub open spec fn first_value(
    attrs: Seq<AttributeView>,
    wanted: spec_fn(AttributeView) -> bool,
    from: int,
) -> Option<u64>
    decreases attrs.len() - from,
{
    if from < 0 || from >= attrs.len() {
        None
    } else if wanted(attrs[from]) {
        Some(attrs[from].pretty_value)
    } else {
        first_value(attrs, wanted, from + 1)
    }
}

/// The time that the disk was powered on, in milliseconds.
pub open spec fn power_on_of(attrs: Seq<AttributeView>) -> Option<u64> {
    first_value(attrs, |a: AttributeView| is_power_on(a), 0)
}

/// How often the disk was powered on.
pub open spec fn power_cycle_of(attrs: Seq<AttributeView>) -> Option<u64> {
    first_value(attrs, |a: AttributeView| is_power_cycle(a), 0)
}

/// The temperature of the disk, in millikelvin.
pub open spec fn temperature_of(attrs: Seq<AttributeView>) -> Option<u64> {
    first_value(attrs, |a: AttributeView| is_temperature(a), 0)
}

/// The attributes of the handle `disk`, if its SMART DATA sector has been
/// read.
pub open spec fn disk_attributes(disk: DiskView) -> Option<Seq<AttributeView>> {
    match disk.smart_data {
        Some(smart) => Some(parsed_attributes(smart, disk.smart_thresholds, disk.size)),
        None => None,
    }
}

/// What is known of a disk as a whole.  A field is missing where the
/// attribute behind it is missing or has an implausible value.
#[derive(Debug, Clone, Copy, PartialEq, Eq, Structural)]
pub struct DiskStatistics {
    /// Reallocated and pending sectors together.
    pub bad_sectors: Option<u64>,
    /// The time that the disk was powered on.
    pub power_on_duration: Option<Duration>,
    /// How often the disk was powered on.
    pub power_cycle_count: Option<u64>,
    /// Temperature in millikelvin.
    pub temperature: Option<u64>,
}

/// The pretty value of the last validated attribute with the number `id`.
fn find_last(attributes: &Vec<SmartAttributeParsedData>, id: u8) -> (r: Option<u64>)
    ensures
        r == last_valid(records_view(attributes@), id),
{
    let ghost attrs = records_view(attributes@);
    let mut n: usize = attributes.len();
    assert(attrs.subrange(0, n as int) =~= attrs);
    while n > 0
        invariant
            n <= attributes@.len(),
            attrs == records_view(attributes@),
            last_valid(attrs, id) == last_valid(attrs.subrange(0, n as int), id),
        decreases n,
    {
        let a = &attributes[n - 1];
        proof {
            let upto = attrs.subrange(0, n as int);
            assert(upto.last() == a@);
            assert(upto.drop_last() =~= attrs.subrange(0, n - 1));
        }
        if a.id == id && !is_unknown(a.pretty_unit) {
            return Some(a.pretty_value);
        }
        n -= 1;
    }
    None
}

/// Whether a unit is `Unknown`.
fn is_unknown(unit: AttributeUnit) -> (r: bool)
    ensures
        r == (unit == AttributeUnit::Unknown),
{
    match unit {
        AttributeUnit::Unknown => true,
        _ => false,
    }
}

/// Which attribute a statistic is read from.
#[derive(Clone, Copy)]
enum Source {
    PowerOn,
    PowerCycle,
    Temperature,
}

/// What must hold of an attribute for it to be the source `source`.
spec fn wanted_by(source: Source) -> spec_fn(AttributeView) -> bool {
    match source {
        Source::PowerOn => |a: AttributeView| is_power_on(a),
        Source::PowerCycle => |a: AttributeView| is_power_cycle(a),
        Source::Temperature => |a: AttributeView| is_temperature(a),
    }
}

/// Whether `a` is the source `source`.
fn is_source(a: &SmartAttributeParsedData, source: Source) -> (r: bool)
    ensures
        r == wanted_by(source)(a@),
{
    if is_unknown(a.pretty_unit) {
        return false;
    }
    match source {
        Source::PowerOn => a.id == 9 && str_eq(a.name.as_str(), "power-on-hours"),
        Source::PowerCycle => a.id == 12 && str_eq(a.name.as_str(), "power-cycle-count"),
        Source::Temperature => (a.id == 194 || a.id == 190 || a.id == 231) && str_contains(
            a.name.as_str(),
            "temperature",
        ),
    }
}

/// The pretty value of the first attribute that is the source `source`.
fn find_first(attributes: &Vec<SmartAttributeParsedData>, source: Source) -> (r: Option<u64>)
    ensures
        r == first_value(records_view(attributes@), wanted_by(source), 0),
{
    let ghost attrs = records_view(attributes@);
    let mut i: usize = 0;
    while i < attributes.len()
        invariant
            i <= attributes@.len(),
            attrs == records_view(attributes@),
            first_value(attrs, wanted_by(source), 0) == first_value(
                attrs,
                wanted_by(source),
                i as int,
            ),
        decreases attributes@.len() - i,
    {
        if is_source(&attributes[i], source) {
            return Some(attributes[i].pretty_value);
        }
        i += 1;
    }
    None
}

/// Whether an attribute of `attrs` is below its threshold now.
pub open spec fn any_bad_now(attrs: Seq<AttributeView>) -> bool {
    exists|k: int| 0 <= k < attrs.len() && bad_now(#[trigger] attrs[k])
}

/// Whether `a` is below its threshold now.
pub open spec fn bad_now(a: AttributeView) -> bool {
    a.good_now_valid && !a.good_now
}

/// Whether an attribute of `attrs` has been below its threshold.
pub open spec fn any_bad_in_the_past(attrs: Seq<AttributeView>) -> bool {
    exists|k: int| 0 <= k < attrs.len() && bad_in_the_past(#[trigger] attrs[k])
}

/// Whether `a` has been below its threshold.
pub open spec fn bad_in_the_past(a: AttributeView) -> bool {
    a.good_in_the_past_valid && !a.good_in_the_past
}

/// The verdict on a disk, the worst finding first: the device calls itself
/// failing; an attribute is below its threshold now; there are more bad
/// sectors than `threshold_many`; there are bad sectors; an attribute has
/// been below its threshold; nothing of these.
pub open spec fn overall_of(
    status_good: bool,
    attrs: Seq<AttributeView>,
    bad_sectors: Option<int>,
    threshold_many: u64,
) -> SmartOverall {
    if !status_good {
        SmartOverall::BadStatus
    } else if any_bad_now(attrs) {
        SmartOverall::BadAttributeNow
    } else if bad_sectors matches Some(n) && n > threshold_many {
        SmartOverall::BadSectorMany
    } else if bad_sectors matches Some(n) && n > 0 {
        SmartOverall::BadSector
    } else if any_bad_in_the_past(attrs) {
        SmartOverall::BadAttributeInThePast
    } else {
        SmartOverall::Good
    }
}

/// Whether an attribute is below its threshold now, and whether one has
/// been.
fn threshold_findings(attributes: &Vec<SmartAttributeParsedData>) -> (r: (bool, bool))
    ensures
        r.0 == any_bad_now(records_view(attributes@)),
        r.1 == any_bad_in_the_past(records_view(attributes@)),
{
    let ghost attrs = records_view(attributes@);
    let mut now: bool = false;
    let mut past: bool = false;
    let mut i: usize = 0;
    while i < attributes.len()
        invariant
            i <= attributes@.len(),
            attrs == records_view(attributes@),
            now == (exists|k: int| 0 <= k < i && bad_now(#[trigger] attrs[k])),
            past == (exists|k: int| 0 <= k < i && bad_in_the_past(#[trigger] attrs[k])),
        decreases attributes@.len() - i,
    {
        let a = &attributes[i];
        assert(attrs[i as int] == a@);
        if a.good_now_valid && !a.good_now {
            now = true;
        }
        if a.good_in_the_past_valid && !a.good_in_the_past {
            past = true;
        }
        i += 1;
    }
    (now, past)
}

/// The number of bad sectors that the handle `disk` reports.
pub open spec fn disk_bad_sectors(disk: DiskView) -> Option<int> {
    match disk_attributes(disk) {
        Some(attrs) => bad_sectors_of(attrs),
        None => None,
    }
}

/// The answer of a statistic that may be missing: the value, or `NoData`.
pub open spec fn or_no_data(value: Option<u64>) -> Result<u64, Error> {
    match value {
        Some(v) => Ok(v),
        None => Err(Error::NoData),
    }
}

impl Disk {
    /// The number of bad sectors: reallocated and pending sectors together,
    /// each as far as its attribute is there with a plausible value.
    /// `NoData` where neither is, or where the SMART DATA sector has not
    /// been read.
    pub fn smart_get_bad_sectors(&self) -> (r: Result<u64, Error>)
        ensures
            match disk_bad_sectors(self@) {
                Some(n) => r == Ok::<u64, Error>(n as u64) && n <= 0x1_FFFF_FFFE,
                None => r == Err::<u64, Error>(Error::NoData),
            },
    {
        let attributes = match self.parse_smart_attributes() {
            Ok(attributes) => attributes,
            Err(e) => {
                return Err(e);
            },
        };
        let reallocated = find_last(&attributes, 5);
        let pending = find_last(&attributes, 197);
        proof {
            lemma_last_valid_bound(records_view(attributes@), 5);
            lemma_last_valid_bound(records_view(attributes@), 197);
        }
        match (reallocated, pending) {
            (Some(r), Some(p)) => Ok(r + p),
            (Some(r), None) => Ok(r),
            (None, Some(p)) => Ok(p),
            (None, None) => Err(Error::NoData),
        }
    }

    /// The time that the disk was powered on, in milliseconds: the pretty
    /// value of the first attribute 9 with a plausible value.  `NoData`
    /// where there is none.
    pub fn smart_get_power_on(&self) -> (r: Result<u64, Error>)
        ensures
            match disk_attributes(self@) {
                Some(attrs) => r == or_no_data(power_on_of(attrs)),
                None => r == Err::<u64, Error>(Error::NoData),
            },
    {
        match self.parse_smart_attributes() {
            Ok(attributes) => match find_first(&attributes, Source::PowerOn) {
                Some(v) => Ok(v),
                None => Err(Error::NoData),
            },
            Err(e) => Err(e),
        }
    }

    /// How often the disk was powered on: the pretty value of the first
    /// attribute 12.  `NoData` where there is none.
    pub fn smart_get_power_cycle(&self) -> (r: Result<u64, Error>)
        ensures
            match disk_attributes(self@) {
                Some(attrs) => r == or_no_data(power_cycle_of(attrs)),
                None => r == Err::<u64, Error>(Error::NoData),
            },
    {
        match self.parse_smart_attributes() {
            Ok(attributes) => match find_first(&attributes, Source::PowerCycle) {
                Some(v) => Ok(v),
                None => Err(Error::NoData),
            },
            Err(e) => Err(e),
        }
    }

    /// The temperature of the disk in millikelvin: the pretty value of the
    /// first attribute among 194, 190 and 231 that is named as a temperature
    /// and has a plausible value.  `NoData` where there is none.
    pub fn smart_get_temperature(&self) -> (r: Result<u64, Error>)
        ensures
            match disk_attributes(self@) {
                Some(attrs) => r == or_no_data(temperature_of(attrs)),
                None => r == Err::<u64, Error>(Error::NoData),
            },
    {
        match self.parse_smart_attributes() {
            Ok(attributes) => match find_first(&attributes, Source::Temperature) {
                Some(v) => Ok(v),
                None => Err(Error::NoData),
            },
            Err(e) => Err(e),
        }
    }

    /// The verdict on the disk from what the handle has read.  `NoData`
    /// where the device has not been asked for its health, or the SMART DATA
    /// sector has not been read.  `threshold_many` is the number of bad
    /// sectors above which they count as many.
    pub fn smart_get_overall(&self, threshold_many: u64) -> (r: Result<SmartOverall, Error>)
        ensures
            match (self@.smart_status, disk_attributes(self@)) {
                (Some(good), Some(attrs)) => r == Ok::<SmartOverall, Error>(
                    overall_of(good, attrs, bad_sectors_of(attrs), threshold_many),
                ),
                _ => r == Err::<SmartOverall, Error>(Error::NoData),
            },
    {
        let status_good: bool = match self.get_smart_status_internal() {
            Some(good) => good,
            None => {
                return Err(Error::NoData);
            },
        };
        let attributes = match self.parse_smart_attributes() {
            Ok(attributes) => attributes,
            Err(e) => {
                return Err(e);
            },
        };
        let bad_sectors: Option<u64> = match self.smart_get_bad_sectors() {
            Ok(n) => Some(n),
            Err(_) => None,
        };
        let findings = threshold_findings(&attributes);
        let many: bool = match bad_sectors {
            Some(n) => n > threshold_many,
            None => false,
        };
        let some: bool = match bad_sectors {
            Some(n) => n > 0,
            None => false,
        };
        Ok(
            if !status_good {
                SmartOverall::BadStatus
            } else if findings.0 {
                SmartOverall::BadAttributeNow
            } else if many {
                SmartOverall::BadSectorMany
            } else if some {
                SmartOverall::BadSector
            } else if findings.1 {
                SmartOverall::BadAttributeInThePast
            } else {
                SmartOverall::Good
            },
        )
    }

    /// What is known of the disk as a whole.  Every field is missing where
    /// the SMART DATA sector has not been read.
    pub fn statistics(&self) -> (r: DiskStatistics)
        ensures
            match disk_attributes(self@) {
                Some(attrs) => {
                    &&& match bad_sectors_of(attrs) {
                        Some(n) => r.bad_sectors == Some(n as u64) && n <= 0x1_FFFF_FFFE,
                        None => r.bad_sectors is None,
                    }
                    &&& match power_on_of(attrs) {
                        Some(ms) => r.power_on_duration matches Some(d) && d@ == ms,
                        None => r.power_on_duration is None,
                    }
                    &&& r.power_cycle_count == power_cycle_of(attrs)
                    &&& r.temperature == temperature_of(attrs)
                },
                None => r == (DiskStatistics {
                    bad_sectors: None,
                    power_on_duration: None,
                    power_cycle_count: None,
                    temperature: None,
                }),
            },
    {
        DiskStatistics {
            bad_sectors: match self.smart_get_bad_sectors() {
                Ok(n) => Some(n),
                Err(_) => None,
            },
            power_on_duration: match self.smart_get_power_on() {
                Ok(ms) => Some(Duration::from_millis(ms)),
                Err(_) => None,
            },
            power_cycle_count: match self.smart_get_power_cycle() {
                Ok(n) => Some(n),
                Err(_) => None,
            },
            temperature: match self.smart_get_temperature() {
                Ok(mk) => Some(mk),
                Err(_) => None,
            },
        }
    }
}

/// Where every attribute with the number `id` has a pretty value of at most
/// 32 bits, so has the one that `last_valid` finds.
proof fn lemma_last_valid_bound(attrs: Seq<AttributeView>, id: u8)
    requires
        forall|k: int| 0 <= k < attrs.len() ==> ((#[trigger] attrs[k]).id == id
            ==> attrs[k].pretty_value <= 0xFFFF_FFFF),
    ensures
        last_valid(attrs, id) matches Some(v) ==> v <= 0xFFFF_FFFF,
    decreases attrs.len(),
{
    if attrs.len() > 0 && !(attrs.last().id == id && validated(attrs.last())) {
        lemma_last_valid_bound(attrs.drop_last(), id);
    }
}

} // verus!
