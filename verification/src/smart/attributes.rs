//! The attributes of a SMART DATA sector: what each number means, and how a
//! slot of twelve bytes becomes a record.

use vstd::prelude::*;
use crate::types::constants::{
    MKELVIN_VALID_MAX, MKELVIN_VALID_MIN, MSECOND_VALID_LONG_MAX, MSECOND_VALID_MIN,
    MSECOND_VALID_SHORT_MAX,
};
use crate::types::enums::AttributeUnit;
use crate::types::structs::{AttributeView, SmartAttributeParsedData};
use crate::utils::{contains, decimal, le16, le48, push_decimal, read_le16, read_le48, str_contains, str_eq};

verus! {

/// Name and unit of an attribute.
#[derive(Debug, Clone, Copy)]
pub struct AttributeInfo {
    pub name: &'static str,
    pub unit: AttributeUnit,
}

/// The table of the attributes that have a name: for each number of such an
/// attribute, its name and the unit of its pretty value.
pub open spec fn known_attribute(id: u8) -> Option<AttributeInfo> {
    match id {
        1 => Some(AttributeInfo { name: "raw-read-error-rate", unit: AttributeUnit::Dimensionless }),
        2 => Some(AttributeInfo { name: "throughput-performance", unit: AttributeUnit::Unknown }),
        3 => Some(AttributeInfo { name: "spin-up-time", unit: AttributeUnit::Milliseconds }),
        4 => Some(AttributeInfo { name: "start-stop-count", unit: AttributeUnit::Dimensionless }),
        5 => Some(AttributeInfo { name: "reallocated-sector-count", unit: AttributeUnit::Sectors }),
        6 => Some(AttributeInfo { name: "read-channel-margin", unit: AttributeUnit::Unknown }),
        7 => Some(AttributeInfo { name: "seek-error-rate", unit: AttributeUnit::Dimensionless }),
        8 => Some(AttributeInfo { name: "seek-time-performance", unit: AttributeUnit::Unknown }),
        9 => Some(AttributeInfo { name: "power-on-hours", unit: AttributeUnit::Milliseconds }),
        10 => Some(AttributeInfo { name: "spin-retry-count", unit: AttributeUnit::Dimensionless }),
        11 => Some(AttributeInfo { name: "calibration-retry-count", unit: AttributeUnit::Dimensionless }),
        12 => Some(AttributeInfo { name: "power-cycle-count", unit: AttributeUnit::Dimensionless }),
        13 => Some(AttributeInfo { name: "read-soft-error-rate", unit: AttributeUnit::Dimensionless }),
        170 => Some(AttributeInfo { name: "available-reserved-space", unit: AttributeUnit::Percent }),
        171 => Some(AttributeInfo { name: "program-fail-count", unit: AttributeUnit::Dimensionless }),
        172 => Some(AttributeInfo { name: "erase-fail-count", unit: AttributeUnit::Dimensionless }),
        175 => Some(AttributeInfo { name: "program-fail-count-chip", unit: AttributeUnit::Dimensionless }),
        176 => Some(AttributeInfo { name: "erase-fail-count-chip", unit: AttributeUnit::Dimensionless }),
        177 => Some(AttributeInfo { name: "wear-leveling-count", unit: AttributeUnit::Dimensionless }),
        178 => Some(AttributeInfo { name: "used-reserved-blocks-chip", unit: AttributeUnit::Dimensionless }),
        179 => Some(AttributeInfo { name: "used-reserved-blocks-total", unit: AttributeUnit::Dimensionless }),
        180 => Some(AttributeInfo { name: "unused-reserved-blocks", unit: AttributeUnit::Dimensionless }),
        181 => Some(AttributeInfo { name: "program-fail-count-total", unit: AttributeUnit::Dimensionless }),
        182 => Some(AttributeInfo { name: "erase-fail-count-total", unit: AttributeUnit::Dimensionless }),
        183 => Some(AttributeInfo { name: "runtime-bad-block-total", unit: AttributeUnit::Dimensionless }),
        184 => Some(AttributeInfo { name: "end-to-end-error", unit: AttributeUnit::Dimensionless }),
        187 => Some(AttributeInfo { name: "reported-uncorrect", unit: AttributeUnit::Sectors }),
        188 => Some(AttributeInfo { name: "command-timeout", unit: AttributeUnit::Dimensionless }),
        189 => Some(AttributeInfo { name: "high-fly-writes", unit: AttributeUnit::Dimensionless }),
        190 => Some(AttributeInfo { name: "airflow-temperature-celsius", unit: AttributeUnit::MilliKelvin }),
        191 => Some(AttributeInfo { name: "g-sense-error-rate", unit: AttributeUnit::Dimensionless }),
        192 => Some(AttributeInfo { name: "power-off-retract-count", unit: AttributeUnit::Dimensionless }),
        193 => Some(AttributeInfo { name: "load-cycle-count", unit: AttributeUnit::Dimensionless }),
        194 => Some(AttributeInfo { name: "temperature-celsius-2", unit: AttributeUnit::MilliKelvin }),
        195 => Some(AttributeInfo { name: "hardware-ecc-recovered", unit: AttributeUnit::Dimensionless }),
        196 => Some(AttributeInfo { name: "reallocated-event-count", unit: AttributeUnit::Dimensionless }),
        197 => Some(AttributeInfo { name: "current-pending-sector", unit: AttributeUnit::Sectors }),
        198 => Some(AttributeInfo { name: "offline-uncorrectable", unit: AttributeUnit::Sectors }),
        199 => Some(AttributeInfo { name: "udma-crc-error-count", unit: AttributeUnit::Dimensionless }),
        200 => Some(AttributeInfo { name: "multi-zone-error-rate", unit: AttributeUnit::Dimensionless }),
        201 => Some(AttributeInfo { name: "soft-read-error-rate", unit: AttributeUnit::Dimensionless }),
        202 => Some(AttributeInfo { name: "ta-increase-count", unit: AttributeUnit::Dimensionless }),
        203 => Some(AttributeInfo { name: "run-out-cancel", unit: AttributeUnit::Unknown }),
        204 => Some(AttributeInfo { name: "shock-count-write-open", unit: AttributeUnit::Dimensionless }),
        205 => Some(AttributeInfo { name: "shock-rate-write-open", unit: AttributeUnit::Dimensionless }),
        206 => Some(AttributeInfo { name: "flying-height", unit: AttributeUnit::Unknown }),
        207 => Some(AttributeInfo { name: "spin-high-current", unit: AttributeUnit::Unknown }),
        208 => Some(AttributeInfo { name: "spin-buzz", unit: AttributeUnit::Unknown }),
        209 => Some(AttributeInfo { name: "offline-seek-performance", unit: AttributeUnit::Unknown }),
        220 => Some(AttributeInfo { name: "disk-shift", unit: AttributeUnit::Unknown }),
        221 => Some(AttributeInfo { name: "g-sense-error-rate-2", unit: AttributeUnit::Dimensionless }),
        222 => Some(AttributeInfo { name: "loaded-hours", unit: AttributeUnit::Milliseconds }),
        223 => Some(AttributeInfo { name: "load-retry-count", unit: AttributeUnit::Dimensionless }),
        224 => Some(AttributeInfo { name: "load-friction", unit: AttributeUnit::Unknown }),
        225 => Some(AttributeInfo { name: "load-cycle-count-2", unit: AttributeUnit::Dimensionless }),
        226 => Some(AttributeInfo { name: "load-in-time", unit: AttributeUnit::Milliseconds }),
        227 => Some(AttributeInfo { name: "torq-amp-count", unit: AttributeUnit::Dimensionless }),
        228 => Some(AttributeInfo { name: "power-off-retract-count-2", unit: AttributeUnit::Dimensionless }),
        230 => Some(AttributeInfo { name: "head-amplitude", unit: AttributeUnit::Unknown }),
        231 => Some(AttributeInfo { name: "temperature-celsius", unit: AttributeUnit::MilliKelvin }),
        232 => Some(AttributeInfo { name: "endurance-remaining", unit: AttributeUnit::Percent }),
        233 => Some(AttributeInfo { name: "power-on-seconds-2", unit: AttributeUnit::Unknown }),
        234 => Some(AttributeInfo { name: "uncorrectable-ecc-count", unit: AttributeUnit::Sectors }),
        235 => Some(AttributeInfo { name: "good-block-rate", unit: AttributeUnit::Unknown }),
        240 => Some(AttributeInfo { name: "head-flying-hours", unit: AttributeUnit::Milliseconds }),
        241 => Some(AttributeInfo { name: "total-lbas-written", unit: AttributeUnit::Megabytes }),
        242 => Some(AttributeInfo { name: "total-lbas-read", unit: AttributeUnit::Megabytes }),
        250 => Some(AttributeInfo { name: "read-error-retry-rate", unit: AttributeUnit::Dimensionless }),
        _ => None,
    }
}

/// Looks an attribute up in the table of named attributes.
pub fn attribute_info(id: u8) -> (r: Option<AttributeInfo>)
    ensures
        r == known_attribute(id),
{
    match id {
        1 => Some(AttributeInfo { name: "raw-read-error-rate", unit: AttributeUnit::Dimensionless }),
        2 => Some(AttributeInfo { name: "throughput-performance", unit: AttributeUnit::Unknown }),
        3 => Some(AttributeInfo { name: "spin-up-time", unit: AttributeUnit::Milliseconds }),
        4 => Some(AttributeInfo { name: "start-stop-count", unit: AttributeUnit::Dimensionless }),
        5 => Some(AttributeInfo { name: "reallocated-sector-count", unit: AttributeUnit::Sectors }),
        6 => Some(AttributeInfo { name: "read-channel-margin", unit: AttributeUnit::Unknown }),
        7 => Some(AttributeInfo { name: "seek-error-rate", unit: AttributeUnit::Dimensionless }),
        8 => Some(AttributeInfo { name: "seek-time-performance", unit: AttributeUnit::Unknown }),
        9 => Some(AttributeInfo { name: "power-on-hours", unit: AttributeUnit::Milliseconds }),
        10 => Some(AttributeInfo { name: "spin-retry-count", unit: AttributeUnit::Dimensionless }),
        11 => Some(AttributeInfo { name: "calibration-retry-count", unit: AttributeUnit::Dimensionless }),
        12 => Some(AttributeInfo { name: "power-cycle-count", unit: AttributeUnit::Dimensionless }),
        13 => Some(AttributeInfo { name: "read-soft-error-rate", unit: AttributeUnit::Dimensionless }),
        170 => Some(AttributeInfo { name: "available-reserved-space", unit: AttributeUnit::Percent }),
        171 => Some(AttributeInfo { name: "program-fail-count", unit: AttributeUnit::Dimensionless }),
        172 => Some(AttributeInfo { name: "erase-fail-count", unit: AttributeUnit::Dimensionless }),
        175 => Some(AttributeInfo { name: "program-fail-count-chip", unit: AttributeUnit::Dimensionless }),
        176 => Some(AttributeInfo { name: "erase-fail-count-chip", unit: AttributeUnit::Dimensionless }),
        177 => Some(AttributeInfo { name: "wear-leveling-count", unit: AttributeUnit::Dimensionless }),
        178 => Some(AttributeInfo { name: "used-reserved-blocks-chip", unit: AttributeUnit::Dimensionless }),
        179 => Some(AttributeInfo { name: "used-reserved-blocks-total", unit: AttributeUnit::Dimensionless }),
        180 => Some(AttributeInfo { name: "unused-reserved-blocks", unit: AttributeUnit::Dimensionless }),
        181 => Some(AttributeInfo { name: "program-fail-count-total", unit: AttributeUnit::Dimensionless }),
        182 => Some(AttributeInfo { name: "erase-fail-count-total", unit: AttributeUnit::Dimensionless }),
        183 => Some(AttributeInfo { name: "runtime-bad-block-total", unit: AttributeUnit::Dimensionless }),
        184 => Some(AttributeInfo { name: "end-to-end-error", unit: AttributeUnit::Dimensionless }),
        187 => Some(AttributeInfo { name: "reported-uncorrect", unit: AttributeUnit::Sectors }),
        188 => Some(AttributeInfo { name: "command-timeout", unit: AttributeUnit::Dimensionless }),
        189 => Some(AttributeInfo { name: "high-fly-writes", unit: AttributeUnit::Dimensionless }),
        190 => Some(AttributeInfo { name: "airflow-temperature-celsius", unit: AttributeUnit::MilliKelvin }),
        191 => Some(AttributeInfo { name: "g-sense-error-rate", unit: AttributeUnit::Dimensionless }),
        192 => Some(AttributeInfo { name: "power-off-retract-count", unit: AttributeUnit::Dimensionless }),
        193 => Some(AttributeInfo { name: "load-cycle-count", unit: AttributeUnit::Dimensionless }),
        194 => Some(AttributeInfo { name: "temperature-celsius-2", unit: AttributeUnit::MilliKelvin }),
        195 => Some(AttributeInfo { name: "hardware-ecc-recovered", unit: AttributeUnit::Dimensionless }),
        196 => Some(AttributeInfo { name: "reallocated-event-count", unit: AttributeUnit::Dimensionless }),
        197 => Some(AttributeInfo { name: "current-pending-sector", unit: AttributeUnit::Sectors }),
        198 => Some(AttributeInfo { name: "offline-uncorrectable", unit: AttributeUnit::Sectors }),
        199 => Some(AttributeInfo { name: "udma-crc-error-count", unit: AttributeUnit::Dimensionless }),
        200 => Some(AttributeInfo { name: "multi-zone-error-rate", unit: AttributeUnit::Dimensionless }),
        201 => Some(AttributeInfo { name: "soft-read-error-rate", unit: AttributeUnit::Dimensionless }),
        202 => Some(AttributeInfo { name: "ta-increase-count", unit: AttributeUnit::Dimensionless }),
        203 => Some(AttributeInfo { name: "run-out-cancel", unit: AttributeUnit::Unknown }),
        204 => Some(AttributeInfo { name: "shock-count-write-open", unit: AttributeUnit::Dimensionless }),
        205 => Some(AttributeInfo { name: "shock-rate-write-open", unit: AttributeUnit::Dimensionless }),
        206 => Some(AttributeInfo { name: "flying-height", unit: AttributeUnit::Unknown }),
        207 => Some(AttributeInfo { name: "spin-high-current", unit: AttributeUnit::Unknown }),
        208 => Some(AttributeInfo { name: "spin-buzz", unit: AttributeUnit::Unknown }),
        209 => Some(AttributeInfo { name: "offline-seek-performance", unit: AttributeUnit::Unknown }),
        220 => Some(AttributeInfo { name: "disk-shift", unit: AttributeUnit::Unknown }),
        221 => Some(AttributeInfo { name: "g-sense-error-rate-2", unit: AttributeUnit::Dimensionless }),
        222 => Some(AttributeInfo { name: "loaded-hours", unit: AttributeUnit::Milliseconds }),
        223 => Some(AttributeInfo { name: "load-retry-count", unit: AttributeUnit::Dimensionless }),
        224 => Some(AttributeInfo { name: "load-friction", unit: AttributeUnit::Unknown }),
        225 => Some(AttributeInfo { name: "load-cycle-count-2", unit: AttributeUnit::Dimensionless }),
        226 => Some(AttributeInfo { name: "load-in-time", unit: AttributeUnit::Milliseconds }),
        227 => Some(AttributeInfo { name: "torq-amp-count", unit: AttributeUnit::Dimensionless }),
        228 => Some(AttributeInfo { name: "power-off-retract-count-2", unit: AttributeUnit::Dimensionless }),
        230 => Some(AttributeInfo { name: "head-amplitude", unit: AttributeUnit::Unknown }),
        231 => Some(AttributeInfo { name: "temperature-celsius", unit: AttributeUnit::MilliKelvin }),
        232 => Some(AttributeInfo { name: "endurance-remaining", unit: AttributeUnit::Percent }),
        233 => Some(AttributeInfo { name: "power-on-seconds-2", unit: AttributeUnit::Unknown }),
        234 => Some(AttributeInfo { name: "uncorrectable-ecc-count", unit: AttributeUnit::Sectors }),
        235 => Some(AttributeInfo { name: "good-block-rate", unit: AttributeUnit::Unknown }),
        240 => Some(AttributeInfo { name: "head-flying-hours", unit: AttributeUnit::Milliseconds }),
        241 => Some(AttributeInfo { name: "total-lbas-written", unit: AttributeUnit::Megabytes }),
        242 => Some(AttributeInfo { name: "total-lbas-read", unit: AttributeUnit::Megabytes }),
        250 => Some(AttributeInfo { name: "read-error-retry-rate", unit: AttributeUnit::Dimensionless }),
        _ => None,
    }
}

/// The name of attribute `id`: the one in the table, or `attribute-` and the
/// number in decimal digits for an attribute that the table does not hold.
pub open spec fn attribute_name(id: u8) -> Seq<char> {
    match known_attribute(id) {
        Some(info) => info.name@,
        None => "attribute-"@ + decimal(id as nat),
    }
}

/// The unit of attribute `id`: the one in the table, or `Unknown` for an
/// attribute that the table does not hold.
pub open spec fn attribute_unit(id: u8) -> AttributeUnit {
    match known_attribute(id) {
        Some(info) => info.unit,
        None => AttributeUnit::Unknown,
    }
}

/// The physical quantity that the raw value `raw` of an attribute called
/// `name` stands for, where `v` is the number that `raw` spells in 48 bits,
/// least significant byte first:
///
/// - a spin-up time: the low 16 bits of `v`, milliseconds;
/// - a temperature in degrees Celsius: the low 16 bits of `v`, as millikelvin;
/// - a temperature in hundredths of a degree Celsius: likewise;
/// - power-on time in minutes, seconds or half minutes: `v`, as milliseconds;
/// - hours of power-on, loaded or flying: the low 32 bits of `v`, as
///   milliseconds;
/// - a count of reallocated or pending sectors: the low 32 bits of `v`;
/// - remaining endurance or reserved space: the normalized value;
/// - a count of units of 65536 sectors of 512 bytes written or read: `v`, as
///   megabytes of a million bytes;
/// - media wear or host reads of a timed workload: `v` divided by 1024;
/// - a workload timer in minutes: `v`, as milliseconds;
/// - anything else: `v`.
pub open spec fn pretty_value_of(name: Seq<char>, raw: Seq<u8>, current_value: u8) -> int {
    let v = le48(raw);
    if name == "spin-up-time"@ {
        v % 0x1_0000
    } else if name == "airflow-temperature-celsius"@ || name == "temperature-celsius"@ || name
        == "temperature-celsius-2"@ {
        (v % 0x1_0000) * 1000 + 273150
    } else if name == "temperature-centi-celsius"@ {
        (v % 0x1_0000) * 100 + 273150
    } else if name == "power-on-minutes"@ {
        v * 60_000
    } else if name == "power-on-seconds"@ || name == "power-on-seconds-2"@ {
        v * 1000
    } else if name == "power-on-half-minutes"@ {
        v * 30_000
    } else if name == "power-on-hours"@ || name == "loaded-hours"@ || name == "head-flying-hours"@ {
        (v % 0x1_0000_0000) * 3_600_000
    } else if name == "reallocated-sector-count"@ || name == "current-pending-sector"@ {
        v % 0x1_0000_0000
    } else if name == "endurance-remaining"@ || name == "available-reserved-space"@ {
        current_value as int
    } else if name == "total-lbas-written"@ || name == "total-lbas-read"@ {
        v * 65536 * 512 / 1_000_000
    } else if name == "timed-workload-media-wear"@ || name == "timed-workload-host-reads"@ {
        v / 1024
    } else if name == "workload-timer"@ {
        v * 60_000
    } else {
        v
    }
}

/// The attribute `a` with its pretty value computed from its name, its raw
/// value and its normalized value.
pub open spec fn with_pretty_value(a: AttributeView) -> AttributeView {
    AttributeView { pretty_value: pretty_value_of(a.name, a.raw, a.current_value) as u64, ..a }
}

/// Computes the pretty value of `attr` from its name, its raw value and its
/// normalized value.
pub fn make_pretty(attr: &mut SmartAttributeParsedData)
    ensures
        final(attr)@ == with_pretty_value(old(attr)@),
        final(attr).pretty_value == pretty_value_of(
            old(attr).name@,
            old(attr).raw@,
            old(attr).current_value,
        ),
{
    let v: u64 = read_le48(attr.raw.as_slice(), 0);
    assert(attr.raw@.subrange(0, 6) =~= attr.raw@);
    let name: &str = attr.name.as_str();
    let pretty: u64 = if str_eq(name, "spin-up-time") {
        v % 0x1_0000
    } else if str_eq(name, "airflow-temperature-celsius") || str_eq(name, "temperature-celsius")
        || str_eq(name, "temperature-celsius-2") {
        (v % 0x1_0000) * 1000 + 273150
    } else if str_eq(name, "temperature-centi-celsius") {
        (v % 0x1_0000) * 100 + 273150
    } else if str_eq(name, "power-on-minutes") {
        v * 60_000
    } else if str_eq(name, "power-on-seconds") || str_eq(name, "power-on-seconds-2") {
        v * 1000
    } else if str_eq(name, "power-on-half-minutes") {
        v * 30_000
    } else if str_eq(name, "power-on-hours") || str_eq(name, "loaded-hours") || str_eq(
        name,
        "head-flying-hours",
    ) {
        (v % 0x1_0000_0000) * 3_600_000
    } else if str_eq(name, "reallocated-sector-count") || str_eq(name, "current-pending-sector") {
        v % 0x1_0000_0000
    } else if str_eq(name, "endurance-remaining") || str_eq(name, "available-reserved-space") {
        attr.current_value as u64
    } else if str_eq(name, "total-lbas-written") || str_eq(name, "total-lbas-read") {
        ((v as u128 * 33_554_432) / 1_000_000) as u64
    } else if str_eq(name, "timed-workload-media-wear") || str_eq(name, "timed-workload-host-reads") {
        v / 1024
    } else if str_eq(name, "workload-timer") {
        v * 60_000
    } else {
        v
    };
    attr.pretty_value = pretty;
}

/// The longest plausible duration for an attribute called `name`, in
/// milliseconds: one hour for a spin-up or a load, else thirty years.
pub open spec fn duration_ceiling(name: Seq<char>) -> u64 {
    if contains(name, "spin-up"@) || contains(name, "load-in"@) {
        MSECOND_VALID_SHORT_MAX
    } else {
        MSECOND_VALID_LONG_MAX
    }
}

/// Whether an attribute called `name` counts sectors that went bad:
/// reallocated ones, or ones that wait to be reallocated.
pub open spec fn counts_bad_sectors(name: Seq<char>) -> bool {
    name == "reallocated-sector-count"@ || name == "current-pending-sector"@
}

/// Whether the pretty value `pretty` cannot be true of an attribute called
/// `name` with the unit `unit`, on a disk of `disk_size` bytes:
///
/// - a temperature below -15 or above 100 degrees Celsius;
/// - a duration below a millisecond or above the ceiling for the name;
/// - a count of sectors that is all ones in 32 or 48 bits, or above the
///   number of sectors of 512 bytes that the disk has, where its size is
///   known (is not zero).
pub open spec fn implausible(name: Seq<char>, unit: AttributeUnit, pretty: u64, disk_size: u64) -> bool {
    match unit {
        AttributeUnit::MilliKelvin => pretty < MKELVIN_VALID_MIN || pretty > MKELVIN_VALID_MAX,
        AttributeUnit::Milliseconds => pretty < MSECOND_VALID_MIN || pretty > duration_ceiling(name),
        AttributeUnit::Sectors => pretty == 0xFFFF_FFFF || pretty == 0xFFFF_FFFF_FFFF || (disk_size
            > 0 && pretty > disk_size / 512),
        _ => false,
    }
}

/// The attribute `a` after the check of its pretty value on a disk of
/// `disk_size` bytes: with the unit `Unknown` where the value is
/// implausible, and with a warning where it counts bad sectors and counts
/// more than none.
pub open spec fn verified(a: AttributeView, disk_size: u64) -> AttributeView {
    AttributeView {
        pretty_unit: if implausible(a.name, a.pretty_unit, a.pretty_value, disk_size) {
            AttributeUnit::Unknown
        } else {
            a.pretty_unit
        },
        warn: a.warn || (counts_bad_sectors(a.name) && a.pretty_value > 0),
        ..a
    }
}

/// Checks the pretty value of `attr` for plausibility on a disk of
/// `disk_size` bytes, zero standing for an unknown size.  An implausible
/// value loses its unit; a count of reallocated or pending sectors above
/// zero raises the warning.
pub fn verify_attribute(attr: &mut SmartAttributeParsedData, disk_size: u64)
    ensures
        final(attr)@ == verified(old(attr)@, disk_size),
        final(attr).pretty_unit == AttributeUnit::MilliKelvin ==> MKELVIN_VALID_MIN
            <= final(attr).pretty_value <= MKELVIN_VALID_MAX,
{
    let name: &str = attr.name.as_str();
    let bad: bool = match attr.pretty_unit {
        AttributeUnit::MilliKelvin => attr.pretty_value < MKELVIN_VALID_MIN || attr.pretty_value
            > MKELVIN_VALID_MAX,
        AttributeUnit::Milliseconds => {
            let max: u64 = if str_contains(name, "spin-up") || str_contains(name, "load-in") {
                MSECOND_VALID_SHORT_MAX
            } else {
                MSECOND_VALID_LONG_MAX
            };
            attr.pretty_value < MSECOND_VALID_MIN || attr.pretty_value > max
        },
        AttributeUnit::Sectors => attr.pretty_value == 0xFFFF_FFFF || attr.pretty_value
            == 0xFFFF_FFFF_FFFF || (disk_size > 0 && attr.pretty_value > disk_size / 512),
        _ => false,
    };
    let counted: bool = str_eq(name, "reallocated-sector-count") || str_eq(
        name,
        "current-pending-sector",
    );
    if bad {
        attr.pretty_unit = AttributeUnit::Unknown;
    }
    if counted && attr.pretty_value > 0 {
        attr.warn = true;
    }
}

/// The attribute that the slot `raw` of a SMART DATA sector spells, before
/// its pretty value is computed and before thresholds are looked at.
pub open spec fn decoded_slot(raw: Seq<u8>) -> AttributeView {
    AttributeView {
        id: raw[0],
        name: attribute_name(raw[0]),
        pretty_unit: attribute_unit(raw[0]),
        flags: le16(raw.subrange(1, 3)) as u16,
        threshold: 0,
        threshold_valid: false,
        online: (raw[1] & 2) != 0,
        prefailure: (raw[1] & 1) != 0,
        good_now: true,
        good_now_valid: false,
        good_in_the_past: true,
        good_in_the_past_valid: false,
        current_value_valid: 1 <= raw[3] <= 0xFD,
        worst_value_valid: 1 <= raw[4] <= 0xFD,
        warn: false,
        current_value: raw[3],
        worst_value: raw[4],
        pretty_value: 0,
        raw: raw.subrange(5, 11),
    }
}

/// Whether `slot` is the slot of a SMART THRESHOLDS sector that speaks of
/// attribute `id`.
pub open spec fn threshold_applies(id: u8, slot: Option<Seq<u8>>) -> bool {
    slot matches Some(t) && t.len() >= 2 && t[0] == id
}

/// The attribute `a` with the threshold of `slot` applied, where `slot` is
/// there and speaks of this attribute.  The threshold is valid unless it is
/// 0xFE.  A threshold from 1 to 253 is compared: the attribute is good now
/// if its current value is above the threshold, and was good in the past if
/// its worst value is, each as far as the value is valid.  A comparison that
/// is not made leaves what `a` says of it.  The attribute warns when either
/// comparison stands and failed.
pub open spec fn with_threshold(a: AttributeView, slot: Option<Seq<u8>>) -> AttributeView {
    if threshold_applies(a.id, slot) {
        let threshold = slot->0[1];
        let comparable = 1 <= threshold <= 0xFD;
        let past_compared = comparable && a.worst_value_valid;
        let now_compared = comparable && a.current_value_valid;
        let past_valid = past_compared || a.good_in_the_past_valid;
        let now_valid = now_compared || a.good_now_valid;
        let past = if past_compared {
            a.worst_value > threshold
        } else {
            a.good_in_the_past
        };
        let now = if now_compared {
            a.current_value > threshold
        } else {
            a.good_now
        };
        AttributeView {
            threshold,
            threshold_valid: threshold != 0xFE,
            good_in_the_past: past,
            good_in_the_past_valid: past_valid,
            good_now: now,
            good_now_valid: now_valid,
            warn: (now_valid && !now) || (past_valid && !past),
            ..a
        }
    } else {
        a
    }
}

/// The record that the slot `raw` of a SMART DATA sector stands for, with
/// the slot `threshold` of a SMART THRESHOLDS sector where one was found, on
/// a disk of `disk_size` bytes.  A slot of fewer than twelve bytes, and a
/// slot whose first byte is zero, stands for none.
pub open spec fn parsed_attribute(raw: Seq<u8>, threshold: Option<Seq<u8>>, disk_size: u64) -> Option<
    AttributeView,
> {
    if raw.len() < 12 || raw[0] == 0 {
        None
    } else {
        Some(verified(with_threshold(with_pretty_value(decoded_slot(raw)), threshold), disk_size))
    }
}

/// The bytes of a slice that may be missing.
pub open spec fn bytes_of(slot: Option<&[u8]>) -> Option<Seq<u8>> {
    match slot {
        Some(s) => Some(s@),
        None => None,
    }
}

/// The record of an attribute that may be missing, as a mathematical value.
pub open spec fn record_view(record: Option<SmartAttributeParsedData>) -> Option<AttributeView> {
    match record {
        Some(a) => Some(a@),
        None => None,
    }
}

/// The name of attribute `id`.
pub fn name_of(id: u8) -> (name: String)
    ensures
        name@ == attribute_name(id),
{
    match attribute_info(id) {
        Some(info) => info.name.to_owned(),
        None => {
            let mut name = "attribute-".to_owned();
            push_decimal(&mut name, id as u64);
            name
        },
    }
}

/// The unit of attribute `id`.
pub fn unit_of(id: u8) -> (unit: AttributeUnit)
    ensures
        unit == attribute_unit(id),
{
    match attribute_info(id) {
        Some(info) => info.unit,
        None => AttributeUnit::Unknown,
    }
}

/// Reads the fields of a slot of a SMART DATA sector as they stand there.
fn decode_slot(raw_data: &[u8]) -> (attr: SmartAttributeParsedData)
    requires
        raw_data@.len() >= 12,
    ensures
        attr@ == decoded_slot(raw_data@),
{
    let id: u8 = raw_data[0];
    let current_value: u8 = raw_data[3];
    let worst_value: u8 = raw_data[4];
    let raw: [u8; 6] = [
        raw_data[5],
        raw_data[6],
        raw_data[7],
        raw_data[8],
        raw_data[9],
        raw_data[10],
    ];
    assert(raw@ =~= raw_data@.subrange(5, 11));
    SmartAttributeParsedData {
        id,
        name: name_of(id),
        pretty_unit: unit_of(id),
        flags: read_le16(raw_data, 1),
        threshold: 0,
        threshold_valid: false,
        online: (raw_data[1] & 2) != 0,
        prefailure: (raw_data[1] & 1) != 0,
        good_now: true,
        good_now_valid: false,
        good_in_the_past: true,
        good_in_the_past_valid: false,
        current_value_valid: current_value >= 1 && current_value <= 0xFD,
        worst_value_valid: worst_value >= 1 && worst_value <= 0xFD,
        warn: false,
        current_value,
        worst_value,
        pretty_value: 0,
        raw,
    }
}

/// Holds the normalized values of `attr` against the threshold in
/// `threshold_data`, where that slot is there and speaks of this attribute.
fn apply_threshold(attr: &mut SmartAttributeParsedData, threshold_data: Option<&[u8]>)
    ensures
        final(attr)@ == with_threshold(old(attr)@, bytes_of(threshold_data)),
{
    if let Some(threshold_raw) = threshold_data {
        if threshold_raw.len() >= 2 && threshold_raw[0] == attr.id {
            let threshold: u8 = threshold_raw[1];
            attr.threshold = threshold;
            attr.threshold_valid = threshold != 0xFE;
            if threshold >= 1 && threshold <= 0xFD {
                if attr.worst_value_valid {
                    attr.good_in_the_past = attr.worst_value > threshold;
                    attr.good_in_the_past_valid = true;
                }
                if attr.current_value_valid {
                    attr.good_now = attr.current_value > threshold;
                    attr.good_now_valid = true;
                }
            }
            attr.warn = (attr.good_now_valid && !attr.good_now) || (attr.good_in_the_past_valid
                && !attr.good_in_the_past);
        }
    }
}

/// An attribute that counts reallocated or pending sectors, and counts more
/// than none, warns once it is verified; and a verified attribute keeps the
/// unit millikelvin only with a plausible temperature.
pub proof fn lemma_verified(a: AttributeView, disk_size: u64)
    ensures
        (a.name == attribute_name(5) || a.name == attribute_name(197)) && a.pretty_value > 0
            ==> verified(a, disk_size).warn,
        verified(a, disk_size).pretty_unit == AttributeUnit::MilliKelvin ==> MKELVIN_VALID_MIN
            <= verified(a, disk_size).pretty_value <= MKELVIN_VALID_MAX,
{
}

/// Decodes one slot of a SMART DATA sector.
///
/// `raw_data` is the slot, twelve bytes: the attribute's number, two bytes
/// of flags, the current and the worst normalized value, six bytes of raw
/// value, one byte that is not read.  `threshold_data` is the slot of the
/// SMART THRESHOLDS sector for the same attribute, where there is one: the
/// number and the threshold.  A slot whose first byte is zero is empty and
/// gives no record, and neither does one of fewer than twelve bytes.
pub fn parse_attribute(raw_data: &[u8], threshold_data: Option<&[u8]>, disk_size: u64) -> (r: Option<
    SmartAttributeParsedData,
>)
    ensures
        record_view(r) == parsed_attribute(raw_data@, bytes_of(threshold_data), disk_size),
        raw_data@.len() >= 1 && raw_data@[0] == 0 ==> r is None,
        r is Some <==> raw_data@.len() >= 12 && raw_data@[0] != 0,
        r matches Some(a) ==> a.id == raw_data@[0] && a.id != 0,
        r matches Some(a) ==> (a.pretty_unit == AttributeUnit::MilliKelvin ==> MKELVIN_VALID_MIN
            <= a.pretty_value <= MKELVIN_VALID_MAX),
        r matches Some(a) ==> ((a.id == 5 || a.id == 197) && a.pretty_value > 0 ==> a.warn),
{
    if raw_data.len() < 12 {
        return None;
    }
    if raw_data[0] == 0 {
        return None;
    }
    let mut attr = decode_slot(raw_data);
    make_pretty(&mut attr);
    apply_threshold(&mut attr, threshold_data);
    proof {
        lemma_verified(attr@, disk_size);
    }
    verify_attribute(&mut attr, disk_size);
    Some(attr)
}

/// Number of attribute slots in a SMART DATA or SMART THRESHOLDS sector.
pub const SLOT_COUNT: usize = 30;

/// The bytes of slot `i` of a sector: twelve bytes from offset `2 + 12 * i`.
pub open spec fn slot(sector: Seq<u8>, i: int) -> Seq<u8> {
    sector.subrange(2 + 12 * i, 14 + 12 * i)
}

/// The first slot of the SMART THRESHOLDS sector `thresholds`, from slot `j`
/// on, whose first byte is `id`.
pub open spec fn threshold_slot_from(thresholds: Seq<u8>, id: u8, j: int) -> Option<Seq<u8>>
    decreases SLOT_COUNT - j,
{
    if j >= SLOT_COUNT {
        None
    } else if slot(thresholds, j)[0] == id {
        Some(slot(thresholds, j))
    } else {
        threshold_slot_from(thresholds, id, j + 1)
    }
}

/// The slot of the SMART THRESHOLDS sector that speaks of attribute `id`:
/// the first one whose first byte is `id`.  There is none where the sector
/// is missing, and none for the number zero.
pub open spec fn threshold_for(thresholds: Option<Seq<u8>>, id: u8) -> Option<Seq<u8>> {
    match thresholds {
        Some(t) => if id != 0 {
            threshold_slot_from(t, id, 0)
        } else {
            None
        },
        None => None,
    }
}

/// The record of slot `i` of the SMART DATA sector `smart`, if the slot
/// holds an attribute.
pub open spec fn parsed_slot(smart: Seq<u8>, thresholds: Option<Seq<u8>>, disk_size: u64, i: int) -> Option<
    AttributeView,
> {
    parsed_attribute(slot(smart, i), threshold_for(thresholds, slot(smart, i)[0]), disk_size)
}

/// The records of the first `n` slots of the SMART DATA sector `smart`, in
/// the order of the slots; an empty slot gives none.
pub open spec fn parsed_attributes_upto(
    smart: Seq<u8>,
    thresholds: Option<Seq<u8>>,
    disk_size: u64,
    n: int,
) -> Seq<AttributeView>
    decreases n,
{
    if n <= 0 {
        Seq::empty()
    } else {
        let front = parsed_attributes_upto(smart, thresholds, disk_size, n - 1);
        match parsed_slot(smart, thresholds, disk_size, n - 1) {
            Some(a) => front.push(a),
            None => front,
        }
    }
}

/// The records of the attributes of the SMART DATA sector `smart`, each
/// held against its slot of `thresholds` where that sector is there, on a
/// disk of `disk_size` bytes.
pub open spec fn parsed_attributes(smart: Seq<u8>, thresholds: Option<Seq<u8>>, disk_size: u64) -> Seq<
    AttributeView,
> {
    parsed_attributes_upto(smart, thresholds, disk_size, SLOT_COUNT as int)
}

/// A list of records as mathematical values.
pub open spec fn records_view(records: Seq<SmartAttributeParsedData>) -> Seq<AttributeView> {
    records.map_values(|a: SmartAttributeParsedData| a@)
}

/// Finds the slot of a SMART THRESHOLDS sector that speaks of attribute `id`.
fn find_threshold(thresholds: &[u8; 512], id: u8) -> (r: Option<&[u8]>)
    ensures
        bytes_of(r) == threshold_slot_from(thresholds@, id, 0),
{
    let mut j: usize = 0;
    while j < SLOT_COUNT
        invariant
            j <= SLOT_COUNT,
            threshold_slot_from(thresholds@, id, 0) == threshold_slot_from(thresholds@, id, j as int),
        decreases SLOT_COUNT - j,
    {
        let offset: usize = 2 + j * 12;
        if thresholds[offset] == id {
            return Some(&thresholds[offset..offset + 12]);
        }
        j += 1;
    }
    None
}

/// Decodes the attributes of a SMART DATA sector: the thirty slots in order,
/// each held against the slot of the SMART THRESHOLDS sector that carries
/// its number, where that sector is there.  Empty slots give no record, so
/// no record has the number zero.
pub fn parse_attributes(smart: &[u8; 512], thresholds: Option<&[u8; 512]>, disk_size: u64) -> (r: Vec<
    SmartAttributeParsedData,
>)
    ensures
        records_view(r@) == parsed_attributes(smart@, sector_bytes(thresholds), disk_size),
        r@.len() <= SLOT_COUNT,
        forall|k: int| 0 <= k < r@.len() ==> (#[trigger] r@[k]).id != 0,
        forall|k: int|
            0 <= k < r@.len() ==> ((#[trigger] r@[k]).pretty_unit == AttributeUnit::MilliKelvin
                ==> MKELVIN_VALID_MIN <= r@[k].pretty_value <= MKELVIN_VALID_MAX),
        forall|k: int|
            0 <= k < r@.len() ==> (((#[trigger] r@[k]).id == 5 || r@[k].id == 197)
                && r@[k].pretty_value > 0 ==> r@[k].warn),
        forall|k: int|
            0 <= k < r@.len() ==> (((#[trigger] r@[k]).id == 5 || r@[k].id == 197)
                ==> r@[k].pretty_value <= 0xFFFF_FFFF),
{
    let mut attributes: Vec<SmartAttributeParsedData> = Vec::new();
    let mut i: usize = 0;
    while i < SLOT_COUNT
        invariant
            i <= SLOT_COUNT,
            attributes@.len() <= i,
            records_view(attributes@) == parsed_attributes_upto(
                smart@,
                sector_bytes(thresholds),
                disk_size,
                i as int,
            ),
            forall|k: int| 0 <= k < attributes@.len() ==> (#[trigger] attributes@[k]).id != 0,
            forall|k: int|
                0 <= k < attributes@.len() ==> ((#[trigger] attributes@[k]).pretty_unit
                    == AttributeUnit::MilliKelvin ==> MKELVIN_VALID_MIN
                    <= attributes@[k].pretty_value <= MKELVIN_VALID_MAX),
            forall|k: int|
                0 <= k < attributes@.len() ==> (((#[trigger] attributes@[k]).id == 5
                    || attributes@[k].id == 197) && attributes@[k].pretty_value > 0
                    ==> attributes@[k].warn),
            forall|k: int|
                0 <= k < attributes@.len() ==> (((#[trigger] attributes@[k]).id == 5
                    || attributes@[k].id == 197) ==> attributes@[k].pretty_value <= 0xFFFF_FFFF),
        decreases SLOT_COUNT - i,
    {
        let offset: usize = 2 + i * 12;
        let attr_data: &[u8] = &smart[offset..offset + 12];
        assert(attr_data@ == slot(smart@, i as int));
        let id: u8 = attr_data[0];
        let threshold_data: Option<&[u8]> = match thresholds {
            Some(t) => if id != 0 {
                find_threshold(t, id)
            } else {
                None
            },
            None => None,
        };
        assert(bytes_of(threshold_data) == threshold_for(sector_bytes(thresholds), id));
        let ghost before = attributes@;
        if let Some(attr) = parse_attribute(attr_data, threshold_data, disk_size) {
            proof {
                lemma_sector_count_is_32_bit(attr_data@, bytes_of(threshold_data), disk_size);
            }
            attributes.push(attr);
            assert(records_view(attributes@) =~= records_view(before).push(attr@));
        }
        i += 1;
    }
    attributes
}

/// The bytes of a sector that may be missing.
pub open spec fn sector_bytes(sector: Option<&[u8; 512]>) -> Option<Seq<u8>> {
    match sector {
        Some(s) => Some(s@),
        None => None,
    }
}

/// The pretty value of a count of reallocated sectors, and of one of pending
/// sectors, is the low 32 bits of the raw value.
pub proof fn lemma_sector_count_pretty(raw: Seq<u8>, current_value: u8)
    ensures
        pretty_value_of("reallocated-sector-count"@, raw, current_value) == le48(raw)
            % 0x1_0000_0000,
        pretty_value_of("current-pending-sector"@, raw, current_value) == le48(raw)
            % 0x1_0000_0000,
{
    reveal_strlit("reallocated-sector-count");
    reveal_strlit("current-pending-sector");
    reveal_strlit("spin-up-time");
    reveal_strlit("airflow-temperature-celsius");
    reveal_strlit("temperature-celsius");
    reveal_strlit("temperature-celsius-2");
    reveal_strlit("temperature-centi-celsius");
    reveal_strlit("power-on-minutes");
    reveal_strlit("power-on-seconds");
    reveal_strlit("power-on-seconds-2");
    reveal_strlit("power-on-half-minutes");
    reveal_strlit("power-on-hours");
    reveal_strlit("loaded-hours");
    reveal_strlit("head-flying-hours");
    let a = "reallocated-sector-count"@;
    let b = "current-pending-sector"@;
    assert(a.len() == 24);
    assert(b.len() == 22);
    assert("spin-up-time"@.len() == 12);
    assert("airflow-temperature-celsius"@.len() == 27);
    assert("temperature-celsius"@.len() == 19);
    assert("temperature-celsius-2"@.len() == 21);
    assert("temperature-centi-celsius"@.len() == 25);
    assert("power-on-minutes"@.len() == 16);
    assert("power-on-seconds"@.len() == 16);
    assert("power-on-seconds-2"@.len() == 18);
    assert("power-on-half-minutes"@.len() == 21);
    assert("power-on-hours"@.len() == 14);
    assert("loaded-hours"@.len() == 12);
    assert("head-flying-hours"@.len() == 17);
}

/// A record of attribute 5 or 197 has a pretty value of at most 32 bits.
pub proof fn lemma_sector_count_is_32_bit(raw: Seq<u8>, threshold: Option<Seq<u8>>, disk_size: u64)
    ensures
        parsed_attribute(raw, threshold, disk_size) matches Some(a) ==> ((a.id == 5 || a.id == 197)
            ==> a.pretty_value <= 0xFFFF_FFFF),
{
    if raw.len() >= 12 && (raw[0] == 5 || raw[0] == 197) {
        lemma_sector_count_pretty(raw.subrange(5, 11), raw[3]);
    }
}

} // verus!
