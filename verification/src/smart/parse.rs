//! The fixed part of a SMART DATA sector: the state of off-line data
//! collection and of self-tests, what the device can do, and how long its
//! self-tests take.

use vstd::prelude::*;
use crate::error::Error;
use crate::types::enums::{OfflineDataCollectionStatus, SelfTestExecutionStatus};
use crate::types::structs::SmartParsedData;
use crate::utils::{le16, read_le16};

verus! {

/// The state of off-line data collection that byte 362 spells.
pub open spec fn offline_status_of(b: u8) -> OfflineDataCollectionStatus {
    if b == 0x00 || b == 0x80 {
        OfflineDataCollectionStatus::Never
    } else if b == 0x02 || b == 0x82 {
        OfflineDataCollectionStatus::Success
    } else if b == 0x03 {
        OfflineDataCollectionStatus::InProgress
    } else if b == 0x04 || b == 0x84 {
        OfflineDataCollectionStatus::Suspended
    } else if b == 0x05 || b == 0x85 {
        OfflineDataCollectionStatus::Aborted
    } else if b == 0x06 || b == 0x86 {
        OfflineDataCollectionStatus::Fatal
    } else {
        OfflineDataCollectionStatus::Unknown
    }
}

/// The state of the last self-test that the high four bits of byte 363
/// spell.  The values that the standard reserves stand for success.
pub open spec fn self_test_status_of(b: u8) -> SelfTestExecutionStatus {
    let code = b / 16;
    if code == 1 {
        SelfTestExecutionStatus::Aborted
    } else if code == 2 {
        SelfTestExecutionStatus::Interrupted
    } else if code == 3 {
        SelfTestExecutionStatus::Fatal
    } else if code == 4 {
        SelfTestExecutionStatus::ErrorUnknown
    } else if code == 5 {
        SelfTestExecutionStatus::ErrorElectrical
    } else if code == 6 {
        SelfTestExecutionStatus::ErrorServo
    } else if code == 7 {
        SelfTestExecutionStatus::ErrorRead
    } else if code == 8 {
        SelfTestExecutionStatus::ErrorHandling
    } else if code == 15 {
        SelfTestExecutionStatus::InProgress
    } else {
        SelfTestExecutionStatus::SuccessOrNever
    }
}

/// The minutes that an extended self-test takes: byte 373, unless that is
/// 0xFF, in which case bytes 375 and 376 hold the number, least significant
/// byte first.
pub open spec fn extended_minutes_of(raw: Seq<u8>) -> u16 {
    if raw[373] != 0xFF {
        raw[373] as u16
    } else {
        le16(raw.subrange(375, 377)) as u16
    }
}

/// What the SMART DATA sector `raw` says besides its attributes.
pub open spec fn parsed_smart_data(raw: Seq<u8>) -> SmartParsedData {
    SmartParsedData {
        offline_data_collection_status: offline_status_of(raw[362]),
        total_offline_data_collection_seconds: le16(raw.subrange(364, 366)) as u32,
        self_test_execution_status: self_test_status_of(raw[363]),
        self_test_execution_percent_remaining: (10 * (raw[363] % 16)) as u32,
        short_and_extended_test_available: (raw[367] & 16) != 0,
        conveyance_test_available: (raw[367] & 32) != 0,
        start_test_available: (raw[367] & 1) != 0,
        abort_test_available: (raw[367] & 41) != 0,
        short_test_polling_minutes: raw[372] as u16,
        extended_test_polling_minutes: extended_minutes_of(raw),
        conveyance_test_polling_minutes: raw[374] as u16,
    }
}

/// Decodes the fixed part of a SMART DATA sector.  Every sector decodes.
pub fn parse_smart_data(raw: &[u8; 512]) -> (r: Result<SmartParsedData, Error>)
    ensures
        r == Ok::<SmartParsedData, Error>(parsed_smart_data(raw@)),
{
    let status: u8 = raw[362];
    let offline_data_collection_status = if status == 0x00 || status == 0x80 {
        OfflineDataCollectionStatus::Never
    } else if status == 0x02 || status == 0x82 {
        OfflineDataCollectionStatus::Success
    } else if status == 0x03 {
        OfflineDataCollectionStatus::InProgress
    } else if status == 0x04 || status == 0x84 {
        OfflineDataCollectionStatus::Suspended
    } else if status == 0x05 || status == 0x85 {
        OfflineDataCollectionStatus::Aborted
    } else if status == 0x06 || status == 0x86 {
        OfflineDataCollectionStatus::Fatal
    } else {
        OfflineDataCollectionStatus::Unknown
    };
    let code: u8 = raw[363] / 16;
    let self_test_execution_status = match code {
        1 => SelfTestExecutionStatus::Aborted,
        2 => SelfTestExecutionStatus::Interrupted,
        3 => SelfTestExecutionStatus::Fatal,
        4 => SelfTestExecutionStatus::ErrorUnknown,
        5 => SelfTestExecutionStatus::ErrorElectrical,
        6 => SelfTestExecutionStatus::ErrorServo,
        7 => SelfTestExecutionStatus::ErrorRead,
        8 => SelfTestExecutionStatus::ErrorHandling,
        15 => SelfTestExecutionStatus::InProgress,
        _ => SelfTestExecutionStatus::SuccessOrNever,
    };
    let extended_test_polling_minutes: u16 = if raw[373] != 0xFF {
        raw[373] as u16
    } else {
        read_le16(raw.as_slice(), 375)
    };
    Ok(
        SmartParsedData {
            offline_data_collection_status,
            total_offline_data_collection_seconds: read_le16(raw.as_slice(), 364) as u32,
            self_test_execution_status,
            self_test_execution_percent_remaining: 10 * ((raw[363] % 16) as u32),
            short_and_extended_test_available: (raw[367] & 16) != 0,
            conveyance_test_available: (raw[367] & 32) != 0,
            start_test_available: (raw[367] & 1) != 0,
            abort_test_available: (raw[367] & 41) != 0,
            short_test_polling_minutes: raw[372] as u16,
            extended_test_polling_minutes,
            conveyance_test_polling_minutes: raw[374] as u16,
        },
    )
}

} // verus!
