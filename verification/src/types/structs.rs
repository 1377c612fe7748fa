//! The records that the decoders produce.

use vstd::prelude::*;
use crate::types::enums::{
    AttributeUnit, OfflineDataCollectionStatus, SelfTestExecutionStatus, SmartSelfTest,
};

verus! {

/// What an IDENTIFY DEVICE sector says of the device.
#[derive(Debug, Clone, PartialEq, Eq)]
pub struct IdentifyParsedData {
    /// Serial number.
    pub serial: String,
    /// Firmware revision.
    pub firmware: String,
    /// Model name.
    pub model: String,
}

/// What a SMART DATA sector says besides its attributes.
#[derive(Debug, Clone, Copy, PartialEq, Eq, Structural)]
pub struct SmartParsedData {
    /// State of the off-line data collection.
    pub offline_data_collection_status: OfflineDataCollectionStatus,
    /// Seconds that a whole off-line data collection takes.
    pub total_offline_data_collection_seconds: u32,
    /// State of the last self-test.
    pub self_test_execution_status: SelfTestExecutionStatus,
    /// Part of the running self-test that is still to do, in percent.
    pub self_test_execution_percent_remaining: u32,
    /// The device can run the short and the extended self-test.
    pub short_and_extended_test_available: bool,
    /// The device can run the conveyance self-test.
    pub conveyance_test_available: bool,
    /// The device can be told to start a self-test.
    pub start_test_available: bool,
    /// The device can be told to abort a self-test.
    pub abort_test_available: bool,
    /// Minutes to wait for the short self-test.
    pub short_test_polling_minutes: u16,
    /// Minutes to wait for the extended self-test.
    pub extended_test_polling_minutes: u16,
    /// Minutes to wait for the conveyance self-test.
    pub conveyance_test_polling_minutes: u16,
}

impl SmartParsedData {
    /// Whether the device offers `test`: it can start self-tests and has
    /// this one.
    pub open spec fn spec_self_test_available(&self, test: SmartSelfTest) -> bool {
        self.start_test_available && match test {
            SmartSelfTest::Short | SmartSelfTest::Extended => self.short_and_extended_test_available,
            SmartSelfTest::Conveyance => self.conveyance_test_available,
            SmartSelfTest::Abort => self.abort_test_available,
        }
    }

    /// Whether the device offers `test`.
    #[verifier::when_used_as_spec(spec_self_test_available)]
    pub fn self_test_available(&self, test: SmartSelfTest) -> (r: bool)
        ensures
            r == self.spec_self_test_available(test),
    {
        if !self.start_test_available {
            return false;
        }
        match test {
            SmartSelfTest::Short | SmartSelfTest::Extended => self.short_and_extended_test_available,
            SmartSelfTest::Conveyance => self.conveyance_test_available,
            SmartSelfTest::Abort => self.abort_test_available,
        }
    }

    /// Minutes to wait for `test` to end: zero where the device does not
    /// offer it, and for an abort.
    pub open spec fn spec_self_test_polling_minutes(&self, test: SmartSelfTest) -> u16 {
        if !self.spec_self_test_available(test) {
            0
        } else {
            match test {
                SmartSelfTest::Short => self.short_test_polling_minutes,
                SmartSelfTest::Extended => self.extended_test_polling_minutes,
                SmartSelfTest::Conveyance => self.conveyance_test_polling_minutes,
                SmartSelfTest::Abort => 0,
            }
        }
    }

    /// Minutes to wait for `test` to end.
    #[verifier::when_used_as_spec(spec_self_test_polling_minutes)]
    pub fn self_test_polling_minutes(&self, test: SmartSelfTest) -> (r: u16)
        ensures
            r == self.spec_self_test_polling_minutes(test),
    {
        if !self.self_test_available(test) {
            return 0;
        }
        match test {
            SmartSelfTest::Short => self.short_test_polling_minutes,
            SmartSelfTest::Extended => self.extended_test_polling_minutes,
            SmartSelfTest::Conveyance => self.conveyance_test_polling_minutes,
            SmartSelfTest::Abort => 0,
        }
    }
}

/// One attribute of a SMART DATA sector, decoded.
#[derive(Debug, Clone, PartialEq, Eq)]
pub struct SmartAttributeParsedData {
    /// The attribute's number, 1 to 255.
    pub id: u8,
    /// The attribute's name.
    pub name: String,
    /// The unit of `pretty_value`.
    pub pretty_unit: AttributeUnit,
    /// The attribute's flags.
    pub flags: u16,
    /// The threshold below which the device calls the attribute failing.
    pub threshold: u8,
    /// Whether `threshold` was found and is no reserved value.
    pub threshold_valid: bool,
    /// The device updates the attribute while it works.
    pub online: bool,
    /// A failing value announces a failure of the device.
    pub prefailure: bool,
    /// The current value is above the threshold.
    pub good_now: bool,
    /// Whether `good_now` says anything.
    pub good_now_valid: bool,
    /// The worst value is above the threshold.
    pub good_in_the_past: bool,
    /// Whether `good_in_the_past` says anything.
    pub good_in_the_past_valid: bool,
    /// The current value is in the range 1 to 253.
    pub current_value_valid: bool,
    /// The worst value is in the range 1 to 253.
    pub worst_value_valid: bool,
    /// The attribute deserves the user's attention.
    pub warn: bool,
    /// The normalized value as it is now.
    pub current_value: u8,
    /// The lowest normalized value that the device has seen.
    pub worst_value: u8,
    /// The physical quantity that the raw value stands for.
    pub pretty_value: u64,
    /// The raw value, six bytes.
    pub raw: [u8; 6],
}

/// An attribute as a mathematical value.
pub struct AttributeView {
    pub id: u8,
    pub name: Seq<char>,
    pub pretty_unit: AttributeUnit,
    pub flags: u16,
    pub threshold: u8,
    pub threshold_valid: bool,
    pub online: bool,
    pub prefailure: bool,
    pub good_now: bool,
    pub good_now_valid: bool,
    pub good_in_the_past: bool,
    pub good_in_the_past_valid: bool,
    pub current_value_valid: bool,
    pub worst_value_valid: bool,
    pub warn: bool,
    pub current_value: u8,
    pub worst_value: u8,
    pub pretty_value: u64,
    pub raw: Seq<u8>,
}

impl View for SmartAttributeParsedData {
    type V = AttributeView;

    open spec fn view(&self) -> AttributeView {
        AttributeView {
            id: self.id,
            name: self.name@,
            pretty_unit: self.pretty_unit,
            flags: self.flags,
            threshold: self.threshold,
            threshold_valid: self.threshold_valid,
            online: self.online,
            prefailure: self.prefailure,
            good_now: self.good_now,
            good_now_valid: self.good_now_valid,
            good_in_the_past: self.good_in_the_past,
            good_in_the_past_valid: self.good_in_the_past_valid,
            current_value_valid: self.current_value_valid,
            worst_value_valid: self.worst_value_valid,
            warn: self.warn,
            current_value: self.current_value,
            worst_value: self.worst_value,
            pretty_value: self.pretty_value,
            raw: self.raw@,
        }
    }
}

} // verus!
