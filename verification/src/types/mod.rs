//! Plain data types shared by the decoders.

pub mod constants;
pub mod enums;
pub mod structs;
pub mod units;

pub use constants::{
    MKELVIN_VALID_MAX, MKELVIN_VALID_MIN, MSECOND_VALID_LONG_MAX, MSECOND_VALID_MIN,
    MSECOND_VALID_SHORT_MAX, TIMEOUT_MS,
};
pub use enums::{
    AttributeUnit, DiskType, OfflineDataCollectionStatus, SelfTestExecutionStatus, SmartOverall,
    SmartSelfTest,
};
pub use structs::{AttributeView, IdentifyParsedData, SmartAttributeParsedData, SmartParsedData};
pub use units::Duration;
