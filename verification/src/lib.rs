//! Reading and interpreting the S.M.A.R.T. telemetry of ATA disks.
//!
//! The crate holds the decision logic only: it builds the SCSI command blocks
//! that carry an ATA command through each supported bridge dialect, decodes
//! what the device answers, and interprets IDENTIFY, SMART DATA and SMART
//! THRESHOLDS sectors.  Submitting a command block to the kernel is left to
//! the caller, who feeds every outcome back into the step functions here.

pub mod error;
pub mod utils;
pub mod identify;
pub mod types;
pub mod transport;
pub mod smart;
pub mod disk;

pub use disk::{Disk, IdentifyData, SmartData, SmartInfo, SmartThresholds};
pub use error::Error;
pub use smart::blob::{disk_from_blob, encode_blob, parse_blob, BlobData, BlobTag};
pub use smart::statistics::DiskStatistics;
pub use types::{
    AttributeUnit, DiskType, Duration, IdentifyParsedData, OfflineDataCollectionStatus,
    SelfTestExecutionStatus, SmartAttributeParsedData, SmartOverall, SmartParsedData,
    SmartSelfTest,
};
