//! The handle on a disk: what has been read from it, and the operations
//! that read more.

pub mod detect;
pub mod device;
pub mod identify_data;
pub mod smart_data;

pub use detect::{detect_disk_type, identify_device, try_identify_device, Probe};
pub use device::{Disk, DiskView};
pub use identify_data::IdentifyData;
pub use smart_data::{SmartData, SmartInfo, SmartThresholds};
