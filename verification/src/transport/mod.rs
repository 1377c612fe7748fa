//! Carrying ATA commands to a device through SCSI command blocks.

pub mod ata;
pub mod scsi;
pub mod commands;
pub mod request;
