//! Decoding SMART sectors and snapshots of them.

pub mod attributes;
pub mod blob;
pub mod parse;
pub mod statistics;
