//! Limits that the decoders hold values against.

use vstd::prelude::*;

verus! {

/// Time that the kernel gives a submission, in milliseconds.
pub const TIMEOUT_MS: u32 = 2000;

/// The lowest plausible temperature, -15 degrees Celsius, in millikelvin.
pub const MKELVIN_VALID_MIN: u64 = 258150;

/// The highest plausible temperature, 100 degrees Celsius, in millikelvin.
pub const MKELVIN_VALID_MAX: u64 = 373150;

/// The shortest plausible duration, in milliseconds.
pub const MSECOND_VALID_MIN: u64 = 1;

/// The longest plausible duration of a spin-up or a load, one hour, in
/// milliseconds.
pub const MSECOND_VALID_SHORT_MAX: u64 = 3_600_000;

/// The longest plausible duration of anything else, thirty years of 365
/// days, in milliseconds.
pub const MSECOND_VALID_LONG_MAX: u64 = 946_080_000_000;

} // verus!
