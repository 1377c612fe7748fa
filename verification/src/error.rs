//! Error kinds returned by every fallible operation.

use vstd::prelude::*;
use vstd::string::StringExecFns;
use crate::utils::{decimal, push_decimal};

verus! {

/// The ways an operation of this library can fail.
#[derive(Debug, PartialEq, Eq)]
pub enum Error {
    /// The kernel refused or failed an I/O request; carries the OS error code.
    Io(i32),
    /// The dialect, the device or the handle's state does not offer the operation.
    NotSupported(String),
    /// IDENTIFY DEVICE says that the device has no SMART feature set.
    SmartNotAvailable,
    /// A buffer does not have the layout it must have.
    InvalidData(String),
    /// The device is asleep.
    DeviceSleeping,
    /// A sector that the operation needs has not been read yet.
    NoData,
}

/// The decimal digits of `n`, behind a minus sign where `n` is negative.
pub open spec fn signed_decimal(n: int) -> Seq<char> {
    if n < 0 {
        seq!['-'] + decimal((-n) as nat)
    } else {
        decimal(n as nat)
    }
}

impl Error {
    /// A sentence that says what went wrong.
    pub open spec fn spec_message(&self) -> Seq<char> {
        match self {
            Error::Io(code) => "I/O error, OS error "@ + signed_decimal(*code as int),
            Error::NotSupported(what) => "not supported: "@ + what@,
            Error::SmartNotAvailable => "the device has no SMART"@,
            Error::InvalidData(what) => "invalid data: "@ + what@,
            Error::DeviceSleeping => "the device is asleep"@,
            Error::NoData => "the data has not been read"@,
        }
    }

    /// A sentence that says what went wrong.
    pub fn message(&self) -> (r: String)
        ensures
            r@ == self.spec_message(),
    {
        match self {
            Error::Io(code) => {
                let mut text = "I/O error, OS error ".to_owned();
                if *code < 0 {
                    text.push('-');
                    push_decimal(&mut text, (-(*code as i64)) as u64);
                    assert(text@ =~= "I/O error, OS error "@ + signed_decimal(*code as int));
                } else {
                    push_decimal(&mut text, *code as u64);
                }
                text
            },
            Error::NotSupported(what) => {
                let mut text = "not supported: ".to_owned();
                text.append(what.as_str());
                text
            },
            Error::SmartNotAvailable => "the device has no SMART".to_owned(),
            Error::InvalidData(what) => {
                let mut text = "invalid data: ".to_owned();
                text.append(what.as_str());
                text
            },
            Error::DeviceSleeping => "the device is asleep".to_owned(),
            Error::NoData => "the data has not been read".to_owned(),
        }
    }
}

} // verus!
