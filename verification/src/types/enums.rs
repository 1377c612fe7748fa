//! Enumerations of dialects, self-tests, states and units.

use vstd::prelude::*;

verus! {

/// The dialect through which a device is reached.
#[derive(Debug, Clone, Copy, PartialEq, Eq, Structural)]
pub enum DiskType {
    /// ATA pass-through with a 16-byte SCSI command block.
    AtaPassthrough16,
    /// ATA pass-through with a 12-byte SCSI command block.
    AtaPassthrough12,
    /// The native IDE interface of Linux.
    LinuxIde,
    /// Sunplus USB/ATA bridge.
    Sunplus,
    /// JMicron USB/ATA bridge.
    Jmicron,
    /// No device: the sectors come from a snapshot.
    Blob,
    /// Not decided yet.
    Auto,
    /// No dialect reaches the device.
    NoDialect,
}

/// The self-tests that a device can be asked to run.
#[derive(Debug, Clone, Copy, PartialEq, Eq, Structural)]
pub enum SmartSelfTest {
    Short,
    Extended,
    Conveyance,
    Abort,
}

impl SmartSelfTest {
    /// The value that selects this test in the LBA LOW register.
    pub open spec fn spec_code(self) -> u8 {
        match self {
            SmartSelfTest::Short => 1,
            SmartSelfTest::Extended => 2,
            SmartSelfTest::Conveyance => 3,
            SmartSelfTest::Abort => 127,
        }
    }

    /// The value that selects this test in the LBA LOW register.
    #[verifier::when_used_as_spec(spec_code)]
    pub fn code(self) -> (r: u8)
        ensures
            r == self.spec_code(),
    {
        match self {
            SmartSelfTest::Short => 1,
            SmartSelfTest::Extended => 2,
            SmartSelfTest::Conveyance => 3,
            SmartSelfTest::Abort => 127,
        }
    }
}

/// State of the device's off-line data collection.
#[derive(Debug, Clone, Copy, PartialEq, Eq, Structural)]
pub enum OfflineDataCollectionStatus {
    Never,
    Success,
    InProgress,
    Suspended,
    Aborted,
    Fatal,
    Unknown,
}

/// How the last self-test ended, or that one is running.
#[derive(Debug, Clone, Copy, PartialEq, Eq, Structural)]
pub enum SelfTestExecutionStatus {
    SuccessOrNever,
    Aborted,
    Interrupted,
    Fatal,
    ErrorUnknown,
    ErrorElectrical,
    ErrorServo,
    ErrorRead,
    ErrorHandling,
    InProgress,
}

/// The physical unit of an attribute's pretty value.
#[derive(Debug, Clone, Copy, PartialEq, Eq, Structural)]
pub enum AttributeUnit {
    Unknown,
    /// A plain count or rate.
    Dimensionless,
    Milliseconds,
    Sectors,
    MilliKelvin,
    SmallPercent,
    Percent,
    Megabytes,
}

/// The overall verdict on a disk, from best to worst.
#[derive(Debug, Clone, Copy, PartialEq, Eq, Structural)]
pub enum SmartOverall {
    Good,
    BadAttributeInThePast,
    BadSector,
    BadAttributeNow,
    BadSectorMany,
    BadStatus,
}


impl OfflineDataCollectionStatus {
    /// A sentence that says what the status means.
    pub open spec fn spec_as_str(&self) -> &'static str {
        match self {
            OfflineDataCollectionStatus::Never => "off-line data collection was never started",
            OfflineDataCollectionStatus::Success => "off-line data collection completed without error",
            OfflineDataCollectionStatus::InProgress => "off-line activity is in progress",
            OfflineDataCollectionStatus::Suspended => "off-line data collection was suspended by a command from the host",
            OfflineDataCollectionStatus::Aborted => "off-line data collection was aborted by a command from the host",
            OfflineDataCollectionStatus::Fatal => "off-line data collection was aborted by the device with a fatal error",
            OfflineDataCollectionStatus::Unknown => "unknown status",
        }
    }

    /// A sentence that says what the status means.
    pub fn as_str(&self) -> (r: &'static str)
        ensures
            r@ == self.spec_as_str()@,
            r@.len() > 0,
    {
        match self {
            OfflineDataCollectionStatus::Never => {
                proof {
                    reveal_strlit("off-line data collection was never started");
                }
                "off-line data collection was never started"
            },
            OfflineDataCollectionStatus::Success => {
                proof {
                    reveal_strlit("off-line data collection completed without error");
                }
                "off-line data collection completed without error"
            },
            OfflineDataCollectionStatus::InProgress => {
                proof {
                    reveal_strlit("off-line activity is in progress");
                }
                "off-line activity is in progress"
            },
            OfflineDataCollectionStatus::Suspended => {
                proof {
                    reveal_strlit("off-line data collection was suspended by a command from the host");
                }
                "off-line data collection was suspended by a command from the host"
            },
            OfflineDataCollectionStatus::Aborted => {
                proof {
                    reveal_strlit("off-line data collection was aborted by a command from the host");
                }
                "off-line data collection was aborted by a command from the host"
            },
            OfflineDataCollectionStatus::Fatal => {
                proof {
                    reveal_strlit("off-line data collection was aborted by the device with a fatal error");
                }
                "off-line data collection was aborted by the device with a fatal error"
            },
            OfflineDataCollectionStatus::Unknown => {
                proof {
                    reveal_strlit("unknown status");
                }
                "unknown status"
            },
        }
    }
}

impl SelfTestExecutionStatus {
    /// A sentence that says what the status means.
    pub open spec fn spec_as_str(&self) -> &'static str {
        match self {
            SelfTestExecutionStatus::SuccessOrNever => "the last self-test completed without error, or none was ever run",
            SelfTestExecutionStatus::Aborted => "the self-test was aborted by the host",
            SelfTestExecutionStatus::Interrupted => "the self-test was interrupted by a reset",
            SelfTestExecutionStatus::Fatal => "a fatal error kept the device from completing the self-test",
            SelfTestExecutionStatus::ErrorUnknown => "the last self-test failed in an unknown test element",
            SelfTestExecutionStatus::ErrorElectrical => "the last self-test failed in the electrical test element",
            SelfTestExecutionStatus::ErrorServo => "the last self-test failed in the servo or seek test element",
            SelfTestExecutionStatus::ErrorRead => "the last self-test failed in the read test element",
            SelfTestExecutionStatus::ErrorHandling => "the last self-test failed, handling damage is suspected",
            SelfTestExecutionStatus::InProgress => "a self-test is in progress",
        }
    }

    /// A sentence that says what the status means.
    pub fn as_str(&self) -> (r: &'static str)
        ensures
            r@ == self.spec_as_str()@,
            r@.len() > 0,
    {
        match self {
            SelfTestExecutionStatus::SuccessOrNever => {
                proof {
                    reveal_strlit("the last self-test completed without error, or none was ever run");
                }
                "the last self-test completed without error, or none was ever run"
            },
            SelfTestExecutionStatus::Aborted => {
                proof {
                    reveal_strlit("the self-test was aborted by the host");
                }
                "the self-test was aborted by the host"
            },
            SelfTestExecutionStatus::Interrupted => {
                proof {
                    reveal_strlit("the self-test was interrupted by a reset");
                }
                "the self-test was interrupted by a reset"
            },
            SelfTestExecutionStatus::Fatal => {
                proof {
                    reveal_strlit("a fatal error kept the device from completing the self-test");
                }
                "a fatal error kept the device from completing the self-test"
            },
            SelfTestExecutionStatus::ErrorUnknown => {
                proof {
                    reveal_strlit("the last self-test failed in an unknown test element");
                }
                "the last self-test failed in an unknown test element"
            },
            SelfTestExecutionStatus::ErrorElectrical => {
                proof {
                    reveal_strlit("the last self-test failed in the electrical test element");
                }
                "the last self-test failed in the electrical test element"
            },
            SelfTestExecutionStatus::ErrorServo => {
                proof {
                    reveal_strlit("the last self-test failed in the servo or seek test element");
                }
                "the last self-test failed in the servo or seek test element"
            },
            SelfTestExecutionStatus::ErrorRead => {
                proof {
                    reveal_strlit("the last self-test failed in the read test element");
                }
                "the last self-test failed in the read test element"
            },
            SelfTestExecutionStatus::ErrorHandling => {
                proof {
                    reveal_strlit("the last self-test failed, handling damage is suspected");
                }
                "the last self-test failed, handling damage is suspected"
            },
            SelfTestExecutionStatus::InProgress => {
                proof {
                    reveal_strlit("a self-test is in progress");
                }
                "a self-test is in progress"
            },
        }
    }
}

impl AttributeUnit {
    /// The unit's name.
    pub open spec fn spec_as_str(&self) -> &'static str {
        match self {
            AttributeUnit::Unknown => "unknown",
            AttributeUnit::Dimensionless => "none",
            AttributeUnit::Milliseconds => "ms",
            AttributeUnit::Sectors => "sectors",
            AttributeUnit::MilliKelvin => "mK",
            AttributeUnit::SmallPercent => "small percent",
            AttributeUnit::Percent => "percent",
            AttributeUnit::Megabytes => "MB",
        }
    }

    /// The unit's name.
    pub fn as_str(&self) -> (r: &'static str)
        ensures
            r@ == self.spec_as_str()@,
            r@.len() > 0,
    {
        match self {
            AttributeUnit::Unknown => {
                proof {
                    reveal_strlit("unknown");
                }
                "unknown"
            },
            AttributeUnit::Dimensionless => {
                proof {
                    reveal_strlit("none");
                }
                "none"
            },
            AttributeUnit::Milliseconds => {
                proof {
                    reveal_strlit("ms");
                }
                "ms"
            },
            AttributeUnit::Sectors => {
                proof {
                    reveal_strlit("sectors");
                }
                "sectors"
            },
            AttributeUnit::MilliKelvin => {
                proof {
                    reveal_strlit("mK");
                }
                "mK"
            },
            AttributeUnit::SmallPercent => {
                proof {
                    reveal_strlit("small percent");
                }
                "small percent"
            },
            AttributeUnit::Percent => {
                proof {
                    reveal_strlit("percent");
                }
                "percent"
            },
            AttributeUnit::Megabytes => {
                proof {
                    reveal_strlit("MB");
                }
                "MB"
            },
        }
    }
}

} // verus!
