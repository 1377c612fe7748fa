//! ATA commands, SMART subcommands and transfer directions.

use vstd::prelude::*;

verus! {

/// The ATA commands that this library issues.
#[derive(Debug, Clone, Copy, PartialEq, Eq, Structural)]
pub enum AtaCommand {
    IdentifyDevice,
    IdentifyPacketDevice,
    Smart,
    CheckPowerMode,
}

impl AtaCommand {
    /// The command's opcode in the ATA COMMAND register.
    pub open spec fn spec_code(self) -> u8 {
        match self {
            AtaCommand::IdentifyDevice => 0xEC,
            AtaCommand::IdentifyPacketDevice => 0xA1,
            AtaCommand::Smart => 0xB0,
            AtaCommand::CheckPowerMode => 0xE5,
        }
    }

    /// The command's opcode in the ATA COMMAND register.
    #[verifier::when_used_as_spec(spec_code)]
    pub fn code(self) -> (r: u8)
        ensures
            r == self.spec_code(),
    {
        match self {
            AtaCommand::IdentifyDevice => 0xEC,
            AtaCommand::IdentifyPacketDevice => 0xA1,
            AtaCommand::Smart => 0xB0,
            AtaCommand::CheckPowerMode => 0xE5,
        }
    }
}

/// The subcommands of SMART, selected by the FEATURES register.
#[derive(Debug, Clone, Copy, PartialEq, Eq, Structural)]
pub enum SmartCommand {
    ReadData,
    ReadThresholds,
    ExecuteOfflineImmediate,
    EnableOperations,
    DisableOperations,
    ReturnStatus,
}

impl SmartCommand {
    /// The subcommand's value in the FEATURES register.
    pub open spec fn spec_code(self) -> u8 {
        match self {
            SmartCommand::ReadData => 0xD0,
            SmartCommand::ReadThresholds => 0xD1,
            SmartCommand::ExecuteOfflineImmediate => 0xD4,
            SmartCommand::EnableOperations => 0xD8,
            SmartCommand::DisableOperations => 0xD9,
            SmartCommand::ReturnStatus => 0xDA,
        }
    }

    /// The subcommand's value in the FEATURES register.
    #[verifier::when_used_as_spec(spec_code)]
    pub fn code(self) -> (r: u8)
        ensures
            r == self.spec_code(),
    {
        match self {
            SmartCommand::ReadData => 0xD0,
            SmartCommand::ReadThresholds => 0xD1,
            SmartCommand::ExecuteOfflineImmediate => 0xD4,
            SmartCommand::EnableOperations => 0xD8,
            SmartCommand::DisableOperations => 0xD9,
            SmartCommand::ReturnStatus => 0xDA,
        }
    }
}

/// Which way the data of a command moves.
#[derive(Debug, Clone, Copy, PartialEq, Eq, Structural)]
pub enum Direction {
    /// The command moves no data.
    NonData,
    /// The device sends data to the host.
    In,
    /// The host sends data to the device.
    Out,
}

} // verus!
