//! The register map shared by the three converters.

use core::ops::Deref;
use vstd::prelude::*;

verus! {

/// A register of the converter, selected by the first byte of a frame.
#[allow(clippy::upper_case_acronyms)]
#[derive(Clone, Copy, Debug, PartialEq, Eq, Structural)]
pub enum Command {
    /// No operation.
    NOOP,
    /// The device identification.
    DEVID,
    /// The synchronous-update setting.
    SYNC,
    /// The power-down flags of the reference and of the output.
    CONFIG,
    /// The reference divider and the buffer gain.
    GAIN,
    /// Software reset and load triggers.
    TRIGGER,
    /// The reference alarm.
    STATUS,
    /// The output code.
    DACDATA,
}

impl Command {
    /// The command byte of this register.
    pub open spec fn code(self) -> u8 {
        match self {
            Command::NOOP => 0x00,
            Command::DEVID => 0x01,
            Command::SYNC => 0x02,
            Command::CONFIG => 0x03,
            Command::GAIN => 0x04,
            Command::TRIGGER => 0x05,
            Command::STATUS => 0x07,
            Command::DACDATA => 0x08,
        }
    }
}

/// A register dereferences to its command byte.
impl Deref for Command {
    type Target = u8;

    fn deref(&self) -> (byte: &u8)
        ensures
            *byte == self.code(),
    {
        match self {
            Self::NOOP => &0x00,
            Self::DEVID => &0x01,
            Self::SYNC => &0x02,
            Self::CONFIG => &0x03,
            Self::GAIN => &0x04,
            Self::TRIGGER => &0x05,
            Self::STATUS => &0x07,
            Self::DACDATA => &0x08,
        }
    }
}

/// No two registers share a command byte, so the first byte of a frame
/// names its register.
pub proof fn lemma_codes_are_distinct(a: Command, b: Command)
    requires
        a.code() == b.code(),
    ensures
        a == b,
{
}

} // verus!
