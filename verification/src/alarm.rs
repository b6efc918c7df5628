//! The reference alarm, as the status register reports it.

use vstd::prelude::*;

verus! {

/// Whether the supply leaves the reference enough headroom.
#[derive(Clone, Copy, Debug, PartialEq, Eq, Structural)]
pub enum AlarmStatus {
    /// Too little headroom: the reference buffer is shut down and the
    /// output sits at zero volts.
    High,
    /// Normal operation.
    Low,
}

impl AlarmStatus {
    /// The alarm that the last byte of a status response stands for: `High`
    /// for 1, `Low` for every other value.
    pub open spec fn spec_from_byte(byte: u8) -> AlarmStatus {
        if byte == 1 {
            AlarmStatus::High
        } else {
            AlarmStatus::Low
        }
    }

    /// Decodes the last byte of a status response.
    #[verifier::when_used_as_spec(spec_from_byte)]
    pub fn from_byte(byte: u8) -> (status: AlarmStatus)
        ensures
            status == AlarmStatus::spec_from_byte(byte),
    {
        if byte == 1 {
            AlarmStatus::High
        } else {
            AlarmStatus::Low
        }
    }
}

/// The alarm is high for the byte 1 and for no other.
pub proof fn lemma_alarm_high_iff_one(byte: u8)
    ensures
        AlarmStatus::from_byte(byte) == AlarmStatus::High <==> byte == 1,
        AlarmStatus::from_byte(byte) == AlarmStatus::Low <==> byte != 1,
{
}

} // verus!
