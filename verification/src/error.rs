//! What an operation can fail with.

use core::convert::Infallible;
use vstd::prelude::*;
use vstd::std_specs::convert::FromSpecImpl;

verus! {

/// Why an operation did not reach the converter.
#[derive(Clone, Copy, Debug, PartialEq, Eq, Structural)]
pub enum DacError {
    /// The output code does not fit the converter's resolution.
    ValueOverflow,
    /// The transport reported a failure.
    SpiError,
}

impl DacError {
    /// The text that describes the error.
    pub open spec fn spec_message(self) -> Seq<char> {
        match self {
            DacError::ValueOverflow => "The data value was too large for the selected DAC"@,
            DacError::SpiError => "Internal HAL SPI error"@,
        }
    }

    /// A description of the error for a log or a console.
    pub fn message(&self) -> (text: &'static str)
        ensures
            text@ == self.spec_message(),
    {
        match self {
            Self::ValueOverflow => "The data value was too large for the selected DAC",
            Self::SpiError => "Internal HAL SPI error",
        }
    }
}

/// A failure of the transport. The library treats every such failure alike,
/// so the value carries nothing.
#[derive(Clone, Copy, Debug, PartialEq, Eq, Structural)]
pub struct TransportError;

impl From<TransportError> for DacError {
    fn from(_fault: TransportError) -> (error: DacError) {
        DacError::SpiError
    }
}

impl FromSpecImpl<TransportError> for DacError {
    open spec fn obeys_from_spec() -> bool {
        true
    }

    open spec fn from_spec(_fault: TransportError) -> DacError {
        DacError::SpiError
    }
}

impl From<Infallible> for DacError {
    fn from(_never: Infallible) -> (error: DacError) {
        DacError::SpiError
    }
}

impl FromSpecImpl<Infallible> for DacError {
    open spec fn obeys_from_spec() -> bool {
        true
    }

    open spec fn from_spec(_never: Infallible) -> DacError {
        DacError::SpiError
    }
}

} // verus!
