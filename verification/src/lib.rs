//! Frame codec and shadow-state controller for the DAC80501, DAC70501 and
//! DAC60501 digital-to-analog converters.
//!
//! The three converters share one register map and differ in resolution.
//! A controller ([`Dac`]) remembers what was last written to the write-only
//! config and gain registers, refuses output codes that the converter's
//! resolution cannot take, and composes the three-byte frame of every
//! operation. It does not move bytes itself: the caller hands each frame to
//! its SPI transport and reports the outcome back ([`finish_write`],
//! [`Dac::ref_alarm_status`]).

pub mod alarm;
pub mod command;
pub mod dac;
pub mod error;
pub mod state;

pub use crate::alarm::AlarmStatus;
pub use crate::command::Command;
pub use crate::dac::{finish_write, Dac, Dac60501, Dac70501, Dac80501};
pub use crate::error::{DacError, TransportError};
pub use crate::state::{
    DacConfig, DacState, GainConfig, GainState, InternRefState, PowerState, RefDivState,
};
