//! Register-level driver for the AD9833, AD9834, AD9837 and AD9838 programmable
//! waveform generators.
//!
//! The driver keeps a shadow copy of the chip's 16-bit control register. Every
//! configuration request is turned into a new control word by raising and
//! clearing individual flags of the shadow copy, and into the 16-bit words that
//! carry it to the chip over a write-only serial transport.
//!
//! A setter writes its control word only while the chip is not known to hold
//! it: as long as the transport has accepted no control word, the setter's
//! word goes out whatever it is, and after that only where it differs from the
//! last that the transport accepted. A frequency write sends the control word
//! that sets its mode only where that word differs from the shadow copy,
//! whether a control word has gone out before or not. The shadow copy follows the chip: it changes when a
//! control word has gone out, and at no other time. A request that the device
//! cannot serve is turned down before anything is handed to the transport.
//!
//! One function hands buffers to the transport, [`Link::send`], and it alone
//! keeps the record of what the transport accepted and what it refused. Each
//! operation states over that record what it has handed over, in which
//! order, and which failure it reports ([`Ad983x::written`],
//! [`Ad983x::refused`]), and what the driver holds afterwards
//! ([`Ad983x::control`]).

use core::marker::PhantomData;
use vstd::prelude::*;

mod ad9833_ad9837;
mod ad9834_ad9838;
pub mod common;
pub mod link;
pub mod marker;
pub mod private;
pub mod register;

pub use link::Link;
pub use register::{BitFlags, Config};

verus! {

/// All possible errors in this crate
#[derive(Debug)]
pub enum Error<E> {
    /// SPI communication error
    Spi(E),
    /// Invalid argument provided
    InvalidArgument,
}

impl<E> Error<E> {
    /// What the driver reports for an answer of the transport: success for
    /// success, and for a failure that same failure as an SPI communication
    /// error.
    pub fn reported(answer: Result<(), E>) -> (outcome: Result<(), Error<E>>)
        ensures
            outcome == match answer {
                Ok(()) => Ok::<(), Error<E>>(()),
                Err(failure) => Err::<(), Error<E>>(Error::Spi(failure)),
            },
    {
        match answer {
            Ok(()) => Ok(()),
            Err(failure) => Err(Error::Spi(failure)),
        }
    }
}

/// Frequency registers
#[derive(Debug, Clone, Copy, PartialEq, Eq, Structural)]
pub enum FrequencyRegister {
    /// Frequency register 0
    F0,
    /// Frequency register 1
    F1,
}

/// Phase registers
#[derive(Debug, Clone, Copy, PartialEq, Eq, Structural)]
pub enum PhaseRegister {
    /// Phase register 0
    P0,
    /// Phase register 1
    P1,
}

/// Output waveform
#[derive(Debug, Clone, Copy, PartialEq, Eq, Structural)]
pub enum OutputWaveform {
    /// Sinusoidal wave (default)
    Sinusoidal,
    /// Triangle wave
    Triangle,
    /// Square wave with its value matching the MSB of DAC data
    /// (not available on AD9834/AD9838, use `SignBitOutput`)
    SquareMsbOfDac,
    /// Square wave with its value matching the MSB of DAC data divided by 2
    /// (not available on AD9834/AD9838, use `SignBitOutput`)
    SquareMsbOfDacDiv2,
}

/// Sign bit output on AD9834/AD9838 devices
#[derive(Debug, Clone, Copy, PartialEq, Eq, Structural)]
pub enum SignBitOutput {
    /// Disabled (high impedance) (default)
    Disabled,
    /// Comparator output
    Comparator,
    /// Square wave with its value matching the MSB of DAC data
    SquareMsbOfDac,
    /// Square wave with its value matching the MSB of DAC data divided by 2
    SquareMsbOfDacDiv2,
}

/// Powered-down device configuration
#[derive(Debug, Clone, Copy, PartialEq, Eq, Structural)]
pub enum PoweredDown {
    /// All chip parts are enabled (default)
    Nothing,
    /// Power down only the DAC
    Dac,
    /// Disable only the internal clock
    InternalClock,
    /// Power down the DAC and disable the internal clock
    DacAndInternalClock,
}

/// Hardware pin / software control source for the functions:
/// frequency register selection, phase register selection,
/// reset of internal registers, and DAC power-down.
/// (Only available on AD9834 and AD9838 devices)
#[derive(Debug, Clone, Copy, PartialEq, Eq, Structural)]
pub enum ControlSource {
    /// Functions are controlled only through software (default)
    Software,
    /// Functions are controlled only through hardware pins
    HardwarePins,
}

/// A serial bus together with the chip-select line of one device on it.
#[derive(Debug, Default)]
pub struct SpiInterface<SPI, CS> {
    pub(crate) spi: SPI,
    pub(crate) cs: CS,
}

/// AD983x direct digital synthesizer
///
/// `DEV` is the serial transport that the driver owns, `IC` one of the markers
/// of [`marker`], which tells the driver which of the two device families it
/// drives.
pub struct Ad983x<DEV, IC> {
    link: Link<DEV>,
    control: Config,
    settled: bool,
    _ic: PhantomData<IC>,
}

} // verus!
