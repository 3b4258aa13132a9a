//! What only the AD9834 and the AD9838 offer.

use crate::ad9833_ad9837::lemma_waveform_flags;
use crate::common::control_word;
use crate::register::adjusted;
use crate::{marker, Ad983x, BitFlags, ControlSource, Error, OutputWaveform, SignBitOutput};
use embedded_hal::spi::{ErrorKind, SpiDevice};
use vstd::prelude::*;

verus! {

impl<DEV: SpiDevice> Ad983x<DEV, marker::Ad9834Ad9838> {
    /// Create a new instance of an AD9834 device.
    /// Remember to call `reset()` before using the device after power up.
    pub fn new_ad9834(spi: DEV) -> (device: Self)
        ensures
            device.transport() == spi,
            device.control() == BitFlags::RESET,
            !device.settled(),
            device.attempts() == 0,
    {
        Self::create(spi)
    }

    /// Create a new instance of an AD9838 device.
    /// Remember to call `reset()` before using the device after power up.
    pub fn new_ad9838(spi: DEV) -> (device: Self)
        ensures
            device.transport() == spi,
            device.control() == BitFlags::RESET,
            !device.settled(),
            device.attempts() == 0,
    {
        Self::create(spi)
    }

    /// Set the output waveform
    ///
    /// Will return `Error::InvalidArgument` for `SquareMsbOfDac` and `SquareMsbOfDacDiv2`
    /// as this is not available on AD9834/AD9838 devices. To set the digital output,
    /// please use `set_sign_bit_output`.
    pub fn set_output_waveform(&mut self, waveform: OutputWaveform) -> (outcome: Result<
        (),
        Error<ErrorKind>,
    >)
        ensures
            waveform.is_square() ==> old(self).turned_down(final(self), outcome),
            !waveform.is_square() ==> old(self).carried_out(
                final(self),
                outcome,
                control_word(
                    old(self).settled(),
                    old(self).control(),
                    adjusted(old(self).control(), waveform.raised(), waveform.cleared()),
                ),
                Seq::empty(),
            ),
    {
        let control = match waveform {
            OutputWaveform::Sinusoidal => self.control.with_low(BitFlags::OPBITEN).with_low(
                BitFlags::MODE,
            ),
            OutputWaveform::Triangle => self.control.with_low(BitFlags::OPBITEN).with_high(
                BitFlags::MODE,
            ),
            OutputWaveform::SquareMsbOfDac => return Err(Error::InvalidArgument),
            OutputWaveform::SquareMsbOfDacDiv2 => return Err(Error::InvalidArgument),
        };
        proof {
            lemma_waveform_flags(self.control.bits);
        }
        self.update_control(control)
    }

    /// Set the digital output
    pub fn set_sign_bit_output(&mut self, configuration: SignBitOutput) -> (outcome: Result<
        (),
        Error<ErrorKind>,
    >)
        ensures
            old(self).carried_out(
                final(self),
                outcome,
                control_word(
                    old(self).settled(),
                    old(self).control(),
                    adjusted(old(self).control(), configuration.raised(), configuration.cleared()),
                ),
                Seq::empty(),
            ),
    {
        let control = match configuration {
            SignBitOutput::Disabled => self.control.with_low(BitFlags::OPBITEN),
            SignBitOutput::Comparator => self.control.with_high(BitFlags::OPBITEN).with_low(
                BitFlags::MODE,
            ).with_high(BitFlags::SIGN_PIB).with_high(BitFlags::DIV2),
            SignBitOutput::SquareMsbOfDac => self.control.with_high(BitFlags::OPBITEN).with_low(
                BitFlags::MODE,
            ).with_low(BitFlags::SIGN_PIB).with_high(BitFlags::DIV2),
            SignBitOutput::SquareMsbOfDacDiv2 => self.control.with_high(
                BitFlags::OPBITEN,
            ).with_low(BitFlags::MODE).with_low(BitFlags::SIGN_PIB).with_low(BitFlags::DIV2),
        };
        proof {
            lemma_sign_bit_flags(self.control.bits);
        }
        self.update_control(control)
    }

    /// Set the control source used for the functions:
    /// frequency register selection, phase register selection,
    /// reset of internal registers, and DAC power-down.
    pub fn set_control_source(&mut self, source: ControlSource) -> (outcome: Result<
        (),
        Error<ErrorKind>,
    >)
        ensures
            old(self).carried_out(
                final(self),
                outcome,
                control_word(
                    old(self).settled(),
                    old(self).control(),
                    adjusted(old(self).control(), source.raised(), source.cleared()),
                ),
                Seq::empty(),
            ),
    {
        let control = match source {
            ControlSource::Software => self.control.with_low(BitFlags::PIN_SW),
            ControlSource::HardwarePins => self.control.with_high(BitFlags::PIN_SW),
        };
        proof {
            lemma_control_source_flags(self.control.bits);
        }
        self.update_control(control)
    }
}

/// Setting the flags of the digital output one after the other gives the
/// word that each of its modes stands for.
proof fn lemma_sign_bit_flags(word: u16)
    by (bit_vector)
    ensures
        word & !BitFlags::OPBITEN == adjusted(word, 0, BitFlags::OPBITEN),
        (((word | BitFlags::OPBITEN) & !BitFlags::MODE) | BitFlags::SIGN_PIB) | BitFlags::DIV2
            == adjusted(
            word,
            BitFlags::OPBITEN | BitFlags::SIGN_PIB | BitFlags::DIV2,
            BitFlags::MODE,
        ),
        (((word | BitFlags::OPBITEN) & !BitFlags::MODE) & !BitFlags::SIGN_PIB) | BitFlags::DIV2
            == adjusted(
            word,
            BitFlags::OPBITEN | BitFlags::DIV2,
            BitFlags::MODE | BitFlags::SIGN_PIB,
        ),
        (((word | BitFlags::OPBITEN) & !BitFlags::MODE) & !BitFlags::SIGN_PIB) & !BitFlags::DIV2
            == adjusted(
            word,
            BitFlags::OPBITEN,
            BitFlags::MODE | BitFlags::SIGN_PIB | BitFlags::DIV2,
        ),
{
}

/// Setting the flag of the control source gives the word that each source
/// stands for.
proof fn lemma_control_source_flags(word: u16)
    by (bit_vector)
    ensures
        word & !BitFlags::PIN_SW == adjusted(word, 0, BitFlags::PIN_SW),
        word | BitFlags::PIN_SW == adjusted(word, BitFlags::PIN_SW, 0),
{
}

} // verus!
