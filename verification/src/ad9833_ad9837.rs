//! What only the AD9833 and the AD9837 offer.

use crate::common::control_word;
use crate::register::adjusted;
use crate::{marker, Ad983x, BitFlags, Error, OutputWaveform};
use embedded_hal::spi::{ErrorKind, SpiDevice};
use vstd::prelude::*;

verus! {

impl<DEV: SpiDevice> Ad983x<DEV, marker::Ad9833Ad9837> {
    /// Create a new instance of an AD9833 device.
    ///
    /// Remember to call `reset()` before using the device after power up.
    pub fn new_ad9833(spi: DEV) -> (device: Self)
        ensures
            device.transport() == spi,
            device.control() == BitFlags::RESET,
            !device.settled(),
            device.attempts() == 0,
    {
        Self::create(spi)
    }

    /// Create a new instance of an AD9837 device.
    ///
    /// Remember to call `reset()` before using the device after power up.
    pub fn new_ad9837(spi: DEV) -> (device: Self)
        ensures
            device.transport() == spi,
            device.control() == BitFlags::RESET,
            !device.settled(),
            device.attempts() == 0,
    {
        // Behaves the same as AD9833
        Self::create(spi)
    }

    /// Set the output waveform
    pub fn set_output_waveform(&mut self, waveform: OutputWaveform) -> (outcome: Result<
        (),
        Error<ErrorKind>,
    >)
        ensures
            old(self).carried_out(
                final(self),
                outcome,
                control_word(
                    old(self).settled(),
                    old(self).control(),
                    adjusted(old(self).control(), waveform.raised(), waveform.cleared()),
                ),
                Seq::empty(),
            ),
    {
        let control = match waveform {
            OutputWaveform::Sinusoidal => self.control.with_low(BitFlags::OPBITEN).with_low(
                BitFlags::MODE,
            ),
            OutputWaveform::Triangle => self.control.with_low(BitFlags::OPBITEN).with_high(
                BitFlags::MODE,
            ),
            OutputWaveform::SquareMsbOfDac => self.control.with_high(BitFlags::OPBITEN).with_low(
                BitFlags::MODE,
            ).with_high(BitFlags::DIV2),
            OutputWaveform::SquareMsbOfDacDiv2 => self.control.with_high(
                BitFlags::OPBITEN,
            ).with_low(BitFlags::MODE).with_low(BitFlags::DIV2),
        };
        proof {
            lemma_waveform_flags(self.control.bits);
        }
        self.update_control(control)
    }
}

/// Setting the waveform flags one after the other gives the word that each
/// waveform stands for.
pub(crate) proof fn lemma_waveform_flags(word: u16)
    by (bit_vector)
    ensures
        (word & !BitFlags::OPBITEN) & !BitFlags::MODE == adjusted(
            word,
            0,
            BitFlags::OPBITEN | BitFlags::MODE,
        ),
        (word & !BitFlags::OPBITEN) | BitFlags::MODE == adjusted(
            word,
            BitFlags::MODE,
            BitFlags::OPBITEN,
        ),
        ((word | BitFlags::OPBITEN) & !BitFlags::MODE) | BitFlags::DIV2 == adjusted(
            word,
            BitFlags::OPBITEN | BitFlags::DIV2,
            BitFlags::MODE,
        ),
        ((word | BitFlags::OPBITEN) & !BitFlags::MODE) & !BitFlags::DIV2 == adjusted(
            word,
            BitFlags::OPBITEN,
            BitFlags::MODE | BitFlags::DIV2,
        ),
{
}

} // verus!
