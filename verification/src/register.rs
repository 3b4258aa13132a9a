//! The control register: its flags, and how control words are composed.

use crate::{
    ControlSource, FrequencyRegister, OutputWaveform, PhaseRegister, PoweredDown, SignBitOutput,
};
use vstd::prelude::*;

verus! {

/// The flags of the control register and the tags of the data words, each at
/// the position at which it is transmitted.
pub struct BitFlags;

impl BitFlags {
    /// Second frequency register address, and upper phase marker.
    pub const D15: u16 = 0x8000;
    /// First frequency register address, and lower phase marker.
    pub const D14: u16 = 0x4000;
    /// Second phase register tag on a phase word.
    pub const D13: u16 = 0x2000;
    /// Both halves of a frequency are loaded by two consecutive writes.
    pub const B28: u16 = 0x2000;
    /// A lone frequency write carries the upper half.
    pub const HLB: u16 = 0x1000;
    /// The second frequency register drives the output.
    pub const FSELECT: u16 = 0x0800;
    /// The second phase register drives the output.
    pub const PSELECT: u16 = 0x0400;
    /// Hardware pins, not these flags, control the chip.
    pub const PIN_SW: u16 = 0x0200;
    /// Internal registers are held in reset.
    pub const RESET: u16 = 0x0100;
    /// The internal clock is stopped.
    pub const SLEEP_MCLK: u16 = 0x0080;
    /// The converter is powered down.
    pub const SLEEP_DAC: u16 = 0x0040;
    /// The digital output is enabled.
    pub const OPBITEN: u16 = 0x0020;
    /// The comparator feeds the digital output.
    pub const SIGN_PIB: u16 = 0x0010;
    /// The digital output is not divided by two.
    pub const DIV2: u16 = 0x0008;
    /// The converter bypasses the sine table.
    pub const MODE: u16 = 0x0002;
    /// The bits of a word that carry a control word or a data payload.
    pub const PAYLOAD: u16 = 0x3FFF;
}

/// A value of the control register.
#[derive(Debug, Default, Clone, Copy, PartialEq, Eq, Structural)]
pub struct Config {
    /// The register's sixteen bits.
    pub bits: u16,
}

impl Config {
    /// This word with every flag of `mask` raised.
    pub fn with_high(self, mask: u16) -> (word: Config)
        ensures
            word.bits == self.bits | mask,
    {
        Config { bits: self.bits | mask }
    }

    /// This word with every flag of `mask` cleared.
    pub fn with_low(self, mask: u16) -> (word: Config)
        ensures
            word.bits == self.bits & !mask,
    {
        Config { bits: self.bits & !mask }
    }
}

/// `word` with the flags of `raised` set and, but for those, the flags of
/// `cleared` reset. Every other flag is as it is in `word`.
pub open spec fn adjusted(word: u16, raised: u16, cleared: u16) -> u16 {
    (word & !cleared) | raised
}

/// The two bytes that carry `word` over the wire, high byte first.
pub open spec fn frame(word: u16) -> Seq<u8> {
    seq![(word >> 8) as u8, (word & 0xFF) as u8]
}

/// The word that two bytes on the wire carry, high byte first.
pub open spec fn word_of(frame: Seq<u8>) -> u16
    recommends
        frame.len() == 2,
{
    ((frame[0] as u16) << 8) | (frame[1] as u16)
}

impl FrequencyRegister {
    /// The tag that addresses a data word to this register.
    pub open spec fn address(self) -> u16 {
        match self {
            FrequencyRegister::F0 => BitFlags::D14,
            FrequencyRegister::F1 => BitFlags::D15,
        }
    }

    /// The flags that make this register drive the output.
    pub open spec fn raised(self) -> u16 {
        match self {
            FrequencyRegister::F0 => 0,
            FrequencyRegister::F1 => BitFlags::FSELECT,
        }
    }

    /// The flags that must be down for this register to drive the output.
    pub open spec fn cleared(self) -> u16 {
        match self {
            FrequencyRegister::F0 => BitFlags::FSELECT,
            FrequencyRegister::F1 => 0,
        }
    }

    /// The data word that loads the lower fourteen bits of `value`.
    pub open spec fn low_word(self, value: u32) -> u16 {
        self.address() | (value & 0x3FFF) as u16
    }

    /// The data word that loads the bits of `value` above the lower fourteen.
    pub open spec fn high_word(self, value: u32) -> u16 {
        self.address() | (value >> 14) as u16
    }

    /// The data word that loads `value` as one half of a frequency.
    pub open spec fn half_word(self, value: u16) -> u16 {
        self.address() | value
    }
}

impl PhaseRegister {
    /// The tag that addresses a phase word to this register.
    pub open spec fn address(self) -> u16 {
        match self {
            PhaseRegister::P0 => 0,
            PhaseRegister::P1 => BitFlags::D13,
        }
    }

    /// The flags that make this register drive the output.
    pub open spec fn raised(self) -> u16 {
        match self {
            PhaseRegister::P0 => 0,
            PhaseRegister::P1 => BitFlags::PSELECT,
        }
    }

    /// The flags that must be down for this register to drive the output.
    pub open spec fn cleared(self) -> u16 {
        match self {
            PhaseRegister::P0 => BitFlags::PSELECT,
            PhaseRegister::P1 => 0,
        }
    }

    /// The data word that loads `value` into this register.
    pub open spec fn word(self, value: u16) -> u16 {
        BitFlags::D15 | BitFlags::D14 | self.address() | value
    }
}

impl OutputWaveform {
    /// Whether the waveform is a square wave tapped from the converter.
    pub open spec fn is_square(self) -> bool {
        self == OutputWaveform::SquareMsbOfDac || self == OutputWaveform::SquareMsbOfDacDiv2
    }

    /// The flags that select this waveform.
    pub open spec fn raised(self) -> u16 {
        match self {
            OutputWaveform::Sinusoidal => 0,
            OutputWaveform::Triangle => BitFlags::MODE,
            OutputWaveform::SquareMsbOfDac => BitFlags::OPBITEN | BitFlags::DIV2,
            OutputWaveform::SquareMsbOfDacDiv2 => BitFlags::OPBITEN,
        }
    }

    /// The flags that must be down for this waveform.
    pub open spec fn cleared(self) -> u16 {
        match self {
            OutputWaveform::Sinusoidal => BitFlags::OPBITEN | BitFlags::MODE,
            OutputWaveform::Triangle => BitFlags::OPBITEN,
            OutputWaveform::SquareMsbOfDac => BitFlags::MODE,
            OutputWaveform::SquareMsbOfDacDiv2 => BitFlags::MODE | BitFlags::DIV2,
        }
    }
}

impl SignBitOutput {
    /// The flags that select this digital output.
    pub open spec fn raised(self) -> u16 {
        match self {
            SignBitOutput::Disabled => 0,
            SignBitOutput::Comparator => BitFlags::OPBITEN | BitFlags::SIGN_PIB | BitFlags::DIV2,
            SignBitOutput::SquareMsbOfDac => BitFlags::OPBITEN | BitFlags::DIV2,
            SignBitOutput::SquareMsbOfDacDiv2 => BitFlags::OPBITEN,
        }
    }

    /// The flags that must be down for this digital output.
    pub open spec fn cleared(self) -> u16 {
        match self {
            SignBitOutput::Disabled => BitFlags::OPBITEN,
            SignBitOutput::Comparator => BitFlags::MODE,
            SignBitOutput::SquareMsbOfDac => BitFlags::MODE | BitFlags::SIGN_PIB,
            SignBitOutput::SquareMsbOfDacDiv2 => BitFlags::MODE | BitFlags::SIGN_PIB
                | BitFlags::DIV2,
        }
    }
}

impl PoweredDown {
    /// The flags that power these parts down.
    pub open spec fn raised(self) -> u16 {
        match self {
            PoweredDown::Nothing => 0,
            PoweredDown::Dac => BitFlags::SLEEP_DAC,
            PoweredDown::InternalClock => BitFlags::SLEEP_MCLK,
            PoweredDown::DacAndInternalClock => BitFlags::SLEEP_MCLK | BitFlags::SLEEP_DAC,
        }
    }

    /// The flags that must be down for the other parts to run.
    pub open spec fn cleared(self) -> u16 {
        match self {
            PoweredDown::Nothing => BitFlags::SLEEP_MCLK | BitFlags::SLEEP_DAC,
            PoweredDown::Dac => BitFlags::SLEEP_MCLK,
            PoweredDown::InternalClock => BitFlags::SLEEP_DAC,
            PoweredDown::DacAndInternalClock => 0,
        }
    }
}

impl ControlSource {
    /// The flags that select this control source.
    pub open spec fn raised(self) -> u16 {
        match self {
            ControlSource::Software => 0,
            ControlSource::HardwarePins => BitFlags::PIN_SW,
        }
    }

    /// The flags that must be down for this control source.
    pub open spec fn cleared(self) -> u16 {
        match self {
            ControlSource::Software => BitFlags::PIN_SW,
            ControlSource::HardwarePins => 0,
        }
    }
}

/// An adjustment sets every flag that it raises, resets every flag that it
/// clears and does not raise, and leaves every other flag of the word as it
/// was: no flag is lost to a request that does not own it.
pub proof fn lemma_adjusted_flags(word: u16, raised: u16, cleared: u16)
    by (bit_vector)
    ensures
        adjusted(word, raised, cleared) & raised == raised,
        adjusted(word, raised, cleared) & (cleared & !raised) == 0,
        adjusted(word, raised, cleared) & !(raised | cleared) == word & !(raised | cleared),
{
}

/// Adjusting a word a second time in the same way changes nothing.
pub proof fn lemma_adjusted_twice(word: u16, raised: u16, cleared: u16)
    by (bit_vector)
    ensures
        adjusted(adjusted(word, raised, cleared), raised, cleared) == adjusted(
            word,
            raised,
            cleared,
        ),
{
}

/// Raising one mask and clearing another that shares no flag with it give
/// the same word in either order, and that word is the adjustment by both.
pub proof fn lemma_raise_and_clear_commute(word: u16, raised: u16, cleared: u16)
    by (bit_vector)
    requires
        raised & cleared == 0,
    ensures
        (word | raised) & !cleared == (word & !cleared) | raised,
        (word | raised) & !cleared == adjusted(word, raised, cleared),
{
}

/// Raising two masks one after the other raises their union, in either
/// order; and so for clearing.
pub proof fn lemma_masks_combine(word: u16, one: u16, other: u16)
    by (bit_vector)
    ensures
        (word | one) | other == word | (one | other),
        (word | one) | other == (word | other) | one,
        (word & !one) & !other == word & !(one | other),
        (word & !one) & !other == (word & !other) & !one,
{
}

/// The payload of a word lies in its lower fourteen bits: the two address
/// bits of what is transmitted for a control word are always down.
pub proof fn lemma_payload_has_no_address(word: u16)
    by (bit_vector)
    ensures
        word & BitFlags::PAYLOAD <= 0x3FFF,
        (word & BitFlags::PAYLOAD) & (BitFlags::D15 | BitFlags::D14) == 0,
        (word & BitFlags::PAYLOAD) & BitFlags::PAYLOAD == word & BitFlags::PAYLOAD,
{
}

/// A word goes over the wire as two bytes, and the word that they carry is
/// that word again.
pub proof fn lemma_frame_carries_word(word: u16)
    ensures
        frame(word).len() == 2,
        word_of(frame(word)) == word,
{
    let high = (word >> 8) as u8;
    let low = (word & 0xFF) as u8;
    assert(((high as u16) << 8) | (low as u16) == word) by (bit_vector)
        requires
            high == (word >> 8) as u8,
            low == (word & 0xFF) as u8,
    ;
}

/// The two data words of a frequency below 2^28 are both addressed to the
/// register, the first carries the lower fourteen bits of the value and the
/// second the upper fourteen, and the two payloads put together are the
/// value, bit for bit.
pub proof fn lemma_frequency_words(register: FrequencyRegister, value: u32)
    requires
        value < 0x1000_0000,
    ensures
        register.low_word(value) & !BitFlags::PAYLOAD == register.address(),
        register.high_word(value) & !BitFlags::PAYLOAD == register.address(),
        (register.low_word(value) & BitFlags::PAYLOAD) as u32 == value & 0x3FFF,
        (register.high_word(value) & BitFlags::PAYLOAD) as u32 == value >> 14,
        ((register.high_word(value) & BitFlags::PAYLOAD) as u32) << 14 | (register.low_word(value)
            & BitFlags::PAYLOAD) as u32 == value,
{
    let tag = register.address();
    let low = (value & 0x3FFF) as u16;
    let high = (value >> 14) as u16;
    assert(tag == 0x4000 || tag == 0x8000);
    assert({
        &&& (tag | low) & !0x3FFFu16 == tag
        &&& (tag | high) & !0x3FFFu16 == tag
        &&& ((tag | low) & 0x3FFF) as u32 == value & 0x3FFF
        &&& ((tag | high) & 0x3FFF) as u32 == value >> 14
        &&& (((tag | high) & 0x3FFF) as u32) << 14 | ((tag | low) & 0x3FFF) as u32 == value
    }) by (bit_vector)
        requires
            tag == 0x4000 || tag == 0x8000,
            low == (value & 0x3FFF) as u16,
            high == (value >> 14) as u16,
            value < 0x1000_0000,
    ;
}

/// The data word of one half of a frequency, for a value below 2^14, is
/// addressed to the register and carries the value.
pub proof fn lemma_half_word(register: FrequencyRegister, value: u16)
    requires
        value < 0x4000,
    ensures
        register.half_word(value) & !BitFlags::PAYLOAD == register.address(),
        register.half_word(value) & BitFlags::PAYLOAD == value,
{
    let tag = register.address();
    assert(tag == 0x4000 || tag == 0x8000);
    assert((tag | value) & !0x3FFFu16 == tag && (tag | value) & 0x3FFF == value) by (bit_vector)
        requires
            tag == 0x4000 || tag == 0x8000,
            value < 0x4000,
    ;
}

/// The data word of a phase below 2^12 has its two highest bits set, its
/// third highest set for the second phase register and for no other, its
/// fourth highest down, and the phase in the lower twelve.
pub proof fn lemma_phase_word(register: PhaseRegister, value: u16)
    requires
        value < 0x1000,
    ensures
        register.word(value) & BitFlags::D15 == BitFlags::D15,
        register.word(value) & BitFlags::D14 == BitFlags::D14,
        register.word(value) & BitFlags::D13 == BitFlags::D13 <==> register == PhaseRegister::P1,
        register.word(value) & 0x1000 == 0,
        register.word(value) & 0x0FFF == value,
{
    let tag = register.address();
    assert(tag == 0 || tag == 0x2000);
    assert({
        &&& (0x8000u16 | 0x4000 | tag | value) & 0x8000 == 0x8000
        &&& (0x8000u16 | 0x4000 | tag | value) & 0x4000 == 0x4000
        &&& (0x8000u16 | 0x4000 | tag | value) & 0x2000 == tag
        &&& (0x8000u16 | 0x4000 | tag | value) & 0x1000 == 0
        &&& (0x8000u16 | 0x4000 | tag | value) & 0x0FFF == value
    }) by (bit_vector)
        requires
            tag == 0 || tag == 0x2000,
            value < 0x1000,
    ;
}

} // verus!
