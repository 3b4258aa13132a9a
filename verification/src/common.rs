//! What both device families share.

use crate::register::{adjusted, frame, lemma_adjusted_twice};
use crate::{
    Ad983x, BitFlags, Config, Error, FrequencyRegister, Link, PhaseRegister, PoweredDown,
};
use core::marker::PhantomData;
use embedded_hal::spi::{ErrorKind, SpiDevice};
use vstd::prelude::*;

verus! {

/// The buffers that carry `words` over the wire, one for each word.
pub open spec fn frames(words: Seq<u16>) -> Seq<Seq<u8>> {
    words.map_values(|word: u16| frame(word))
}

/// The control word that a setter writes to bring the chip to `wanted` while
/// the driver holds `cached`: none where a control word has gone out before,
/// so that the chip is known to hold `cached`, and `wanted` is that same word.
/// While no control word has gone out, a setter writes its word whatever it
/// is.
pub open spec fn control_word(settled: bool, cached: u16, wanted: u16) -> Option<u16> {
    if settled && wanted == cached {
        None
    } else {
        Some(wanted)
    }
}

/// The control word that has to be written before a frequency write can go
/// out under `wanted` while the driver holds `cached`: none where the two are
/// the same word.
pub open spec fn mode_word(cached: u16, wanted: u16) -> Option<u16> {
    if wanted != cached {
        Some(wanted)
    } else {
        None
    }
}

/// The words of one operation in the order in which they are written: the
/// payload of the control word, where the operation writes one, and then the
/// data words.
pub open spec fn words(control: Option<u16>, data: Seq<u16>) -> Seq<u16> {
    match control {
        Some(word) => seq![word & BitFlags::PAYLOAD] + data,
        None => data,
    }
}

impl<DEV, IC> Ad983x<DEV, IC> {
    /// The transport that the driver owns.
    pub open(crate) spec fn transport(&self) -> DEV {
        self.link.device()
    }

    /// The control register as the driver last wrote it, or as the chip
    /// powers up where the driver has written none yet.
    pub open(crate) spec fn control(&self) -> u16 {
        self.control.bits
    }

    /// Whether the transport has accepted a control word from the driver, so
    /// that the chip is known to hold what `control` says.
    pub open(crate) spec fn settled(&self) -> bool {
        self.settled
    }

    /// Every buffer that the transport has accepted from the driver, oldest
    /// first.
    pub open(crate) spec fn written(&self) -> Seq<Seq<u8>> {
        self.link.accepted()
    }

    /// Every buffer that the transport has refused to take from the driver,
    /// with the kind of failure that it reported, oldest first.
    pub open(crate) spec fn refused(&self) -> Seq<(Seq<u8>, ErrorKind)> {
        self.link.refused()
    }

    /// How many buffers the driver has handed to the transport: each of them
    /// was either accepted or refused.
    pub open spec fn attempts(&self) -> nat {
        self.written().len() + self.refused().len()
    }

    /// What an operation leaves behind that set out to write `control`, if
    /// any, and then `data`, and that stops at the first write that the
    /// transport refuses.
    ///
    /// The buffers that the transport has accepted are the first of the plan,
    /// in order, and no other. On success they are all of the plan, and the
    /// transport has refused nothing. On a failure the transport has refused
    /// one buffer, the next of the plan, nothing was handed to it after that,
    /// and the failure reported is the one that the transport gave. The driver
    /// holds `control` as the chip's control register if that word has gone
    /// out, and what it held before if not. Where there was nothing to write,
    /// the transport is as it was. An operation that was carried out is never
    /// reported as an invalid argument.
    pub open spec fn carried_out(
        &self,
        after: &Self,
        outcome: Result<(), Error<ErrorKind>>,
        control: Option<u16>,
        data: Seq<u16>,
    ) -> bool {
        let plan = words(control, data);
        let accepted = after.written().len() - self.written().len();
        &&& 0 <= accepted <= plan.len()
        &&& after.written() == self.written() + frames(plan.take(accepted))
        &&& match outcome {
            Ok(()) => accepted == plan.len() && after.refused() == self.refused(),
            Err(Error::Spi(kind)) => accepted < plan.len() && after.refused()
                == self.refused().push((frame(plan[accepted]), kind)),
            Err(Error::InvalidArgument) => false,
        }
        &&& if control is Some && accepted >= 1 {
            after.control() == control.unwrap() && after.settled()
        } else {
            after.control() == self.control() && after.settled() == self.settled()
        }
        &&& plan.len() == 0 ==> after.transport() == self.transport()
    }

    /// What a request leaves behind that the driver turns down: it is reported
    /// as an invalid argument, nothing has been handed to the transport, and
    /// the driver is as it was.
    pub open spec fn turned_down(
        &self,
        after: &Self,
        outcome: Result<(), Error<ErrorKind>>,
    ) -> bool {
        &&& outcome matches Err(Error::InvalidArgument)
        &&& after.transport() == self.transport()
        &&& after.written() == self.written()
        &&& after.refused() == self.refused()
        &&& after.control() == self.control()
        &&& after.settled() == self.settled()
    }

    pub(crate) fn create(spi: DEV) -> (device: Self)
        ensures
            device.transport() == spi,
            device.control() == BitFlags::RESET,
            !device.settled(),
            device.attempts() == 0,
    {
        Ad983x {
            link: Link::new(spi),
            control: Config { bits: BitFlags::RESET },
            settled: false,
            _ic: PhantomData,
        }
    }

    /// Destroy driver instance, return the transport.
    pub fn destroy(self) -> (spi: DEV)
        ensures
            spi == self.transport(),
    {
        self.link.release()
    }
}

impl<DEV, IC> Ad983x<DEV, IC> {
    /// An operation that went through and was followed by data writes is one
    /// operation that set out to write all of it.
    proof fn lemma_continued(
        &self,
        between: &Self,
        after: &Self,
        outcome: Result<(), Error<ErrorKind>>,
        control: Option<u16>,
        first: Seq<u16>,
        rest: Seq<u16>,
    )
        requires
            self.carried_out(between, Ok(()), control, first),
            between.carried_out(after, outcome, None, rest),
        ensures
            self.carried_out(after, outcome, control, first + rest),
    {
        let head = words(control, first);
        let plan = words(control, first + rest);
        let accepted = after.written().len() - between.written().len();
        assert(plan =~= head + rest);
        assert(head.take(head.len() as int) =~= head);
        assert(plan.take(head.len() + accepted) =~= head + rest.take(accepted));
        assert(frames(head + rest.take(accepted)) =~= frames(head) + frames(rest.take(accepted)));
        assert(self.written() + frames(plan.take(head.len() + accepted)) =~= (self.written()
            + frames(head)) + frames(rest.take(accepted)));
    }

    /// An operation that a refused write has stopped would have stopped there
    /// whatever it had yet to write.
    proof fn lemma_stopped(
        &self,
        after: &Self,
        outcome: Result<(), Error<ErrorKind>>,
        control: Option<u16>,
        first: Seq<u16>,
        rest: Seq<u16>,
    )
        requires
            self.carried_out(after, outcome, control, first),
            outcome is Err,
        ensures
            self.carried_out(after, outcome, control, first + rest),
    {
        let head = words(control, first);
        let plan = words(control, first + rest);
        let accepted = after.written().len() - self.written().len();
        assert(plan =~= head + rest);
        assert(plan.take(accepted) =~= head.take(accepted));
    }
}

impl<DEV, IC> Ad983x<DEV, IC> {
    /// A device to which no operation has been applied hands back on teardown
    /// the transport that it was built around, as it was supplied. (Once the
    /// transport has been written to, what comes back is that transport as
    /// its own `write` has left it.)
    pub proof fn lemma_teardown_returns_transport(&self, supplied: DEV, returned: DEV)
        requires
            self.transport() == supplied,
            returned == self.transport(),
        ensures
            returned == supplied,
    {
    }

    /// An operation that writes one data word and went through has handed the
    /// transport exactly one buffer, the two bytes of that word, and has left
    /// the control register alone.
    pub proof fn lemma_one_data_word(&self, after: &Self, word: u16)
        requires
            self.carried_out(after, Ok(()), None, seq![word]),
        ensures
            after.written() == self.written().push(frame(word)),
            after.control() == self.control(),
    {
        assert(frames(seq![word]) =~= seq![frame(word)]);
        assert(self.written() + seq![frame(word)] =~= self.written().push(frame(word)));
    }

    /// A setter that went through has written its control word, and that word
    /// alone, unless the chip was known to hold it, in which case it has
    /// written nothing. Done again on what it left behind, it writes nothing
    /// and leaves the control register as it is.
    pub proof fn lemma_setter_repeated(
        &self,
        once: &Self,
        twice: &Self,
        raised: u16,
        cleared: u16,
    )
        requires
            self.carried_out(
                once,
                Ok(()),
                control_word(
                    self.settled(),
                    self.control(),
                    adjusted(self.control(), raised, cleared),
                ),
                Seq::empty(),
            ),
            once.carried_out(
                twice,
                Ok(()),
                control_word(
                    once.settled(),
                    once.control(),
                    adjusted(once.control(), raised, cleared),
                ),
                Seq::empty(),
            ),
        ensures
            once.control() == adjusted(self.control(), raised, cleared),
            self.settled() && once.control() == self.control() ==> once.written()
                == self.written(),
            !(self.settled() && once.control() == self.control()) ==> once.written()
                == self.written().push(frame(once.control() & BitFlags::PAYLOAD)),
            twice.control() == once.control(),
            twice.written() == once.written(),
    {
        lemma_adjusted_twice(self.control(), raised, cleared);
        let word = once.control() & BitFlags::PAYLOAD;
        assert(words(Some(once.control()), Seq::empty()) =~= seq![word]);
        assert(seq![word].take(1) =~= seq![word]);
        assert(frames(seq![word]) =~= seq![frame(word)]);
        assert(self.written() + seq![frame(word)] =~= self.written().push(frame(word)));
        assert(frames(Seq::<u16>::empty().take(0)) =~= Seq::<Seq<u8>>::empty());
        assert(self.written() + Seq::<Seq<u8>>::empty() =~= self.written());
        assert(once.written() + Seq::<Seq<u8>>::empty() =~= once.written());
    }

    /// An operation hands the transport one buffer after the other and never
    /// the same one twice: where it went through, as many as it set out to
    /// write; where the transport stopped it, those that were accepted and
    /// the one that was refused, and nothing after that.
    pub proof fn lemma_no_second_attempt(
        &self,
        after: &Self,
        outcome: Result<(), Error<ErrorKind>>,
        control: Option<u16>,
        data: Seq<u16>,
    )
        requires
            self.carried_out(after, outcome, control, data),
        ensures
            outcome is Ok ==> after.attempts() == self.attempts() + words(control, data).len(),
            outcome is Err ==> after.attempts() == self.attempts() + (after.written().len()
                - self.written().len()) + 1,
            after.attempts() <= self.attempts() + words(control, data).len(),
    {
    }

    /// The failure that an operation reports is the one that the transport
    /// gave when it refused a buffer of that operation: the last that the
    /// transport has refused, and the buffer refused is the first of the plan
    /// that was not accepted.
    pub proof fn lemma_failure_is_the_transports(
        &self,
        after: &Self,
        kind: ErrorKind,
        control: Option<u16>,
        data: Seq<u16>,
    )
        requires
            self.carried_out(after, Err(Error::Spi(kind)), control, data),
        ensures
            after.refused().len() == self.refused().len() + 1,
            after.refused().last() == (
                frame(words(control, data)[after.written().len() - self.written().len()]),
                kind,
            ),
    {
    }

    /// A request that was turned down has handed nothing to the transport.
    pub proof fn lemma_turned_down_without_attempt(
        &self,
        after: &Self,
        outcome: Result<(), Error<ErrorKind>>,
    )
        requires
            self.turned_down(after, outcome),
        ensures
            after.attempts() == self.attempts(),
    {
    }

    /// An operation that the transport has stopped at its first write has
    /// tried the transport once and leaves the driver as it was: trying again
    /// sets out to write the same words.
    pub proof fn lemma_refused_at_once(
        &self,
        after: &Self,
        outcome: Result<(), Error<ErrorKind>>,
        control: Option<u16>,
        data: Seq<u16>,
    )
        requires
            self.carried_out(after, outcome, control, data),
            outcome is Err,
            after.written().len() == self.written().len(),
        ensures
            after.written() == self.written(),
            after.attempts() == self.attempts() + 1,
            after.control() == self.control(),
            after.settled() == self.settled(),
    {
        assert(frames(words(control, data).take(0)) =~= Seq::<Seq<u8>>::empty());
        assert(self.written() + Seq::<Seq<u8>>::empty() =~= self.written());
    }

    /// A setter that the transport has stopped has tried it once, with the
    /// payload of its control word, reports the failure that the transport
    /// gave, and leaves the driver as it was.
    pub proof fn lemma_setter_refused(
        &self,
        after: &Self,
        kind: ErrorKind,
        raised: u16,
        cleared: u16,
    )
        requires
            self.carried_out(
                after,
                Err(Error::Spi(kind)),
                control_word(
                    self.settled(),
                    self.control(),
                    adjusted(self.control(), raised, cleared),
                ),
                Seq::empty(),
            ),
        ensures
            after.written() == self.written(),
            after.refused() == self.refused().push(
                (frame(adjusted(self.control(), raised, cleared) & BitFlags::PAYLOAD), kind),
            ),
            after.attempts() == self.attempts() + 1,
            after.control() == self.control(),
            after.settled() == self.settled(),
    {
        let wanted = adjusted(self.control(), raised, cleared);
        let plan = words(control_word(self.settled(), self.control(), wanted), Seq::empty());
        assert(plan.len() <= 1);
        assert(plan =~= seq![wanted & BitFlags::PAYLOAD]);
        assert(frames(plan.take(0)) =~= Seq::<Seq<u8>>::empty());
        assert(self.written() + Seq::<Seq<u8>>::empty() =~= self.written());
    }

    /// A frequency write that went through has written the control word
    /// first, and exactly once, if the chip was not yet in the mode that the
    /// write needs, and has written no control word otherwise. Done again on
    /// what it left behind, it writes its data words and no control word, and
    /// leaves the control register as it is.
    pub proof fn lemma_mode_written_once(
        &self,
        once: &Self,
        twice: &Self,
        raised: u16,
        cleared: u16,
        data: Seq<u16>,
        again: Seq<u16>,
    )
        requires
            self.carried_out(
                once,
                Ok(()),
                mode_word(self.control(), adjusted(self.control(), raised, cleared)),
                data,
            ),
            once.carried_out(
                twice,
                Ok(()),
                mode_word(once.control(), adjusted(once.control(), raised, cleared)),
                again,
            ),
        ensures
            once.control() == adjusted(self.control(), raised, cleared),
            once.control() != self.control() ==> once.written() == self.written() + frames(
                seq![once.control() & BitFlags::PAYLOAD] + data,
            ),
            once.control() == self.control() ==> once.written() == self.written() + frames(data),
            twice.control() == once.control(),
            twice.written() == once.written() + frames(again),
    {
        lemma_adjusted_twice(self.control(), raised, cleared);
    }
}

/// What a write of a whole frequency sets out to write under a control
/// register `control`: where the flag of the 28-bit mode is down, the control
/// word with that flag raised and then the two halves, lower half first; where
/// it is up, the two halves alone.
pub proof fn lemma_frequency_plan(control: u16, register: FrequencyRegister, value: u32)
    ensures
        ({
            let wanted = adjusted(control, BitFlags::B28, 0);
            let plan = words(
                mode_word(control, wanted),
                seq![register.low_word(value), register.high_word(value)],
            );
            &&& wanted & BitFlags::B28 == BitFlags::B28
            &&& (wanted & BitFlags::PAYLOAD) & BitFlags::B28 == BitFlags::B28
            &&& control & BitFlags::B28 == 0 ==> plan == seq![
                wanted & BitFlags::PAYLOAD,
                register.low_word(value),
                register.high_word(value),
            ]
            &&& control & BitFlags::B28 != 0 ==> plan == seq![
                register.low_word(value),
                register.high_word(value),
            ]
        }),
{
    let wanted = adjusted(control, BitFlags::B28, 0);
    assert({
        &&& wanted & 0x2000 == 0x2000
        &&& (wanted & 0x3FFF) & 0x2000 == 0x2000
        &&& control & 0x2000 == 0 ==> wanted != control
        &&& control & 0x2000 != 0 ==> wanted == control
    }) by (bit_vector)
        requires
            wanted == (control & !0u16) | 0x2000,
    ;
    assert(seq![wanted & BitFlags::PAYLOAD] + seq![
        register.low_word(value),
        register.high_word(value),
    ] =~= seq![wanted & BitFlags::PAYLOAD, register.low_word(value), register.high_word(value)]);
}

impl<DEV: SpiDevice, IC> Ad983x<DEV, IC> {
    /// Resets the internal registers and leaves the device disabled.
    ///
    /// Note that this is ignored in AD9834/AD9838 devices if hardware pin
    /// control source is selected.
    pub fn reset(&mut self) -> (outcome: Result<(), Error<ErrorKind>>)
        ensures
            old(self).carried_out(
                final(self),
                outcome,
                control_word(
                    old(self).settled(),
                    old(self).control(),
                    adjusted(old(self).control(), BitFlags::RESET, 0),
                ),
                Seq::empty(),
            ),
    {
        self.disable()
    }

    /// Disable the device (enable reset)
    ///
    /// This resets the internal registers.
    /// Note that this is ignored in AD9834/AD9838 devices if hardware pin
    /// control source is selected.
    pub fn disable(&mut self) -> (outcome: Result<(), Error<ErrorKind>>)
        ensures
            old(self).carried_out(
                final(self),
                outcome,
                control_word(
                    old(self).settled(),
                    old(self).control(),
                    adjusted(old(self).control(), BitFlags::RESET, 0),
                ),
                Seq::empty(),
            ),
    {
        let control = self.control.with_high(BitFlags::RESET);
        proof {
            lemma_raised_alone(self.control.bits, BitFlags::RESET);
        }
        self.update_control(control)
    }

    /// Enable the device (disable reset)
    ///
    /// Note that this is ignored in AD9834/AD9838 devices if hardware pin
    /// control source is selected.
    pub fn enable(&mut self) -> (outcome: Result<(), Error<ErrorKind>>)
        ensures
            old(self).carried_out(
                final(self),
                outcome,
                control_word(
                    old(self).settled(),
                    old(self).control(),
                    adjusted(old(self).control(), 0, BitFlags::RESET),
                ),
                Seq::empty(),
            ),
    {
        let control = self.control.with_low(BitFlags::RESET);
        proof {
            lemma_cleared_alone(self.control.bits, BitFlags::RESET);
        }
        self.update_control(control)
    }

    /// Tells whether `value` fits in the lowest `bit_count` bits.
    fn check_value_fits(value: u32, bit_count: u32) -> (outcome: Result<
        (),
        Error<ErrorKind>,
    >)
        requires
            bit_count < 32,
        ensures
            value < (1u32 << bit_count) ==> outcome is Ok,
            value >= (1u32 << bit_count) ==> outcome matches Err(Error::InvalidArgument),
    {
        if value >= (1u32 << bit_count) {
            Err(Error::InvalidArgument)
        } else {
            Ok(())
        }
    }

    /// Set the frequency as a 28-bit word
    ///
    /// This will change the mode to 28-bit if it is not used.
    /// Returns `Error::InvalidArgument` if providing a value that does not fit in 28 bits.
    pub fn set_frequency(&mut self, register: FrequencyRegister, value: u32) -> (outcome: Result<
        (),
        Error<ErrorKind>,
    >)
        ensures
            value >= 0x1000_0000 ==> old(self).turned_down(final(self), outcome),
            value < 0x1000_0000 ==> old(self).carried_out(
                final(self),
                outcome,
                mode_word(old(self).control(), adjusted(old(self).control(), BitFlags::B28, 0)),
                seq![register.low_word(value), register.high_word(value)],
            ),
    {
        assert(1u32 << 28 == 0x1000_0000) by (bit_vector);
        Self::check_value_fits(value, 28)?;
        let control = self.control.with_high(BitFlags::B28);
        let ghost wanted = mode_word(self.control.bits, control.bits);
        let ghost low = register.low_word(value);
        let ghost high = register.high_word(value);
        proof {
            lemma_raised_alone(self.control.bits, BitFlags::B28);
            assert(Seq::<u16>::empty() + seq![low] =~= seq![low]);
            assert(seq![low] + seq![high] =~= seq![low, high]);
        }
        let setup = self.write_control_if_different(control);
        let ghost ready = *self;
        if setup.is_err() {
            proof {
                old(self).lemma_stopped(&ready, setup, wanted, Seq::empty(), seq![low, high]);
                assert(Seq::<u16>::empty() + seq![low, high] =~= seq![low, high]);
            }
            return setup;
        }
        let lsb = value & 0x3FFF;
        let msb = value >> 14;
        assert(lsb <= 0x3FFF) by (bit_vector)
            requires
                lsb == value & 0x3FFF,
        ;
        assert(msb <= 0x3FFF) by (bit_vector)
            requires
                msb == value >> 14,
                value < 0x1000_0000,
        ;
        let reg = Self::get_freq_register_bits(register);
        let first = self.write(reg | lsb as u16);
        let ghost halfway = *self;
        proof {
            old(self).lemma_continued(&ready, &halfway, first, wanted, Seq::empty(), seq![low]);
        }
        if first.is_err() {
            proof {
                old(self).lemma_stopped(&halfway, first, wanted, seq![low], seq![high]);
            }
            return first;
        }
        let second = self.write(reg | msb as u16);
        proof {
            old(self).lemma_continued(&halfway, &*self, second, wanted, seq![low], seq![high]);
        }
        second
    }

    /// Set the frequency 14-bit MSBs
    ///
    /// This will deactivate the 28-bit mode if it is not already the case.
    /// Returns `Error::InvalidArgument` if providing a value that does not fit in 14 bits.
    pub fn set_frequency_msb(&mut self, register: FrequencyRegister, value: u16) -> (outcome:
        Result<(), Error<ErrorKind>>)
        ensures
            value >= 0x4000 ==> old(self).turned_down(final(self), outcome),
            value < 0x4000 ==> old(self).carried_out(
                final(self),
                outcome,
                mode_word(
                    old(self).control(),
                    adjusted(old(self).control(), BitFlags::HLB, BitFlags::B28),
                ),
                seq![register.half_word(value)],
            ),
    {
        assert(1u32 << 14 == 0x4000) by (bit_vector);
        Self::check_value_fits(value as u32, 14)?;
        let control = self.control.with_low(BitFlags::B28).with_high(BitFlags::HLB);
        self.write_half(control, register, value)
    }

    /// Set the frequency 14-bit LSBs
    ///
    /// This will deactivate the 28-bit mode if it is not already the case.
    /// Returns `Error::InvalidArgument` if providing a value that does not fit in 14 bits.
    pub fn set_frequency_lsb(&mut self, register: FrequencyRegister, value: u16) -> (outcome:
        Result<(), Error<ErrorKind>>)
        ensures
            value >= 0x4000 ==> old(self).turned_down(final(self), outcome),
            value < 0x4000 ==> old(self).carried_out(
                final(self),
                outcome,
                mode_word(
                    old(self).control(),
                    adjusted(old(self).control(), 0, BitFlags::B28 | BitFlags::HLB),
                ),
                seq![register.half_word(value)],
            ),
    {
        assert(1u32 << 14 == 0x4000) by (bit_vector);
        Self::check_value_fits(value as u32, 14)?;
        let control = self.control.with_low(BitFlags::B28).with_low(BitFlags::HLB);
        proof {
            lemma_half_word_flags(self.control.bits);
        }
        self.write_half(control, register, value)
    }

    /// Brings the chip under `control`, unless it is there already, and then
    /// loads `value` as one half of the frequency in `register`.
    fn write_half(&mut self, control: Config, register: FrequencyRegister, value: u16) -> (outcome:
        Result<(), Error<ErrorKind>>)
        ensures
            old(self).carried_out(
                final(self),
                outcome,
                mode_word(old(self).control(), control.bits),
                seq![register.half_word(value)],
            ),
    {
        let ghost wanted = mode_word(self.control.bits, control.bits);
        let ghost half = register.half_word(value);
        proof {
            assert(Seq::<u16>::empty() + seq![half] =~= seq![half]);
        }
        let setup = self.write_control_if_different(control);
        let ghost ready = *self;
        if setup.is_err() {
            proof {
                old(self).lemma_stopped(&ready, setup, wanted, Seq::empty(), seq![half]);
            }
            return setup;
        }
        let reg = Self::get_freq_register_bits(register);
        let outcome = self.write(reg | value);
        proof {
            old(self).lemma_continued(&ready, &*self, outcome, wanted, Seq::empty(), seq![half]);
        }
        outcome
    }

    /// Select the frequency register that is used
    ///
    /// Note: this can be overriden through the FSELECT pin in AD9834/AD9838
    /// devices if hardware pin control source is selected.
    pub fn select_frequency(&mut self, register: FrequencyRegister) -> (outcome: Result<
        (),
        Error<ErrorKind>,
    >)
        ensures
            old(self).carried_out(
                final(self),
                outcome,
                control_word(
                    old(self).settled(),
                    old(self).control(),
                    adjusted(old(self).control(), register.raised(), register.cleared()),
                ),
                Seq::empty(),
            ),
    {
        let control = match register {
            FrequencyRegister::F0 => self.control.with_low(BitFlags::FSELECT),
            FrequencyRegister::F1 => self.control.with_high(BitFlags::FSELECT),
        };
        proof {
            lemma_raised_alone(self.control.bits, BitFlags::FSELECT);
            lemma_cleared_alone(self.control.bits, BitFlags::FSELECT);
        }
        self.update_control(control)
    }

    /// Set a phase register (12-bit value)
    ///
    /// Returns `Error::InvalidArgument` if providing a value that does not fit in 12 bits.
    pub fn set_phase(&mut self, register: PhaseRegister, value: u16) -> (outcome: Result<
        (),
        Error<ErrorKind>,
    >)
        ensures
            value >= 0x1000 ==> old(self).turned_down(final(self), outcome),
            value < 0x1000 ==> old(self).carried_out(
                final(self),
                outcome,
                None,
                seq![register.word(value)],
            ),
    {
        assert(1u32 << 12 == 0x1000) by (bit_vector);
        Self::check_value_fits(value as u32, 12)?;
        let marked = value | BitFlags::D14 | BitFlags::D15;
        let payload = match register {
            PhaseRegister::P0 => marked,
            PhaseRegister::P1 => marked | BitFlags::D13,
        };
        proof {
            lemma_phase_word_flags(value);
        }
        self.write(payload)
    }

    /// Select the phase register that is used.
    ///
    /// Note: this can be overriden through the PSELECT pin in AD9834/AD9838
    /// devices if hardware pin control source is selected.
    pub fn select_phase(&mut self, register: PhaseRegister) -> (outcome: Result<
        (),
        Error<ErrorKind>,
    >)
        ensures
            old(self).carried_out(
                final(self),
                outcome,
                control_word(
                    old(self).settled(),
                    old(self).control(),
                    adjusted(old(self).control(), register.raised(), register.cleared()),
                ),
                Seq::empty(),
            ),
    {
        let control = match register {
            PhaseRegister::P0 => self.control.with_low(BitFlags::PSELECT),
            PhaseRegister::P1 => self.control.with_high(BitFlags::PSELECT),
        };
        proof {
            lemma_raised_alone(self.control.bits, BitFlags::PSELECT);
            lemma_cleared_alone(self.control.bits, BitFlags::PSELECT);
        }
        self.update_control(control)
    }

    /// Set device parts powered-down state.
    ///
    /// Note: This can be overriden through the SLEEP pin
    /// in AD9834/AD9838 devices if hardware pin control source is selected.
    pub fn set_powered_down(&mut self, config: PoweredDown) -> (outcome: Result<
        (),
        Error<ErrorKind>,
    >)
        ensures
            old(self).carried_out(
                final(self),
                outcome,
                control_word(
                    old(self).settled(),
                    old(self).control(),
                    adjusted(old(self).control(), config.raised(), config.cleared()),
                ),
                Seq::empty(),
            ),
    {
        let control = match config {
            PoweredDown::Nothing => self.control.with_low(BitFlags::SLEEP_MCLK).with_low(
                BitFlags::SLEEP_DAC,
            ),
            PoweredDown::Dac => self.control.with_low(BitFlags::SLEEP_MCLK).with_high(
                BitFlags::SLEEP_DAC,
            ),
            PoweredDown::InternalClock => self.control.with_high(BitFlags::SLEEP_MCLK).with_low(
                BitFlags::SLEEP_DAC,
            ),
            PoweredDown::DacAndInternalClock => self.control.with_high(
                BitFlags::SLEEP_MCLK,
            ).with_high(BitFlags::SLEEP_DAC),
        };
        proof {
            lemma_powered_down_flags(self.control.bits);
        }
        self.update_control(control)
    }

    /// The tag that addresses a data word to a frequency register.
    fn get_freq_register_bits(register: FrequencyRegister) -> (tag: u16)
        ensures
            tag == register.address(),
    {
        match register {
            FrequencyRegister::F0 => BitFlags::D14,
            FrequencyRegister::F1 => BitFlags::D15,
        }
    }

    pub(crate) fn write_control_if_different(&mut self, control: Config) -> (outcome: Result<
        (),
        Error<ErrorKind>,
    >)
        ensures
            old(self).carried_out(
                final(self),
                outcome,
                mode_word(old(self).control(), control.bits),
                Seq::empty(),
            ),
    {
        if control != self.control {
            self.write_control(control)
        } else {
            proof {
                assert(self.written() + frames(Seq::<u16>::empty()) =~= self.written());
            }
            Ok(())
        }
    }

    pub(crate) fn write(&mut self, payload: u16) -> (outcome: Result<(), Error<ErrorKind>>)
        ensures
            old(self).carried_out(final(self), outcome, None, seq![payload]),
    {
        assert((payload >> 8) <= 0xFF && (payload & 0xFF) <= 0xFF) by (bit_vector);
        let buffer: [u8; 2] = [(payload >> 8) as u8, (payload & 0xFF) as u8];
        proof {
            assert(buffer@ =~= frame(payload));
            assert(seq![payload].take(1) =~= seq![payload]);
            assert(frames(seq![payload]) =~= seq![frame(payload)]);
            assert(self.written().push(frame(payload)) =~= self.written() + seq![frame(payload)]);
            assert(frames(seq![payload].take(0)) =~= Seq::<Seq<u8>>::empty());
            assert(self.written() + Seq::<Seq<u8>>::empty() =~= self.written());
        }
        let answer = self.link.send(&buffer);
        Error::reported(answer)
    }

    pub(crate) fn write_control(&mut self, control: Config) -> (outcome: Result<
        (),
        Error<ErrorKind>,
    >)
        ensures
            old(self).carried_out(final(self), outcome, Some(control.bits), Seq::empty()),
    {
        let payload = control.bits & 0b0011_1111_1111_1111;
        proof {
            assert(words(Some(control.bits), Seq::empty()) =~= seq![payload]);
        }
        self.write(payload)?;
        self.control = control;
        self.settled = true;
        Ok(())
    }

    /// Brings the chip under `control`, unless it is known to be there
    /// already.
    pub(crate) fn update_control(&mut self, control: Config) -> (outcome: Result<
        (),
        Error<ErrorKind>,
    >)
        ensures
            old(self).carried_out(
                final(self),
                outcome,
                control_word(old(self).settled(), old(self).control(), control.bits),
                Seq::empty(),
            ),
    {
        if self.settled {
            self.write_control_if_different(control)
        } else {
            self.write_control(control)
        }
    }
}

/// Clearing the two flags of the frequency modes one after the other clears
/// both and touches no other.
proof fn lemma_half_word_flags(word: u16)
    by (bit_vector)
    ensures
        (word & !BitFlags::B28) & !BitFlags::HLB == adjusted(
            word,
            0,
            BitFlags::B28 | BitFlags::HLB,
        ),
{
}

/// The order in which the markers and the tag of a phase word are put on it
/// does not matter.
proof fn lemma_phase_word_flags(value: u16)
    by (bit_vector)
    ensures
        (value | BitFlags::D14) | BitFlags::D15 == ((BitFlags::D15 | BitFlags::D14) | 0) | value,
        ((value | BitFlags::D14) | BitFlags::D15) | BitFlags::D13 == ((BitFlags::D15
            | BitFlags::D14) | BitFlags::D13) | value,
{
}

/// Setting the two power-down flags one after the other gives the word that
/// each state of the device's parts stands for.
proof fn lemma_powered_down_flags(word: u16)
    by (bit_vector)
    ensures
        (word & !BitFlags::SLEEP_MCLK) & !BitFlags::SLEEP_DAC == adjusted(
            word,
            0,
            BitFlags::SLEEP_MCLK | BitFlags::SLEEP_DAC,
        ),
        (word & !BitFlags::SLEEP_MCLK) | BitFlags::SLEEP_DAC == adjusted(
            word,
            BitFlags::SLEEP_DAC,
            BitFlags::SLEEP_MCLK,
        ),
        (word | BitFlags::SLEEP_MCLK) & !BitFlags::SLEEP_DAC == adjusted(
            word,
            BitFlags::SLEEP_MCLK,
            BitFlags::SLEEP_DAC,
        ),
        (word | BitFlags::SLEEP_MCLK) | BitFlags::SLEEP_DAC == adjusted(
            word,
            BitFlags::SLEEP_MCLK | BitFlags::SLEEP_DAC,
            0,
        ),
{
}

/// Raising flags and clearing none is a bitwise or.
proof fn lemma_raised_alone(word: u16, mask: u16)
    by (bit_vector)
    ensures
        adjusted(word, mask, 0) == word | mask,
{
}

/// Clearing flags and raising none is a bitwise and with the complement.
proof fn lemma_cleared_alone(word: u16, mask: u16)
    by (bit_vector)
    ensures
        adjusted(word, 0, mask) == word & !mask,
{
}

} // verus!
