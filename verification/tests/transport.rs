use ad983x::{
    marker, Ad983x, ControlSource, Error, FrequencyRegister, OutputWaveform, PhaseRegister,
    PoweredDown, SignBitOutput,
};
use embedded_hal::spi::{Error as SpiError, ErrorKind, ErrorType, Operation, SpiDevice};

#[derive(Debug, Clone, Copy, PartialEq)]
enum Fault {
    Overrun,
    Select,
}

impl SpiError for Fault {
    fn kind(&self) -> ErrorKind {
        match self {
            Fault::Overrun => ErrorKind::Overrun,
            Fault::Select => ErrorKind::ChipSelectFault,
        }
    }
}

/// A transport that keeps every buffer it accepts and refuses one chosen call.
#[derive(Debug)]
struct Recorder {
    id: u32,
    accepted: Vec<Vec<u8>>,
    calls: usize,
    refuses: Option<usize>,
    fault: Fault,
}

impl Recorder {
    fn new(id: u32) -> Self {
        Recorder {
            id,
            accepted: Vec::new(),
            calls: 0,
            refuses: None,
            fault: Fault::Overrun,
        }
    }

    fn refusing(call: usize, fault: Fault) -> Self {
        Recorder {
            id: 0,
            accepted: Vec::new(),
            calls: 0,
            refuses: Some(call),
            fault,
        }
    }
}

impl ErrorType for Recorder {
    type Error = Fault;
}

impl SpiDevice for Recorder {
    fn transaction(&mut self, operations: &mut [Operation<'_, u8>]) -> Result<(), Fault> {
        let call = self.calls;
        self.calls += 1;
        if self.refuses == Some(call) {
            return Err(self.fault);
        }
        for operation in operations.iter() {
            match operation {
                Operation::Write(buffer) => self.accepted.push(buffer.to_vec()),
                _ => panic!("the driver only ever writes"),
            }
        }
        Ok(())
    }
}

fn is_spi(outcome: Result<(), Error<ErrorKind>>, kind: ErrorKind) -> bool {
    matches!(outcome, Err(Error::Spi(found)) if found == kind)
}

fn is_invalid(outcome: Result<(), Error<ErrorKind>>) -> bool {
    matches!(outcome, Err(Error::InvalidArgument))
}

#[test]
fn destroy_returns_the_transport_of_each_constructor() {
    let dev = Ad983x::new_ad9833(Recorder::new(33));
    let spi = dev.destroy();
    assert_eq!(spi.id, 33);
    assert_eq!(spi.calls, 0);
    let dev = Ad983x::new_ad9837(Recorder::new(37));
    assert_eq!(dev.destroy().id, 37);
    let dev = Ad983x::new_ad9834(Recorder::new(34));
    assert_eq!(dev.destroy().id, 34);
    let dev = Ad983x::new_ad9838(Recorder::new(38));
    let spi = dev.destroy();
    assert_eq!(spi.id, 38);
    assert!(spi.accepted.is_empty());
}

#[test]
fn transport_failure_is_reported_by_its_kind() {
    let mut dev: Ad983x<Recorder, marker::Ad9833Ad9837> =
        Ad983x::new_ad9833(Recorder::refusing(0, Fault::Select));
    assert!(is_spi(dev.enable(), ErrorKind::ChipSelectFault));
    let mut dev: Ad983x<Recorder, marker::Ad9833Ad9837> =
        Ad983x::new_ad9833(Recorder::refusing(0, Fault::Overrun));
    assert!(is_spi(
        dev.set_phase(PhaseRegister::P0, 1),
        ErrorKind::Overrun
    ));
    assert!(dev.destroy().accepted.is_empty());
}

#[test]
fn refused_control_word_is_not_remembered() {
    let mut dev = Ad983x::new_ad9833(Recorder::refusing(0, Fault::Overrun));
    assert!(is_spi(
        dev.select_frequency(FrequencyRegister::F1),
        ErrorKind::Overrun
    ));
    dev.select_phase(PhaseRegister::P1).unwrap();
    let spi = dev.destroy();
    assert_eq!(spi.accepted, vec![vec![0x05, 0x00]]);
}

#[test]
fn refused_low_half_keeps_the_mode_that_went_out() {
    let mut dev = Ad983x::new_ad9833(Recorder::refusing(1, Fault::Overrun));
    assert!(is_spi(
        dev.set_frequency(FrequencyRegister::F0, 0x9AB_CDEF),
        ErrorKind::Overrun
    ));
    dev.set_frequency(FrequencyRegister::F0, 0x9AB_CDEF).unwrap();
    let spi = dev.destroy();
    assert_eq!(
        spi.accepted,
        vec![vec![0x21, 0x00], vec![0x4D, 0xEF], vec![0x66, 0xAF]]
    );
}

#[test]
fn refused_high_half_leaves_the_low_half_written() {
    let mut dev = Ad983x::new_ad9833(Recorder::refusing(2, Fault::Select));
    assert!(is_spi(
        dev.set_frequency(FrequencyRegister::F1, 0x9AB_CDEF),
        ErrorKind::ChipSelectFault
    ));
    let spi = dev.destroy();
    assert_eq!(spi.accepted, vec![vec![0x21, 0x00], vec![0x8D, 0xEF]]);
    assert_eq!(spi.calls, 3);
}

#[test]
fn refused_mode_word_stops_a_half_word_write() {
    let mut dev = Ad983x::new_ad9833(Recorder::refusing(0, Fault::Overrun));
    assert!(is_spi(
        dev.set_frequency_msb(FrequencyRegister::F0, 0xDEF),
        ErrorKind::Overrun
    ));
    dev.set_frequency_msb(FrequencyRegister::F0, 0xDEF).unwrap();
    let spi = dev.destroy();
    assert_eq!(spi.accepted, vec![vec![0x11, 0x00], vec![0x4D, 0xEF]]);
    assert_eq!(spi.calls, 3);
}

#[test]
fn rejected_values_reach_no_transport() {
    let mut dev = Ad983x::new_ad9838(Recorder::new(1));
    assert!(is_invalid(dev.set_frequency(FrequencyRegister::F0, 1 << 28)));
    assert!(is_invalid(dev.set_frequency(FrequencyRegister::F1, u32::MAX)));
    assert!(is_invalid(dev.set_frequency_msb(FrequencyRegister::F0, 1 << 14)));
    assert!(is_invalid(dev.set_frequency_msb(FrequencyRegister::F1, u16::MAX)));
    assert!(is_invalid(dev.set_frequency_lsb(FrequencyRegister::F0, 1 << 14)));
    assert!(is_invalid(dev.set_frequency_lsb(FrequencyRegister::F1, u16::MAX)));
    assert!(is_invalid(dev.set_phase(PhaseRegister::P0, 1 << 12)));
    assert!(is_invalid(dev.set_phase(PhaseRegister::P1, u16::MAX)));
    assert!(is_invalid(dev.set_output_waveform(OutputWaveform::SquareMsbOfDac)));
    assert!(is_invalid(dev.set_output_waveform(OutputWaveform::SquareMsbOfDacDiv2)));
    let spi = dev.destroy();
    assert_eq!(spi.calls, 0);
    assert!(spi.accepted.is_empty());
}

#[test]
fn rejected_value_leaves_the_control_word_as_it_was() {
    let mut dev = Ad983x::new_ad9833(Recorder::new(1));
    assert!(is_invalid(dev.set_frequency_msb(FrequencyRegister::F0, 0x4000)));
    assert!(is_invalid(dev.set_frequency(FrequencyRegister::F0, 0x1000_0000)));
    dev.set_frequency_lsb(FrequencyRegister::F0, 0x3FFF).unwrap();
    let spi = dev.destroy();
    assert_eq!(spi.accepted, vec![vec![0x7F, 0xFF]]);
}

#[test]
fn largest_values_are_accepted() {
    let mut dev = Ad983x::new_ad9833(Recorder::new(1));
    dev.set_frequency(FrequencyRegister::F0, (1 << 28) - 1).unwrap();
    dev.set_frequency(FrequencyRegister::F1, 0).unwrap();
    dev.set_phase(PhaseRegister::P0, 0xFFF).unwrap();
    dev.set_phase(PhaseRegister::P1, 0).unwrap();
    dev.set_frequency_msb(FrequencyRegister::F1, 0x3FFF).unwrap();
    dev.set_frequency_lsb(FrequencyRegister::F0, 0).unwrap();
    let spi = dev.destroy();
    assert_eq!(
        spi.accepted,
        vec![
            vec![0x21, 0x00],
            vec![0x7F, 0xFF],
            vec![0x7F, 0xFF],
            vec![0x80, 0x00],
            vec![0x80, 0x00],
            vec![0xCF, 0xFF],
            vec![0xE0, 0x00],
            vec![0x11, 0x00],
            vec![0xBF, 0xFF],
            vec![0x01, 0x00],
            vec![0x40, 0x00],
        ]
    );
}

#[test]
fn frequency_halves_put_together_give_the_value() {
    let value: u32 = 0x9AB_CDEF;
    let mut dev = Ad983x::new_ad9833(Recorder::new(1));
    dev.set_frequency(FrequencyRegister::F0, value).unwrap();
    let spi = dev.destroy();
    assert_eq!(spi.accepted.len(), 3);
    let low = u32::from(spi.accepted[1][0]) << 8 | u32::from(spi.accepted[1][1]);
    let high = u32::from(spi.accepted[2][0]) << 8 | u32::from(spi.accepted[2][1]);
    assert_eq!(low >> 14, 0b01);
    assert_eq!(high >> 14, 0b01);
    assert_eq!(low & 0x3FFF, value & 0x3FFF);
    assert_eq!(high & 0x3FFF, value >> 14);
    assert_eq!((high & 0x3FFF) << 14 | (low & 0x3FFF), value);
}

#[test]
fn repeated_setter_writes_its_word_once() {
    let mut dev = Ad983x::new_ad9833(Recorder::new(1));
    dev.enable().unwrap();
    dev.enable().unwrap();
    dev.set_powered_down(PoweredDown::Dac).unwrap();
    dev.set_powered_down(PoweredDown::Dac).unwrap();
    dev.select_frequency(FrequencyRegister::F0).unwrap();
    dev.select_phase(PhaseRegister::P0).unwrap();
    dev.set_output_waveform(OutputWaveform::Sinusoidal).unwrap();
    dev.disable().unwrap();
    dev.reset().unwrap();
    let spi = dev.destroy();
    assert_eq!(
        spi.accepted,
        vec![vec![0x00, 0x00], vec![0x00, 0x40], vec![0x01, 0x40]]
    );
    assert_eq!(spi.calls, 3);
}

#[test]
fn first_control_word_goes_out_whatever_it_is() {
    let mut dev = Ad983x::new_ad9838(Recorder::new(1));
    dev.set_control_source(ControlSource::Software).unwrap();
    dev.set_control_source(ControlSource::Software).unwrap();
    dev.set_sign_bit_output(SignBitOutput::Disabled).unwrap();
    let spi = dev.destroy();
    assert_eq!(spi.accepted, vec![vec![0x01, 0x00]]);
}

#[test]
fn half_word_without_mode_change_leaves_the_first_control_word_due() {
    let mut dev = Ad983x::new_ad9833(Recorder::new(1));
    dev.set_frequency_lsb(FrequencyRegister::F0, 0x3FF).unwrap();
    dev.disable().unwrap();
    dev.disable().unwrap();
    let spi = dev.destroy();
    assert_eq!(spi.accepted, vec![vec![0x43, 0xFF], vec![0x01, 0x00]]);
}

#[test]
fn mode_word_of_a_frequency_write_settles_the_control_word() {
    let mut dev = Ad983x::new_ad9833(Recorder::new(1));
    dev.set_frequency_msb(FrequencyRegister::F1, 0x3FF).unwrap();
    dev.disable().unwrap();
    dev.enable().unwrap();
    let spi = dev.destroy();
    assert_eq!(
        spi.accepted,
        vec![vec![0x11, 0x00], vec![0x83, 0xFF], vec![0x10, 0x00]]
    );
}

#[test]
fn refused_first_control_word_is_still_due() {
    let mut dev = Ad983x::new_ad9833(Recorder::refusing(0, Fault::Overrun));
    assert!(is_spi(dev.reset(), ErrorKind::Overrun));
    dev.reset().unwrap();
    dev.reset().unwrap();
    let spi = dev.destroy();
    assert_eq!(spi.accepted, vec![vec![0x01, 0x00]]);
    assert_eq!(spi.calls, 2);
}

#[test]
fn refused_setter_is_written_again_on_retry() {
    let mut dev = Ad983x::new_ad9833(Recorder::refusing(1, Fault::Select));
    dev.reset().unwrap();
    assert!(is_spi(dev.enable(), ErrorKind::ChipSelectFault));
    dev.reset().unwrap();
    dev.enable().unwrap();
    let spi = dev.destroy();
    assert_eq!(spi.accepted, vec![vec![0x01, 0x00], vec![0x00, 0x00]]);
    assert_eq!(spi.calls, 3);
}

#[test]
fn half_word_setters_write_the_mode_once() {
    let mut dev = Ad983x::new_ad9833(Recorder::new(1));
    dev.set_frequency_msb(FrequencyRegister::F0, 0x123).unwrap();
    dev.set_frequency_msb(FrequencyRegister::F0, 0x123).unwrap();
    dev.set_frequency_lsb(FrequencyRegister::F0, 0x456).unwrap();
    dev.set_frequency_lsb(FrequencyRegister::F0, 0x456).unwrap();
    dev.set_frequency(FrequencyRegister::F0, 0x123).unwrap();
    dev.set_frequency_msb(FrequencyRegister::F0, 0x123).unwrap();
    let spi = dev.destroy();
    assert_eq!(
        spi.accepted,
        vec![
            vec![0x11, 0x00],
            vec![0x41, 0x23],
            vec![0x41, 0x23],
            vec![0x01, 0x00],
            vec![0x44, 0x56],
            vec![0x44, 0x56],
            vec![0x21, 0x00],
            vec![0x41, 0x23],
            vec![0x40, 0x00],
            vec![0x11, 0x00],
            vec![0x41, 0x23],
        ]
    );
}

#[test]
fn setters_keep_the_flags_they_do_not_own() {
    let mut dev = Ad983x::new_ad9838(Recorder::new(1));
    dev.set_control_source(ControlSource::HardwarePins).unwrap();
    dev.set_sign_bit_output(SignBitOutput::Comparator).unwrap();
    dev.set_output_waveform(OutputWaveform::Triangle).unwrap();
    dev.select_frequency(FrequencyRegister::F1).unwrap();
    dev.select_phase(PhaseRegister::P1).unwrap();
    dev.set_powered_down(PoweredDown::DacAndInternalClock).unwrap();
    dev.enable().unwrap();
    dev.set_powered_down(PoweredDown::InternalClock).unwrap();
    dev.set_control_source(ControlSource::Software).unwrap();
    dev.select_frequency(FrequencyRegister::F0).unwrap();
    dev.disable().unwrap();
    let spi = dev.destroy();
    assert_eq!(
        spi.accepted,
        vec![
            vec![0x03, 0x00],
            vec![0x03, 0x38],
            vec![0x03, 0x1A],
            vec![0x0B, 0x1A],
            vec![0x0F, 0x1A],
            vec![0x0F, 0xDA],
            vec![0x0E, 0xDA],
            vec![0x0E, 0x9A],
            vec![0x0C, 0x9A],
            vec![0x04, 0x9A],
            vec![0x05, 0x9A],
        ]
    );
}

#[test]
fn phase_words_do_not_touch_the_control_word() {
    let mut dev = Ad983x::new_ad9833(Recorder::new(1));
    dev.set_phase(PhaseRegister::P1, 0xABC).unwrap();
    dev.set_frequency_lsb(FrequencyRegister::F0, 1).unwrap();
    let spi = dev.destroy();
    assert_eq!(spi.accepted, vec![vec![0xEA, 0xBC], vec![0x40, 0x01]]);
}

#[test]
fn reported_hands_the_answer_of_the_transport_on() {
    assert!(matches!(Error::<ErrorKind>::reported(Ok(())), Ok(())));
    assert!(matches!(
        Error::reported(Err(ErrorKind::ModeFault)),
        Err(Error::Spi(ErrorKind::ModeFault))
    ));
    assert!(matches!(Error::reported(Err(7u8)), Err(Error::Spi(7))));
}

#[test]
fn refused_setter_is_tried_once_and_reports_the_failure_given() {
    let mut dev = Ad983x::new_ad9833(Recorder::refusing(1, Fault::Select));
    dev.reset().unwrap();
    assert!(is_spi(
        dev.set_powered_down(PoweredDown::Dac),
        ErrorKind::ChipSelectFault
    ));
    dev.set_powered_down(PoweredDown::Dac).unwrap();
    let spi = dev.destroy();
    assert_eq!(spi.accepted, vec![vec![0x01, 0x00], vec![0x01, 0x40]]);
    assert_eq!(spi.calls, 3);
}

#[test]
fn refused_mode_word_of_a_frequency_sends_no_half_after_it() {
    let mut dev = Ad983x::new_ad9833(Recorder::refusing(0, Fault::Overrun));
    assert!(is_spi(
        dev.set_frequency(FrequencyRegister::F0, 4724),
        ErrorKind::Overrun
    ));
    dev.set_frequency(FrequencyRegister::F0, 4724).unwrap();
    let spi = dev.destroy();
    assert_eq!(
        spi.accepted,
        vec![vec![0x21, 0x00], vec![0x52, 0x74], vec![0x40, 0x00]]
    );
    assert_eq!(spi.calls, 4);
}

#[test]
fn every_word_is_handed_over_once() {
    let mut dev = Ad983x::new_ad9833(Recorder::new(1));
    dev.reset().unwrap();
    dev.set_frequency(FrequencyRegister::F0, 4724).unwrap();
    dev.set_phase(PhaseRegister::P0, 1).unwrap();
    dev.enable().unwrap();
    dev.enable().unwrap();
    let spi = dev.destroy();
    assert_eq!(spi.calls, 6);
    assert_eq!(spi.accepted.len(), 6);
}
