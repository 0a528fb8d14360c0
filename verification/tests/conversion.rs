use adc_driver::adc::Adc;
use adc_driver::bus::{Action, Register, Registers, CR2_SWSTART, SR_EOC, SR_STRT};
use adc_driver::config::{AdcUnit, Align, FactoryCalibration, SampleTime};
use adc_driver::conversion::{
    clear_end_of_conversion, conversion_step, read_sample, sample_of_reading, start_step,
    ConversionState,
};

/// A converter that raises its flags after a given number of reads of the
/// status register, counted from the software start.
struct Converter {
    regs: Registers,
    reads_until_started: u32,
    reads_until_done: u32,
    status_reads: u32,
    running: bool,
    log: Vec<Action>,
}

impl Converter {
    fn new(data: u32, reads_until_started: u32, reads_until_done: u32) -> Self {
        let mut regs = Registers::new();
        regs.write(Register::Dr, data);
        Converter {
            regs,
            reads_until_started,
            reads_until_done,
            status_reads: 0,
            running: false,
            log: Vec::new(),
        }
    }

    fn run(&mut self, actions: &[Action]) -> u32 {
        let mut last = 0;
        for &action in actions {
            self.log.push(action);
            if let Action::Read { reg: Register::Sr } = action {
                if self.running {
                    if self.status_reads >= self.reads_until_started {
                        self.regs.sr |= SR_STRT;
                    }
                    if self.status_reads >= self.reads_until_done {
                        self.regs.sr |= SR_EOC;
                    }
                    self.status_reads += 1;
                }
            }
            if let Some(value) = self.regs.perform(action) {
                last = value;
            }
            match action {
                Action::Modify { reg: Register::Cr2, mask, bits } if mask & bits & CR2_SWSTART != 0 => {
                    self.running = true;
                    self.status_reads = 0;
                },
                Action::Read { reg: Register::Dr } => {
                    self.regs.sr &= !SR_EOC;
                },
                _ => {},
            }
        }
        last
    }
}

fn adc_at(resolution: u8) -> Adc {
    let factory = FactoryCalibration { reference_mv: 3300, vref_code: 1489 };
    Adc::new(AdcUnit::Adc1, 216_000_000, factory, resolution, false).0
}

fn convert_on(adc: &mut Adc, hw: &mut Converter, chan: u8, limit: u32) -> (u16, u32) {
    let mut state = ConversionState::Idle;
    let mut reading = 0;
    let mut steps = 0;
    loop {
        assert!(steps < limit, "the conversion took more than {} steps", limit);
        let step = adc.convert(state, chan, reading);
        steps += 1;
        reading = hw.run(&step.actions);
        if let Some(sample) = step.sample {
            assert_eq!(step.next, ConversionState::Idle);
            return (sample, steps);
        }
        state = step.next;
    }
}

#[test]
fn convert_does_not_block_when_flags_come_at_once() {
    let mut adc = adc_at(12);
    let mut hw = Converter::new(0x0ABC, 0, 0);
    let (sample, steps) = convert_on(&mut adc, &mut hw, 5, 5);
    assert_eq!(sample, 0x0ABC);
    assert_eq!(steps, 5);
}

#[test]
fn convert_performs_the_protocol_in_order() {
    let mut adc = adc_at(12);
    adc.set_sample_time(SampleTime::T_144);
    adc.set_align(Align::Left);
    let mut hw = Converter::new(0x0123, 0, 0);
    let (sample, _) = convert_on(&mut adc, &mut hw, 12, 5);
    assert_eq!(sample, 0x0123);
    assert_eq!(
        hw.log,
        vec![
            Action::Read { reg: Register::Dr },
            Action::Modify { reg: Register::Smpr1, mask: 0x7 << 6, bits: 0x6 << 6 },
            Action::Modify { reg: Register::Sqr3, mask: 0x1F, bits: 12 },
            Action::Modify { reg: Register::Sr, mask: 0x2, bits: 0 },
            Action::Modify { reg: Register::Cr2, mask: 0x4000_0800, bits: 0x4000_0800 },
            Action::Read { reg: Register::Sr },
            Action::Read { reg: Register::Sr },
            Action::Read { reg: Register::Dr },
        ]
    );
    assert_eq!(hw.regs.get_sample_time_code(12), 6);
    assert_eq!(hw.regs.sqr3 & 0x1F, 12);
}

#[test]
fn convert_with_right_alignment_clears_the_alignment_bit() {
    let mut adc = adc_at(12);
    let step = adc.convert(ConversionState::Idle, 0, 0);
    assert_eq!(step.next, ConversionState::Triggered);
    assert_eq!(step.sample, None);
    assert_eq!(
        step.actions[4],
        Action::Modify { reg: Register::Cr2, mask: 0x4000_0800, bits: 0x4000_0000 }
    );
    assert_eq!(
        step.actions[1],
        Action::Modify { reg: Register::Smpr2, mask: 0x7, bits: 0x3 }
    );
}

#[test]
fn convert_waits_for_as_long_as_the_flags_are_down() {
    let mut adc = adc_at(12);
    let mut hw = Converter::new(0x0FFF, 3, 7);
    let (sample, steps) = convert_on(&mut adc, &mut hw, 1, 100);
    assert_eq!(sample, 0x0FFF);
    assert_eq!(steps, 11);
    let reads = hw.log.iter().filter(|a| **a == Action::Read { reg: Register::Sr }).count();
    assert_eq!(reads, 8);
    assert!(hw.log[5..hw.log.len() - 1].iter().all(|a| *a == Action::Read { reg: Register::Sr }));
}

#[test]
fn waiting_steps_stay_in_their_state() {
    let mut adc = adc_at(12);
    let step = adc.convert(ConversionState::AwaitStart, 1, 0);
    assert_eq!(step.next, ConversionState::AwaitStart);
    assert_eq!(step.actions, vec![Action::Read { reg: Register::Sr }]);
    let step = adc.convert(ConversionState::AwaitStart, 1, SR_EOC);
    assert_eq!(step.next, ConversionState::AwaitStart);
    let step = adc.convert(ConversionState::AwaitStart, 1, SR_STRT);
    assert_eq!(step.next, ConversionState::AwaitEndOfConversion);
    assert_eq!(step.actions, vec![Action::Read { reg: Register::Sr }]);
    let step = adc.convert(ConversionState::AwaitEndOfConversion, 1, SR_STRT);
    assert_eq!(step.next, ConversionState::AwaitEndOfConversion);
    assert_eq!(step.actions, vec![Action::Read { reg: Register::Sr }]);
    let step = adc.convert(ConversionState::AwaitEndOfConversion, 1, SR_STRT | SR_EOC);
    assert_eq!(step.next, ConversionState::ResultReady);
    assert_eq!(step.actions, vec![Action::Read { reg: Register::Dr }]);
    assert_eq!(step.sample, None);
}

#[test]
fn result_is_the_low_half_of_the_data_register() {
    let mut adc = adc_at(12);
    let step = adc.convert(ConversionState::ResultReady, 1, 0xABCD_1234);
    assert_eq!(step.sample, Some(0x1234));
    assert_eq!(step.next, ConversionState::Idle);
    assert!(step.actions.is_empty());
    assert_eq!(read_sample(), Action::Read { reg: Register::Dr });
    assert_eq!(adc.current_sample(0xABCD_1234), 0x1234);
    assert_eq!(adc.current_sample(0xFFFF), 0xFFFF);
    assert_eq!(sample_of_reading(0x0001_0000), 0);
}

#[test]
fn convert_discards_a_stale_result_first() {
    let mut adc = adc_at(12);
    let mut hw = Converter::new(0x0042, 0, 0);
    hw.regs.sr = SR_EOC;
    let step = adc.convert(ConversionState::Idle, 18, 0);
    assert_eq!(step.actions[0], Action::Read { reg: Register::Dr });
    hw.run(&step.actions[..1]);
    assert_eq!(hw.regs.sr & SR_EOC, 0);
}

#[test]
fn start_conversion_clears_the_flag_then_triggers_then_waits() {
    let mut adc = adc_at(12);
    let step = adc.start_conversion(ConversionState::Idle, 0);
    assert_eq!(step.next, ConversionState::Triggered);
    assert_eq!(
        step.actions,
        vec![
            Action::Modify { reg: Register::Sr, mask: 0x2, bits: 0 },
            Action::Modify { reg: Register::Cr2, mask: 0x4000_0800, bits: 0x4000_0000 },
        ]
    );
    let step = adc.start_conversion(ConversionState::Triggered, 0);
    assert_eq!(step.next, ConversionState::AwaitStart);
    assert_eq!(step.actions, vec![Action::Read { reg: Register::Sr }]);
    let step = adc.start_conversion(ConversionState::AwaitStart, 0);
    assert_eq!(step.next, ConversionState::AwaitStart);
    assert_eq!(step.actions, vec![Action::Read { reg: Register::Sr }]);
    let step = adc.start_conversion(ConversionState::AwaitStart, SR_STRT);
    assert_eq!(step.next, ConversionState::AwaitEndOfConversion);
    assert!(step.actions.is_empty());
    assert_eq!(step.sample, None);
    let step = start_step(ConversionState::AwaitEndOfConversion, Align::Left, 0);
    assert_eq!(step.next, ConversionState::AwaitEndOfConversion);
    assert!(step.actions.is_empty());
    let step = start_step(ConversionState::ResultReady, Align::Left, 0);
    assert_eq!(step.next, ConversionState::ResultReady);
    assert!(step.actions.is_empty());
}

#[test]
fn clearing_the_flag_leaves_the_other_flags() {
    let mut adc = adc_at(12);
    let update = adc.clear_end_of_conversion_flag();
    assert_eq!(update, clear_end_of_conversion());
    let mut regs = Registers::new();
    regs.sr = SR_EOC | SR_STRT | 0x20;
    regs.perform(update);
    assert_eq!(regs.sr, SR_STRT | 0x20);
}

#[test]
fn conversion_step_takes_sample_time_and_alignment_as_given() {
    let step = conversion_step(ConversionState::Idle, 9, SampleTime::T_3, Align::Left, 77);
    assert_eq!(
        step.actions,
        vec![
            Action::Read { reg: Register::Dr },
            Action::Modify { reg: Register::Smpr2, mask: 0x7 << 27, bits: 0 },
            Action::Modify { reg: Register::Sqr3, mask: 0x1F, bits: 9 },
            Action::Modify { reg: Register::Sr, mask: 0x2, bits: 0 },
            Action::Modify { reg: Register::Cr2, mask: 0x4000_0800, bits: 0x4000_0800 },
        ]
    );
}
