use adc_driver::adc::Adc;
use adc_driver::bus::{Action, Register, Registers, CCR_TSVREFE, CCR_VBATE, CR2_SWSTART, SR_EOC, SR_STRT};
use adc_driver::calibration::{
    calibrate_supply, millivolts, millivolts_by_reference, read_sensor_switches, sensors_enabled,
    vref_code, VrefState,
};
use adc_driver::config::{AdcUnit, FactoryCalibration, Temperature, Vbat, Vref};
use adc_driver::conversion::ConversionState;

fn calibration_adc(reference_mv: u16, vref_code: u16, resolution: u8) -> Adc {
    let factory = FactoryCalibration { reference_mv, vref_code };
    Adc::new(AdcUnit::Adc1, 216_000_000, factory, resolution, false).0
}

/// Performs the actions on registers whose converter finishes at once.
fn perform_at_once(regs: &mut Registers, actions: &[Action], log: &mut Vec<Action>) -> u32 {
    let mut last = 0;
    for &action in actions {
        log.push(action);
        if let Some(value) = regs.perform(action) {
            last = value;
        }
        if let Action::Modify { reg: Register::Cr2, mask, bits } = action {
            if mask & bits & CR2_SWSTART != 0 {
                regs.sr |= SR_STRT | SR_EOC;
            }
        }
    }
    last
}

fn calibrate_on(adc: &mut Adc, regs: &mut Registers, log: &mut Vec<Action>) -> u16 {
    let mut state = VrefState::Idle;
    let mut reading = 0;
    for _ in 0..10 {
        let step = adc.calibrate(state, reading);
        reading = perform_at_once(regs, &step.actions, log);
        if let Some(code) = step.sample {
            assert_eq!(step.next, VrefState::Idle);
            return code;
        }
        state = step.next;
    }
    panic!("the calibration did not end");
}

#[test]
fn internal_channels_are_16_17_18() {
    assert_eq!(Temperature::channel(), 16);
    assert_eq!(Vref::channel(), 17);
    assert_eq!(Vbat::channel(), 18);
}

#[test]
fn full_scale_at_12_bits_is_one_step_below_the_supply() {
    let adc = calibration_adc(3300, 1489, 12);
    assert_eq!(adc.calibrated_vdda(), 3300);
    assert_eq!(adc.sample_to_millivolts(4095), 3299);
    assert_eq!(adc.sample_to_millivolts(0), 0);
    assert_eq!(adc.sample_to_millivolts(2048), 1650);
    assert_eq!(adc.sample_to_millivolts(1), 0);
    assert_eq!(adc.sample_to_millivolts(2), 1);
}

#[test]
fn millivolts_go_by_the_configured_resolution() {
    assert_eq!(calibration_adc(3300, 1489, 10).sample_to_millivolts(1023), 3296);
    assert_eq!(calibration_adc(3300, 1489, 8).sample_to_millivolts(255), 3287);
    assert_eq!(calibration_adc(3300, 1489, 6).sample_to_millivolts(63), 3248);
    assert_eq!(calibration_adc(3300, 1489, 6).sample_to_millivolts(32), 1650);
}

#[test]
fn millivolts_never_fall_when_the_sample_grows() {
    for resolution in [12u8, 10, 8, 6] {
        let adc = calibration_adc(3300, 1489, resolution);
        let mut last = adc.sample_to_millivolts(0);
        assert_eq!(last, 0);
        for sample in 1..=adc.max_sample() {
            let mv = adc.sample_to_millivolts(sample);
            assert!(mv >= last);
            last = mv;
        }
        assert!(last < 3300);
    }
}

#[test]
fn millivolts_beyond_16_bits_stay_at_the_top() {
    let adc = calibration_adc(3300, 1489, 6);
    assert_eq!(adc.sample_to_millivolts(1270), 65484);
    assert_eq!(adc.sample_to_millivolts(1271), 65535);
    assert_eq!(adc.sample_to_millivolts(1272), 65535);
    assert_eq!(adc.sample_to_millivolts(65535), 65535);
    assert_eq!(millivolts(65535, 0xFFFF_FFFF, 64), 65535);
    assert_eq!(millivolts(1, 0xFFFF_FFFF, 4096), 65535);
    assert_eq!(millivolts(4095, 3300, 4096), 3299);
}

#[test]
fn millivolts_never_fall_over_all_samples() {
    for resolution in [12u8, 10, 8, 6] {
        let adc = calibration_adc(3300, 1489, resolution);
        let mut last = 0;
        for sample in 0..=u16::MAX {
            let mv = adc.sample_to_millivolts(sample);
            assert!(mv >= last, "{} mV for sample {} after {} mV", mv, sample, last);
            last = mv;
        }
    }
    let mut last = 0;
    for sample in 0..=u16::MAX {
        let mv = millivolts(sample, 4_913_700, 64);
        assert!(mv >= last);
        last = mv;
    }
    assert_eq!(last, 65535);
}

#[test]
fn supply_follows_from_the_reference_reading() {
    let factory = FactoryCalibration { reference_mv: 1210, vref_code: 1489 };
    assert_eq!(calibrate_supply(factory, 1500), 1201);
    let factory = FactoryCalibration { reference_mv: 3300, vref_code: 1489 };
    assert_eq!(calibrate_supply(factory, 1489), 3300);
    assert_eq!(calibrate_supply(factory, 1500), 3275);
    assert_eq!(calibrate_supply(factory, 1), 4_913_700);
    let factory = FactoryCalibration { reference_mv: 65535, vref_code: 65535 };
    assert_eq!(calibrate_supply(factory, 1), 4_294_836_225);
}

#[test]
fn calibrate_with_reference_1210_code_1489_measured_1500() {
    let mut adc = calibration_adc(1210, 1489, 12);
    let mut regs = Registers::new();
    regs.dr = 1500;
    let mut log = Vec::new();
    let code = calibrate_on(&mut adc, &mut regs, &mut log);
    assert_eq!(code, 1500);
    assert_eq!(adc.calibrated_vdda(), 1201);
    assert_eq!(adc.sample_to_millivolts(4095), 1200);
}

#[test]
fn calibrate_switches_the_sensors_on_and_off_again() {
    let mut adc = calibration_adc(3300, 1489, 12);
    let mut regs = Registers::new();
    regs.dr = 1500;
    regs.ccr = CCR_VBATE | 0x0003_0000;
    let mut log = Vec::new();
    calibrate_on(&mut adc, &mut regs, &mut log);
    assert_eq!(adc.calibrated_vdda(), 3275);
    assert_eq!(regs.ccr, 0x0003_0000);
    assert_eq!(
        log,
        vec![
            Action::Read { reg: Register::Ccr },
            Action::Modify { reg: Register::Ccr, mask: CCR_VBATE, bits: 0 },
            Action::Modify { reg: Register::Ccr, mask: CCR_TSVREFE, bits: CCR_TSVREFE },
            Action::Delay { cycles: 2700 },
            Action::Read { reg: Register::Dr },
            Action::Modify { reg: Register::Smpr1, mask: 0x7 << 21, bits: 0x3 << 21 },
            Action::Modify { reg: Register::Sqr3, mask: 0x1F, bits: 17 },
            Action::Modify { reg: Register::Sr, mask: 0x2, bits: 0 },
            Action::Modify { reg: Register::Cr2, mask: 0x4000_0800, bits: 0x4000_0000 },
            Action::Read { reg: Register::Sr },
            Action::Read { reg: Register::Sr },
            Action::Read { reg: Register::Dr },
            Action::Modify { reg: Register::Ccr, mask: CCR_TSVREFE, bits: 0 },
        ]
    );
}

#[test]
fn calibrate_leaves_enabled_sensors_alone() {
    let mut adc = calibration_adc(3300, 1489, 12);
    let mut regs = Registers::new();
    regs.dr = 1489;
    regs.ccr = CCR_TSVREFE;
    let mut log = Vec::new();
    calibrate_on(&mut adc, &mut regs, &mut log);
    assert_eq!(adc.calibrated_vdda(), 3300);
    assert_eq!(regs.ccr, CCR_TSVREFE);
    assert_eq!(log.len(), 9);
    assert!(log[1..].iter().all(|a| !matches!(
        a,
        Action::Modify { reg: Register::Ccr, .. } | Action::Delay { .. }
    )));
}

#[test]
fn read_vref_gives_the_code_and_keeps_the_instance() {
    let mut adc = calibration_adc(3300, 1489, 12);
    let step = adc.read_vref(VrefState::Idle, 0);
    assert_eq!(step.next, VrefState::Probing);
    assert_eq!(step.actions, vec![Action::Read { reg: Register::Ccr }]);
    let step = adc.read_vref(VrefState::Probing, 0);
    assert_eq!(
        step.next,
        VrefState::Converting { conversion: ConversionState::Triggered, restore: true }
    );
    assert_eq!(step.actions.len(), 8);
    let step = adc.read_vref(VrefState::Probing, CCR_TSVREFE);
    assert_eq!(
        step.next,
        VrefState::Converting { conversion: ConversionState::Triggered, restore: false }
    );
    assert_eq!(step.actions.len(), 5);
    let last = VrefState::Converting { conversion: ConversionState::ResultReady, restore: true };
    let step = adc.read_vref(last, 1502);
    assert_eq!(step.sample, Some(1502));
    assert_eq!(step.next, VrefState::Idle);
    assert_eq!(step.actions, vec![Action::Modify { reg: Register::Ccr, mask: CCR_TSVREFE, bits: 0 }]);
    assert_eq!(adc.calibrated_vdda(), 3300);
    let last = VrefState::Converting { conversion: ConversionState::ResultReady, restore: false };
    let step = adc.read_vref(last, 1502);
    assert_eq!(step.sample, Some(1502));
    assert!(step.actions.is_empty());
    let mid = VrefState::Converting { conversion: ConversionState::AwaitStart, restore: true };
    let step = adc.read_vref(mid, 0);
    assert_eq!(step.next, mid);
    assert_eq!(step.sample, None);
    assert_eq!(step.actions, vec![Action::Read { reg: Register::Sr }]);
}

#[test]
fn bits_to_voltage_goes_by_the_nominal_reference() {
    let mut adc = calibration_adc(3300, 1489, 12);
    let last = VrefState::Converting { conversion: ConversionState::ResultReady, restore: false };
    let step = adc.bits_to_voltage(last, 1500, 2048);
    assert_eq!(step.sample, Some(1652));
    assert_eq!(step.next, VrefState::Idle);
    let step = adc.bits_to_voltage(VrefState::Idle, 0, 2048);
    assert_eq!(step.sample, None);
    assert_eq!(step.actions, vec![Action::Read { reg: Register::Ccr }]);
    assert_eq!(millivolts_by_reference(1500, 1500), 1210);
    assert_eq!(millivolts_by_reference(65535, 1), 65535);
    assert_eq!(millivolts_by_reference(54, 1), 65340);
    assert_eq!(millivolts_by_reference(55, 1), 65535);
    assert_eq!(millivolts_by_reference(0, 1), 0);
    assert_eq!(adc.calibrated_vdda(), 3300);
}

#[test]
fn sensor_switches_are_bits_22_and_23_of_the_common_register() {
    let mut adc = calibration_adc(3300, 1489, 12);
    assert_eq!(
        adc.enable_vbat(),
        Action::Modify { reg: Register::Ccr, mask: 1 << 22, bits: 1 << 22 }
    );
    assert_eq!(adc.disable_vbat(), Action::Modify { reg: Register::Ccr, mask: 1 << 22, bits: 0 });
    assert_eq!(
        adc.enable_temperature_and_vref(),
        vec![
            Action::Modify { reg: Register::Ccr, mask: 1 << 22, bits: 0 },
            Action::Modify { reg: Register::Ccr, mask: 1 << 23, bits: 1 << 23 },
        ]
    );
    assert_eq!(
        adc.disable_temperature_and_vref(),
        Action::Modify { reg: Register::Ccr, mask: 1 << 23, bits: 0 }
    );
    assert!(adc.temperature_and_vref_enabled(1 << 23));
    assert!(!adc.temperature_and_vref_enabled(!(1u32 << 23)));
    assert!(sensors_enabled(0xFFFF_FFFF));
    assert_eq!(read_sensor_switches(), Action::Read { reg: Register::Ccr });
}

#[test]
fn only_the_last_step_of_a_sampling_has_a_code() {
    let last = VrefState::Converting { conversion: ConversionState::ResultReady, restore: true };
    assert_eq!(vref_code(last, 0x0003_0000), Some(0));
    assert_eq!(vref_code(last, 1500), Some(1500));
    let waiting = VrefState::Converting {
        conversion: ConversionState::AwaitEndOfConversion,
        restore: true,
    };
    assert_eq!(vref_code(waiting, 1500), None);
    assert_eq!(vref_code(VrefState::Idle, 1500), None);
    assert_eq!(vref_code(VrefState::Probing, 1500), None);
}

#[test]
fn enabling_the_sensors_disables_the_battery_monitor() {
    let mut adc = calibration_adc(3300, 1489, 12);
    let mut regs = Registers::new();
    regs.perform(adc.enable_vbat());
    assert_eq!(regs.ccr, CCR_VBATE);
    regs.perform_all(&adc.enable_temperature_and_vref());
    assert_eq!(regs.ccr, CCR_TSVREFE);
    regs.perform(adc.disable_temperature_and_vref());
    assert_eq!(regs.ccr, 0);
}
