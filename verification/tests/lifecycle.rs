use adc_driver::adc::{Adc, TransferDirection};
use adc_driver::bus::{Action, Register, Registers};
use adc_driver::calibration::VrefState;
use adc_driver::config::{AdcUnit, Align, FactoryCalibration, SampleTime, StoredConfig};
use adc_driver::conversion::ConversionState;

fn factory() -> FactoryCalibration {
    FactoryCalibration { reference_mv: 3300, vref_code: 1489 }
}

fn oneshot() -> Vec<Action> {
    vec![
        Action::Modify { reg: Register::Cr2, mask: 0x4000_0002, bits: 0x4000_0000 },
        Action::Modify { reg: Register::Cr1, mask: 0x0000_0900, bits: 0x0000_0800 },
        Action::Modify { reg: Register::Sqr1, mask: 0x00F0_0000, bits: 0 },
    ]
}

#[test]
fn startup_without_reset() {
    let (adc, actions) = Adc::new(AdcUnit::Adc1, 216_000_000, factory(), 12, false);
    let mut expected = vec![Action::EnableClock];
    expected.extend(oneshot());
    expected.push(Action::Modify { reg: Register::Cr1, mask: 0x0300_0000, bits: 0 });
    expected.push(Action::Modify { reg: Register::Cr2, mask: 0x1, bits: 0x1 });
    expected.push(Action::Delay { cycles: 270 });
    assert_eq!(actions, expected);
    assert_eq!(adc.unit(), AdcUnit::Adc1);
    assert_eq!(adc.calibrated_vdda(), 3300);
}

#[test]
fn startup_with_reset_powers_down_and_resets_first() {
    let (_, actions) = Adc::new(AdcUnit::Adc2, 16_000_000, factory(), 8, true);
    let mut expected = vec![
        Action::EnableClock,
        Action::Modify { reg: Register::Cr2, mask: 0x1, bits: 0 },
        Action::ResetPeripheral,
    ];
    expected.extend(oneshot());
    expected.push(Action::Modify { reg: Register::Cr1, mask: 0x0300_0000, bits: 0x0200_0000 });
    expected.push(Action::Modify { reg: Register::Cr2, mask: 0x1, bits: 0x1 });
    expected.push(Action::Delay { cycles: 20 });
    assert_eq!(actions, expected);
}

#[test]
fn resolutions_have_their_codes_and_largest_samples() {
    for (bits, code, max) in [(12u8, 0b00u32, 4095u16), (10, 0b01, 1023), (8, 0b10, 255), (6, 0b11, 63)] {
        let (adc, actions) = Adc::new(AdcUnit::Adc1, 216_000_000, factory(), bits, false);
        assert_eq!(adc.max_sample(), max);
        assert_eq!(
            actions[4],
            Action::Modify { reg: Register::Cr1, mask: 0x0300_0000, bits: code << 24 }
        );
        let mut regs = Registers::new();
        regs.cr1 = 0xFFFF_FFFF;
        regs.perform_all(&actions);
        assert_eq!((regs.cr1 >> 24) & 0x3, code);
    }
}

#[test]
fn other_resolutions_are_served_with_12_bits() {
    for bits in [0u8, 1, 7, 9, 11, 13, 16, 32, 255] {
        let (adc, actions) = Adc::new(AdcUnit::Adc3, 216_000_000, factory(), bits, false);
        assert_eq!(adc.max_sample(), 4095);
        assert_eq!(actions[4], Action::Modify { reg: Register::Cr1, mask: 0x0300_0000, bits: 0 });
    }
}

#[test]
fn registers_after_startup() {
    for reset in [false, true] {
        let (_, actions) = Adc::new(AdcUnit::Adc1, 216_000_000, factory(), 10, reset);
        let mut regs = Registers::new();
        for reg in [Register::Cr1, Register::Cr2, Register::Sqr1] {
            regs.write(reg, 0xFFFF_FFFF);
        }
        regs.perform_all(&actions);
        assert_eq!(regs.cr1, 0xFFFF_FFFF & !0x0300_0000 & !0x0100 | 0x0100_0000);
        assert_eq!(regs.cr2, 0xFFFF_FFFF & !0x2);
        assert_eq!(regs.sqr1, 0xFF0F_FFFF);
        assert_eq!(regs.get_regular_sequence().len(), 1);
    }
}

#[test]
fn constructors_of_the_three_units() {
    let (one, first) = Adc::adc1(216_000_000, factory(), 12, true);
    let (two, second) = Adc::adc2(216_000_000, factory(), 12, true);
    let (three, third) = Adc::adc3(216_000_000, factory(), 12, true);
    assert_eq!(one.unit(), AdcUnit::Adc1);
    assert_eq!(two.unit(), AdcUnit::Adc2);
    assert_eq!(three.unit(), AdcUnit::Adc3);
    assert_eq!(first, second);
    assert_eq!(second, third);
    assert_eq!(first, Adc::new(AdcUnit::Adc1, 216_000_000, factory(), 12, true).1);
    assert!(AdcUnit::Adc1.internal_channels());
    assert!(!AdcUnit::Adc2.internal_channels());
    assert_eq!(AdcUnit::Adc1.channels(), 19);
    assert_eq!(AdcUnit::Adc3.channels(), 16);
}

#[test]
fn defaults_are_56_cycles_and_right_alignment() {
    let (mut adc, _) = Adc::new(AdcUnit::Adc1, 216_000_000, factory(), 12, false);
    assert_eq!(adc.save_cfg(), StoredConfig(SampleTime::T_56, Align::Right));
    assert_eq!(StoredConfig::default(), StoredConfig(SampleTime::T_56, Align::Right));
    assert_eq!(Align::default(), Align::Right);
    assert!(!bool::from(Align::Right));
    assert!(bool::from(Align::Left));
}

#[test]
fn save_then_restore_changes_nothing() {
    let (mut adc, _) = Adc::new(AdcUnit::Adc1, 216_000_000, factory(), 12, false);
    adc.set_sample_time(SampleTime::T_480);
    adc.set_align(Align::Left);
    let cfg = adc.save_cfg();
    assert_eq!(cfg, StoredConfig(SampleTime::T_480, Align::Left));
    adc.restore_cfg(cfg);
    assert_eq!(adc.save_cfg(), cfg);
    assert_eq!(adc.max_sample(), 4095);
    assert_eq!(adc.calibrated_vdda(), 3300);
}

#[test]
fn restore_brings_the_saved_settings_back_after_other_changes() {
    let (mut adc, _) = Adc::new(AdcUnit::Adc1, 216_000_000, factory(), 12, false);
    adc.set_sample_time(SampleTime::T_3);
    let cfg = adc.save_cfg();
    adc.set_sample_time(SampleTime::T_144);
    adc.set_align(Align::Left);
    let last = VrefState::Converting { conversion: ConversionState::ResultReady, restore: false };
    adc.calibrate(last, 1500);
    assert_eq!(adc.calibrated_vdda(), 3275);
    adc.restore_cfg(cfg);
    assert_eq!(adc.save_cfg(), StoredConfig(SampleTime::T_3, Align::Right));
    assert_eq!(adc.calibrated_vdda(), 3275);
}

#[test]
fn default_cfg_returns_the_old_settings() {
    let (mut adc, _) = Adc::new(AdcUnit::Adc1, 216_000_000, factory(), 12, false);
    adc.set_sample_time(SampleTime::T_15);
    adc.set_align(Align::Left);
    let old = adc.default_cfg();
    assert_eq!(old, StoredConfig(SampleTime::T_15, Align::Left));
    assert_eq!(adc.save_cfg(), StoredConfig::default());
}

#[test]
fn release_powers_down_then_closes_the_clock_gate() {
    let (adc, _) = Adc::new(AdcUnit::Adc1, 216_000_000, factory(), 12, false);
    assert_eq!(
        adc.release(),
        vec![Action::Modify { reg: Register::Cr2, mask: 0x1, bits: 0 }, Action::DisableClock]
    );
}

#[test]
fn streaming_sets_continuous_conversion_and_requests() {
    let (mut adc, _) = Adc::new(AdcUnit::Adc1, 216_000_000, factory(), 12, false);
    adc.set_sample_time(SampleTime::T_84);
    let (streaming, actions) = adc.with_dma(1024);
    assert_eq!(
        actions,
        vec![
            Action::Modify { reg: Register::Cr1, mask: 0x0800, bits: 0 },
            Action::Modify { reg: Register::Cr2, mask: 0x0B03, bits: 0x0303 },
        ]
    );
    assert_eq!(streaming.length(), 1024);
    assert_eq!(streaming.source(), Register::Dr);
    assert_eq!(streaming.direction(), TransferDirection::PeripheralToMemory);
    let mut back = streaming.into_adc();
    assert_eq!(back.save_cfg(), StoredConfig(SampleTime::T_84, Align::Right));
}

#[test]
fn streaming_with_left_alignment_and_the_longest_buffer() {
    let (mut adc, _) = Adc::new(AdcUnit::Adc2, 216_000_000, factory(), 12, false);
    adc.set_align(Align::Left);
    let (streaming, actions) = adc.with_dma(65535);
    assert_eq!(actions[1], Action::Modify { reg: Register::Cr2, mask: 0x0B03, bits: 0x0B03 });
    assert_eq!(streaming.length(), 65535);
    let mut regs = Registers::new();
    regs.cr1 = 0x0800;
    regs.perform_all(&actions);
    assert_eq!(regs.cr1, 0);
    assert_eq!(regs.cr2, 0x0B03);
    let (adc, _) = Adc::new(AdcUnit::Adc2, 216_000_000, factory(), 12, false);
    assert_eq!(adc.with_dma(0).0.length(), 0);
}

#[test]
fn external_trigger_is_four_bits_from_bit_24() {
    let (mut adc, _) = Adc::new(AdcUnit::Adc1, 216_000_000, factory(), 12, false);
    assert_eq!(
        adc.set_external_trigger(0b1010),
        Action::Modify { reg: Register::Cr2, mask: 0x0F00_0000, bits: 0x0A00_0000 }
    );
    assert_eq!(
        adc.set_external_trigger(0xFF),
        Action::Modify { reg: Register::Cr2, mask: 0x0F00_0000, bits: 0x0F00_0000 }
    );
}

#[test]
fn registers_store_only_on_write_and_modify() {
    let mut regs = Registers::new();
    assert_eq!(regs.perform(Action::Write { reg: Register::Sqr2, value: 0x1234 }), None);
    assert_eq!(regs.read(Register::Sqr2), 0x1234);
    assert_eq!(regs.perform(Action::Read { reg: Register::Sqr2 }), Some(0x1234));
    let before = regs;
    for action in [
        Action::EnableClock,
        Action::DisableClock,
        Action::ResetPeripheral,
        Action::Delay { cycles: 9 },
        Action::Read { reg: Register::Sr },
    ] {
        regs.perform(action);
        assert_eq!(regs, before);
    }
    assert_eq!(regs.perform(Action::Modify { reg: Register::Sqr2, mask: 0xFF, bits: 0xFFFF }), None);
    assert_eq!(regs.sqr2, 0x12FF);
}

#[test]
fn power_up_delay_scales_with_the_system_clock() {
    for (sysclk, cycles) in [(799_999u32, 0u32), (800_000, 1), (48_000_000, 60), (u32::MAX, 5368)] {
        let (_, actions) = Adc::new(AdcUnit::Adc1, sysclk, factory(), 12, false);
        assert_eq!(actions.last(), Some(&Action::Delay { cycles }));
        assert_eq!(
            actions[actions.len() - 2],
            Action::Modify { reg: Register::Cr2, mask: 0x1, bits: 0x1 }
        );
    }
}
