//! Calibration against the internal reference: the switches of the internal
//! channels, the protocol that samples the reference, and the arithmetic
//! that turns codes into millivolts.

use vstd::prelude::*;
use crate::bus::{
    lemma_after_all_concat, lemma_after_all_single, Action, Register, Registers, CCR_TSVREFE,
    CCR_VBATE,
};
use crate::config::{Align, FactoryCalibration, SampleTime, Vref};
use crate::conversion::{
    conversion_actions, conversion_next, conversion_sample, conversion_step,
    lemma_conversion_leaves_common_control, sample_of_reading, ConversionState,
};

verus! {

/// The typical voltage of the internal reference, in millivolts.
pub const VREF_NOMINAL_MV: u32 = 1210;

/// System clock cycles per cycle of the delay after the sensor block is
/// switched on: the delay is `sysclk / SENSOR_DELAY_DIVIDER` cycles long.
pub const SENSOR_DELAY_DIVIDER: u32 = 80_000;

/// Where a sampling of the internal reference stands.
#[derive(Clone, Copy, Debug, PartialEq, Eq, Structural)]
pub enum VrefState {
    /// Nothing has been asked of the peripheral yet.
    Idle,
    /// The common control register was read to see whether the sensor
    /// block is on.
    Probing,
    /// The reference channel is being converted.  `restore` says that the
    /// sensor block was off before and is to be switched off again.
    Converting { conversion: ConversionState, restore: bool },
}

/// One step of a sampling of the internal reference: the accesses to
/// perform, in order; the state in which to hand in the value of the last of
/// their reads; and, once the sampling is over, its result.
#[derive(Debug)]
pub struct VrefStep {
    pub next: VrefState,
    pub actions: Vec<Action>,
    pub sample: Option<u16>,
}

/// Whether a reading of the common control register shows the temperature
/// sensor and the internal reference as switched on.
pub open spec fn shows_sensors_enabled(reading: u32) -> bool {
    reading & CCR_TSVREFE != 0
}

/// The access that switches the battery monitor channel on.
pub open spec fn enable_vbat_update() -> Action {
    Action::Modify { reg: Register::Ccr, mask: CCR_VBATE, bits: CCR_VBATE }
}

/// The access that switches the battery monitor channel off.
pub open spec fn disable_vbat_update() -> Action {
    Action::Modify { reg: Register::Ccr, mask: CCR_VBATE, bits: 0 }
}

/// The accesses that switch the temperature sensor and the internal
/// reference on: the battery monitor goes off first, since the two cannot be
/// served together.
pub open spec fn enable_sensors_updates() -> Seq<Action> {
    seq![
        disable_vbat_update(),
        Action::Modify { reg: Register::Ccr, mask: CCR_TSVREFE, bits: CCR_TSVREFE },
    ]
}

/// The access that switches the temperature sensor and the internal
/// reference off.
pub open spec fn disable_sensors_update() -> Action {
    Action::Modify { reg: Register::Ccr, mask: CCR_TSVREFE, bits: 0 }
}

/// The length of the delay after the sensor block is switched on, in cycles
/// of a system clock of `sysclk_hz` hertz.
pub open spec fn sensor_delay_cycles(sysclk_hz: u32) -> u32 {
    sysclk_hz / SENSOR_DELAY_DIVIDER
}

/// The state after a step of sampling the reference.
pub open spec fn vref_next(state: VrefState, reading: u32) -> VrefState {
    match state {
        VrefState::Idle => VrefState::Probing,
        VrefState::Probing => VrefState::Converting {
            conversion: conversion_next(ConversionState::Idle, reading),
            restore: !shows_sensors_enabled(reading),
        },
        VrefState::Converting { conversion, restore } => if conversion_sample(
            conversion,
            reading,
        ) is Some {
            VrefState::Idle
        } else {
            VrefState::Converting { conversion: conversion_next(conversion, reading), restore }
        },
    }
}

/// The accesses of a step of sampling the reference.  First the common
/// control register is read.  If it shows the sensor block as off, the block
/// is switched on and given time to settle.  Then the reference channel is
/// converted, and with the last step of the conversion the block is switched
/// off again if it was off before.
pub open spec fn vref_actions(
    state: VrefState,
    sample_time: SampleTime,
    align: Align,
    sysclk_hz: u32,
    reading: u32,
) -> Seq<Action> {
    match state {
        VrefState::Idle => seq![Action::Read { reg: Register::Ccr }],
        VrefState::Probing => (if shows_sensors_enabled(reading) {
            Seq::<Action>::empty()
        } else {
            enable_sensors_updates() + seq![
                Action::Delay { cycles: sensor_delay_cycles(sysclk_hz) },
            ]
        }) + conversion_actions(ConversionState::Idle, Vref::channel(), sample_time, align, reading),
        VrefState::Converting { conversion, restore } => conversion_actions(
            conversion,
            Vref::channel(),
            sample_time,
            align,
            reading,
        ) + (if restore && conversion_sample(conversion, reading) is Some {
            seq![disable_sensors_update()]
        } else {
            Seq::<Action>::empty()
        }),
    }
}

/// The result of a step of sampling the reference: the code of the
/// reference channel with the last step, none before.
pub open spec fn vref_sample(state: VrefState, reading: u32) -> Option<u16> {
    match state {
        VrefState::Converting { conversion, restore } => conversion_sample(conversion, reading),
        _ => None,
    }
}

/// The supply voltage in millivolts that follows from a code of the
/// internal reference channel: the factory's supply voltage, scaled by the
/// factory's code over the measured one.
pub open spec fn calibrated_supply(factory: FactoryCalibration, measured: u16) -> int {
    (factory.reference_mv * factory.vref_code) / (measured as int)
}

/// A voltage as it is returned: the exact value where 16 bits hold it, and
/// 65535 for every value above.
pub open spec fn capped(exact: int) -> u16 {
    if exact > u16::MAX {
        u16::MAX
    } else {
        exact as u16
    }
}

/// The voltage of a sample in millivolts, for a supply of `vdda` millivolts
/// and a resolution of `range` codes: `sample * vdda / range`.
pub open spec fn exact_millivolts(sample: u16, vdda: u32, range: u32) -> int {
    (sample * vdda) / (range as int)
}

/// The voltage of a sample in millivolts as it is returned: the exact value,
/// capped at 65535.
pub open spec fn sample_millivolts(sample: u16, vdda: u32, range: u32) -> u16 {
    capped(exact_millivolts(sample, vdda, range))
}

/// The voltage of a code in millivolts, by the nominal reference voltage
/// and a code of the reference channel: `data * 1210 / vref`.
pub open spec fn exact_nominal_millivolts(data: u16, vref: u16) -> int {
    (data * VREF_NOMINAL_MV) / (vref as int)
}

/// The voltage of a code by the nominal reference voltage as it is
/// returned: the exact value, capped at 65535.
pub open spec fn nominal_millivolts(data: u16, vref: u16) -> u16 {
    capped(exact_nominal_millivolts(data, vref))
}

/// Computes the access that fetches the switches of the internal channels:
/// a read of the common control register.  [`sensors_enabled`] tells from its
/// value whether the sensor block is on.
pub fn read_sensor_switches() -> (read: Action)
    ensures
        read == (Action::Read { reg: Register::Ccr }),
{
    Action::Read { reg: Register::Ccr }
}

/// Tells from a reading of the common control register whether the
/// temperature sensor and the internal reference are switched on.
pub fn sensors_enabled(reading: u32) -> (enabled: bool)
    ensures
        enabled == shows_sensors_enabled(reading),
{
    reading & CCR_TSVREFE != 0
}

/// Computes the access that switches the battery monitor channel on.
pub fn enable_vbat() -> (update: Action)
    ensures
        update == enable_vbat_update(),
{
    Action::Modify { reg: Register::Ccr, mask: CCR_VBATE, bits: CCR_VBATE }
}

/// Computes the access that switches the battery monitor channel off.
pub fn disable_vbat() -> (update: Action)
    ensures
        update == disable_vbat_update(),
{
    Action::Modify { reg: Register::Ccr, mask: CCR_VBATE, bits: 0 }
}

/// Computes the accesses that switch the temperature sensor and the
/// internal reference on.
pub fn enable_sensors() -> (updates: Vec<Action>)
    ensures
        updates@ == enable_sensors_updates(),
{
    let mut updates: Vec<Action> = Vec::new();
    updates.push(disable_vbat());
    updates.push(Action::Modify { reg: Register::Ccr, mask: CCR_TSVREFE, bits: CCR_TSVREFE });
    assert(updates@ =~= enable_sensors_updates());
    updates
}

/// Computes the access that switches the temperature sensor and the
/// internal reference off.
pub fn disable_sensors() -> (update: Action)
    ensures
        update == disable_sensors_update(),
{
    Action::Modify { reg: Register::Ccr, mask: CCR_TSVREFE, bits: 0 }
}

/// Tells what a step of sampling the reference will give for a reading: the
/// code, if the step is the last one, and nothing otherwise.  A caller of
/// [`crate::adc::Adc::calibrate`] learns from it whether the code is zero.
pub fn vref_code(state: VrefState, reading: u32) -> (code: Option<u16>)
    ensures
        code == vref_sample(state, reading),
{
    match state {
        VrefState::Converting { conversion: ConversionState::ResultReady, restore: _ } => Some(
            sample_of_reading(reading),
        ),
        _ => None,
    }
}

/// One step of sampling the internal reference channel.
pub fn vref_step(
    state: VrefState,
    sample_time: SampleTime,
    align: Align,
    sysclk_hz: u32,
    reading: u32,
) -> (step: VrefStep)
    ensures
        step.next == vref_next(state, reading),
        step.actions@ == vref_actions(state, sample_time, align, sysclk_hz, reading),
        step.sample == vref_sample(state, reading),
{
    match state {
        VrefState::Idle => {
            let mut actions: Vec<Action> = Vec::new();
            actions.push(Action::Read { reg: Register::Ccr });
            assert(actions@ =~= vref_actions(state, sample_time, align, sysclk_hz, reading));
            VrefStep { next: VrefState::Probing, actions, sample: None }
        },
        VrefState::Probing => {
            let restore = !sensors_enabled(reading);
            let mut actions: Vec<Action> = Vec::new();
            if restore {
                actions = enable_sensors();
                actions.push(Action::Delay { cycles: sysclk_hz / SENSOR_DELAY_DIVIDER });
            }
            let mut start = conversion_step(
                ConversionState::Idle,
                Vref::channel(),
                sample_time,
                align,
                reading,
            );
            actions.append(&mut start.actions);
            assert(actions@ =~= vref_actions(state, sample_time, align, sysclk_hz, reading));
            VrefStep {
                next: VrefState::Converting { conversion: start.next, restore },
                actions,
                sample: None,
            }
        },
        VrefState::Converting { conversion, restore } => {
            let inner = conversion_step(conversion, Vref::channel(), sample_time, align, reading);
            let mut actions = inner.actions;
            match inner.sample {
                Some(code) => {
                    if restore {
                        actions.push(disable_sensors());
                    }
                    assert(actions@ =~= vref_actions(
                        state,
                        sample_time,
                        align,
                        sysclk_hz,
                        reading,
                    ));
                    VrefStep { next: VrefState::Idle, actions, sample: Some(code) }
                },
                None => {
                    assert(actions@ =~= vref_actions(
                        state,
                        sample_time,
                        align,
                        sysclk_hz,
                        reading,
                    ));
                    VrefStep {
                        next: VrefState::Converting { conversion: inner.next, restore },
                        actions,
                        sample: None,
                    }
                },
            }
        },
    }
}

/// Computes the supply voltage in millivolts from a code of the internal
/// reference channel.
pub fn calibrate_supply(factory: FactoryCalibration, measured: u16) -> (vdda: u32)
    requires
        measured != 0,
    ensures
        vdda == calibrated_supply(factory, measured),
{
    let reference: u32 = factory.reference_mv as u32;
    let code: u32 = factory.vref_code as u32;
    assert(reference * code <= 0xFFFF * 0xFFFF) by (nonlinear_arith)
        requires
            reference <= 0xFFFF,
            code <= 0xFFFF,
    ;
    (reference * code) / (measured as u32)
}

/// Computes the voltage of a sample in millivolts.
pub fn millivolts(sample: u16, vdda: u32, range: u32) -> (mv: u16)
    requires
        range != 0,
    ensures
        mv == sample_millivolts(sample, vdda, range),
        sample == 0 ==> mv == 0,
{
    let wide_sample: u64 = sample as u64;
    let wide_vdda: u64 = vdda as u64;
    assert(wide_sample * wide_vdda <= 0xFFFF * 0xFFFF_FFFF) by (nonlinear_arith)
        requires
            wide_sample <= 0xFFFF,
            wide_vdda <= 0xFFFF_FFFF,
    ;
    assert(wide_sample == 0 ==> (wide_sample * wide_vdda) / (range as int) == 0)
        by (nonlinear_arith)
        requires
            range != 0,
    ;
    let exact: u64 = (wide_sample * wide_vdda) / (range as u64);
    if exact > 0xFFFF {
        0xFFFF
    } else {
        exact as u16
    }
}

/// Computes the voltage of a code in millivolts by the nominal voltage of
/// the reference and a code of the reference channel.
pub fn millivolts_by_reference(data: u16, vref: u16) -> (mv: u16)
    requires
        vref != 0,
    ensures
        mv == nominal_millivolts(data, vref),
{
    let exact: u32 = ((data as u32) * VREF_NOMINAL_MV) / (vref as u32);
    if exact > 0xFFFF {
        0xFFFF
    } else {
        exact as u16
    }
}

/// The voltage of a sample never falls when the sample grows: for every
/// supply voltage and every resolution, a larger sample gives the same
/// voltage or a larger one.  The voltage of the sample 0 is 0, and wherever
/// the exact voltage fits in 16 bits, it is the voltage returned.
pub proof fn lemma_millivolts_monotonic(low: u16, high: u16, vdda: u32, range: u32)
    requires
        range != 0,
        low <= high,
    ensures
        sample_millivolts(low, vdda, range) <= sample_millivolts(high, vdda, range),
        sample_millivolts(0, vdda, range) == 0,
        exact_millivolts(high, vdda, range) <= u16::MAX ==> sample_millivolts(high, vdda, range)
            == exact_millivolts(high, vdda, range) && sample_millivolts(low, vdda, range)
            == exact_millivolts(low, vdda, range),
{
    let l = low as int;
    let h = high as int;
    let v = vdda as int;
    let r = range as int;
    assert(0 <= (l * v) / r <= (h * v) / r) by (nonlinear_arith)
        requires
            0 <= l <= h,
            0 <= v,
            0 < r,
    ;
    assert((0 * v) / r == 0) by (nonlinear_arith)
        requires
            0 < r,
    ;
}

/// The voltage of a code by the nominal reference never falls when the code
/// grows, and the voltage of the code 0 is 0.
pub proof fn lemma_nominal_millivolts_monotonic(low: u16, high: u16, vref: u16)
    requires
        vref != 0,
        low <= high,
    ensures
        nominal_millivolts(low, vref) <= nominal_millivolts(high, vref),
        nominal_millivolts(0, vref) == 0,
{
    let l = low as int;
    let h = high as int;
    let r = vref as int;
    let n = VREF_NOMINAL_MV as int;
    assert(0 <= (l * n) / r <= (h * n) / r) by (nonlinear_arith)
        requires
            0 <= l <= h,
            0 <= n,
            0 < r,
    ;
    assert((0 * n) / r == 0) by (nonlinear_arith)
        requires
            0 < r,
    ;
}

/// Switching the sensor block on leaves the battery monitor off and the
/// block on, whatever the common control register held, and touches no other
/// bit and no other register.
pub proof fn lemma_enable_sensors_excludes_vbat(regs: Registers)
    ensures
        ({
            let new = regs.after_all(enable_sensors_updates());
            &&& new == Registers { ccr: new.ccr, ..regs }
            &&& new.ccr & CCR_VBATE == 0
            &&& shows_sensors_enabled(new.ccr)
            &&& new.ccr & !(CCR_VBATE | CCR_TSVREFE) == regs.ccr & !(CCR_VBATE | CCR_TSVREFE)
        }),
{
    let first = seq![disable_vbat_update()];
    let second = seq![Action::Modify { reg: Register::Ccr, mask: CCR_TSVREFE, bits: CCR_TSVREFE }];
    assert(enable_sensors_updates() =~= first + second);
    lemma_after_all_concat(regs, first, second);
    lemma_after_all_single(regs, first[0]);
    lemma_after_all_single(regs.after_all(first), second[0]);
    let old = regs.ccr;
    assert({
        let mid = (old & !0x0040_0000u32) | (0u32 & 0x0040_0000u32);
        let new = (mid & !0x0080_0000u32) | (0x0080_0000u32 & 0x0080_0000u32);
        &&& new & 0x0040_0000u32 == 0
        &&& new & 0x0080_0000u32 != 0
        &&& new & !(0x0040_0000u32 | 0x0080_0000u32) == old & !(0x0040_0000u32 | 0x0080_0000u32)
    }) by (bit_vector);
}

/// Sampling the reference leaves a sensor block that is on alone: when the
/// probe shows it as on, no step stores anything in the common control
/// register, and no later step is asked to switch it off.
pub proof fn lemma_vref_leaves_enabled_sensors(
    regs: Registers,
    state: VrefState,
    sample_time: SampleTime,
    align: Align,
    sysclk_hz: u32,
    reading: u32,
)
    requires
        (match state {
            VrefState::Idle => true,
            VrefState::Probing => shows_sensors_enabled(reading),
            VrefState::Converting { conversion, restore } => !restore,
        }),
    ensures
        regs.after_all(vref_actions(state, sample_time, align, sysclk_hz, reading)).ccr
            == regs.ccr,
        (vref_next(state, reading) matches VrefState::Converting { conversion, restore }
            ==> !restore),
{
    let actions = vref_actions(state, sample_time, align, sysclk_hz, reading);
    match state {
        VrefState::Idle => {
            lemma_after_all_single(regs, Action::Read { reg: Register::Ccr });
        },
        VrefState::Probing => {
            let inner = conversion_actions(
                ConversionState::Idle,
                Vref::channel(),
                sample_time,
                align,
                reading,
            );
            assert(actions =~= inner);
            lemma_conversion_leaves_common_control(
                regs,
                ConversionState::Idle,
                Vref::channel(),
                sample_time,
                align,
                reading,
            );
        },
        VrefState::Converting { conversion, restore } => {
            let inner = conversion_actions(conversion, Vref::channel(), sample_time, align, reading);
            assert(actions =~= inner);
            lemma_conversion_leaves_common_control(
                regs,
                conversion,
                Vref::channel(),
                sample_time,
                align,
                reading,
            );
        },
    }
}

/// When the probe shows the sensor block as off, the step switches it on
/// and waits before anything of the conversion: its first three actions are
/// the two switches and the delay.  After the step the block is on, the
/// battery monitor is off, and the steps that follow are asked to switch the
/// block off again.
pub proof fn lemma_vref_enables_sensors_first(
    regs: Registers,
    sample_time: SampleTime,
    align: Align,
    sysclk_hz: u32,
    reading: u32,
)
    requires
        !shows_sensors_enabled(reading),
    ensures
        ({
            let actions = vref_actions(VrefState::Probing, sample_time, align, sysclk_hz, reading);
            let new = regs.after_all(actions);
            &&& actions.len() >= 3
            &&& actions.take(3) == enable_sensors_updates() + seq![
                Action::Delay { cycles: sensor_delay_cycles(sysclk_hz) },
            ]
            &&& shows_sensors_enabled(new.ccr)
            &&& new.ccr & CCR_VBATE == 0
            &&& new.ccr & !(CCR_VBATE | CCR_TSVREFE) == regs.ccr & !(CCR_VBATE | CCR_TSVREFE)
            &&& vref_next(VrefState::Probing, reading) matches VrefState::Converting {
                conversion,
                restore,
            } && restore
        }),
{
    let actions = vref_actions(VrefState::Probing, sample_time, align, sysclk_hz, reading);
    let wait = seq![Action::Delay { cycles: sensor_delay_cycles(sysclk_hz) }];
    let inner = conversion_actions(
        ConversionState::Idle,
        Vref::channel(),
        sample_time,
        align,
        reading,
    );
    assert(actions =~= (enable_sensors_updates() + wait) + inner);
    assert(actions.take(3) =~= enable_sensors_updates() + wait);
    lemma_after_all_concat(regs, enable_sensors_updates() + wait, inner);
    lemma_after_all_concat(regs, enable_sensors_updates(), wait);
    lemma_enable_sensors_excludes_vbat(regs);
    let enabled = regs.after_all(enable_sensors_updates());
    lemma_after_all_single(enabled, wait[0]);
    lemma_conversion_leaves_common_control(
        enabled,
        ConversionState::Idle,
        Vref::channel(),
        sample_time,
        align,
        reading,
    );
}

/// A sampling that switched the sensor block on switches it off with its
/// last step and not before: while the conversion runs, the common control
/// register is as it was; with the step that gives the code, the block goes
/// off, and every other bit stays.
pub proof fn lemma_vref_restores_sensors(
    regs: Registers,
    conversion: ConversionState,
    sample_time: SampleTime,
    align: Align,
    sysclk_hz: u32,
    reading: u32,
)
    ensures
        ({
            let state = VrefState::Converting { conversion, restore: true };
            let new = regs.after_all(vref_actions(state, sample_time, align, sysclk_hz, reading));
            if vref_sample(state, reading) is Some {
                &&& !shows_sensors_enabled(new.ccr)
                &&& new.ccr & !CCR_TSVREFE == regs.ccr & !CCR_TSVREFE
                &&& vref_next(state, reading) == VrefState::Idle
            } else {
                &&& new.ccr == regs.ccr
                &&& vref_next(state, reading) == VrefState::Converting {
                    conversion: conversion_next(conversion, reading),
                    restore: true,
                }
            }
        }),
{
    let state = VrefState::Converting { conversion, restore: true };
    let actions = vref_actions(state, sample_time, align, sysclk_hz, reading);
    let inner = conversion_actions(conversion, Vref::channel(), sample_time, align, reading);
    lemma_conversion_leaves_common_control(
        regs,
        conversion,
        Vref::channel(),
        sample_time,
        align,
        reading,
    );
    if vref_sample(state, reading) is Some {
        let off = seq![disable_sensors_update()];
        assert(actions =~= inner + off);
        lemma_after_all_concat(regs, inner, off);
        lemma_after_all_single(regs.after_all(inner), off[0]);
        let old = regs.ccr;
        assert({
            let new = (old & !0x0080_0000u32) | (0u32 & 0x0080_0000u32);
            &&& new & 0x0080_0000u32 == 0
            &&& new & !0x0080_0000u32 == old & !0x0080_0000u32
        }) by (bit_vector);
    } else {
        assert(actions =~= inner);
    }
}

} // verus!
