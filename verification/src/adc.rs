//! The converter instance: its software-side state and the operations on it.

use vstd::prelude::*;
use crate::bits::{field, place, placed};
use crate::bus::{
    lemma_after_all_concat, lemma_after_all_pair, lemma_after_all_single,
    lemma_after_all_triple, Action, Register, Registers, CR1_DISCEN,
    CR1_RES, CR1_RES_OFFSET, CR1_SCAN, CR2_ADON, CR2_ALIGN, CR2_CONT, CR2_DDS, CR2_DMA,
    CR2_EXTSEL, CR2_EXTSEL_OFFSET, CR2_SWSTART, SQR1_L,
};
use crate::calibration::{
    calibrate_supply, calibrated_supply, disable_sensors, disable_sensors_update, disable_vbat,
    disable_vbat_update, enable_sensors, enable_sensors_updates, enable_vbat, enable_vbat_update,
    lemma_millivolts_monotonic, millivolts, millivolts_by_reference, nominal_millivolts,
    sample_millivolts, sensors_enabled, shows_sensors_enabled, vref_actions, vref_next,
    vref_sample, vref_step, VrefState, VrefStep,
};
use crate::config::{
    resolution_code, sample_range, AdcUnit, Align, FactoryCalibration, SampleTime, StoredConfig,
};
use crate::conversion::{
    clear_end_of_conversion, clear_end_of_conversion_update, conversion_actions, conversion_next,
    conversion_sample, conversion_step, sample_of, sample_of_reading, start_actions, start_next,
    start_step, ConversionState, ConversionStep,
};
use crate::sequencer::{
    channel_sample_time, continuous_mode, discontinuous_mode, discontinuous_update,
    regular_sequence, ChannelTimeSequence,
};

verus! {

/// System clock cycles per cycle of the delay after power-on: the delay is
/// `sysclk / POWER_UP_DELAY_DIVIDER` cycles long.
pub const POWER_UP_DELAY_DIVIDER: u32 = 800_000;

/// The most elements that one streaming transfer can move.
pub const MAX_TRANSFER: usize = 65535;

/// What an instance holds.
pub struct AdcView {
    /// The unit that the instance drives.
    pub unit: AdcUnit,
    /// The sample time that a conversion gives its channel.
    pub sample_time: SampleTime,
    /// The alignment that a conversion asks for.
    pub align: Align,
    /// The frequency of the system clock, in hertz.
    pub sysclk_hz: u32,
    /// What the factory recorded.
    pub factory: FactoryCalibration,
    /// The supply voltage in millivolts: the factory's until a calibration
    /// replaces it.
    pub calibrated_vdda: u32,
    /// The number of codes of the resolution: 4096, 1024, 256 or 64.
    pub sample_range: u32,
}

impl AdcView {
    /// The number of codes is that of one of the four resolutions.
    pub open spec fn well_formed(self) -> bool {
        self.sample_range == 4096 || self.sample_range == 1024 || self.sample_range == 256
            || self.sample_range == 64
    }

    /// The instance as it is made: default sample time and alignment, the
    /// factory's supply voltage, and the range of the resolution asked for.
    pub open spec fn fresh(
        unit: AdcUnit,
        sysclk_hz: u32,
        factory: FactoryCalibration,
        resolution_bits: u8,
    ) -> AdcView {
        AdcView {
            unit,
            sample_time: SampleTime::T_56,
            align: Align::Right,
            sysclk_hz,
            factory,
            calibrated_vdda: factory.reference_mv as u32,
            sample_range: sample_range(resolution_bits),
        }
    }

    /// The snapshot that `save_cfg` takes.
    pub open spec fn saved(self) -> StoredConfig {
        StoredConfig(self.sample_time, self.align)
    }

    /// What `restore_cfg` makes of the instance.
    pub open spec fn restored(self, cfg: StoredConfig) -> AdcView {
        AdcView { sample_time: cfg.0, align: cfg.1, ..self }
    }
}

/// One converter unit: the settings that software keeps of it.
pub struct Adc {
    unit: AdcUnit,
    sample_time: SampleTime,
    align: Align,
    sysclk: u32,
    factory: FactoryCalibration,
    /// VDDA in millivolts calculated from the factory calibration and vrefint
    calibrated_vdda: u32,
    max_sample: u32,
}

/// The direction in which a streaming transfer moves data.
#[derive(Clone, Copy, Debug, PartialEq, Eq, Structural)]
pub enum TransferDirection {
    /// From a register of the peripheral to memory.
    PeripheralToMemory,
    /// From memory to a register of the peripheral.
    MemoryToPeripheral,
}

/// An instance that was handed to a streaming transfer.  It gives the
/// instance back only as a whole, so that nothing converts on it meanwhile.
pub struct Streaming {
    adc: Adc,
    length: u16,
}

/// What a streaming instance holds.
pub struct StreamingView {
    /// The instance inside.
    pub adc: AdcView,
    /// The number of results that the transfer moves.
    pub length: u16,
}

/// The access that powers the converter down.
pub open spec fn power_down_update() -> Action {
    Action::Modify { reg: Register::Cr2, mask: CR2_ADON, bits: 0 }
}

/// The length of the delay after power-on, in cycles of a system clock of
/// `sysclk_hz` hertz.
pub open spec fn power_up_delay_cycles(sysclk_hz: u32) -> u32 {
    sysclk_hz / POWER_UP_DELAY_DIVIDER
}

/// Powering up: the power bit, then the time that the converter needs to
/// settle.
pub open spec fn power_up_actions(sysclk_hz: u32) -> Seq<Action> {
    seq![
        Action::Modify { reg: Register::Cr2, mask: CR2_ADON, bits: CR2_ADON },
        Action::Delay { cycles: power_up_delay_cycles(sysclk_hz) },
    ]
}

/// The one-shot posture: no continuous conversion and a software start; no
/// scan, discontinuous mode; a sequence of one conversion.
pub open spec fn oneshot_actions() -> Seq<Action> {
    seq![
        Action::Modify { reg: Register::Cr2, mask: CR2_CONT | CR2_SWSTART, bits: CR2_SWSTART },
        Action::Modify { reg: Register::Cr1, mask: CR1_SCAN | CR1_DISCEN, bits: CR1_DISCEN },
        Action::Modify { reg: Register::Sqr1, mask: SQR1_L, bits: 0 },
    ]
}

/// The access that sets the resolution.
pub open spec fn resolution_update(resolution_bits: u8) -> Action {
    Action::Modify {
        reg: Register::Cr1,
        mask: CR1_RES,
        bits: placed(resolution_code(resolution_bits), 0x3, CR1_RES_OFFSET),
    }
}

/// Bringing a unit up: the clock gate; on request power-off and a reset;
/// the one-shot posture; the resolution; power-on and its delay.
pub open spec fn startup_actions(sysclk_hz: u32, resolution_bits: u8, reset: bool) -> Seq<Action> {
    seq![Action::EnableClock] + (if reset {
        seq![power_down_update(), Action::ResetPeripheral]
    } else {
        Seq::<Action>::empty()
    }) + oneshot_actions() + seq![resolution_update(resolution_bits)] + power_up_actions(sysclk_hz)
}

/// Giving a unit up: power-off, then the clock gate.
pub open spec fn release_actions() -> Seq<Action> {
    seq![power_down_update(), Action::DisableClock]
}

/// The access that selects the source of the external trigger.
pub open spec fn external_trigger_update(source: u8) -> Action {
    Action::Modify {
        reg: Register::Cr2,
        mask: CR2_EXTSEL,
        bits: placed(source as u32, 0xF, CR2_EXTSEL_OFFSET),
    }
}

/// The bits of the second control register that streaming sets: continuous
/// conversion, streaming requests that go on after the last transfer, power,
/// and the alignment.
pub open spec fn streaming_bits(align: Align) -> u32 {
    if align.bit() {
        CR2_ALIGN | CR2_CONT | CR2_DMA | CR2_DDS | CR2_ADON
    } else {
        CR2_CONT | CR2_DMA | CR2_DDS | CR2_ADON
    }
}

/// Entering streaming: discontinuous mode off, then the streaming bits.
pub open spec fn streaming_actions(align: Align) -> Seq<Action> {
    seq![
        discontinuous_update(None),
        Action::Modify {
            reg: Register::Cr2,
            mask: CR2_ALIGN | CR2_CONT | CR2_DMA | CR2_DDS | CR2_ADON,
            bits: streaming_bits(align),
        },
    ]
}

/// Computes the access that powers the converter down.
fn power_down() -> (update: Action)
    ensures
        update == power_down_update(),
{
    Action::Modify { reg: Register::Cr2, mask: CR2_ADON, bits: 0 }
}

/// Appends the accesses of powering up.
fn power_up(actions: &mut Vec<Action>, sysclk_hz: u32)
    ensures
        final(actions)@ == old(actions)@ + power_up_actions(sysclk_hz),
{
    actions.push(Action::Modify { reg: Register::Cr2, mask: CR2_ADON, bits: CR2_ADON });
    actions.push(Action::Delay { cycles: sysclk_hz / POWER_UP_DELAY_DIVIDER });
    assert(actions@ =~= old(actions)@ + power_up_actions(sysclk_hz));
}

/// Appends the accesses of the one-shot posture.
fn setup_oneshot(actions: &mut Vec<Action>)
    ensures
        final(actions)@ == old(actions)@ + oneshot_actions(),
{
    actions.push(
        Action::Modify { reg: Register::Cr2, mask: CR2_CONT | CR2_SWSTART, bits: CR2_SWSTART },
    );
    actions.push(
        Action::Modify { reg: Register::Cr1, mask: CR1_SCAN | CR1_DISCEN, bits: CR1_DISCEN },
    );
    actions.push(Action::Modify { reg: Register::Sqr1, mask: SQR1_L, bits: 0 });
    assert(actions@ =~= old(actions)@ + oneshot_actions());
}

/// Computes the access that sets the resolution, and the number of codes
/// of that resolution.
fn resolution(resolution_bits: u8) -> (set: (Action, u32))
    ensures
        set.0 == resolution_update(resolution_bits),
        set.1 == sample_range(resolution_bits),
{
    let (code, range): (u32, u32) = match resolution_bits {
        10 => (0b01, 1024),
        8 => (0b10, 256),
        6 => (0b11, 64),
        _ => (0b00, 4096),
    };
    (
        Action::Modify { reg: Register::Cr1, mask: CR1_RES, bits: place(code, 0x3, CR1_RES_OFFSET) },
        range,
    )
}

impl View for Adc {
    type V = AdcView;

    closed spec fn view(&self) -> AdcView {
        AdcView {
            unit: self.unit,
            sample_time: self.sample_time,
            align: self.align,
            sysclk_hz: self.sysclk,
            factory: self.factory,
            calibrated_vdda: self.calibrated_vdda,
            sample_range: self.max_sample,
        }
    }
}

impl View for Streaming {
    type V = StreamingView;

    closed spec fn view(&self) -> StreamingView {
        StreamingView { adc: self.adc@, length: self.length }
    }
}

impl Adc {
    /// What holds of every instance: its number of codes is that of one of
    /// the four resolutions.
    #[verifier::type_invariant]
    pub closed spec fn well_formed(&self) -> bool {
        self@.well_formed()
    }

    /// Makes the instance of a unit and the accesses that bring the unit up.
    ///
    /// The instance starts with the default sample time and alignment, with
    /// the factory's supply voltage, and with the resolution asked for: 12,
    /// 10, 8 or 6 bits, and 12 bits for any other number.  With `reset` the
    /// unit is powered off and reset before it is configured, for a unit in
    /// an unknown state.  The last access is the delay after power-on: the
    /// unit is ready once all accesses are performed.
    pub fn new(
        unit: AdcUnit,
        sysclk_hz: u32,
        factory: FactoryCalibration,
        nb_resolution_bits: u8,
        reset: bool,
    ) -> (started: (Adc, Vec<Action>))
        ensures
            started.0@ == AdcView::fresh(unit, sysclk_hz, factory, nb_resolution_bits),
            started.0@.well_formed(),
            started.1@ == startup_actions(sysclk_hz, nb_resolution_bits, reset),
    {
        let (set_resolution, range) = resolution(nb_resolution_bits);
        let s = Adc {
            unit,
            sample_time: SampleTime::default(),
            align: Align::default(),
            sysclk: sysclk_hz,
            factory,
            calibrated_vdda: factory.reference_mv as u32,
            max_sample: range,
        };
        let mut actions: Vec<Action> = Vec::new();
        actions.push(Action::EnableClock);
        if reset {
            actions.push(power_down());
            actions.push(Action::ResetPeripheral);
        }
        setup_oneshot(&mut actions);
        actions.push(set_resolution);
        power_up(&mut actions, sysclk_hz);
        assert(actions@ =~= startup_actions(sysclk_hz, nb_resolution_bits, reset));
        (s, actions)
    }

    /// Makes the instance of the first unit; see [`Adc::new`].
    pub fn adc1(
        sysclk_hz: u32,
        factory: FactoryCalibration,
        nb_resolution_bits: u8,
        reset: bool,
    ) -> (started: (Adc, Vec<Action>))
        ensures
            started.0@ == AdcView::fresh(AdcUnit::Adc1, sysclk_hz, factory, nb_resolution_bits),
            started.1@ == startup_actions(sysclk_hz, nb_resolution_bits, reset),
    {
        Adc::new(AdcUnit::Adc1, sysclk_hz, factory, nb_resolution_bits, reset)
    }

    /// Makes the instance of the second unit; see [`Adc::new`].
    pub fn adc2(
        sysclk_hz: u32,
        factory: FactoryCalibration,
        nb_resolution_bits: u8,
        reset: bool,
    ) -> (started: (Adc, Vec<Action>))
        ensures
            started.0@ == AdcView::fresh(AdcUnit::Adc2, sysclk_hz, factory, nb_resolution_bits),
            started.1@ == startup_actions(sysclk_hz, nb_resolution_bits, reset),
    {
        Adc::new(AdcUnit::Adc2, sysclk_hz, factory, nb_resolution_bits, reset)
    }

    /// Makes the instance of the third unit; see [`Adc::new`].
    pub fn adc3(
        sysclk_hz: u32,
        factory: FactoryCalibration,
        nb_resolution_bits: u8,
        reset: bool,
    ) -> (started: (Adc, Vec<Action>))
        ensures
            started.0@ == AdcView::fresh(AdcUnit::Adc3, sysclk_hz, factory, nb_resolution_bits),
            started.1@ == startup_actions(sysclk_hz, nb_resolution_bits, reset),
    {
        Adc::new(AdcUnit::Adc3, sysclk_hz, factory, nb_resolution_bits, reset)
    }

    /// The unit that the instance drives.
    pub fn unit(&self) -> (unit: AdcUnit)
        ensures
            unit == self@.unit,
    {
        self.unit
    }

    /// The supply voltage in millivolts that conversions to millivolts go
    /// by.
    pub fn calibrated_vdda(&self) -> (vdda: u32)
        ensures
            vdda == self@.calibrated_vdda,
    {
        self.calibrated_vdda
    }

    /// Save current ADC config
    pub fn save_cfg(&mut self) -> (cfg: StoredConfig)
        ensures
            cfg == old(self)@.saved(),
            final(self)@ == old(self)@,
    {
        StoredConfig(self.sample_time, self.align)
    }

    /// Restore saved ADC config
    pub fn restore_cfg(&mut self, cfg: StoredConfig)
        ensures
            final(self)@ == old(self)@.restored(cfg),
    {
        proof {
            use_type_invariant(&*self);
        }
        self.sample_time = cfg.0;
        self.align = cfg.1;
    }

    /// Reset the ADC config to default, return existing config
    pub fn default_cfg(&mut self) -> (cfg: StoredConfig)
        ensures
            cfg == old(self)@.saved(),
            final(self)@ == old(self)@.restored(StoredConfig(SampleTime::T_56, Align::Right)),
    {
        proof {
            use_type_invariant(&*self);
        }
        let cfg = self.save_cfg();
        self.sample_time = SampleTime::default();
        self.align = Align::default();
        cfg
    }

    /// Set ADC sampling time
    pub fn set_sample_time(&mut self, t_samp: SampleTime)
        ensures
            final(self)@ == (AdcView { sample_time: t_samp, ..old(self)@ }),
    {
        proof {
            use_type_invariant(&*self);
        }
        self.sample_time = t_samp;
    }

    /// Set the Adc result alignment
    pub fn set_align(&mut self, align: Align)
        ensures
            final(self)@ == (AdcView { align, ..old(self)@ }),
    {
        proof {
            use_type_invariant(&*self);
        }
        self.align = align;
    }

    /// Returns the largest possible sample value for the current settings
    pub fn max_sample(&self) -> (max: u16)
        ensures
            max == self@.sample_range - 1,
            self@.well_formed(),
    {
        proof {
            use_type_invariant(self);
        }
        (self.max_sample - 1) as u16
    }

    /// Computes the access that selects the source of the external trigger:
    /// the low four bits of `source`.
    pub fn set_external_trigger(&mut self, source: u8) -> (update: Action)
        ensures
            update == external_trigger_update(source),
            final(self)@ == old(self)@,
    {
        Action::Modify {
            reg: Register::Cr2,
            mask: CR2_EXTSEL,
            bits: place(source as u32, 0xF, CR2_EXTSEL_OFFSET),
        }
    }

    /// One step of a conversion of channel `chan` (0 to 18) with the
    /// instance's sample time and alignment.
    ///
    /// The caller starts in `Idle`, performs the step's accesses in order,
    /// and hands the value of the last read among them to the next step,
    /// together with the step's `next`, until a step gives the sample.  A
    /// step that has no read takes any value.  No step gives up: for as long
    /// as the hardware keeps a flag down, the steps ask for the status again.
    pub fn convert(&mut self, state: ConversionState, chan: u8, reading: u32) -> (step:
        ConversionStep)
        requires
            chan <= 18,
        ensures
            final(self)@ == old(self)@,
            step.next == conversion_next(state, reading),
            step.actions@ == conversion_actions(
                state,
                chan,
                old(self)@.sample_time,
                old(self)@.align,
                reading,
            ),
            step.sample == conversion_sample(state, reading),
    {
        conversion_step(state, chan, self.sample_time, self.align, reading)
    }

    /// One step of starting the conversion of the sequence: clears the
    /// end-of-conversion flag, requests the start with the instance's
    /// alignment, and reads the status until the hardware shows the
    /// conversion as started.  The caller goes on as for [`Adc::convert`],
    /// until a step answers with `AwaitEndOfConversion`.
    pub fn start_conversion(&mut self, state: ConversionState, reading: u32) -> (step:
        ConversionStep)
        ensures
            final(self)@ == old(self)@,
            step.next == start_next(state, reading),
            step.actions@ == start_actions(state, old(self)@.align, reading),
            step.sample is None,
    {
        start_step(state, self.align, reading)
    }

    /// Computes the access that resets the end-of-conversion flag.
    pub fn clear_end_of_conversion_flag(&mut self) -> (update: Action)
        ensures
            final(self)@ == old(self)@,
            update == clear_end_of_conversion_update(),
    {
        clear_end_of_conversion()
    }

    /// Returns the sample in `data`, a value read from the data register
    /// (see [`crate::conversion::read_sample`]).
    pub fn current_sample(&self, data: u32) -> (sample: u16)
        ensures
            sample == sample_of(data),
    {
        sample_of_reading(data)
    }

    /// Gives the unit up: the accesses that power it down and close its
    /// clock gate.
    pub fn release(self) -> (actions: Vec<Action>)
        ensures
            actions@ == release_actions(),
    {
        let mut actions: Vec<Action> = Vec::new();
        actions.push(power_down());
        actions.push(Action::DisableClock);
        assert(actions@ =~= release_actions());
        actions
    }

    /// Hands the instance to a streaming transfer that fills a buffer of
    /// `buffer_len` results from the data register, and computes the
    /// accesses that put the unit into streaming: discontinuous mode off;
    /// continuous conversion, streaming requests that go on after the last
    /// transfer, and power on, with the instance's alignment.
    ///
    /// A transfer moves at most 65535 results.
    pub fn with_dma(self, buffer_len: usize) -> (handoff: (Streaming, Vec<Action>))
        requires
            buffer_len <= MAX_TRANSFER,
        ensures
            handoff.0@ == (StreamingView { adc: self@, length: buffer_len as u16 }),
            handoff.1@ == streaming_actions(self@.align),
    {
        let mut actions: Vec<Action> = Vec::new();
        actions.push(discontinuous_mode(None));
        let bits: u32 = if bool::from(self.align) {
            CR2_ALIGN | CR2_CONT | CR2_DMA | CR2_DDS | CR2_ADON
        } else {
            CR2_CONT | CR2_DMA | CR2_DDS | CR2_ADON
        };
        actions.push(
            Action::Modify {
                reg: Register::Cr2,
                mask: CR2_ALIGN | CR2_CONT | CR2_DMA | CR2_DDS | CR2_ADON,
                bits,
            },
        );
        assert(actions@ =~= streaming_actions(self@.align));
        (Streaming { adc: self, length: buffer_len as u16 }, actions)
    }
    /// One step of sampling the internal reference channel, for the unit
    /// that has it.  The caller goes on as for [`Adc::convert`], from
    /// `VrefState::Idle` until a step gives the code.
    ///
    /// If the sensor block is off, the steps switch the battery monitor off
    /// and the block on, wait for it to settle, convert, and switch the block
    /// off again.  If it is on, they convert and leave the switches alone.
    pub fn read_vref(&mut self, state: VrefState, reading: u32) -> (step: VrefStep)
        requires
            old(self)@.unit.has_internal_channels(),
        ensures
            final(self)@ == old(self)@,
            step.next == vref_next(state, reading),
            step.actions@ == vref_actions(
                state,
                old(self)@.sample_time,
                old(self)@.align,
                old(self)@.sysclk_hz,
                reading,
            ),
            step.sample == vref_sample(state, reading),
    {
        vref_step(state, self.sample_time, self.align, self.sysclk, reading)
    }

    /// One step of converting the code `data` to millivolts by a fresh
    /// sample of the internal reference and its nominal voltage of 1210 mV.
    /// The steps are those of [`Adc::read_vref`]; the last one gives
    /// `data * 1210 / vref`, capped at 65535, in place of the reference's code.
    /// [`Adc::sample_to_millivolts`] is the better way: it goes by the
    /// calibrated supply voltage and asks nothing of the hardware.
    ///
    /// The reference's code must not be zero.
    pub fn bits_to_voltage(&mut self, state: VrefState, reading: u32, data: u16) -> (step:
        VrefStep)
        requires
            old(self)@.unit.has_internal_channels(),
            vref_sample(state, reading) matches Some(code) ==> code != 0,
        ensures
            final(self)@ == old(self)@,
            step.next == vref_next(state, reading),
            step.actions@ == vref_actions(
                state,
                old(self)@.sample_time,
                old(self)@.align,
                old(self)@.sysclk_hz,
                reading,
            ),
            step.sample == (match vref_sample(state, reading) {
                Some(code) => Some(nominal_millivolts(data, code)),
                None => None,
            }),
    {
        let mut step = self.read_vref(state, reading);
        match step.sample {
            Some(code) => {
                step.sample = Some(millivolts_by_reference(data, code));
            },
            None => {},
        }
        step
    }

    /// Converts a sample value to millivolts using calibrated VDDA and
    /// configured resolution: `sample * vdda / range`, capped at 65535.  The
    /// supply voltage itself is never reached: the largest code of a
    /// resolution stays one step below it.
    pub fn sample_to_millivolts(&self, sample: u16) -> (mv: u16)
        requires
            self@.unit.has_internal_channels(),
        ensures
            mv == sample_millivolts(sample, self@.calibrated_vdda, self@.sample_range),
            sample == 0 ==> mv == 0,
    {
        proof {
            use_type_invariant(self);
        }
        millivolts(sample, self.calibrated_vdda, self.max_sample)
    }

    /// One step of calibrating the supply voltage: the steps are those of
    /// [`Adc::read_vref`], and with the last one the instance takes the
    /// supply voltage that follows from the reference's code and from what
    /// the factory recorded.  Before that step the instance is unchanged.
    ///
    /// The reference's code must not be zero.
    pub fn calibrate(&mut self, state: VrefState, reading: u32) -> (step: VrefStep)
        requires
            old(self)@.unit.has_internal_channels(),
            vref_sample(state, reading) matches Some(code) ==> code != 0,
        ensures
            step.next == vref_next(state, reading),
            step.actions@ == vref_actions(
                state,
                old(self)@.sample_time,
                old(self)@.align,
                old(self)@.sysclk_hz,
                reading,
            ),
            step.sample == vref_sample(state, reading),
            final(self)@ == (match vref_sample(state, reading) {
                Some(code) => AdcView {
                    calibrated_vdda: calibrated_supply(old(self)@.factory, code) as u32,
                    ..old(self)@
                },
                None => old(self)@,
            }),
    {
        proof {
            use_type_invariant(&*self);
        }
        let step = self.read_vref(state, reading);
        match step.sample {
            Some(code) => {
                self.calibrated_vdda = calibrate_supply(self.factory, code);
            },
            None => {},
        }
        step
    }

    /// Computes the access that enables the vbat internal channel.
    pub fn enable_vbat(&self) -> (update: Action)
        requires
            self@.unit.has_internal_channels(),
        ensures
            update == enable_vbat_update(),
    {
        enable_vbat()
    }

    /// Computes the access that disables the vbat internal channel.
    pub fn disable_vbat(&self) -> (update: Action)
        requires
            self@.unit.has_internal_channels(),
        ensures
            update == disable_vbat_update(),
    {
        disable_vbat()
    }

    /// Computes the accesses that enable the temp and vref internal
    /// channels.  They can't work while vbat is also enabled, so vbat is
    /// disabled first.
    pub fn enable_temperature_and_vref(&mut self) -> (updates: Vec<Action>)
        requires
            old(self)@.unit.has_internal_channels(),
        ensures
            final(self)@ == old(self)@,
            updates@ == enable_sensors_updates(),
    {
        enable_sensors()
    }

    /// Computes the access that disables the temp and vref internal
    /// channels.
    pub fn disable_temperature_and_vref(&mut self) -> (update: Action)
        requires
            old(self)@.unit.has_internal_channels(),
        ensures
            final(self)@ == old(self)@,
            update == disable_sensors_update(),
    {
        disable_sensors()
    }

    /// Returns if the temp and vref internal channels are enabled, by
    /// `ccr`, a value read from the common control register (see
    /// [`crate::calibration::read_sensor_switches`]).
    pub fn temperature_and_vref_enabled(&mut self, ccr: u32) -> (enabled: bool)
        requires
            old(self)@.unit.has_internal_channels(),
        ensures
            final(self)@ == old(self)@,
            enabled == shows_sensors_enabled(ccr),
    {
        sensors_enabled(ccr)
    }
}

impl Streaming {
    /// The register that the transfer reads: the data register.
    pub fn source(&self) -> (reg: Register)
        ensures
            reg == Register::Dr,
    {
        Register::Dr
    }

    /// The direction of the transfer: from the data register to memory.
    pub fn direction(&self) -> (direction: TransferDirection)
        ensures
            direction == TransferDirection::PeripheralToMemory,
    {
        TransferDirection::PeripheralToMemory
    }

    /// The number of results that the transfer moves.
    pub fn length(&self) -> (length: u16)
        ensures
            length == self@.length,
    {
        self.length
    }

    /// Takes the instance back, once the transfer has given it up.
    pub fn into_adc(self) -> (adc: Adc)
        ensures
            adc@ == self@.adc,
    {
        self.adc
    }
}

impl ChannelTimeSequence for Adc {
    fn set_channel_sample_time(&mut self, chan: u8, sample_time: SampleTime) -> (update: Action)
        ensures
            final(self)@ == old(self)@,
    {
        channel_sample_time(chan, sample_time)
    }

    fn set_regular_sequence(&mut self, channels: &[u8]) -> (updates: Vec<Action>)
        ensures
            final(self)@ == old(self)@,
    {
        regular_sequence(channels)
    }

    fn set_continuous_mode(&mut self, continuous: bool) -> (update: Action)
        ensures
            final(self)@ == old(self)@,
    {
        continuous_mode(continuous)
    }

    fn set_discontinuous_mode(&mut self, channels_count: Option<u8>) -> (update: Action)
        ensures
            final(self)@ == old(self)@,
    {
        discontinuous_mode(channels_count)
    }
}

/// A configuration that was saved comes back when it is restored, whatever
/// happened to the instance in between: sample time and alignment are those
/// of the moment of saving, and the rest of the instance is as it was just
/// before restoring.  Restoring at once leaves the instance as it was.
pub proof fn lemma_restore_after_save(saved_from: AdcView, restored_to: AdcView)
    ensures
        restored_to.restored(saved_from.saved()) == (AdcView {
            sample_time: saved_from.sample_time,
            align: saved_from.align,
            ..restored_to
        }),
        saved_from.restored(saved_from.saved()) == saved_from,
        restored_to.restored(saved_from.saved()).saved() == saved_from.saved(),
{
}

/// What the control registers hold once the one-shot posture and the
/// resolution are written and the power bit is set, from whatever they held.
proof fn lemma_startup_control(cr1: u32, cr2: u32, code: u32)
    by (bit_vector)
    requires
        code <= 3,
    ensures
        ({
            let posture = (cr1 & !(0x0000_0100u32 | 0x0000_0800u32)) | (0x0000_0800u32 & (
            0x0000_0100u32 | 0x0000_0800u32));
            let new1 = (posture & !0x0300_0000u32) | (((code & 0x3) << 24u32) & 0x0300_0000u32);
            let oneshot = (cr2 & !(0x0000_0002u32 | 0x4000_0000u32)) | (0x4000_0000u32 & (
            0x0000_0002u32 | 0x4000_0000u32));
            let new2 = (oneshot & !0x0000_0001u32) | (0x0000_0001u32 & 0x0000_0001u32);
            &&& (new1 >> 24u32) & 0x3 == code
            &&& new1 & 0x0000_0100u32 == 0
            &&& new1 & 0x0000_0800u32 != 0
            &&& new2 & 0x0000_0002u32 == 0
            &&& new2 & 0x0000_0001u32 != 0
        }),
{
}

/// Clearing the length field leaves a length of zero in it.
proof fn lemma_length_cleared(sqr1: u32)
    by (bit_vector)
    ensures
        ((((sqr1 & !0x00F0_0000u32) | (0u32 & 0x00F0_0000u32)) >> 20u32) & 0xF) == 0,
{
}

/// The registers once a unit is brought up, from whatever they held: the
/// resolution field holds the code of the resolution asked for; scan is off
/// and discontinuous mode on; continuous conversion is off; the sequence is
/// one conversion long; and the power bit is set.
pub proof fn lemma_startup_registers(
    regs: Registers,
    sysclk_hz: u32,
    resolution_bits: u8,
    reset: bool,
)
    ensures
        ({
            let new = regs.after_all(startup_actions(sysclk_hz, resolution_bits, reset));
            &&& field(new.cr1, 0x3, CR1_RES_OFFSET) == resolution_code(resolution_bits)
            &&& new.cr1 & CR1_SCAN == 0
            &&& new.cr1 & CR1_DISCEN != 0
            &&& new.cr2 & CR2_CONT == 0
            &&& new.cr2 & CR2_ADON != 0
            &&& new.sequence_length_field() == 0
        }),
{
    let gate = seq![Action::EnableClock];
    let clean = if reset {
        seq![power_down_update(), Action::ResetPeripheral]
    } else {
        Seq::<Action>::empty()
    };
    let set = seq![resolution_update(resolution_bits)];
    let power = power_up_actions(sysclk_hz);
    lemma_after_all_concat(regs, gate + clean + oneshot_actions() + set, power);
    lemma_after_all_concat(regs, gate + clean + oneshot_actions(), set);
    lemma_after_all_concat(regs, gate + clean, oneshot_actions());
    lemma_after_all_concat(regs, gate, clean);
    lemma_after_all_single(regs, gate[0]);
    if reset {
        lemma_after_all_pair(regs, clean[0], clean[1]);
    }
    let r1 = regs.after_all(gate).after_all(clean);
    lemma_after_all_triple(r1, oneshot_actions()[0], oneshot_actions()[1], oneshot_actions()[2]);
    let r2 = r1.after_all(oneshot_actions());
    lemma_after_all_single(r2, set[0]);
    let r3 = r2.after_all(set);
    lemma_after_all_pair(r3, power[0], power[1]);
    lemma_startup_control(r1.cr1, r1.cr2, resolution_code(resolution_bits));
    lemma_length_cleared(r1.sqr1);
}

/// The registers once a unit is put into streaming, from whatever they held:
/// discontinuous mode is off; continuous conversion, streaming requests and
/// their going on after the last transfer, and power are on; the alignment
/// bit is that of the instance.
pub proof fn lemma_streaming_registers(regs: Registers, align: Align)
    ensures
        ({
            let new = regs.after_all(streaming_actions(align));
            &&& new.cr1 & CR1_DISCEN == 0
            &&& new.cr2 & CR2_CONT != 0
            &&& new.cr2 & CR2_DMA != 0
            &&& new.cr2 & CR2_DDS != 0
            &&& new.cr2 & CR2_ADON != 0
            &&& (new.cr2 & CR2_ALIGN != 0) == align.bit()
        }),
{
    let actions = streaming_actions(align);
    lemma_after_all_pair(regs, actions[0], actions[1]);
    let cr1 = regs.cr1;
    let cr2 = regs.cr2;
    let left = align.bit();
    assert({
        let new1 = (cr1 & !0x0000_0800u32) | (0u32 & 0x0000_0800u32);
        let mask = 0x0000_0800u32 | 0x0000_0002u32 | 0x0000_0100u32 | 0x0000_0200u32
            | 0x0000_0001u32;
        let bits = if left {
            0x0000_0800u32 | 0x0000_0002u32 | 0x0000_0100u32 | 0x0000_0200u32 | 0x0000_0001u32
        } else {
            0x0000_0002u32 | 0x0000_0100u32 | 0x0000_0200u32 | 0x0000_0001u32
        };
        let new2 = (cr2 & !mask) | (bits & mask);
        &&& new1 & 0x0000_0800u32 == 0
        &&& new2 & 0x0000_0002u32 != 0
        &&& new2 & 0x0000_0100u32 != 0
        &&& new2 & 0x0000_0200u32 != 0
        &&& new2 & 0x0000_0001u32 != 0
        &&& (new2 & 0x0000_0800u32 != 0) == left
    }) by (bit_vector);
}

/// Bringing a unit up ends with the power bit and the delay that follows
/// it: once the accesses are performed, the converter has had its time to
/// settle.
pub proof fn lemma_startup_ends_with_delay(sysclk_hz: u32, resolution_bits: u8, reset: bool)
    ensures
        ({
            let actions = startup_actions(sysclk_hz, resolution_bits, reset);
            &&& actions.len() >= 2
            &&& actions[actions.len() - 2] == (Action::Modify {
                reg: Register::Cr2,
                mask: CR2_ADON,
                bits: CR2_ADON,
            })
            &&& actions.last() == (Action::Delay { cycles: power_up_delay_cycles(sysclk_hz) })
            &&& actions[0] == Action::EnableClock
        }),
{
}

/// On one instance, whatever its calibration and resolution, a larger
/// sample never converts to fewer millivolts than a smaller one, and the
/// sample 0 converts to 0.
pub proof fn lemma_sample_to_millivolts_monotonic(adc: AdcView, low: u16, high: u16)
    requires
        adc.well_formed(),
        low <= high,
    ensures
        sample_millivolts(low, adc.calibrated_vdda, adc.sample_range) <= sample_millivolts(
            high,
            adc.calibrated_vdda,
            adc.sample_range,
        ),
        sample_millivolts(0, adc.calibrated_vdda, adc.sample_range) == 0,
{
    lemma_millivolts_monotonic(low, high, adc.calibrated_vdda, adc.sample_range);
}

} // verus!
