//! Software-side settings: sample time, alignment, resolution, and the
//! internal channels.

use vstd::prelude::*;
use vstd::std_specs::convert::FromSpecImpl;

verus! {

/// Vref internal signal, used for calibration.
pub struct Vref;

/// Vbat internal signal, used for monitoring the battery.
pub struct Vbat;

/// Core temperature internal signal.
pub struct Temperature;

/// The highest channel number that the sequencer knows.
pub const LAST_CHANNEL: u8 = 18;

impl Temperature {
    /// The channel on which the temperature sensor is converted.
    pub fn channel() -> (chan: u8)
        ensures
            chan == 16,
    {
        16
    }
}

impl Vref {
    /// The channel on which the internal reference is converted.
    pub open spec fn spec_channel() -> u8 {
        17
    }

    /// The channel on which the internal reference is converted.
    #[verifier::when_used_as_spec(spec_channel)]
    pub fn channel() -> (chan: u8)
        ensures
            chan == 17,
    {
        17
    }
}

impl Vbat {
    /// The channel on which the battery monitor is converted.
    pub fn channel() -> (chan: u8)
        ensures
            chan == 18,
    {
        18
    }
}

/// Sampling time of a channel, in cycles of the converter's clock.
#[derive(Clone, Copy, Debug, PartialEq, Eq, Structural)]
#[allow(non_camel_case_types)]
pub enum SampleTime {
    /// 3 cycles sampling time
    T_3,
    /// 15 cycles sampling time
    T_15,
    /// 28 cycles sampling time
    T_28,
    /// 56 cycles sampling time
    T_56,
    /// 84 cycles sampling time
    T_84,
    /// 112 cycles sampling time
    T_112,
    /// 144 cycles sampling time
    T_144,
    /// 480 cycles sampling time
    T_480,
}

impl SampleTime {
    /// The three-bit code of the sample time in a sample-time register.
    pub open spec fn code(self) -> u8 {
        match self {
            SampleTime::T_3 => 0,
            SampleTime::T_15 => 1,
            SampleTime::T_28 => 2,
            SampleTime::T_56 => 3,
            SampleTime::T_84 => 4,
            SampleTime::T_112 => 5,
            SampleTime::T_144 => 6,
            SampleTime::T_480 => 7,
        }
    }
}

impl Default for SampleTime {
    /// The default sample time: 56 cycles.
    fn default() -> (t: Self)
        ensures
            t == SampleTime::T_56,
    {
        SampleTime::T_56
    }
}

impl From<SampleTime> for u8 {
    fn from(val: SampleTime) -> (code: Self) {
        match val {
            SampleTime::T_3 => 0,
            SampleTime::T_15 => 1,
            SampleTime::T_28 => 2,
            SampleTime::T_56 => 3,
            SampleTime::T_84 => 4,
            SampleTime::T_112 => 5,
            SampleTime::T_144 => 6,
            SampleTime::T_480 => 7,
        }
    }
}

impl FromSpecImpl<SampleTime> for u8 {
    open spec fn obeys_from_spec() -> bool {
        true
    }

    open spec fn from_spec(val: SampleTime) -> Self {
        val.code()
    }
}

/// Alignment of the result in the data register.
#[derive(Clone, Copy, Debug, PartialEq, Eq, Structural)]
pub enum Align {
    /// Right alignment of output data
    Right,
    /// Left alignment of output data
    Left,
}

impl Align {
    /// The alignment bit of the second control register: set for left.
    pub open spec fn bit(self) -> bool {
        self == Align::Left
    }
}

impl Default for Align {
    /// The default alignment: right.
    fn default() -> (a: Self)
        ensures
            a == Align::Right,
    {
        Align::Right
    }
}

impl From<Align> for bool {
    fn from(val: Align) -> (bit: Self) {
        match val {
            Align::Right => false,
            Align::Left => true,
        }
    }
}

impl FromSpecImpl<Align> for bool {
    open spec fn obeys_from_spec() -> bool {
        true
    }

    open spec fn from_spec(val: Align) -> Self {
        val.bit()
    }
}

/// A snapshot of sample time and alignment, as `Adc::save_cfg` takes it and
/// `Adc::restore_cfg` puts it back.  It holds no hardware state.
#[derive(Clone, Copy, Debug, PartialEq, Eq, Structural)]
pub struct StoredConfig(pub SampleTime, pub Align);

impl Default for StoredConfig {
    /// The default sample time with the default alignment.
    fn default() -> (cfg: Self)
        ensures
            cfg == StoredConfig(SampleTime::T_56, Align::Right),
    {
        StoredConfig(SampleTime::T_56, Align::Right)
    }
}

/// The number of codes of a resolution given in bits: 10, 8 and 6 bits are
/// what they say, every other request is served with 12 bits.
pub open spec fn sample_range(resolution_bits: u8) -> u32 {
    if resolution_bits == 10 {
        1024
    } else if resolution_bits == 8 {
        256
    } else if resolution_bits == 6 {
        64
    } else {
        4096
    }
}

/// The two-bit code of a resolution in the first control register:
/// `0b00` for 12 bits, `0b01` for 10, `0b10` for 8, `0b11` for 6.
pub open spec fn resolution_code(resolution_bits: u8) -> u32 {
    if resolution_bits == 10 {
        0b01
    } else if resolution_bits == 8 {
        0b10
    } else if resolution_bits == 6 {
        0b11
    } else {
        0b00
    }
}

/// What the factory recorded of this device: the supply voltage at which it
/// was tested, in millivolts, and the code that the internal reference
/// channel gave at that voltage.
#[derive(Clone, Copy, Debug, PartialEq, Eq, Structural)]
pub struct FactoryCalibration {
    pub reference_mv: u16,
    pub vref_code: u16,
}

/// Which of the converter units an instance drives.  The first unit has the
/// three internal channels beside the sixteen inputs; the others have the
/// inputs only.
#[derive(Clone, Copy, Debug, PartialEq, Eq, Structural)]
pub enum AdcUnit {
    Adc1,
    Adc2,
    Adc3,
}

impl AdcUnit {
    /// Whether the unit converts the temperature sensor, the internal
    /// reference and the battery monitor.
    pub open spec fn has_internal_channels(self) -> bool {
        self == AdcUnit::Adc1
    }

    /// The number of channels that the unit converts.
    pub open spec fn channel_count(self) -> u8 {
        if self.has_internal_channels() {
            19
        } else {
            16
        }
    }

    /// Tells whether the unit has the internal channels.
    pub fn internal_channels(self) -> (has: bool)
        ensures
            has == self.has_internal_channels(),
    {
        match self {
            AdcUnit::Adc1 => true,
            _ => false,
        }
    }

    /// Counts the channels of the unit.
    pub fn channels(self) -> (count: u8)
        ensures
            count == self.channel_count(),
    {
        if self.internal_channels() {
            19
        } else {
            16
        }
    }
}

} // verus!
