//! Control logic of a successive-approximation analog-to-digital converter.
//!
//! The library decides *what* is done to the peripheral and in which order;
//! it never touches a register itself.  Every operation yields [`bus::Action`]s
//! (register accesses, clock-gate requests, busy-wait delays) that the
//! caller performs on the hardware, and the blocking protocols are state
//! machines that take the value of the last register read and answer with the
//! next accesses.  [`bus::Registers`] gives those accesses their meaning.
//!
//! - [`bits`]: fields of a register.
//! - [`bus`]: registers, accesses, and the register file as a model.
//! - [`config`]: sample time, alignment, resolution, internal channels.
//! - [`sequencer`]: sample times per channel and the regular sequence.
//! - [`conversion`]: the single conversion, step by step.
//! - [`calibration`]: the internal reference and the conversion to
//!   millivolts.
//! - [`adc`]: the instance that ties these to its settings.

pub mod bits;

pub mod bus;

pub mod config;

pub mod sequencer;

pub mod conversion;

pub mod calibration;

pub mod adc;
