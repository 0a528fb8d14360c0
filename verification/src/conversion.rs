//! The blocking single conversion as a state machine.
//!
//! A conversion runs `Idle → Triggered → AwaitStart → AwaitEndOfConversion →
//! ResultReady`.  Each step takes the state and the value of the last
//! register read, and answers with the accesses to perform next and the
//! state in which their reading is to be handed in.  The two waits repeat
//! their read for as long as the flag is down; nothing bounds them.

use vstd::prelude::*;
use crate::bus::{
    lemma_after_all_concat, lemma_after_all_pair, lemma_after_all_single, lemma_after_all_triple,
    Action, Register, Registers, CR2_ALIGN, CR2_SWSTART, DR_DATA, SR_EOC, SR_STRT,
};
use crate::config::{Align, SampleTime};
use crate::sequencer::{
    channel_sample_time, lemma_high_sample_time_is_local, lemma_low_sample_time_is_local,
    sample_time_update,
};

verus! {

/// Where a conversion stands.
#[derive(Clone, Copy, Debug, PartialEq, Eq, Structural)]
pub enum ConversionState {
    /// Nothing has been asked of the peripheral yet.
    Idle,
    /// The channel is programmed and the software start is written.
    Triggered,
    /// The status was read to see the conversion-started flag.
    AwaitStart,
    /// The status was read to see the end-of-conversion flag.
    AwaitEndOfConversion,
    /// The data register was read.
    ResultReady,
}

/// One step of a conversion: the accesses to perform, in order; the state
/// in which to hand in the value of the last of their reads; and, once the
/// conversion is over, the sample.
#[derive(Debug)]
pub struct ConversionStep {
    pub next: ConversionState,
    pub actions: Vec<Action>,
    pub sample: Option<u16>,
}

/// The result that a reading of the data register holds: its low 16 bits.
pub open spec fn sample_of(reading: u32) -> u16 {
    (reading % 0x1_0000) as u16
}

/// Whether a reading of the status register shows that the conversion has
/// started.
pub open spec fn shows_started(reading: u32) -> bool {
    reading & SR_STRT != 0
}

/// Whether a reading of the status register shows that a result is ready.
pub open spec fn shows_end_of_conversion(reading: u32) -> bool {
    reading & SR_EOC != 0
}

/// The access that clears the end-of-conversion flag.
pub open spec fn clear_end_of_conversion_update() -> Action {
    Action::Modify { reg: Register::Sr, mask: SR_EOC, bits: 0 }
}

/// The access that requests a conversion: the software start together with
/// the alignment bit.
pub open spec fn trigger_update(align: Align) -> Action {
    Action::Modify {
        reg: Register::Cr2,
        mask: CR2_SWSTART | CR2_ALIGN,
        bits: if align.bit() {
            CR2_SWSTART | CR2_ALIGN
        } else {
            CR2_SWSTART
        },
    }
}

/// The access that makes a channel the first entry of the regular sequence.
pub open spec fn select_channel_update(chan: u8) -> Action {
    Action::Modify { reg: Register::Sqr3, mask: 0x1F, bits: (chan as u32) & 0x1F }
}

/// The state after a step of starting a conversion.
pub open spec fn start_next(state: ConversionState, reading: u32) -> ConversionState {
    match state {
        ConversionState::Idle => ConversionState::Triggered,
        ConversionState::Triggered => ConversionState::AwaitStart,
        ConversionState::AwaitStart => if shows_started(reading) {
            ConversionState::AwaitEndOfConversion
        } else {
            ConversionState::AwaitStart
        },
        ConversionState::AwaitEndOfConversion => ConversionState::AwaitEndOfConversion,
        ConversionState::ResultReady => ConversionState::ResultReady,
    }
}

/// The accesses of a step of starting a conversion: first the flag is
/// cleared and the start requested, then the status is read until it shows
/// the conversion as started.
pub open spec fn start_actions(state: ConversionState, align: Align, reading: u32) -> Seq<Action> {
    match state {
        ConversionState::Idle => seq![clear_end_of_conversion_update(), trigger_update(align)],
        ConversionState::Triggered => seq![Action::Read { reg: Register::Sr }],
        ConversionState::AwaitStart => if shows_started(reading) {
            Seq::<Action>::empty()
        } else {
            seq![Action::Read { reg: Register::Sr }]
        },
        ConversionState::AwaitEndOfConversion => Seq::<Action>::empty(),
        ConversionState::ResultReady => Seq::<Action>::empty(),
    }
}

/// The state after a step of a conversion.
pub open spec fn conversion_next(state: ConversionState, reading: u32) -> ConversionState {
    match state {
        ConversionState::AwaitEndOfConversion => if shows_end_of_conversion(reading) {
            ConversionState::ResultReady
        } else {
            ConversionState::AwaitEndOfConversion
        },
        ConversionState::ResultReady => ConversionState::Idle,
        _ => start_next(state, reading),
    }
}

/// The accesses of a step of a conversion.  From `Idle`: a read of the data
/// register that discards a stale result, the channel's sample time, the
/// channel as first entry of the sequence, then the start.  Then the two
/// waits, and at the end the read of the result.
pub open spec fn conversion_actions(
    state: ConversionState,
    chan: u8,
    sample_time: SampleTime,
    align: Align,
    reading: u32,
) -> Seq<Action> {
    match state {
        ConversionState::Idle => seq![
            Action::Read { reg: Register::Dr },
            sample_time_update(chan, sample_time),
            select_channel_update(chan),
        ] + start_actions(state, align, reading),
        ConversionState::Triggered => start_actions(state, align, reading),
        ConversionState::AwaitStart => if shows_started(reading) {
            seq![Action::Read { reg: Register::Sr }]
        } else {
            start_actions(state, align, reading)
        },
        ConversionState::AwaitEndOfConversion => if shows_end_of_conversion(reading) {
            seq![Action::Read { reg: Register::Dr }]
        } else {
            seq![Action::Read { reg: Register::Sr }]
        },
        ConversionState::ResultReady => Seq::<Action>::empty(),
    }
}

/// The sample that a step of a conversion gives: the result in the reading
/// of the data register, once that was read, and none before.
pub open spec fn conversion_sample(state: ConversionState, reading: u32) -> Option<u16> {
    match state {
        ConversionState::ResultReady => Some(sample_of(reading)),
        _ => None,
    }
}

/// Computes the access that fetches the current sample: a read of the data
/// register.  [`sample_of_reading`] takes the sample out of its value.
pub fn read_sample() -> (read: Action)
    ensures
        read == (Action::Read { reg: Register::Dr }),
{
    Action::Read { reg: Register::Dr }
}

/// Takes the result out of a reading of the data register.
pub fn sample_of_reading(reading: u32) -> (sample: u16)
    ensures
        sample == sample_of(reading),
{
    assert(reading & 0x0000_FFFF == reading % 0x1_0000) by (bit_vector);
    (reading & DR_DATA) as u16
}

/// Computes the access that clears the end-of-conversion flag.
pub fn clear_end_of_conversion() -> (update: Action)
    ensures
        update == clear_end_of_conversion_update(),
{
    Action::Modify { reg: Register::Sr, mask: SR_EOC, bits: 0 }
}

/// Computes the access that requests a conversion.
fn trigger(align: Align) -> (update: Action)
    ensures
        update == trigger_update(align),
{
    Action::Modify {
        reg: Register::Cr2,
        mask: CR2_SWSTART | CR2_ALIGN,
        bits: if bool::from(align) {
            CR2_SWSTART | CR2_ALIGN
        } else {
            CR2_SWSTART
        },
    }
}

/// One step of starting a conversion: clears the end-of-conversion flag,
/// requests the start, and reads the status until the hardware shows the
/// conversion as started.  That is the case once the step answers with
/// `AwaitEndOfConversion`; from there on it asks for nothing.
pub fn start_step(state: ConversionState, align: Align, reading: u32) -> (step: ConversionStep)
    ensures
        step.next == start_next(state, reading),
        step.actions@ == start_actions(state, align, reading),
        step.sample is None,
{
    let mut actions: Vec<Action> = Vec::new();
    let next = match state {
        ConversionState::Idle => {
            actions.push(clear_end_of_conversion());
            actions.push(trigger(align));
            ConversionState::Triggered
        },
        ConversionState::Triggered => {
            actions.push(Action::Read { reg: Register::Sr });
            ConversionState::AwaitStart
        },
        ConversionState::AwaitStart => {
            if reading & SR_STRT != 0 {
                ConversionState::AwaitEndOfConversion
            } else {
                actions.push(Action::Read { reg: Register::Sr });
                ConversionState::AwaitStart
            }
        },
        ConversionState::AwaitEndOfConversion => ConversionState::AwaitEndOfConversion,
        ConversionState::ResultReady => ConversionState::ResultReady,
    };
    assert(actions@ =~= start_actions(state, align, reading));
    ConversionStep { next, actions, sample: None }
}

/// One step of a conversion of channel `chan` (0 to 18).  The step from
/// `ResultReady` gives the sample and asks for nothing more.
pub fn conversion_step(
    state: ConversionState,
    chan: u8,
    sample_time: SampleTime,
    align: Align,
    reading: u32,
) -> (step: ConversionStep)
    requires
        chan <= 18,
    ensures
        step.next == conversion_next(state, reading),
        step.actions@ == conversion_actions(state, chan, sample_time, align, reading),
        step.sample == conversion_sample(state, reading),
{
    match state {
        ConversionState::Idle => {
            let mut actions: Vec<Action> = Vec::new();
            actions.push(Action::Read { reg: Register::Dr });
            actions.push(channel_sample_time(chan, sample_time));
            actions.push(Action::Modify { reg: Register::Sqr3, mask: 0x1F, bits: (chan as u32) & 0x1F });
            let mut start = start_step(state, align, reading);
            actions.append(&mut start.actions);
            assert(actions@ =~= conversion_actions(state, chan, sample_time, align, reading));
            ConversionStep { next: start.next, actions, sample: None }
        },
        ConversionState::Triggered => start_step(state, align, reading),
        ConversionState::AwaitStart => {
            let mut step = start_step(state, align, reading);
            if reading & SR_STRT != 0 {
                step.actions.push(Action::Read { reg: Register::Sr });
            }
            assert(step.actions@ =~= conversion_actions(state, chan, sample_time, align, reading));
            step
        },
        ConversionState::AwaitEndOfConversion => {
            let mut actions: Vec<Action> = Vec::new();
            if reading & SR_EOC != 0 {
                actions.push(Action::Read { reg: Register::Dr });
                assert(actions@ =~= conversion_actions(state, chan, sample_time, align, reading));
                ConversionStep { next: ConversionState::ResultReady, actions, sample: None }
            } else {
                actions.push(Action::Read { reg: Register::Sr });
                assert(actions@ =~= conversion_actions(state, chan, sample_time, align, reading));
                ConversionStep { next: ConversionState::AwaitEndOfConversion, actions, sample: None }
            }
        },
        ConversionState::ResultReady => ConversionStep {
            next: ConversionState::Idle,
            actions: Vec::new(),
            sample: Some(sample_of_reading(reading)),
        },
    }
}

/// On a peripheral that shows both flags as soon as its status is read, a
/// conversion does not wait: it passes through each state once, every step
/// but the last gives no sample, and the last gives the result that the data
/// register held when it was read.
pub proof fn lemma_conversion_does_not_block(first: u32, second: u32, status: u32, data: u32)
    requires
        shows_started(status),
        shows_end_of_conversion(status),
    ensures
        conversion_next(ConversionState::Idle, first) == ConversionState::Triggered,
        conversion_next(ConversionState::Triggered, second) == ConversionState::AwaitStart,
        conversion_next(ConversionState::AwaitStart, status)
            == ConversionState::AwaitEndOfConversion,
        conversion_next(ConversionState::AwaitEndOfConversion, status)
            == ConversionState::ResultReady,
        conversion_next(ConversionState::ResultReady, data) == ConversionState::Idle,
        conversion_sample(ConversionState::Idle, first) is None,
        conversion_sample(ConversionState::Triggered, second) is None,
        conversion_sample(ConversionState::AwaitStart, status) is None,
        conversion_sample(ConversionState::AwaitEndOfConversion, status) is None,
        conversion_sample(ConversionState::ResultReady, data) == Some(sample_of(data)),
{
}

/// A wait only reads: while a flag is down, the step asks for the status
/// again and stays where it is.
pub proof fn lemma_waits_only_read(
    chan: u8,
    sample_time: SampleTime,
    align: Align,
    status: u32,
)
    ensures
        !shows_started(status) ==> conversion_next(ConversionState::AwaitStart, status)
            == ConversionState::AwaitStart && conversion_actions(
            ConversionState::AwaitStart,
            chan,
            sample_time,
            align,
            status,
        ) == seq![Action::Read { reg: Register::Sr }],
        !shows_end_of_conversion(status) ==> conversion_next(
            ConversionState::AwaitEndOfConversion,
            status,
        ) == ConversionState::AwaitEndOfConversion && conversion_actions(
            ConversionState::AwaitEndOfConversion,
            chan,
            sample_time,
            align,
            status,
        ) == seq![Action::Read { reg: Register::Sr }],
{
}

/// The registers after the first step of a conversion, from whatever they
/// held: the channel has the sample time, it is the first entry of the
/// sequence, the end-of-conversion flag is cleared, and the start is
/// requested with the alignment asked for.
pub proof fn lemma_conversion_programs_channel(
    regs: Registers,
    chan: u8,
    sample_time: SampleTime,
    align: Align,
    reading: u32,
)
    requires
        chan <= 18,
    ensures
        ({
            let new = regs.after_all(
                conversion_actions(ConversionState::Idle, chan, sample_time, align, reading),
            );
            &&& new.sample_time_code(chan) == sample_time.code()
            &&& new.sequence_slot(0) == chan
            &&& !shows_end_of_conversion(new.sr)
            &&& new.cr2 & CR2_SWSTART != 0
            &&& (new.cr2 & CR2_ALIGN != 0) == align.bit()
        }),
{
    let program = seq![
        Action::Read { reg: Register::Dr },
        sample_time_update(chan, sample_time),
        select_channel_update(chan),
    ];
    let start = start_actions(ConversionState::Idle, align, reading);
    lemma_after_all_concat(regs, program, start);
    lemma_after_all_triple(regs, program[0], program[1], program[2]);
    lemma_after_all_pair(regs.after_all(program), start[0], start[1]);
    if chan <= 9 {
        lemma_low_sample_time_is_local(regs, chan, sample_time, chan);
    } else {
        lemma_high_sample_time_is_local(regs, chan, sample_time, chan);
    }
    let sqr3 = regs.sqr3;
    let sr = regs.sr;
    let cr2 = regs.cr2;
    let wide = chan as u32;
    let left = align.bit();
    assert({
        let slots = (sqr3 & !0x1Fu32) | ((wide & 0x1F) & 0x1Fu32);
        let status = (sr & !0x0000_0002u32) | (0u32 & 0x0000_0002u32);
        let mask = 0x4000_0000u32 | 0x0000_0800u32;
        let bits = if left {
            0x4000_0000u32 | 0x0000_0800u32
        } else {
            0x4000_0000u32
        };
        let control = (cr2 & !mask) | (bits & mask);
        &&& (slots >> 0u32) & 0x1F == wide
        &&& status & 0x0000_0002u32 == 0
        &&& control & 0x4000_0000u32 != 0
        &&& (control & 0x0000_0800u32 != 0) == left
    }) by (bit_vector)
        requires
            wide <= 18,
    ;
}

/// No step of a conversion stores anything in the common control register.
pub proof fn lemma_conversion_leaves_common_control(
    regs: Registers,
    state: ConversionState,
    chan: u8,
    sample_time: SampleTime,
    align: Align,
    reading: u32,
)
    ensures
        regs.after_all(conversion_actions(state, chan, sample_time, align, reading)).ccr
            == regs.ccr,
{
    let actions = conversion_actions(state, chan, sample_time, align, reading);
    match state {
        ConversionState::Idle => {
            let program = seq![
                Action::Read { reg: Register::Dr },
                sample_time_update(chan, sample_time),
                select_channel_update(chan),
            ];
            let start = start_actions(state, align, reading);
            lemma_after_all_concat(regs, program, start);
            lemma_after_all_triple(regs, program[0], program[1], program[2]);
            lemma_after_all_pair(regs.after_all(program), start[0], start[1]);
        },
        ConversionState::ResultReady => {},
        _ => {
            assert(actions.len() == 1);
            assert(actions =~= seq![actions[0]]);
            lemma_after_all_single(regs, actions[0]);
        },
    }
}

} // verus!
