//! The peripheral as the control logic sees it: its registers, the fields
//! that the logic uses, and the accesses that the logic asks for.

use vstd::prelude::*;
use crate::bits::{field, get_field, merge, merged};

verus! {

/// Status register: a result is ready to be read.
pub const SR_EOC: u32 = 0x0000_0002;

/// Status register: the conversion has started.
pub const SR_STRT: u32 = 0x0000_0010;

/// Control register 1: channel scan.
pub const CR1_SCAN: u32 = 0x0000_0100;

/// Control register 1: discontinuous mode.
pub const CR1_DISCEN: u32 = 0x0000_0800;

/// Control register 1: size of a discontinuous group, minus one.
pub const CR1_DISCNUM: u32 = 0x0000_E000;

/// Lowest bit of `CR1_DISCNUM`.
pub const CR1_DISCNUM_OFFSET: u32 = 13;

/// Control register 1: resolution.
pub const CR1_RES: u32 = 0x0300_0000;

/// Lowest bit of `CR1_RES`.
pub const CR1_RES_OFFSET: u32 = 24;

/// Control register 2: power.
pub const CR2_ADON: u32 = 0x0000_0001;

/// Control register 2: continuous conversion.
pub const CR2_CONT: u32 = 0x0000_0002;

/// Control register 2: streaming requests.
pub const CR2_DMA: u32 = 0x0000_0100;

/// Control register 2: streaming requests go on after the last transfer.
pub const CR2_DDS: u32 = 0x0000_0200;

/// Control register 2: left alignment.
pub const CR2_ALIGN: u32 = 0x0000_0800;

/// Control register 2: source of the external trigger.
pub const CR2_EXTSEL: u32 = 0x0F00_0000;

/// Lowest bit of `CR2_EXTSEL`.
pub const CR2_EXTSEL_OFFSET: u32 = 24;

/// Control register 2: software start of a conversion.
pub const CR2_SWSTART: u32 = 0x4000_0000;

/// Sequence register 1: length of the sequence, minus one.
pub const SQR1_L: u32 = 0x00F0_0000;

/// Lowest bit of `SQR1_L`.
pub const SQR1_L_OFFSET: u32 = 20;

/// Data register: the result.
pub const DR_DATA: u32 = 0x0000_FFFF;

/// Common control register: battery monitor channel.
pub const CCR_VBATE: u32 = 0x0040_0000;

/// Common control register: temperature sensor and internal reference.
pub const CCR_TSVREFE: u32 = 0x0080_0000;

/// A register of the converter, or the control register that the units share.
#[derive(Clone, Copy, Debug, PartialEq, Eq, Structural)]
pub enum Register {
    /// Status: end-of-conversion and conversion-started flags.
    Sr,
    /// Control 1: scan, discontinuous mode, resolution.
    Cr1,
    /// Control 2: power, continuous mode, streaming, alignment, trigger.
    Cr2,
    /// Sample times of channels 10 to 18.
    Smpr1,
    /// Sample times of channels 0 to 9.
    Smpr2,
    /// Sequence slots 12 to 15 and the sequence length.
    Sqr1,
    /// Sequence slots 6 to 11.
    Sqr2,
    /// Sequence slots 0 to 5.
    Sqr3,
    /// Result of the last conversion.
    Dr,
    /// Common control, shared by all units: internal channel enables.
    Ccr,
}

/// One thing that the caller does to the hardware on the logic's behalf.
/// Actions are performed in the order in which they are handed out.
#[derive(Clone, Copy, Debug, PartialEq, Eq, Structural)]
pub enum Action {
    /// Open the peripheral's clock gate.
    EnableClock,
    /// Close the peripheral's clock gate.
    DisableClock,
    /// Pulse the peripheral's reset line.
    ResetPeripheral,
    /// Read the register.  The value that the last `Read` among the actions
    /// of one step gives is the reading that the next step of a protocol
    /// takes.
    Read { reg: Register },
    /// Store `value` in the register.
    Write { reg: Register, value: u32 },
    /// Read the register, replace the bits under `mask` by those of `bits`,
    /// and store the result.
    Modify { reg: Register, mask: u32, bits: u32 },
    /// Busy-wait for at least `cycles` cycles of the system clock.
    Delay { cycles: u32 },
}

/// The values of the registers.  As a model it follows what software
/// stores; what the hardware does to its flags and to the data register in
/// between is not part of it.
#[derive(Clone, Copy, Debug, PartialEq, Eq, Structural)]
pub struct Registers {
    pub sr: u32,
    pub cr1: u32,
    pub cr2: u32,
    pub smpr1: u32,
    pub smpr2: u32,
    pub sqr1: u32,
    pub sqr2: u32,
    pub sqr3: u32,
    pub dr: u32,
    pub ccr: u32,
}

impl Registers {
    /// The value of a register.
    pub open spec fn get(self, reg: Register) -> u32 {
        match reg {
            Register::Sr => self.sr,
            Register::Cr1 => self.cr1,
            Register::Cr2 => self.cr2,
            Register::Smpr1 => self.smpr1,
            Register::Smpr2 => self.smpr2,
            Register::Sqr1 => self.sqr1,
            Register::Sqr2 => self.sqr2,
            Register::Sqr3 => self.sqr3,
            Register::Dr => self.dr,
            Register::Ccr => self.ccr,
        }
    }

    /// The registers with `value` in one of them.
    pub open spec fn set(self, reg: Register, value: u32) -> Registers {
        match reg {
            Register::Sr => Registers { sr: value, ..self },
            Register::Cr1 => Registers { cr1: value, ..self },
            Register::Cr2 => Registers { cr2: value, ..self },
            Register::Smpr1 => Registers { smpr1: value, ..self },
            Register::Smpr2 => Registers { smpr2: value, ..self },
            Register::Sqr1 => Registers { sqr1: value, ..self },
            Register::Sqr2 => Registers { sqr2: value, ..self },
            Register::Sqr3 => Registers { sqr3: value, ..self },
            Register::Dr => Registers { dr: value, ..self },
            Register::Ccr => Registers { ccr: value, ..self },
        }
    }

    /// The registers after one action.  Only `Write` and `Modify` store
    /// anything.
    pub open spec fn after(self, action: Action) -> Registers {
        match action {
            Action::Write { reg, value } => self.set(reg, value),
            Action::Modify { reg, mask, bits } => self.set(
                reg,
                merged(self.get(reg), mask, bits),
            ),
            _ => self,
        }
    }

    /// The registers after a run of actions, first to last.
    pub open spec fn after_all(self, actions: Seq<Action>) -> Registers
        decreases actions.len(),
    {
        if actions.len() == 0 {
            self
        } else {
            self.after_all(actions.drop_last()).after(actions.last())
        }
    }

    /// What an action reads: the register's value for a `Read`, nothing for
    /// the others.
    pub open spec fn reading(self, action: Action) -> Option<u32> {
        match action {
            Action::Read { reg } => Some(self.get(reg)),
            _ => None,
        }
    }

    /// The sample-time code of a channel (0 to 18).
    pub open spec fn sample_time_code(self, chan: u8) -> u32 {
        if chan <= 9 {
            field(self.smpr2, 0x7, (3 * chan) as u32)
        } else {
            field(self.smpr1, 0x7, (3 * (chan - 10)) as u32)
        }
    }

    /// The channel in a slot (0 to 15) of the regular sequence.
    pub open spec fn sequence_slot(self, slot: int) -> u32 {
        if slot < 6 {
            field(self.sqr3, 0x1F, (5 * slot) as u32)
        } else if slot < 12 {
            field(self.sqr2, 0x1F, (5 * (slot - 6)) as u32)
        } else {
            field(self.sqr1, 0x1F, (5 * (slot - 12)) as u32)
        }
    }

    /// The length field of the regular sequence: the number of its entries,
    /// minus one.
    pub open spec fn sequence_length_field(self) -> u32 {
        field(self.sqr1, 0xF, SQR1_L_OFFSET)
    }

    /// The regular sequence that the sequence registers hold.
    pub open spec fn regular_sequence(self) -> Seq<u8> {
        Seq::new(
            (self.sequence_length_field() + 1) as nat,
            |slot: int| self.sequence_slot(slot) as u8,
        )
    }

    /// Registers that are all zero, as a reset leaves them.
    pub fn new() -> (regs: Registers)
        ensures
            regs == (Registers {
                sr: 0,
                cr1: 0,
                cr2: 0,
                smpr1: 0,
                smpr2: 0,
                sqr1: 0,
                sqr2: 0,
                sqr3: 0,
                dr: 0,
                ccr: 0,
            }),
    {
        Registers { sr: 0, cr1: 0, cr2: 0, smpr1: 0, smpr2: 0, sqr1: 0, sqr2: 0, sqr3: 0, dr: 0, ccr: 0 }
    }

    /// Reads a register.
    pub fn read(&self, reg: Register) -> (value: u32)
        ensures
            value == self.get(reg),
    {
        match reg {
            Register::Sr => self.sr,
            Register::Cr1 => self.cr1,
            Register::Cr2 => self.cr2,
            Register::Smpr1 => self.smpr1,
            Register::Smpr2 => self.smpr2,
            Register::Sqr1 => self.sqr1,
            Register::Sqr2 => self.sqr2,
            Register::Sqr3 => self.sqr3,
            Register::Dr => self.dr,
            Register::Ccr => self.ccr,
        }
    }

    /// Stores a value in a register.
    pub fn write(&mut self, reg: Register, value: u32)
        ensures
            *final(self) == old(self).set(reg, value),
    {
        match reg {
            Register::Sr => self.sr = value,
            Register::Cr1 => self.cr1 = value,
            Register::Cr2 => self.cr2 = value,
            Register::Smpr1 => self.smpr1 = value,
            Register::Smpr2 => self.smpr2 = value,
            Register::Sqr1 => self.sqr1 = value,
            Register::Sqr2 => self.sqr2 = value,
            Register::Sqr3 => self.sqr3 = value,
            Register::Dr => self.dr = value,
            Register::Ccr => self.ccr = value,
        }
    }

    /// Performs one action on the registers and returns what it read.
    pub fn perform(&mut self, action: Action) -> (reading: Option<u32>)
        ensures
            *final(self) == old(self).after(action),
            reading == old(self).reading(action),
    {
        match action {
            Action::Read { reg } => Some(self.read(reg)),
            Action::Write { reg, value } => {
                self.write(reg, value);
                None
            },
            Action::Modify { reg, mask, bits } => {
                let value = merge(self.read(reg), mask, bits);
                self.write(reg, value);
                None
            },
            _ => None,
        }
    }

    /// Performs a run of actions, first to last.
    pub fn perform_all(&mut self, actions: &[Action])
        ensures
            *final(self) == old(self).after_all(actions@),
    {
        let mut i: usize = 0;
        while i < actions.len()
            invariant
                i <= actions@.len(),
                *self == old(self).after_all(actions@.take(i as int)),
            decreases actions@.len() - i,
        {
            proof {
                let next = actions@.take(i + 1);
                assert(next.drop_last() =~= actions@.take(i as int));
                assert(next.last() == actions@[i as int]);
            }
            self.perform(actions[i]);
            i = i + 1;
        }
        proof {
            assert(actions@.take(i as int) =~= actions@);
        }
    }

    /// Reads the sample-time code of a channel.
    pub fn get_sample_time_code(&self, chan: u8) -> (code: u32)
        requires
            chan <= 18,
        ensures
            code == self.sample_time_code(chan),
    {
        if chan <= 9 {
            get_field(self.smpr2, 0x7, 3 * (chan as u32))
        } else {
            get_field(self.smpr1, 0x7, 3 * ((chan - 10) as u32))
        }
    }

    /// Reads the regular sequence back from the sequence registers.
    pub fn get_regular_sequence(&self) -> (channels: Vec<u8>)
        ensures
            channels@ == self.regular_sequence(),
    {
        let length_field: u32 = get_field(self.sqr1, 0xF, SQR1_L_OFFSET);
        assert(length_field <= 15) by {
            let sqr1 = self.sqr1;
            assert((sqr1 >> 20u32) & 0xF <= 15) by (bit_vector);
        }
        let length: u32 = length_field + 1;
        let mut channels: Vec<u8> = Vec::new();
        let mut slot: u32 = 0;
        while slot < length
            invariant
                slot <= length <= 16,
                length == self.sequence_length_field() + 1,
                channels@.len() == slot,
                forall|k: int| 0 <= k < slot ==> channels@[k] == self.sequence_slot(k) as u8,
            decreases length - slot,
        {
            let raw: u32 = if slot < 6 {
                get_field(self.sqr3, 0x1F, 5 * slot)
            } else if slot < 12 {
                get_field(self.sqr2, 0x1F, 5 * (slot - 6))
            } else {
                get_field(self.sqr1, 0x1F, 5 * (slot - 12))
            };
            assert(raw == self.sequence_slot(slot as int));
            assert(raw <= 31) by {
                assert(forall|r: u32, s: u32| #[trigger] ((r >> s) & 0x1F) <= 31) by (bit_vector);
            }
            channels.push(raw as u8);
            slot = slot + 1;
        }
        assert(channels@ =~= self.regular_sequence());
        channels
    }
}

/// Running two runs of actions one after the other is running their
/// concatenation.
pub proof fn lemma_after_all_concat(regs: Registers, first: Seq<Action>, second: Seq<Action>)
    ensures
        regs.after_all(first + second) == regs.after_all(first).after_all(second),
    decreases second.len(),
{
    if second.len() == 0 {
        assert(first + second =~= first);
    } else {
        lemma_after_all_concat(regs, first, second.drop_last());
        assert((first + second).drop_last() =~= first + second.drop_last());
        assert((first + second).last() == second.last());
    }
}

/// A run of one action is that action.
pub proof fn lemma_after_all_single(regs: Registers, action: Action)
    ensures
        regs.after_all(seq![action]) == regs.after(action),
{
    let run = seq![action];
    assert(run.drop_last() =~= Seq::<Action>::empty());
    assert(regs.after_all(run.drop_last()) == regs);
}

/// A run of two actions is the first, then the second.
pub proof fn lemma_after_all_pair(regs: Registers, first: Action, second: Action)
    ensures
        regs.after_all(seq![first, second]) == regs.after(first).after(second),
{
    assert(seq![first, second] =~= seq![first] + seq![second]);
    lemma_after_all_concat(regs, seq![first], seq![second]);
    lemma_after_all_single(regs, first);
    lemma_after_all_single(regs.after(first), second);
}

/// A run of three actions is the first, then the second, then the third.
pub proof fn lemma_after_all_triple(regs: Registers, first: Action, second: Action, third: Action)
    ensures
        regs.after_all(seq![first, second, third]) == regs.after(first).after(second).after(third),
{
    assert(seq![first, second, third] =~= seq![first, second] + seq![third]);
    lemma_after_all_concat(regs, seq![first, second], seq![third]);
    lemma_after_all_pair(regs, first, second);
    lemma_after_all_single(regs.after(first).after(second), third);
}

} // verus!
