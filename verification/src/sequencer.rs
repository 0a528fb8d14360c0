//! The sequencer: which channels are converted, in which order, and for how
//! long each is sampled.  Everything here packs a choice into the bit fields
//! of the registers; nothing starts a conversion.

use vstd::prelude::*;
use crate::bits::{
    lemma_merged_field_reads_back, lemma_merged_keeps_disjoint_field,
    lemma_merged_keeps_other_bits, mask_at, merged, place, placed,
};
use crate::bus::{
    lemma_after_all_concat, lemma_after_all_single, Action, Register, Registers, CR1_DISCEN,
    CR1_DISCNUM, CR1_DISCNUM_OFFSET, CR2_CONT, SQR1_L, SQR1_L_OFFSET,
};
use crate::config::SampleTime;

verus! {

/// The most entries that the regular sequence can hold.
pub const MAX_SEQUENCE: usize = 16;

/// The register that holds the sample time of a channel: the low register
/// for channels 0 to 9, the high one for channels 10 to 18.
pub open spec fn sample_time_register(chan: u8) -> Register {
    if chan <= 9 {
        Register::Smpr2
    } else {
        Register::Smpr1
    }
}

/// The lowest bit of a channel's sample-time field in its register.
pub open spec fn sample_time_offset(chan: u8) -> u32 {
    if chan <= 9 {
        (3 * chan) as u32
    } else {
        (3 * (chan - 10)) as u32
    }
}

/// The access that gives a channel its sample time: a read-modify-write of
/// the channel's three-bit field and of nothing else.
pub open spec fn sample_time_update(chan: u8, sample_time: SampleTime) -> Action {
    Action::Modify {
        reg: sample_time_register(chan),
        mask: mask_at(0x7, sample_time_offset(chan)),
        bits: placed(sample_time.code() as u32, 0x7, sample_time_offset(chan)),
    }
}

/// The channel that goes into a slot of the sequence: the entry of the list
/// for the first sixteen slots, as far as the list reaches, and nothing
/// beyond.
pub open spec fn entry(channels: Seq<u8>, slot: int) -> u32 {
    if 0 <= slot < channels.len() && slot < 16 {
        channels[slot] as u32
    } else {
        0
    }
}

/// The image of a sequence register: six slots of five bits, the slot
/// `first` of the sequence at bit 0.
pub open spec fn packed_slots(channels: Seq<u8>, first: int) -> u32 {
    entry(channels, first) | (entry(channels, first + 1) << 5u32) | (entry(channels, first + 2)
        << 10u32) | (entry(channels, first + 3) << 15u32) | (entry(channels, first + 4) << 20u32)
        | (entry(channels, first + 5) << 25u32)
}

/// The number of entries that are kept of a list of `len` channels.
pub open spec fn kept_entries(len: nat) -> nat {
    if len > 16 {
        16
    } else {
        len
    }
}

/// The length field for a list of `len` channels, in place: the number of
/// entries kept, minus one.
pub open spec fn length_bits(len: nat) -> u32 {
    placed((kept_entries(len) - 1) as u32, 0xF, SQR1_L_OFFSET)
}

/// The accesses that program a regular sequence.  The first register of
/// slots is always written; the second only for more than six channels and
/// the third only for more than twelve; the length field is set last.
pub open spec fn regular_sequence_updates(channels: Seq<u8>) -> Seq<Action> {
    seq![Action::Write { reg: Register::Sqr3, value: packed_slots(channels, 0) }] + (if channels.len()
        > 6 {
        seq![Action::Write { reg: Register::Sqr2, value: packed_slots(channels, 6) }]
    } else {
        Seq::<Action>::empty()
    }) + (if channels.len() > 12 {
        seq![Action::Write { reg: Register::Sqr1, value: packed_slots(channels, 12) }]
    } else {
        Seq::<Action>::empty()
    }) + seq![
        Action::Modify { reg: Register::Sqr1, mask: SQR1_L, bits: length_bits(channels.len()) },
    ]
}

/// The access that turns continuous conversion on or off.
pub open spec fn continuous_update(continuous: bool) -> Action {
    Action::Modify {
        reg: Register::Cr2,
        mask: CR2_CONT,
        bits: if continuous {
            CR2_CONT
        } else {
            0
        },
    }
}

/// The access that sets the discontinuous mode: for a group size, the
/// enable bit and the size minus one; for none, the enable bit cleared and
/// the size field untouched.
pub open spec fn discontinuous_update(channels_count: Option<u8>) -> Action {
    match channels_count {
        Some(count) => Action::Modify {
            reg: Register::Cr1,
            mask: CR1_DISCEN | CR1_DISCNUM,
            bits: CR1_DISCEN | placed((count - 1) as u32, 0x7, CR1_DISCNUM_OFFSET),
        },
        None => Action::Modify { reg: Register::Cr1, mask: CR1_DISCEN, bits: 0 },
    }
}

/// Sequence and sample times of a converter.
pub trait ChannelTimeSequence {
    /// Sets the sampling time of one channel (0 to 18).
    fn set_channel_sample_time(&mut self, chan: u8, sample_time: SampleTime) -> (update: Action)
        requires
            chan <= 18,
        ensures
            update == sample_time_update(chan, sample_time),
    ;

    /// Defines the channels that are converted as the regular group, in
    /// order.  Of more than sixteen channels the first sixteen are kept.
    fn set_regular_sequence(&mut self, channels: &[u8]) -> (updates: Vec<Action>)
        requires
            channels@.len() >= 1,
        ensures
            updates@ == regular_sequence_updates(channels@),
    ;

    /// Sets continuous conversion: with it the converter starts the
    /// sequence again after its last channel, without a new trigger.
    fn set_continuous_mode(&mut self, continuous: bool) -> (update: Action)
        ensures
            update == continuous_update(continuous),
    ;

    /// Sets the discontinuous mode: the sequence is converted in groups of
    /// `channels_count` channels (1 to 8), one group per trigger; `None`
    /// turns the mode off.
    fn set_discontinuous_mode(&mut self, channels_count: Option<u8>) -> (update: Action)
        requires
            channels_count matches Some(count) ==> 1 <= count <= 8,
        ensures
            update == discontinuous_update(channels_count),
    ;
}

/// Sequence and sample times for a set of pins of the user's choice.
pub trait SetChannels<PINS>: ChannelTimeSequence {
    /// The accesses that set the sample times of the pins' channels.
    fn set_samples(&mut self) -> Vec<Action>;

    /// The accesses that set the sequence in which the pins are converted.
    fn set_sequence(&mut self) -> Vec<Action>;
}

/// Computes the access that gives a channel its sample time.
pub fn channel_sample_time(chan: u8, sample_time: SampleTime) -> (update: Action)
    requires
        chan <= 18,
    ensures
        update == sample_time_update(chan, sample_time),
{
    let code: u8 = u8::from(sample_time);
    if chan <= 9 {
        let offset: u32 = 3 * (chan as u32);
        Action::Modify {
            reg: Register::Smpr2,
            mask: 0x7u32 << offset,
            bits: place(code as u32, 0x7, offset),
        }
    } else {
        let offset: u32 = 3 * ((chan - 10) as u32);
        Action::Modify {
            reg: Register::Smpr1,
            mask: 0x7u32 << offset,
            bits: place(code as u32, 0x7, offset),
        }
    }
}

/// The channel that goes into a slot of the sequence.
fn entry_at(channels: &[u8], slot: usize) -> (channel: u32)
    ensures
        channel == entry(channels@, slot as int),
{
    if slot < channels.len() && slot < MAX_SEQUENCE {
        channels[slot] as u32
    } else {
        0
    }
}

/// Packs six slots of the sequence, from slot `first` on, into the image of
/// a sequence register.
fn pack_slots(channels: &[u8], first: usize) -> (image: u32)
    requires
        first <= 12,
    ensures
        image == packed_slots(channels@, first as int),
{
    let s0: u32 = entry_at(channels, first);
    let s1: u32 = entry_at(channels, first + 1);
    let s2: u32 = entry_at(channels, first + 2);
    let s3: u32 = entry_at(channels, first + 3);
    let s4: u32 = entry_at(channels, first + 4);
    let s5: u32 = entry_at(channels, first + 5);
    s0 | (s1 << 5u32) | (s2 << 10u32) | (s3 << 15u32) | (s4 << 20u32) | (s5 << 25u32)
}

/// Computes the accesses that program a regular sequence.
pub fn regular_sequence(channels: &[u8]) -> (updates: Vec<Action>)
    requires
        channels@.len() >= 1,
    ensures
        updates@ == regular_sequence_updates(channels@),
{
    let len: usize = channels.len();
    let mut updates: Vec<Action> = Vec::new();
    updates.push(Action::Write { reg: Register::Sqr3, value: pack_slots(channels, 0) });
    if len > 6 {
        updates.push(Action::Write { reg: Register::Sqr2, value: pack_slots(channels, 6) });
    }
    if len > 12 {
        updates.push(Action::Write { reg: Register::Sqr1, value: pack_slots(channels, 12) });
    }
    let kept: u32 = if len > MAX_SEQUENCE {
        16
    } else {
        len as u32
    };
    updates.push(
        Action::Modify { reg: Register::Sqr1, mask: SQR1_L, bits: place(kept - 1, 0xF, SQR1_L_OFFSET) },
    );
    assert(updates@ =~= regular_sequence_updates(channels@));
    updates
}

/// Computes the access that turns continuous conversion on or off.
pub fn continuous_mode(continuous: bool) -> (update: Action)
    ensures
        update == continuous_update(continuous),
{
    Action::Modify {
        reg: Register::Cr2,
        mask: CR2_CONT,
        bits: if continuous {
            CR2_CONT
        } else {
            0
        },
    }
}

/// Computes the access that sets the discontinuous mode.
pub fn discontinuous_mode(channels_count: Option<u8>) -> (update: Action)
    requires
        channels_count matches Some(count) ==> 1 <= count <= 8,
    ensures
        update == discontinuous_update(channels_count),
{
    match channels_count {
        Some(count) => Action::Modify {
            reg: Register::Cr1,
            mask: CR1_DISCEN | CR1_DISCNUM,
            bits: CR1_DISCEN | place((count - 1) as u32, 0x7, CR1_DISCNUM_OFFSET),
        },
        None => Action::Modify { reg: Register::Cr1, mask: CR1_DISCEN, bits: 0 },
    }
}

/// Facts on the position of sample-time fields: each lies inside its
/// register, holds every code, and shares no bit with another.
proof fn lemma_sample_time_fields(a: u32, b: u32, code: u32)
    by (bit_vector)
    requires
        a <= 27,
        b <= 27,
        code <= 7,
        a + 3 <= b || b + 3 <= a || a == b,
    ensures
        (0x7u32 << a) >> a == 0x7u32,
        code & 0x7 == code,
        a != b ==> (0x7u32 << a) & (0x7u32 << b) == 0,
{
}

/// What a sample-time update does to the register it names: the channel's
/// field holds the new code, every bit outside that field is as before, and
/// so is the field of every other channel of that register.
proof fn lemma_sample_time_update_in_register(
    old: u32,
    chan: u8,
    sample_time: SampleTime,
    other: u8,
)
    requires
        chan <= 18,
        other <= 18,
        sample_time_register(other) == sample_time_register(chan),
    ensures
        ({
            let offset = sample_time_offset(chan);
            let new = merged(
                old,
                mask_at(0x7, offset),
                placed(sample_time.code() as u32, 0x7, offset),
            );
            &&& (new >> offset) & 0x7 == sample_time.code()
            &&& new & !(0x7u32 << offset) == old & !(0x7u32 << offset)
            &&& other != chan ==> (new >> sample_time_offset(other)) & 0x7 == (old
                >> sample_time_offset(other)) & 0x7
        }),
{
    let offset = sample_time_offset(chan);
    let there = sample_time_offset(other);
    let code = sample_time.code() as u32;
    lemma_sample_time_fields(offset, there, code);
    lemma_sample_time_fields(there, offset, code);
    lemma_merged_field_reads_back(old, 0x7, offset, code);
    lemma_merged_keeps_other_bits(old, 0x7u32 << offset, (code & 0x7) << offset);
    if other != chan {
        lemma_merged_keeps_disjoint_field(old, 0x7u32 << offset, (code & 0x7) << offset, 0x7, there);
    }
}

/// Setting the sample time of a channel from 0 to 9 changes the bits
/// `3 * chan` to `3 * chan + 2` of the low sample-time register to the new
/// code and nothing else: every other bit of that register, the field of
/// every other channel, and every other register are as before.
pub proof fn lemma_low_sample_time_is_local(
    regs: Registers,
    chan: u8,
    sample_time: SampleTime,
    other: u8,
)
    requires
        chan <= 9,
        other <= 18,
    ensures
        ({
            let new = regs.after(sample_time_update(chan, sample_time));
            let offset = (3 * chan) as u32;
            &&& new == Registers { smpr2: new.smpr2, ..regs }
            &&& (new.smpr2 >> offset) & 0x7 == sample_time.code()
            &&& new.smpr2 & !(0x7u32 << offset) == regs.smpr2 & !(0x7u32 << offset)
            &&& new.sample_time_code(chan) == sample_time.code()
            &&& other != chan ==> new.sample_time_code(other) == regs.sample_time_code(other)
        }),
{
    if other <= 9 {
        lemma_sample_time_update_in_register(regs.smpr2, chan, sample_time, other);
    } else {
        lemma_sample_time_update_in_register(regs.smpr2, chan, sample_time, chan);
    }
}

/// Setting the sample time of a channel from 10 to 18 changes the bits
/// `3 * (chan - 10)` to `3 * (chan - 10) + 2` of the high sample-time
/// register to the new code and nothing else: every other bit of that
/// register, the field of every other channel, and every other register are
/// as before.
pub proof fn lemma_high_sample_time_is_local(
    regs: Registers,
    chan: u8,
    sample_time: SampleTime,
    other: u8,
)
    requires
        10 <= chan <= 18,
        other <= 18,
    ensures
        ({
            let new = regs.after(sample_time_update(chan, sample_time));
            let offset = (3 * (chan - 10)) as u32;
            &&& new == Registers { smpr1: new.smpr1, ..regs }
            &&& (new.smpr1 >> offset) & 0x7 == sample_time.code()
            &&& new.smpr1 & !(0x7u32 << offset) == regs.smpr1 & !(0x7u32 << offset)
            &&& new.sample_time_code(chan) == sample_time.code()
            &&& other != chan ==> new.sample_time_code(other) == regs.sample_time_code(other)
        }),
{
    if other >= 10 {
        lemma_sample_time_update_in_register(regs.smpr1, chan, sample_time, other);
    } else {
        lemma_sample_time_update_in_register(regs.smpr1, chan, sample_time, chan);
    }
}

/// Six channels of at most five bits each, packed into a sequence register,
/// are read back from its slots.
proof fn lemma_packed_slots_read_back(s0: u32, s1: u32, s2: u32, s3: u32, s4: u32, s5: u32)
    by (bit_vector)
    requires
        s0 <= 31,
        s1 <= 31,
        s2 <= 31,
        s3 <= 31,
        s4 <= 31,
        s5 <= 31,
    ensures
        ({
            let image = s0 | (s1 << 5u32) | (s2 << 10u32) | (s3 << 15u32) | (s4 << 20u32) | (s5
                << 25u32);
            &&& (image >> 0u32) & 0x1F == s0
            &&& (image >> 5u32) & 0x1F == s1
            &&& (image >> 10u32) & 0x1F == s2
            &&& (image >> 15u32) & 0x1F == s3
            &&& (image >> 20u32) & 0x1F == s4
            &&& (image >> 25u32) & 0x1F == s5
        }),
{
}

/// Setting the length field leaves the four slots of its register as they
/// were, and the field reads back.
proof fn lemma_length_field(old: u32, length: u32)
    by (bit_vector)
    requires
        length <= 15,
    ensures
        ({
            let new = (old & !0x00F0_0000u32) | (((length & 0xF) << 20u32) & 0x00F0_0000u32);
            &&& (new >> 20u32) & 0xF == length
            &&& (new >> 0u32) & 0x1F == (old >> 0u32) & 0x1F
            &&& (new >> 5u32) & 0x1F == (old >> 5u32) & 0x1F
            &&& (new >> 10u32) & 0x1F == (old >> 10u32) & 0x1F
            &&& (new >> 15u32) & 0x1F == (old >> 15u32) & 0x1F
        }),
{
}

/// The registers after a regular sequence was programmed: the first
/// register of slots holds the first six entries, the second one is written
/// for more than six channels, the third for more than twelve, and the
/// length field holds the number of entries kept, minus one.
pub proof fn lemma_regular_sequence_registers(regs: Registers, channels: Seq<u8>)
    requires
        channels.len() >= 1,
    ensures
        ({
            let new = regs.after_all(regular_sequence_updates(channels));
            let slots = if channels.len() > 12 {
                packed_slots(channels, 12)
            } else {
                regs.sqr1
            };
            &&& new == Registers { sqr1: new.sqr1, sqr2: new.sqr2, sqr3: new.sqr3, ..regs }
            &&& new.sqr3 == packed_slots(channels, 0)
            &&& new.sqr2 == if channels.len() > 6 {
                packed_slots(channels, 6)
            } else {
                regs.sqr2
            }
            &&& new.sqr1 == merged(slots, SQR1_L, length_bits(channels.len()))
        }),
{
    let first = seq![Action::Write { reg: Register::Sqr3, value: packed_slots(channels, 0) }];
    let second = if channels.len() > 6 {
        seq![Action::Write { reg: Register::Sqr2, value: packed_slots(channels, 6) }]
    } else {
        Seq::<Action>::empty()
    };
    let third = if channels.len() > 12 {
        seq![Action::Write { reg: Register::Sqr1, value: packed_slots(channels, 12) }]
    } else {
        Seq::<Action>::empty()
    };
    let last = seq![
        Action::Modify { reg: Register::Sqr1, mask: SQR1_L, bits: length_bits(channels.len()) },
    ];
    lemma_after_all_concat(regs, first + second + third, last);
    lemma_after_all_concat(regs, first + second, third);
    lemma_after_all_concat(regs, first, second);
    lemma_after_all_single(regs, first[0]);
    let r1 = regs.after_all(first);
    if channels.len() > 6 {
        lemma_after_all_single(r1, second[0]);
    }
    let r2 = r1.after_all(second);
    if channels.len() > 12 {
        lemma_after_all_single(r2, third[0]);
    }
    let r3 = r2.after_all(third);
    lemma_after_all_single(r3, last[0]);
}

/// Programming a regular sequence of channels from 0 to 31 and reading the
/// sequence registers back gives the channels again, in order: all of them
/// for up to sixteen, the first sixteen of more.  The length field holds the
/// number of those channels, minus one.
pub proof fn lemma_regular_sequence_round_trip(regs: Registers, channels: Seq<u8>)
    requires
        channels.len() >= 1,
        forall|i: int| 0 <= i < channels.len() ==> channels[i] <= 31,
    ensures
        ({
            let new = regs.after_all(regular_sequence_updates(channels));
            let kept = kept_entries(channels.len());
            &&& new.sequence_length_field() == kept - 1
            &&& forall|slot: int| 0 <= slot < kept ==> new.sequence_slot(slot) == channels[slot]
            &&& new.regular_sequence() == channels.take(kept as int)
        }),
{
    let new = regs.after_all(regular_sequence_updates(channels));
    let kept = kept_entries(channels.len());
    lemma_regular_sequence_registers(regs, channels);
    let slots = if channels.len() > 12 {
        packed_slots(channels, 12)
    } else {
        regs.sqr1
    };
    let length = (kept - 1) as u32;
    lemma_length_field(slots, length);
    lemma_packed_slots_read_back(
        entry(channels, 0),
        entry(channels, 1),
        entry(channels, 2),
        entry(channels, 3),
        entry(channels, 4),
        entry(channels, 5),
    );
    lemma_packed_slots_read_back(
        entry(channels, 6),
        entry(channels, 7),
        entry(channels, 8),
        entry(channels, 9),
        entry(channels, 10),
        entry(channels, 11),
    );
    lemma_packed_slots_read_back(
        entry(channels, 12),
        entry(channels, 13),
        entry(channels, 14),
        entry(channels, 15),
        entry(channels, 16),
        entry(channels, 17),
    );
    assert(new.sequence_length_field() == length);
    assert forall|slot: int| 0 <= slot < kept implies new.sequence_slot(slot)
        == channels[slot] by {
        assert(entry(channels, slot) == channels[slot]);
        if slot == 0 {
        } else if slot == 1 {
        } else if slot == 2 {
        } else if slot == 3 {
        } else if slot == 4 {
        } else if slot == 5 {
        } else if slot == 6 {
        } else if slot == 7 {
        } else if slot == 8 {
        } else if slot == 9 {
        } else if slot == 10 {
        } else if slot == 11 {
        } else if slot == 12 {
        } else if slot == 13 {
        } else if slot == 14 {
        } else {
            assert(slot == 15);
        }
    }
    assert(new.regular_sequence() =~= channels.take(kept as int));
}

/// The register after continuous conversion was set: the bit says what was
/// asked for, and every other bit and register is as before.
pub proof fn lemma_continuous_registers(regs: Registers, continuous: bool)
    ensures
        ({
            let new = regs.after(continuous_update(continuous));
            &&& new == Registers { cr2: new.cr2, ..regs }
            &&& (new.cr2 & CR2_CONT != 0) == continuous
            &&& new.cr2 & !CR2_CONT == regs.cr2 & !CR2_CONT
        }),
{
    let old = regs.cr2;
    assert({
        let on = (old & !0x0000_0002u32) | (0x0000_0002u32 & 0x0000_0002u32);
        let off = (old & !0x0000_0002u32) | (0u32 & 0x0000_0002u32);
        &&& on & 0x0000_0002u32 != 0
        &&& off & 0x0000_0002u32 == 0
        &&& on & !0x0000_0002u32 == old & !0x0000_0002u32
        &&& off & !0x0000_0002u32 == old & !0x0000_0002u32
    }) by (bit_vector);
}

/// What the discontinuous update does to the first control register.
proof fn lemma_discontinuous_bits(old: u32, less: u32)
    by (bit_vector)
    requires
        less <= 7,
    ensures
        ({
            let mask = 0x0000_0800u32 | 0x0000_E000u32;
            let on = (old & !mask) | ((0x0000_0800u32 | ((less & 0x7) << 13u32)) & mask);
            let off = (old & !0x0000_0800u32) | (0u32 & 0x0000_0800u32);
            &&& on & 0x0000_0800u32 != 0
            &&& (on >> 13u32) & 0x7 == less
            &&& on & !mask == old & !mask
            &&& off & 0x0000_0800u32 == 0
            &&& off & !0x0000_0800u32 == old & !0x0000_0800u32
        }),
{
}

/// The register after the discontinuous mode was set.  For a group size the
/// mode is on and the size field holds the size minus one; for none the mode
/// is off and the size field is as before.  Every other bit and register is
/// as before.
pub proof fn lemma_discontinuous_registers(regs: Registers, channels_count: Option<u8>)
    requires
        channels_count matches Some(count) ==> 1 <= count <= 8,
    ensures
        ({
            let new = regs.after(discontinuous_update(channels_count));
            &&& new == Registers { cr1: new.cr1, ..regs }
            &&& match channels_count {
                Some(count) => {
                    &&& new.cr1 & CR1_DISCEN != 0
                    &&& (new.cr1 >> CR1_DISCNUM_OFFSET) & 0x7 == count - 1
                    &&& new.cr1 & !(CR1_DISCEN | CR1_DISCNUM) == regs.cr1 & !(CR1_DISCEN
                        | CR1_DISCNUM)
                },
                None => {
                    &&& new.cr1 & CR1_DISCEN == 0
                    &&& new.cr1 & !CR1_DISCEN == regs.cr1 & !CR1_DISCEN
                },
            }
        }),
{
    match channels_count {
        Some(count) => lemma_discontinuous_bits(regs.cr1, (count - 1) as u32),
        None => lemma_discontinuous_bits(regs.cr1, 0),
    }
}

} // verus!
