//! Bit fields of 32-bit registers.
//!
//! A field is named by its mask when it sits at bit 0 (`low_mask`, for
//! instance `0x7` for three bits) and by the position of its lowest bit
//! (`offset`).

use vstd::prelude::*;

verus! {

/// The mask of the field inside the register.
pub open spec fn mask_at(low_mask: u32, offset: u32) -> u32 {
    low_mask << offset
}

/// What the field of `reg` holds.
pub open spec fn field(reg: u32, low_mask: u32, offset: u32) -> u32 {
    (reg >> offset) & low_mask
}

/// `value` moved to the field's position; bits of `value` that the field
/// cannot hold are dropped.
pub open spec fn placed(value: u32, low_mask: u32, offset: u32) -> u32 {
    (value & low_mask) << offset
}

/// `old` with the bits under `mask` replaced by those of `bits`.
pub open spec fn merged(old: u32, mask: u32, bits: u32) -> u32 {
    (old & !mask) | (bits & mask)
}

/// Reads the field of `reg`.
pub fn get_field(reg: u32, low_mask: u32, offset: u32) -> (value: u32)
    requires
        offset < 32,
    ensures
        value == field(reg, low_mask, offset),
{
    (reg >> offset) & low_mask
}

/// Moves `value` to the field's position.
pub fn place(value: u32, low_mask: u32, offset: u32) -> (bits: u32)
    requires
        offset < 32,
    ensures
        bits == placed(value, low_mask, offset),
{
    (value & low_mask) << offset
}

/// The read-modify-write of a register: the bits under `mask` come from
/// `bits`, all others from `old`.
pub fn merge(old: u32, mask: u32, bits: u32) -> (new: u32)
    ensures
        new == merged(old, mask, bits),
{
    (old & !mask) | (bits & mask)
}

/// A field that was written reads back as written.
pub proof fn lemma_merged_field_reads_back(old: u32, low_mask: u32, offset: u32, value: u32)
    by (bit_vector)
    requires
        offset < 32,
        (low_mask << offset) >> offset == low_mask,
    ensures
        ((((old & !(low_mask << offset)) | (((value & low_mask) << offset) & (low_mask << offset)))
            >> offset) & low_mask) == value & low_mask,
{
}

/// Writing under a mask leaves every bit outside the mask as it was.
pub proof fn lemma_merged_keeps_other_bits(old: u32, mask: u32, bits: u32)
    by (bit_vector)
    ensures
        ((old & !mask) | (bits & mask)) & !mask == old & !mask,
        ((old & !mask) | (bits & mask)) & mask == bits & mask,
{
}

/// Writing under a mask leaves a field that the mask does not touch as it was.
pub proof fn lemma_merged_keeps_disjoint_field(
    old: u32,
    mask: u32,
    bits: u32,
    low_mask: u32,
    offset: u32,
)
    by (bit_vector)
    requires
        offset < 32,
        mask & (low_mask << offset) == 0,
        (low_mask << offset) >> offset == low_mask,
    ensures
        ((((old & !mask) | (bits & mask)) >> offset) & low_mask) == (old >> offset) & low_mask,
{
}

} // verus!
