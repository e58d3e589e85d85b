//! Bitfield arithmetic on one 32-bit register value.
//!
//! A field of a register is named by a mask. Two updates exist: a field is
//! replaced by a value, or the bits of a mask are switched on or off together.

use vstd::prelude::*;

verus! {

/// The register value `reg` with the field under `mask` replaced by `value`.
/// Bits of `value` outside `mask` are dropped, so nothing outside the field
/// can change.
pub open spec fn field_set(reg: u32, mask: u32, value: u32) -> u32 {
    (reg & !mask) | (value & mask)
}

/// The register value `reg` with every bit of `mask` switched on (`enable`)
/// or off.
pub open spec fn field_en(reg: u32, mask: u32, enable: bool) -> u32 {
    if enable {
        reg | mask
    } else {
        reg & !mask
    }
}

/// The mask with only bit `n` set; `n` counts from the least significant bit.
pub open spec fn bit(n: u32) -> u32 {
    1u32 << n
}

/// Replaces the field under `mask` by `value`, masking `value` first.
pub fn tremo_reg_set(reg: &mut u32, mask: u32, value: u32)
    ensures
        *final(reg) == field_set(*old(reg), mask, value),
{
    *reg = (*reg & !mask) | (value & mask);
}

/// Switches the bits of `mask` on or off.
pub fn tremo_reg_en(reg: &mut u32, mask: u32, enable: bool)
    ensures
        *final(reg) == field_en(*old(reg), mask, enable),
{
    if enable {
        *reg |= mask;
    } else {
        *reg &= !mask;
    }
}

/// Setting a field leaves every bit outside the mask as it was, and makes the
/// bits inside the mask those of the value. This holds for every value, also
/// one that does not fit the mask.
pub proof fn lemma_set_touches_only_mask(reg: u32, mask: u32, value: u32)
    ensures
        field_set(reg, mask, value) & !mask == reg & !mask,
        field_set(reg, mask, value) & mask == value & mask,
{
    assert(((reg & !mask) | (value & mask)) & !mask == reg & !mask && ((reg & !mask) | (value
        & mask)) & mask == value & mask) by (bit_vector);
}

/// Enabling a mask on a register in which it was clear, then disabling it,
/// gives back the register value.
pub proof fn lemma_enable_disable_round_trip(reg: u32, mask: u32)
    requires
        reg & mask == 0,
    ensures
        field_en(field_en(reg, mask, true), mask, false) == reg,
{
    assert((reg | mask) & !mask == reg) by (bit_vector)
        requires
            reg & mask == 0,
    ;
}

/// Whatever the register held, enabling a mask and then disabling it leaves
/// the register as a single disable would.
pub proof fn lemma_enable_then_disable_is_disable(reg: u32, mask: u32)
    ensures
        field_en(field_en(reg, mask, true), mask, false) == field_en(reg, mask, false),
{
    assert((reg | mask) & !mask == reg & !mask) by (bit_vector);
}

/// Enabling and disabling touch only the bits of the mask.
pub proof fn lemma_en_touches_only_mask(reg: u32, mask: u32, enable: bool)
    ensures
        field_en(reg, mask, enable) & !mask == reg & !mask,
        enable ==> field_en(reg, mask, enable) & mask == mask,
        !enable ==> field_en(reg, mask, enable) & mask == 0,
{
    assert((reg | mask) & !mask == reg & !mask && (reg & !mask) & !mask == reg & !mask && (reg
        | mask) & mask == mask && (reg & !mask) & mask == 0) by (bit_vector);
}

/// Flipping the same bits twice gives back the register value.
pub proof fn lemma_xor_twice(reg: u32, mask: u32)
    ensures
        (reg ^ mask) ^ mask == reg,
{
    assert((reg ^ mask) ^ mask == reg) by (bit_vector);
}

/// Setting a field to what it already holds changes nothing.
pub proof fn lemma_set_of_held_value(reg: u32, mask: u32, value: u32)
    requires
        reg & mask == value & mask,
    ensures
        field_set(reg, mask, value) == reg,
{
    assert(((reg & !mask) | (value & mask)) == reg) by (bit_vector)
        requires
            reg & mask == value & mask,
    ;
}

/// Disabling a mask that is clear changes nothing.
pub proof fn lemma_disable_of_clear(reg: u32, mask: u32)
    requires
        reg & mask == 0,
    ensures
        field_en(reg, mask, false) == reg,
{
    assert(reg & !mask == reg) by (bit_vector)
        requires
            reg & mask == 0,
    ;
}

/// A field update leaves every bit outside its mask as it was: what another
/// mask selects is unchanged where the two masks share no bit.
pub proof fn lemma_set_keeps_disjoint(reg: u32, mask: u32, value: u32, other: u32)
    requires
        mask & other == 0,
    ensures
        field_set(reg, mask, value) & other == reg & other,
{
    assert(((reg & !mask) | (value & mask)) & other == reg & other) by (bit_vector)
        requires
            mask & other == 0,
    ;
}

/// Enabling or disabling a mask leaves unchanged what another mask selects,
/// where the two masks share no bit.
pub proof fn lemma_en_keeps_disjoint(reg: u32, mask: u32, enable: bool, other: u32)
    requires
        mask & other == 0,
    ensures
        field_en(reg, mask, enable) & other == reg & other,
{
    assert((reg | mask) & other == reg & other && (reg & !mask) & other == reg & other)
        by (bit_vector)
        requires
            mask & other == 0,
    ;
}

/// A value that fits a mask is what the field holds after it has been set.
pub proof fn lemma_set_then_read(reg: u32, mask: u32, value: u32)
    requires
        value & !mask == 0,
    ensures
        field_set(reg, mask, value) & mask == value,
{
    assert(((reg & !mask) | (value & mask)) & mask == value) by (bit_vector)
        requires
            value & !mask == 0,
    ;
}

/// Switching no bit at all changes nothing.
pub proof fn lemma_en_of_no_bits(reg: u32, enable: bool)
    ensures
        field_en(reg, 0, enable) == reg,
{
    assert((reg | 0) == reg && (reg & !0u32) == reg) by (bit_vector);
}

/// Switching two masks the same way, one after the other, is switching both
/// at once.
pub proof fn lemma_en_twice(reg: u32, first: u32, second: u32, enable: bool)
    ensures
        field_en(field_en(reg, first, enable), second, enable) == field_en(
            reg,
            first | second,
            enable,
        ),
{
    assert(((reg | first) | second) == (reg | (first | second)) && ((reg & !first) & !second)
        == (reg & !(first | second))) by (bit_vector);
}

} // verus!
