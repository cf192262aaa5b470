//! Setting single bits and small fields of a register value.

use vstd::prelude::*;

verus! {

/// `value` with bit number `bit` set or cleared, and every other bit kept.
pub open spec fn bit_set_to(value: u16, bit: u16, set: bool) -> u16 {
    if set {
        value | (1u16 << bit)
    } else {
        value & !(1u16 << bit)
    }
}

/// `value` with the bits of `mask`, moved up by `shift`, cleared and then
/// `field`, moved up by `shift`, put in.
pub open spec fn field_set_to(value: u16, shift: u16, mask: u16, field: u16) -> u16 {
    (value & !(mask << shift)) | (field << shift)
}

/// `value` with the bits of `mask`, moved up by `shift`, cleared and then
/// `field`, moved up by `shift`, put in.
pub open spec fn wide_field_set_to(value: u64, shift: u64, mask: u64, field: u64) -> u64 {
    (value & !(mask << shift)) | (field << shift)
}

/// Whether bit number `bit` of `value` is set.
pub open spec fn bit_of(value: u16, bit: u16) -> bool {
    (value >> bit) & 1 == 1
}

/// The field of `value` that `mask`, moved up by `shift`, covers.
pub open spec fn field_of(value: u16, shift: u16, mask: u16) -> u16 {
    (value >> shift) & mask
}

/// Sets or clears one bit.
pub fn set_bit(value: u16, bit: u16, set: bool) -> (changed: u16)
    requires
        bit < 16,
    ensures
        changed == bit_set_to(value, bit, set),
{
    let flag: u16 = if set {
        1
    } else {
        0
    };
    let changed = value & !(1u16 << bit) | (flag << bit);
    assert(changed == bit_set_to(value, bit, set)) by (bit_vector)
        requires
            bit < 16,
            changed == value & !(1u16 << bit) | (flag << bit),
            flag == if set {
                1u16
            } else {
                0u16
            },
    ;
    changed
}

/// Replaces one field.
pub fn set_field(value: u16, shift: u16, mask: u16, field: u16) -> (changed: u16)
    requires
        shift < 16,
    ensures
        changed == field_set_to(value, shift, mask, field),
{
    value & !(mask << shift) | (field << shift)
}

/// Replaces one field of a wide value.
pub fn set_wide_field(value: u64, shift: u64, mask: u64, field: u64) -> (changed: u64)
    requires
        shift < 64,
    ensures
        changed == wide_field_set_to(value, shift, mask, field),
{
    value & !(mask << shift) | (field << shift)
}

/// Setting a bit gives that bit the value asked for and leaves the others.
pub proof fn lemma_bit_set_to(value: u16, bit: u16, set: bool, other: u16)
    by (bit_vector)
    requires
        bit < 16,
        other < 16,
    ensures
        bit_of(bit_set_to(value, bit, set), bit) == set,
        other != bit ==> bit_of(bit_set_to(value, bit, set), other) == bit_of(value, other),
{
}

/// Setting a field that fits its mask gives the field that value and leaves
/// the bits outside the mask.
pub proof fn lemma_field_set_to(value: u16, shift: u16, mask: u16, field: u16)
    by (bit_vector)
    requires
        shift < 16,
        field & mask == field,
        (mask << shift) >> shift == mask,
    ensures
        field_of(field_set_to(value, shift, mask, field), shift, mask) == field,
        field_set_to(value, shift, mask, field) & !(mask << shift) == value & !(mask << shift),
{
}

} // verus!
