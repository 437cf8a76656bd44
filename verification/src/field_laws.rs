//! What holds of the field operations on a bus that stores what is written
//! to it: a field reads back what was written to it, and a write to one
//! field changes no other field.

use vstd::prelude::*;
use crate::bits::spec_genmask32;
use crate::error::Error;
use crate::regmap::{
    bit_is_set, enum_read, enum_write, field_get, field_mask, field_max, field_read,
    field_update_bits, field_write, is_variant, variant_with_value, variants_fit, RegField,
    RegUpdate,
};

verus! {

/// The registers of a bus that stores what is written, after `update` was
/// carried out on it: the register of the update holds the merged value,
/// every other register what it held before.
pub open spec fn stored(registers: spec_fn(u32) -> u32, update: RegUpdate) -> spec_fn(u32) -> u32 {
    |addr: u32|
        if addr == update.reg {
            update.merged(registers(update.reg))
        } else {
            registers(addr)
        }
}

/// The register that a bus that stores what is written holds after the
/// plan of an update was carried out on it: what the plan writes, or what
/// the register read if the plan writes nothing.
pub open spec fn after_plan(update: RegUpdate, current: u32) -> u32 {
    match update.planned(Ok(current)) {
        Ok(Some(value)) => value,
        _ => current,
    }
}

/// Carrying out the plan of an update leaves the register as the update
/// merges it, whether the plan writes or not and whether the update is
/// forced or not. So the laws below, which speak of the merged register,
/// hold of what the plans do.
pub proof fn lemma_plan_stores_merged(registers: spec_fn(u32) -> u32, update: RegUpdate)
    ensures
        after_plan(update, registers(update.reg)) == stored(registers, update)(update.reg),
        update.planned(Ok(registers(update.reg))) is Ok,
        !update.force && update.merged(registers(update.reg)) == registers(update.reg)
            <==> update.planned(Ok(registers(update.reg))) == Ok::<Option<u32>, Error>(None),
{
}

/// Whether the two fields have no bit in common: they lie in different
/// registers, or their ranges of bits do not overlap.
pub open spec fn disjoint(a: RegField, b: RegField) -> bool {
    a.reg != b.reg || a.msb < b.lsb || b.msb < a.lsb
}

proof fn lemma_write_get(h: u32, l: u32, current: u32, val: u32)
    by (bit_vector)
    requires
        l <= h < 32,
    ensures
        ((((current & !spec_genmask32(h, l)) | ((val << l) & spec_genmask32(h, l)))
            & spec_genmask32(h, l)) >> l) == val & (spec_genmask32(h, l) >> l),
{
}

proof fn lemma_update_bits_get(h: u32, l: u32, current: u32, bits: u32, val: u32)
    by (bit_vector)
    requires
        l <= h < 32,
    ensures
        ((((current & !((bits << l) & spec_genmask32(h, l))) | ((val << l) & ((bits << l)
            & spec_genmask32(h, l)))) & spec_genmask32(h, l)) >> l) == ((((current
            & spec_genmask32(h, l)) >> l) & !bits) | (val & bits & (spec_genmask32(h, l) >> l))),
{
}

proof fn lemma_one_bit(l: u32)
    by (bit_vector)
    requires
        l < 32,
    ensures
        spec_genmask32(l, l) >> l == 1,
        spec_genmask32(l, l) == 1u32 << l,
{
}

proof fn lemma_ranges_apart(h1: u32, l1: u32, h2: u32, l2: u32)
    by (bit_vector)
    requires
        l1 <= h1 < 32,
        l2 <= h2 < 32,
        h1 < l2 || h2 < l1,
    ensures
        spec_genmask32(h1, l1) & spec_genmask32(h2, l2) == 0,
{
}

proof fn lemma_merge_outside(current: u32, mask: u32, value: u32, within: u32, other: u32)
    by (bit_vector)
    requires
        mask & !within == 0,
        within & other == 0,
    ensures
        ((current & !mask) | (value & mask)) & other == current & other,
        ((current & !mask) | (value & mask)) & !mask == current & !mask,
{
}

proof fn lemma_update_mask_within(h: u32, l: u32, bits: u32)
    by (bit_vector)
    requires
        l <= h < 32,
    ensures
        ((bits << l) & spec_genmask32(h, l)) & !spec_genmask32(h, l) == 0,
        spec_genmask32(h, l) & !spec_genmask32(h, l) == 0,
{
}

proof fn lemma_bits_kept(old_value: u32, bits: u32, max: u32)
    by (bit_vector)
    requires
        bits & !max == 0,
        old_value <= max,
    ensures
        ((old_value & !bits) | (bits & bits & max)) & bits == bits,
        ((old_value & !bits) | (bits & bits & max)) == old_value | bits,
        ((old_value & !bits) | (0u32 & bits & max)) == old_value & !bits,
        ((old_value & !bits) | (0u32 & bits & max)) & bits == 0,
{
}

/// For every field of one bit: after it was set it reads as set, and
/// after it was cleared it reads as clear, forced or not and whatever the
/// registers held before.
pub proof fn lemma_bit_roundtrip(d: RegField, registers: spec_fn(u32) -> u32, force: bool)
    requires
        d.valid(),
        d.lsb == d.msb,
    ensures
        bit_is_set(d, Ok(stored(registers, field_write(d, 1, force))(d.reg))) == Ok::<bool, Error>(
            true,
        ),
        bit_is_set(d, Ok(stored(registers, field_write(d, 0, force))(d.reg))) == Ok::<bool, Error>(
            false,
        ),
{
    let current = registers(d.reg);
    lemma_write_get(d.msb, d.lsb, current, 1);
    lemma_write_get(d.msb, d.lsb, current, 0);
    lemma_one_bit(d.lsb);
    assert(1u32 & 1u32 == 1u32) by (bit_vector);
    assert(0u32 & 1u32 == 0u32) by (bit_vector);
}

/// For every field: after `val` was written to it, it reads as `val`
/// without the bits that do not fit into the field.
pub proof fn lemma_write_roundtrip(d: RegField, registers: spec_fn(u32) -> u32, val: u32, force: bool)
    requires
        d.valid(),
    ensures
        field_read(d, Ok(stored(registers, field_write(d, val, force))(d.reg))) == Ok::<u32, Error>(
            val & field_max(d),
        ),
        val <= field_max(d) ==> field_read(
            d,
            Ok(stored(registers, field_write(d, val, force))(d.reg)),
        ) == Ok::<u32, Error>(val),
{
    lemma_write_get(d.msb, d.lsb, registers(d.reg), val);
    let max = field_max(d);
    assert(val <= max ==> val & max == val) by {
        lemma_max_is_low_bits(d.msb, d.lsb, val);
    }
}

proof fn lemma_max_is_low_bits(h: u32, l: u32, val: u32)
    by (bit_vector)
    requires
        l <= h < 32,
    ensures
        val <= (spec_genmask32(h, l) >> l) ==> val & (spec_genmask32(h, l) >> l) == val,
{
}

/// For every field: after an update of the bits `bits` of the field to
/// those of `val`, the field reads as before in its other bits and as `val`
/// in the bits `bits` that fit into the field.
pub proof fn lemma_update_bits_roundtrip(
    d: RegField,
    registers: spec_fn(u32) -> u32,
    bits: u32,
    val: u32,
    force: bool,
)
    requires
        d.valid(),
    ensures
        field_get(d, stored(registers, field_update_bits(d, bits, val, force))(d.reg)) == (
        field_get(d, registers(d.reg)) & !bits) | (val & bits & field_max(d)),
{
    lemma_update_bits_get(d.msb, d.lsb, registers(d.reg), bits, val);
}

/// For every field and all bits that fit into it: after the bits were
/// set, the field reads with all of them set and is otherwise as before;
/// after they were cleared, it reads with none of them set and is
/// otherwise as before.
pub proof fn lemma_set_and_clear_bits(d: RegField, registers: spec_fn(u32) -> u32, bits: u32)
    requires
        d.valid(),
        bits & !field_max(d) == 0,
    ensures
        field_get(d, stored(registers, field_update_bits(d, bits, bits, false))(d.reg)) & bits
            == bits,
        field_get(d, stored(registers, field_update_bits(d, bits, bits, false))(d.reg))
            == field_get(d, registers(d.reg)) | bits,
        field_get(d, stored(registers, field_update_bits(d, bits, 0, false))(d.reg)) & bits == 0,
        field_get(d, stored(registers, field_update_bits(d, bits, 0, false))(d.reg)) == field_get(
            d,
            registers(d.reg),
        ) & !bits,
{
    lemma_update_bits_roundtrip(d, registers, bits, bits, false);
    lemma_update_bits_roundtrip(d, registers, bits, 0, false);
    crate::regmap::lemma_field_get_bounded(d.msb, d.lsb, registers(d.reg));
    lemma_bits_kept(field_get(d, registers(d.reg)), bits, field_max(d));
}

/// For every enumerated field: after a variant was written to it, it reads
/// as that variant.
pub proof fn lemma_enum_roundtrip(
    d: RegField,
    values: Seq<u32>,
    registers: spec_fn(u32) -> u32,
    variant: usize,
    force: bool,
)
    requires
        d.valid(),
        variants_fit(d, values),
        variant < values.len(),
    ensures
        enum_write(d, values, variant, force) is Ok,
        enum_read(d, values, Ok(stored(registers, enum_write(d, values, variant, force)->Ok_0)(d.reg)))
            == Ok::<usize, Error>(variant),
{
    let value = values[variant as int];
    lemma_write_roundtrip(d, registers, value, force);
    assert(is_variant(values, value, variant as int));
    let found = choose|i: int| is_variant(values, value, i);
    if found < variant {
        assert(values[found] != values[variant as int]);
    } else if variant < found {
        assert(values[variant as int] != values[found]);
    }
}

/// For every enumerated field: after a value that fits into the field but
/// is the value of no variant was written to it, reading it fails with
/// `InvalidFieldValue`.
pub proof fn lemma_enum_rejects_other_values(
    d: RegField,
    values: Seq<u32>,
    registers: spec_fn(u32) -> u32,
    raw: u32,
    force: bool,
)
    requires
        d.valid(),
        raw <= field_max(d),
        forall|i: int| 0 <= i < values.len() ==> #[trigger] values[i] != raw,
    ensures
        enum_read(d, values, Ok(stored(registers, field_write(d, raw, force))(d.reg))) == Err::<
            usize,
            Error,
        >(Error::InvalidFieldValue),
{
    lemma_write_roundtrip(d, registers, raw, force);
    assert(forall|i: int| !is_variant(values, raw, i));
}

/// Two fields whose ranges of bits do not overlap have no bit in common.
pub proof fn lemma_disjoint_masks(a: RegField, b: RegField)
    requires
        a.valid(),
        b.valid(),
        a.msb < b.lsb || b.msb < a.lsb,
    ensures
        field_mask(a) & field_mask(b) == 0,
{
    lemma_ranges_apart(a.msb, a.lsb, b.msb, b.lsb);
}

/// A write or an update of the bits of one field changes no field that has
/// no bit in common with it, and no bit of the register outside the bits
/// that it names.
pub proof fn lemma_siblings_unaffected(
    d: RegField,
    other: RegField,
    registers: spec_fn(u32) -> u32,
    bits: u32,
    val: u32,
    force: bool,
)
    requires
        d.valid(),
        other.valid(),
        disjoint(d, other),
    ensures
        field_get(other, stored(registers, field_write(d, val, force))(other.reg)) == field_get(
            other,
            registers(other.reg),
        ),
        field_get(other, stored(registers, field_update_bits(d, bits, val, force))(other.reg))
            == field_get(other, registers(other.reg)),
        stored(registers, field_write(d, val, force))(d.reg) & !field_mask(d) == registers(d.reg)
            & !field_mask(d),
{
    let current = registers(d.reg);
    let m = field_mask(d);
    lemma_update_mask_within(d.msb, d.lsb, bits);
    assert(m & 0u32 == 0u32) by (bit_vector);
    lemma_merge_outside(current, m, val << d.lsb, m, 0);
    if other.reg == d.reg {
        lemma_ranges_apart(d.msb, d.lsb, other.msb, other.lsb);
        lemma_merge_outside(current, m, val << d.lsb, m, field_mask(other));
        lemma_merge_outside(current, (bits << d.lsb) & m, val << d.lsb, m, field_mask(other));
    }
}

} // verus!
