//! Reading and writing bit fields of a single wire unit.
//!
//! A field is the `width` bits of a unit that start `shift` bits above its
//! least significant bit. Everything else in the library that touches bits
//! goes through [`extract`] and [`insert`]; the lemmas here are the whole of
//! the bit-level reasoning the library rests on.

use vstd::prelude::*;
use crate::numeric_types::U4;

verus! {

/// The number with exactly the low `width` bits set.
pub open spec fn low_mask(width: u32) -> u32 {
    if width >= 32 {
        0xFFFF_FFFFu32
    } else {
        ((1u32 << width) - 1) as u32
    }
}

/// The field of `unit` that is `width` bits wide and starts at bit `shift`.
pub open spec fn extract(unit: u32, shift: u32, width: u32) -> u32 {
    (unit >> shift) & low_mask(width)
}

/// `unit` with that field replaced by the low `width` bits of `value`; all
/// other bits are kept.
pub open spec fn insert(unit: u32, shift: u32, width: u32, value: u32) -> u32 {
    (unit & !(low_mask(width) << shift)) | ((value & low_mask(width)) << shift)
}

/// Whether the fields `(shift_a, width_a)` and `(shift_b, width_b)` of one
/// unit share no bit.
pub open spec fn disjoint(shift_a: u32, width_a: u32, shift_b: u32, width_b: u32) -> bool {
    shift_a + width_a <= shift_b || shift_b + width_b <= shift_a
}

pub proof fn lemma_low_mask_bound(width: u32)
    by (bit_vector)
    ensures
        width < 32 ==> low_mask(width) < (1u32 << width),
        width < 32 ==> (1u32 << width) >= 1,
        width <= 8 ==> low_mask(width) <= 0xFF,
        width <= 4 ==> low_mask(width) <= 0xF,
        width <= 16 ==> low_mask(width) <= 0xFFFF,
        low_mask(4) == 0xF,
        low_mask(7) == 0x7F,
        low_mask(8) == 0xFF,
        low_mask(9) == 0x1FF,
        low_mask(10) == 0x3FF,
        low_mask(14) == 0x3FFF,
        low_mask(16) == 0xFFFF,
        low_mask(20) == 0xF_FFFF,
        low_mask(1) == 1,
        low_mask(2) == 3,
        low_mask(0) == 0,
{
}

/// A wider field holds at least what a narrower one does.
pub proof fn lemma_low_mask_monotonic(narrow: u32, wide: u32)
    by (bit_vector)
    requires
        narrow <= wide,
    ensures
        low_mask(narrow) <= low_mask(wide),
{
}

/// What is read from a field never exceeds the field's largest value.
pub proof fn lemma_extract_bound(unit: u32, shift: u32, width: u32)
    by (bit_vector)
    ensures
        extract(unit, shift, width) <= low_mask(width),
{
}

/// A number within the field's range is unchanged by masking to the field.
pub proof fn lemma_mask_identity(value: u32, width: u32)
    by (bit_vector)
    requires
        value <= low_mask(width),
    ensures
        value & low_mask(width) == value,
{
}

/// Masking never yields more than the mask.
pub proof fn lemma_and_bound(value: u32, mask: u32)
    by (bit_vector)
    ensures
        value & mask <= mask,
{
}

/// Reading a field just written gives back the low `width` bits written.
pub proof fn lemma_extract_insert_same(unit: u32, shift: u32, width: u32, value: u32)
    by (bit_vector)
    requires
        shift < 32,
        shift + width <= 32,
    ensures
        extract(insert(unit, shift, width, value), shift, width) == value & low_mask(width),
{
}

/// Writing one field leaves every field that shares no bit with it as it was.
pub proof fn lemma_extract_insert_other(
    unit: u32,
    shift: u32,
    width: u32,
    value: u32,
    other_shift: u32,
    other_width: u32,
)
    by (bit_vector)
    requires
        shift < 32,
        other_shift < 32,
        shift + width <= 32,
        other_shift + other_width <= 32,
        shift + width <= other_shift || other_shift + other_width <= shift,
    ensures
        extract(insert(unit, shift, width, value), other_shift, other_width) == extract(
            unit,
            other_shift,
            other_width,
        ),
{
}

/// Writing back what a field already holds changes nothing.
pub proof fn lemma_insert_extract(unit: u32, shift: u32, width: u32)
    by (bit_vector)
    requires
        shift < 32,
        shift + width <= 32,
    ensures
        insert(unit, shift, width, extract(unit, shift, width)) == unit,
{
}

/// A write into the low eight bits of a byte-sized number stays byte-sized.
pub proof fn lemma_insert_byte(unit: u32, shift: u32, width: u32, value: u32)
    by (bit_vector)
    requires
        unit <= 0xFF,
        shift + width <= 8,
    ensures
        insert(unit, shift, width, value) <= 0xFF,
{
}

/// The upper half of a word read as bit fields and read as two octets
/// agree: the top nibble, the two bits under it, and the ten bits under
/// those.
pub proof fn lemma_upper_half_fields(word: u32)
    by (bit_vector)
    ensures
        extract(word, 28, 4) == extract(word, 24, 8) / 16,
        extract(word, 26, 2) == (extract(word, 24, 8) % 16) / 4,
        extract(word, 16, 10) == (extract(word, 24, 8) % 4) * 256 + extract(word, 16, 8),
        extract(word, 24, 8) <= 0xFF,
        extract(word, 16, 8) <= 0xFF,
{
}

/// The executable form of [`low_mask`].
pub fn field_mask(width: u32) -> (mask: u32)
    ensures
        mask == low_mask(width),
{
    if width >= 32 {
        0xFFFF_FFFFu32
    } else {
        proof {
            lemma_low_mask_bound(width);
        }
        (1u32 << width) - 1
    }
}

/// The executable form of [`extract`].
pub fn read_bits(unit: u32, shift: u32, width: u32) -> (value: u32)
    requires
        shift < 32,
    ensures
        value == extract(unit, shift, width),
        value <= low_mask(width),
{
    proof {
        lemma_extract_bound(unit, shift, width);
    }
    (unit >> shift) & field_mask(width)
}

/// The executable form of [`insert`].
pub fn write_bits(unit: u32, shift: u32, width: u32, value: u32) -> (updated: u32)
    requires
        shift < 32,
    ensures
        updated == insert(unit, shift, width, value),
{
    let mask: u32 = field_mask(width);
    (unit & !(mask << shift)) | ((value & mask) << shift)
}

/// Bit position of the nibble numbered `index`, counting from the most
/// significant nibble of a word.
pub open spec fn nibble_shift(index: usize) -> u32 {
    (28 - 4 * index) as u32
}

/// Bit position of the octet numbered `index`, counting from the most
/// significant octet of a word.
pub open spec fn octet_shift(index: usize) -> u32 {
    (24 - 8 * index) as u32
}

/// Bit position of the 16-bit half numbered `index`; half 0 is the upper one.
pub open spec fn half_shift(index: usize) -> u32 {
    (16 - 16 * index) as u32
}

/// The nibble of `unit` numbered `index` (0 is the most significant).
pub open spec fn spec_nibble(unit: u32, index: usize) -> u32 {
    extract(unit, nibble_shift(index), 4)
}

/// The octet of `unit` numbered `index` (0 is the most significant).
pub open spec fn spec_octet(unit: u32, index: usize) -> u32 {
    extract(unit, octet_shift(index), 8)
}

/// The 16-bit half of `unit` numbered `index` (0 is the upper half).
pub open spec fn spec_half(unit: u32, index: usize) -> u32 {
    extract(unit, half_shift(index), 16)
}

pub fn nibble(unit: u32, index: usize) -> (value: U4)
    requires
        index < 8,
    ensures
        value@ == spec_nibble(unit, index),
{
    let shift: u32 = 28 - 4 * (index as u32);
    let raw: u32 = read_bits(unit, shift, 4);
    proof {
        lemma_low_mask_bound(4);
    }
    U4::new(raw as u8)
}

pub fn set_nibble(unit: &mut u32, index: usize, value: U4)
    requires
        index < 8,
    ensures
        *final(unit) == insert(*old(unit), nibble_shift(index), 4, value@),
{
    let shift: u32 = 28 - 4 * (index as u32);
    *unit = write_bits(*unit, shift, 4, value.as_u32());
}

pub fn octet(unit: u32, index: usize) -> (value: u8)
    requires
        index < 4,
    ensures
        value == spec_octet(unit, index),
{
    let shift: u32 = 24 - 8 * (index as u32);
    let raw: u32 = read_bits(unit, shift, 8);
    proof {
        lemma_low_mask_bound(8);
    }
    raw as u8
}

pub fn set_octet(unit: &mut u32, index: usize, value: u8)
    requires
        index < 4,
    ensures
        *final(unit) == insert(*old(unit), octet_shift(index), 8, value as u32),
{
    let shift: u32 = 24 - 8 * (index as u32);
    *unit = write_bits(*unit, shift, 8, value as u32);
}

/// The 16-bit half of `unit` numbered `index`.
pub fn half(unit: u32, index: usize) -> (value: u16)
    requires
        index < 2,
    ensures
        value == spec_half(unit, index),
{
    let shift: u32 = 16 - 16 * (index as u32);
    let raw: u32 = read_bits(unit, shift, 16);
    proof {
        lemma_low_mask_bound(16);
    }
    raw as u16
}

pub fn set_half(unit: &mut u32, index: usize, value: u16)
    requires
        index < 2,
    ensures
        *final(unit) == insert(*old(unit), half_shift(index), 16, value as u32),
{
    let shift: u32 = 16 - 16 * (index as u32);
    *unit = write_bits(*unit, shift, 16, value as u32);
}

} // verus!
