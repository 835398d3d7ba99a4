//! Where a logical field lives in each of the two wire forms, and the
//! uniform read and write on a unit sequence that every message goes through.

use vstd::prelude::*;
use crate::bit_ops::{
    extract, insert, lemma_extract_bound, lemma_extract_insert_other, lemma_extract_insert_same,
    lemma_insert_byte, lemma_insert_extract, lemma_low_mask_bound, low_mask, read_bits, write_bits,
};

verus! {

/// The position of a field inside a unit sequence: the unit it lives in and
/// its bit range within that unit. A width of zero says the field has no
/// place in this wire form.
#[derive(Clone, Copy, Debug, PartialEq, Eq, Structural)]
pub struct Place {
    pub index: usize,
    pub shift: u32,
    pub width: u32,
}

/// The description of one logical field: its place among the 32-bit words
/// of a packet and its place among the bytes of the MIDI 1.0 stream.
#[derive(Clone, Copy, Debug, PartialEq, Eq, Structural)]
pub struct Schema {
    pub ump: Place,
    pub bytes: Place,
}

impl Place {
    /// The place of a field that does not exist in a wire form.
    pub open spec fn absent() -> Place {
        Place { index: 0, shift: 0, width: 0 }
    }

    pub open spec fn is_absent(self) -> bool {
        self.width == 0
    }

    /// The place fits a unit of `unit_width` bits.
    pub open spec fn fits(self, unit_width: u32) -> bool {
        self.shift < 32 && self.shift + self.width <= unit_width
    }

    /// Whether two places can be written independently of each other.
    pub open spec fn independent_of(self, other: Place) -> bool {
        ||| self.is_absent()
        ||| other.is_absent()
        ||| self.index != other.index
        ||| self.shift + self.width <= other.shift
        ||| other.shift + other.width <= self.shift
    }

    /// The largest number the place holds.
    pub open spec fn max_value(self) -> u32 {
        low_mask(self.width)
    }
}

impl Schema {
    /// A field that exists in packets of words only.
    pub open spec fn ump_only(index: usize, shift: u32, width: u32) -> Schema {
        Schema { ump: Place { index, shift, width }, bytes: Place::absent() }
    }
}

/// The two kinds of wire unit. Which one a buffer holds is fixed by its type.
#[derive(Clone, Copy, Debug, PartialEq, Eq, Structural)]
pub enum UnitKind {
    /// A 32-bit word of a Universal MIDI Packet.
    Word,
    /// A byte of the MIDI 1.0 stream.
    Byte,
}

impl UnitKind {
    /// The number of bits in one unit of this kind.
    pub open spec fn width(self) -> u32 {
        match self {
            UnitKind::Word => 32,
            UnitKind::Byte => 8,
        }
    }
}

/// The least number of units a message occupies in each wire form. Zero
/// bytes means the message has no byte stream form.
#[derive(Clone, Copy, Debug, PartialEq, Eq, Structural)]
pub struct Sizes {
    pub ump: usize,
    pub bytes: usize,
}

/// A wire atom: a 32-bit word or a byte. The unit type fixes which half of
/// a [`Schema`] applies to a sequence of it.
pub trait Unit: Copy + Sized {
    spec fn kind() -> UnitKind;

    /// The unit's bits as a number.
    spec fn bits(self) -> u32;

    /// The unit that holds the given bits.
    spec fn from_bits(bits: u32) -> Self;

    proof fn lemma_bits(unit: Self)
        ensures
            Self::from_bits(unit.bits()) == unit,
            unit.bits() <= low_mask(Self::kind().width()),
    ;

    proof fn lemma_from_bits(bits: u32)
        requires
            bits <= low_mask(Self::kind().width()),
        ensures
            Self::from_bits(bits).bits() == bits,
    ;

    fn unit_kind() -> (kind: UnitKind)
        ensures
            kind == Self::kind(),
    ;

    fn to_bits(self) -> (bits: u32)
        ensures
            bits == self.bits(),
    ;

    fn of_bits(bits: u32) -> (unit: Self)
        requires
            bits <= low_mask(Self::kind().width()),
        ensures
            unit == Self::from_bits(bits),
    ;
}

impl Unit for u32 {
    open spec fn kind() -> UnitKind {
        UnitKind::Word
    }

    open spec fn bits(self) -> u32 {
        self
    }

    open spec fn from_bits(bits: u32) -> u32 {
        bits
    }

    proof fn lemma_bits(unit: u32) {
    }

    proof fn lemma_from_bits(bits: u32) {
    }

    fn unit_kind() -> (kind: UnitKind) {
        UnitKind::Word
    }

    fn to_bits(self) -> (bits: u32) {
        self
    }

    fn of_bits(bits: u32) -> (unit: u32) {
        bits
    }
}

impl Unit for u8 {
    open spec fn kind() -> UnitKind {
        UnitKind::Byte
    }

    open spec fn bits(self) -> u32 {
        self as u32
    }

    open spec fn from_bits(bits: u32) -> u8 {
        bits as u8
    }

    proof fn lemma_bits(unit: u8) {
        lemma_low_mask_bound(8);
    }

    proof fn lemma_from_bits(bits: u32) {
        lemma_low_mask_bound(8);
    }

    fn unit_kind() -> (kind: UnitKind) {
        UnitKind::Byte
    }

    fn to_bits(self) -> (bits: u32) {
        self as u32
    }

    fn of_bits(bits: u32) -> (unit: u8) {
        proof {
            lemma_low_mask_bound(8);
        }
        bits as u8
    }
}

/// The place a field has in sequences of the unit type `U`.
pub open spec fn place<U: Unit>(schema: Schema) -> Place {
    match U::kind() {
        UnitKind::Word => schema.ump,
        UnitKind::Byte => schema.bytes,
    }
}

/// The least number of units of type `U` that a message of the given sizes
/// occupies.
pub open spec fn min_size<U: Unit>(sizes: Sizes) -> usize {
    match U::kind() {
        UnitKind::Word => sizes.ump,
        UnitKind::Byte => sizes.bytes,
    }
}

/// The executable form of [`place`].
pub fn locate<U: Unit>(schema: &Schema) -> (found: Place)
    ensures
        found == place::<U>(*schema),
{
    match U::unit_kind() {
        UnitKind::Word => schema.ump,
        UnitKind::Byte => schema.bytes,
    }
}

/// The executable form of [`min_size`].
pub fn size_of<U: Unit>(sizes: &Sizes) -> (size: usize)
    ensures
        size == min_size::<U>(*sizes),
{
    match U::unit_kind() {
        UnitKind::Word => sizes.ump,
        UnitKind::Byte => sizes.bytes,
    }
}

/// The schema suits the unit type `U` and a sequence of `len` units: its
/// place fits inside one unit, and that unit exists.
pub open spec fn usable<U: Unit>(schema: Schema, len: nat) -> bool {
    let field = place::<U>(schema);
    field.is_absent() || (field.fits(U::kind().width()) && field.index < len)
}

/// The value of a field, as found in a unit sequence. A field without a
/// place in this wire form reads as zero.
pub open spec fn spec_read<U: Unit>(units: Seq<U>, schema: Schema) -> u32 {
    let field = place::<U>(schema);
    if field.is_absent() {
        0
    } else {
        extract(units[field.index as int].bits(), field.shift, field.width)
    }
}

/// The unit sequence after a field is set to the low bits of `value`: only
/// the field's own bits differ. A field without a place leaves the sequence
/// as it is.
pub open spec fn spec_write<U: Unit>(units: Seq<U>, schema: Schema, value: u32) -> Seq<U> {
    let field = place::<U>(schema);
    if field.is_absent() {
        units
    } else {
        units.update(
            field.index as int,
            U::from_bits(
                insert(units[field.index as int].bits(), field.shift, field.width, value),
            ),
        )
    }
}

/// Writing never changes how many units there are.
pub proof fn lemma_write_len<U: Unit>(units: Seq<U>, schema: Schema, value: u32)
    requires
        usable::<U>(schema, units.len()),
    ensures
        spec_write(units, schema, value).len() == units.len(),
{
}

proof fn lemma_insert_in_unit<U: Unit>(unit: U, field: Place, value: u32)
    requires
        field.fits(U::kind().width()),
    ensures
        insert(unit.bits(), field.shift, field.width, value) <= low_mask(U::kind().width()),
{
    U::lemma_bits(unit);
    if U::kind().width() == 8 {
        lemma_low_mask_bound(8);
        lemma_insert_byte(unit.bits(), field.shift, field.width, value);
    }
}

/// A field reads back as what was written to it, cut to the field's width.
pub proof fn lemma_read_after_write<U: Unit>(units: Seq<U>, schema: Schema, value: u32)
    requires
        usable::<U>(schema, units.len()),
        !place::<U>(schema).is_absent(),
    ensures
        spec_read(
            spec_write(units, schema, value),
            schema,
        ) == value & place::<U>(schema).max_value(),
{
    let field = place::<U>(schema);
    let unit = units[field.index as int];
    let written = insert(unit.bits(), field.shift, field.width, value);
    lemma_insert_in_unit(unit, field, value);
    U::lemma_from_bits(written);
    U::lemma_bits(unit);
    lemma_extract_insert_same(unit.bits(), field.shift, field.width, value);
}

/// Writing one field leaves every independent field reading as before.
pub proof fn lemma_read_after_other_write<U: Unit>(
    units: Seq<U>,
    written: Schema,
    value: u32,
    read: Schema,
)
    requires
        usable::<U>(written, units.len()),
        usable::<U>(read, units.len()),
        place::<U>(written).independent_of(place::<U>(read)),
    ensures
        spec_read(spec_write(units, written, value), read) == spec_read(units, read),
{
    let w = place::<U>(written);
    let r = place::<U>(read);
    if !w.is_absent() && !r.is_absent() && w.index == r.index {
        let unit = units[w.index as int];
        let updated = insert(unit.bits(), w.shift, w.width, value);
        lemma_insert_in_unit(unit, w, value);
        U::lemma_from_bits(updated);
        U::lemma_bits(unit);
        lemma_extract_insert_other(unit.bits(), w.shift, w.width, value, r.shift, r.width);
    }
}

/// Writing back the value a field already has changes nothing.
pub proof fn lemma_write_what_was_read<U: Unit>(units: Seq<U>, schema: Schema)
    requires
        usable::<U>(schema, units.len()),
    ensures
        spec_write(units, schema, spec_read(units, schema)) == units,
{
    let field = place::<U>(schema);
    if !field.is_absent() {
        let unit = units[field.index as int];
        U::lemma_bits(unit);
        lemma_insert_extract(unit.bits(), field.shift, field.width);
        assert(spec_write(units, schema, spec_read(units, schema)) =~= units);
    }
}

/// What is read from a field lies within the field's range.
pub proof fn lemma_read_bound<U: Unit>(units: Seq<U>, schema: Schema)
    ensures
        spec_read(units, schema) <= place::<U>(schema).max_value(),
{
    let field = place::<U>(schema);
    if !field.is_absent() {
        lemma_extract_bound(units[field.index as int].bits(), field.shift, field.width);
    }
}

/// Reads a field.
pub fn read_field<U: Unit>(units: &[U], schema: &Schema) -> (value: u32)
    requires
        usable::<U>(*schema, units@.len()),
    ensures
        value == spec_read(units@, *schema),
        value <= place::<U>(*schema).max_value(),
{
    let field = locate::<U>(schema);
    if field.width == 0 {
        0
    } else {
        read_bits(units[field.index].to_bits(), field.shift, field.width)
    }
}

/// Writes the low bits of `value` into a field, touching no other bit.
pub fn write_field<U: Unit>(units: &mut [U], schema: &Schema, value: u32)
    requires
        usable::<U>(*schema, old(units)@.len()),
    ensures
        final(units)@ == spec_write(old(units)@, *schema, value),
{
    let field = locate::<U>(schema);
    if field.width != 0 {
        let unit = units[field.index];
        let updated = write_bits(unit.to_bits(), field.shift, field.width, value);
        proof {
            lemma_insert_in_unit(unit, field, value);
        }
        units[field.index] = U::of_bits(updated);
    }
}

} // verus!
