//! The attribute a MIDI 2.0 note message may carry: a one-octet type in the
//! first word and sixteen bits of data in the second.

use vstd::prelude::*;
use crate::error::{ERR_ATTRIBUTE, Error};
use crate::numeric_types::{U7, U9};
use crate::property::{read_u16, read_u8};
use crate::schema::{
    lemma_read_after_other_write, lemma_read_after_write, spec_read, spec_write, write_field, Place,
    Schema,
};

verus! {

#[derive(Clone, Copy, Debug, PartialEq, Eq)]
#[non_exhaustive]
pub enum Attribute {
    ManufacturerSpecific(u16),
    ProfileSpecific(u16),
    Pitch7_9 { note: U7, pitch_up: U9 },
}

/// The attribute type: the lowest octet of the first word.
pub open spec fn attribute_type() -> Schema {
    Schema::ump_only(0, 0, 8)
}

pub fn attribute_type_schema() -> (schema: Schema)
    ensures
        schema == attribute_type(),
{
    Schema {
        ump: Place { index: 0, shift: 0, width: 8 },
        bytes: Place { index: 0, shift: 0, width: 0 },
    }
}

/// The attribute data: the lower half of the second word.
pub open spec fn attribute_data() -> Schema {
    Schema::ump_only(1, 0, 16)
}

pub fn attribute_data_schema() -> (schema: Schema)
    ensures
        schema == attribute_data(),
{
    Schema {
        ump: Place { index: 1, shift: 0, width: 16 },
        bytes: Place { index: 0, shift: 0, width: 0 },
    }
}

/// The type code an attribute is written with; no attribute is code 0.
pub open spec fn type_code(attribute: Option<Attribute>) -> u32 {
    match attribute {
        None => 0,
        Some(Attribute::ManufacturerSpecific(_)) => 1,
        Some(Attribute::ProfileSpecific(_)) => 2,
        Some(Attribute::Pitch7_9 { .. }) => 3,
    }
}

/// The sixteen data bits an attribute is written with. A pitch holds the
/// note in its upper seven bits and the fraction in its lower nine.
pub open spec fn data_bits(attribute: Attribute) -> u32 {
    match attribute {
        Attribute::ManufacturerSpecific(data) => data as u32,
        Attribute::ProfileSpecific(data) => data as u32,
        Attribute::Pitch7_9 { note, pitch_up } => (note@ * 512 + pitch_up@) as u32,
    }
}

/// Whether a decoded attribute is the one that a type code and data bits
/// stand for.
pub open spec fn decodes_to(code: u32, data: u32, attribute: Option<Attribute>) -> bool {
    match attribute {
        None => code == 0,
        Some(Attribute::ManufacturerSpecific(d)) => code == 1 && d == data,
        Some(Attribute::ProfileSpecific(d)) => code == 2 && d == data,
        Some(Attribute::Pitch7_9 { note, pitch_up }) => code == 3 && note@ == data / 512
            && pitch_up@ == data % 512,
    }
}

/// The words after an attribute is written. Without an attribute only the
/// type octet is cleared; the data bits are left as they were.
pub open spec fn spec_write_attribute(units: Seq<u32>, attribute: Option<Attribute>) -> Seq<u32> {
    match attribute {
        None => spec_write(units, attribute_type(), 0),
        Some(a) => spec_write(
            spec_write(units, attribute_type(), type_code(attribute)),
            attribute_data(),
            data_bits(a),
        ),
    }
}

/// The executable form of [`type_code`].
pub fn type_code_of(attribute: Option<Attribute>) -> (code: u8)
    ensures
        code == type_code(attribute),
{
    match attribute {
        None => 0,
        Some(Attribute::ManufacturerSpecific(_)) => 1,
        Some(Attribute::ProfileSpecific(_)) => 2,
        Some(Attribute::Pitch7_9 { .. }) => 3,
    }
}

/// The executable form of [`data_bits`].
pub fn data_bits_of(attribute: Attribute) -> (bits: u16)
    ensures
        bits == data_bits(attribute),
{
    match attribute {
        Attribute::ManufacturerSpecific(data) => data,
        Attribute::ProfileSpecific(data) => data,
        Attribute::Pitch7_9 { note, pitch_up } => (note.value() as u16) * 512 + pitch_up.value(),
    }
}

/// Accepts exactly the four defined attribute types.
pub fn validate_ump(bytes: &[u32]) -> (r: Result<(), Error>)
    requires
        bytes@.len() >= 1,
    ensures
        spec_read(bytes@, attribute_type()) <= 3 ==> r is Ok,
        spec_read(bytes@, attribute_type()) > 3 ==> r == Err::<(), Error>(
            Error::InvalidData(ERR_ATTRIBUTE),
        ),
{
    match read_u8(bytes, &attribute_type_schema()) {
        0x0 => Ok(()),
        0x1 => Ok(()),
        0x2 => Ok(()),
        0x3 => Ok(()),
        _ => Err(Error::InvalidData(ERR_ATTRIBUTE)),
    }
}

/// Decodes the attribute of a validated note message.
pub fn from_ump(bytes: &[u32]) -> (r: Option<Attribute>)
    requires
        bytes@.len() >= 1,
        spec_read(bytes@, attribute_type()) <= 3,
        spec_read(bytes@, attribute_type()) != 0 ==> bytes@.len() >= 2,
    ensures
        decodes_to(spec_read(bytes@, attribute_type()), spec_read(bytes@, attribute_data()), r),
{
    let code = read_u8(bytes, &attribute_type_schema());
    if code == 0x0 {
        return None;
    }
    let data = read_u16(bytes, &attribute_data_schema());
    if code == 0x1 {
        Some(Attribute::ManufacturerSpecific(data))
    } else if code == 0x2 {
        Some(Attribute::ProfileSpecific(data))
    } else {
        Some(
            Attribute::Pitch7_9 { note: U7::new((data / 512) as u8), pitch_up: U9::new(data % 512) }
        )
    }
}

/// Encodes an attribute into the first two words and hands those two words
/// back. Every bit outside the attribute's own fields is kept.
pub fn write_attribute(bytes: &mut [u32], attr: Option<Attribute>) -> (written: &mut [u32])
    requires
        old(bytes)@.len() >= 2,
    ensures
        written@ == spec_write_attribute(old(bytes)@, attr).subrange(0, 2),
        final(bytes)@ == final(written)@ + spec_write_attribute(old(bytes)@, attr).subrange(
            2,
            old(bytes)@.len() as int,
        ),
{
    match attr {
        None => {
            write_field(bytes, &attribute_type_schema(), 0x0);
        },
        Some(a) => match a {
            Attribute::ManufacturerSpecific(d) => {
                write_field(bytes, &attribute_type_schema(), 0x1);
                write_field(bytes, &attribute_data_schema(), d as u32);
            },
            Attribute::ProfileSpecific(d) => {
                write_field(bytes, &attribute_type_schema(), 0x2);
                write_field(bytes, &attribute_data_schema(), d as u32);
            },
            Attribute::Pitch7_9 { note, pitch_up } => {
                let d: u32 = note.as_u32() * 512 + pitch_up.as_u32();
                write_field(bytes, &attribute_type_schema(), 0x3);
                write_field(bytes, &attribute_data_schema(), d);
            },
        },
    }
    let ghost whole = bytes@;
    let (head, tail) = bytes.split_at_mut(2);
    proof {
        assert(head@ =~= whole.subrange(0, 2));
        assert(tail@ =~= whole.subrange(2, whole.len() as int));
    }
    head
}

/// An attribute reads back as it was written: the words that
/// `write_attribute` leaves validate, and decode to the same attribute.
pub proof fn lemma_attribute_round_trip(units: Seq<u32>, attribute: Option<Attribute>)
    requires
        units.len() >= 2,
        match attribute {
            Some(Attribute::Pitch7_9 { note, pitch_up }) => note@ <= 0x7F && pitch_up@ <= 0x1FF,
            _ => true,
        },
    ensures
        spec_read(spec_write_attribute(units, attribute), attribute_type()) == type_code(attribute),
        attribute is Some ==> spec_read(spec_write_attribute(units, attribute), attribute_data())
            == data_bits(attribute->Some_0),
        attribute is Some ==> decodes_to(
            type_code(attribute),
            data_bits(attribute->Some_0),
            attribute,
        ),
{
    crate::bit_ops::lemma_low_mask_bound(8);
    crate::bit_ops::lemma_mask_identity(type_code(attribute), 8);
    lemma_read_after_write(units, attribute_type(), type_code(attribute));
    match attribute {
        None => {},
        Some(a) => {
            let typed = spec_write(units, attribute_type(), type_code(attribute));
            crate::bit_ops::lemma_mask_identity(data_bits(a), 16);
            lemma_read_after_write(typed, attribute_data(), data_bits(a));
            lemma_read_after_other_write(typed, attribute_data(), data_bits(a), attribute_type());
        },
    }
}

} // verus!
