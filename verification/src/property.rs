//! Typed access to fields: the pairing of a schema with the kind of value
//! it holds, and the validation a parser runs before it trusts a buffer.

use vstd::prelude::*;
use crate::bit_ops::{lemma_low_mask_bound, lemma_low_mask_monotonic};
use crate::buffer::{zeros, BufferMut, MessageData};
use crate::error::{ERR_NO_BYTE_FORM, ERR_SLICE_TOO_SHORT, Error};
use crate::numeric_types::{U10, U14, U20, U4, U7, U9};
use crate::schema::{
    locate, min_size, place, read_field, size_of, spec_read, spec_write, usable, write_field,
    Schema, Sizes, Unit,
};

verus! {

/// The verdict on a buffer's length: a message form that does not exist is
/// rejected, as is a buffer shorter than the message.
pub open spec fn spec_validate_size<U: Unit>(len: nat, sizes: Sizes) -> Result<(), Error> {
    if min_size::<U>(sizes) == 0 {
        Err(Error::InvalidData(ERR_NO_BYTE_FORM))
    } else if len < min_size::<U>(sizes) {
        Err(Error::InvalidData(ERR_SLICE_TOO_SHORT))
    } else {
        Ok(())
    }
}

pub fn validate_size<U: Unit>(units: &[U], sizes: &Sizes) -> (r: Result<(), Error>)
    ensures
        r == spec_validate_size::<U>(units@.len(), *sizes),
{
    let needed = size_of::<U>(sizes);
    if needed == 0 {
        Err(Error::InvalidData(ERR_NO_BYTE_FORM))
    } else if units.len() < needed {
        Err(Error::InvalidData(ERR_SLICE_TOO_SHORT))
    } else {
        Ok(())
    }
}

/// A field fixed by the message kind holds its value. A field without a
/// place in the wire form at hand has nothing to validate.
pub open spec fn constant_holds<U: Unit>(units: Seq<U>, schema: Schema, value: u32) -> bool {
    place::<U>(schema).is_absent() || spec_read(units, schema) == value
}

/// The verdict on one constant field.
pub open spec fn spec_validate_constant<U: Unit>(
    units: Seq<U>,
    schema: Schema,
    value: u32,
    reason: &'static str,
) -> Result<(), Error> {
    if constant_holds(units, schema, value) {
        Ok(())
    } else {
        Err(Error::InvalidData(reason))
    }
}

pub fn validate_constant<U: Unit>(
    units: &[U],
    schema: &Schema,
    value: u32,
    reason: &'static str,
) -> (r: Result<(), Error>)
    requires
        usable::<U>(*schema, units@.len()),
    ensures
        r == spec_validate_constant(units@, *schema, value, reason),
{
    if locate::<U>(schema).width == 0 || read_field(units, schema) == value {
        Ok(())
    } else {
        Err(Error::InvalidData(reason))
    }
}

/// The verdict on a field whose legal values are those up to `limit`.
pub open spec fn spec_validate_limit<U: Unit>(
    units: Seq<U>,
    schema: Schema,
    limit: u32,
    reason: &'static str,
) -> Result<(), Error> {
    if spec_read(units, schema) <= limit {
        Ok(())
    } else {
        Err(Error::InvalidData(reason))
    }
}

/// Looks at the bits of one field and nothing else: `InvalidData` exactly
/// when they hold a number beyond the field's domain.
pub fn validate_limit<U: Unit>(
    units: &[U],
    schema: &Schema,
    limit: u32,
    reason: &'static str,
) -> (r:
    Result<(), Error>)
    requires
        usable::<U>(*schema, units@.len()),
    ensures
        r == spec_validate_limit(units@, *schema, limit, reason),
{
    if read_field(units, schema) <= limit {
        Ok(())
    } else {
        Err(Error::InvalidData(reason))
    }
}

pub fn read_u4<U: Unit>(units: &[U], schema: &Schema) -> (value: U4)
    requires
        usable::<U>(*schema, units@.len()),
        place::<U>(*schema).width <= 4,
    ensures
        value@ == spec_read(units@, *schema),
{
    let raw = read_field(units, schema);
    proof {
        lemma_low_mask_monotonic(place::<U>(*schema).width, 4);
        lemma_low_mask_bound(4);
    }
    U4::new(raw as u8)
}

pub fn read_u7<U: Unit>(units: &[U], schema: &Schema) -> (value: U7)
    requires
        usable::<U>(*schema, units@.len()),
        place::<U>(*schema).width <= 7,
    ensures
        value@ == spec_read(units@, *schema),
{
    let raw = read_field(units, schema);
    proof {
        lemma_low_mask_monotonic(place::<U>(*schema).width, 7);
        lemma_low_mask_bound(7);
    }
    U7::new(raw as u8)
}

pub fn read_u8<U: Unit>(units: &[U], schema: &Schema) -> (value: u8)
    requires
        usable::<U>(*schema, units@.len()),
        place::<U>(*schema).width <= 8,
    ensures
        value == spec_read(units@, *schema),
{
    let raw = read_field(units, schema);
    proof {
        lemma_low_mask_monotonic(place::<U>(*schema).width, 8);
        lemma_low_mask_bound(8);
    }
    raw as u8
}

pub fn read_u9<U: Unit>(units: &[U], schema: &Schema) -> (value: U9)
    requires
        usable::<U>(*schema, units@.len()),
        place::<U>(*schema).width <= 9,
    ensures
        value@ == spec_read(units@, *schema),
{
    let raw = read_field(units, schema);
    proof {
        lemma_low_mask_monotonic(place::<U>(*schema).width, 9);
        lemma_low_mask_bound(9);
    }
    U9::new(raw as u16)
}

pub fn read_u10<U: Unit>(units: &[U], schema: &Schema) -> (value: U10)
    requires
        usable::<U>(*schema, units@.len()),
        place::<U>(*schema).width <= 10,
    ensures
        value@ == spec_read(units@, *schema),
{
    let raw = read_field(units, schema);
    proof {
        lemma_low_mask_monotonic(place::<U>(*schema).width, 10);
        lemma_low_mask_bound(10);
    }
    U10::new(raw as u16)
}

pub fn read_u16<U: Unit>(units: &[U], schema: &Schema) -> (value: u16)
    requires
        usable::<U>(*schema, units@.len()),
        place::<U>(*schema).width <= 16,
    ensures
        value == spec_read(units@, *schema),
{
    let raw = read_field(units, schema);
    proof {
        lemma_low_mask_monotonic(place::<U>(*schema).width, 16);
        lemma_low_mask_bound(16);
    }
    raw as u16
}

pub fn read_u20<U: Unit>(units: &[U], schema: &Schema) -> (value: U20)
    requires
        usable::<U>(*schema, units@.len()),
        place::<U>(*schema).width <= 20,
    ensures
        value@ == spec_read(units@, *schema),
{
    let raw = read_field(units, schema);
    proof {
        lemma_low_mask_monotonic(place::<U>(*schema).width, 20);
        lemma_low_mask_bound(20);
    }
    U20::new(raw)
}

/// A one-bit field read as a flag.
pub fn read_bool<U: Unit>(units: &[U], schema: &Schema) -> (value: bool)
    requires
        usable::<U>(*schema, units@.len()),
    ensures
        value == (spec_read(units@, *schema) != 0),
{
    read_field(units, schema) != 0
}

/// The number a flag is written as.
pub open spec fn bool_bits(value: bool) -> u32 {
    if value {
        1
    } else {
        0
    }
}

pub fn write_bool<U: Unit>(units: &mut [U], schema: &Schema, value: bool)
    requires
        usable::<U>(*schema, old(units)@.len()),
    ensures
        final(units)@ == spec_write(old(units)@, *schema, bool_bits(value)),
{
    let raw: u32 = if value {
        1
    } else {
        0
    };
    write_field(units, schema, raw);
}

/// A fourteen-bit number held as two seven-bit fields: the value of the
/// low field plus 128 times the value of the high field.
pub open spec fn spec_read_u14<U: Unit>(units: Seq<U>, low: Schema, high: Schema) -> u32 {
    (spec_read(units, low) + 128 * spec_read(units, high)) as u32
}

/// The sequence after both halves of a fourteen-bit number are written.
pub open spec fn spec_write_u14<U: Unit>(
    units: Seq<U>,
    low: Schema,
    high: Schema,
    value: u32,
) -> Seq<U> {
    spec_write(spec_write(units, low, (value % 128) as u32), high, (value / 128) as u32)
}

pub fn read_u14<U: Unit>(units: &[U], low: &Schema, high: &Schema) -> (value: U14)
    requires
        usable::<U>(*low, units@.len()),
        usable::<U>(*high, units@.len()),
        place::<U>(*low).width <= 7,
        place::<U>(*high).width <= 7,
    ensures
        value@ == spec_read_u14(units@, *low, *high),
{
    let l = read_field(units, low);
    let h = read_field(units, high);
    proof {
        lemma_low_mask_monotonic(place::<U>(*low).width, 7);
        lemma_low_mask_monotonic(place::<U>(*high).width, 7);
        lemma_low_mask_bound(7);
    }
    U14::new((l + 128 * h) as u16)
}

pub fn write_u14<U: Unit>(units: &mut [U], low: &Schema, high: &Schema, value: U14)
    requires
        usable::<U>(*low, old(units)@.len()),
        usable::<U>(*high, old(units)@.len()),
    ensures
        final(units)@ == spec_write_u14(old(units)@, *low, *high, value@),
{
    let raw = value.as_u32();
    write_field(units, low, raw % 128);
    write_field(units, high, raw / 128);
}

/// Copies `data` over the front of `target`.
pub fn copy_into<U: Unit>(target: &mut [U], data: &[U])
    requires
        data@.len() <= old(target)@.len(),
    ensures
        final(target)@ == data@ + old(target)@.subrange(
            data@.len() as int,
            old(target)@.len() as int,
        ),
{
    let mut i: usize = 0;
    while i < data.len()
        invariant
            i <= data@.len(),
            data@.len() <= target@.len(),
            target@.len() == old(target)@.len(),
            forall|j: int| 0 <= j < i ==> target@[j] == data@[j],
            forall|j: int| i <= j < target@.len() ==> target@[j] == old(target)@[j],
        decreases data@.len() - i,
    {
        target[i] = data[i];
        i += 1;
    }
    assert(target@ =~= data@ + old(target)@.subrange(
        data@.len() as int,
        old(target)@.len() as int,
    ));
}

/// Copies `data` over the front of `target` and hands the written part
/// back. Fails with `BufferOverflow`, leaving the target as it was, exactly
/// when the target is shorter than the data.
pub fn write_front<'a, U: Unit>(target: &'a mut [U], data: &[U]) -> (r: Result<&'a mut [U], Error>)
    ensures
        old(target)@.len() < data@.len() ==> r is Err && r->Err_0 == Error::BufferOverflow
            && final(target)@ == old(target)@,
        old(target)@.len() >= data@.len() ==> r is Ok && r->Ok_0@ == data@ && final(target)@
            == final(r->Ok_0)@ + old(target)@.subrange(
            data@.len() as int,
            old(target)@.len() as int,
        ),
{
    if target.len() < data.len() {
        return Err(Error::BufferOverflow);
    }
    copy_into(target, data);
    let ghost whole = target@;
    let (head, tail) = target.split_at_mut(data.len());
    proof {
        assert(head@ =~= data@);
        assert(tail@ =~= old(target)@.subrange(data@.len() as int, old(target)@.len() as int));
    }
    Ok(head)
}

/// What a buffer of type `C` holds after `data` is re-homed into it: the
/// data, followed by as many zero units as a fixed capacity leaves over.
pub open spec fn rebuffered<C: BufferMut>(data: Seq<C::Unit>) -> Seq<C::Unit> {
    match C::capacity() {
        Some(n) => data + zeros::<C::Unit>((n - data.len()) as nat),
        None => data,
    }
}

/// The words of the owned form of a message that occupies `size` words: an
/// owned packet as it is, borrowed words re-homed into a packet.
pub open spec fn owned_words(data: MessageData, size: nat) -> Seq<u32> {
    match data {
        MessageData::Owned(words) => words@,
        MessageData::Borrowed(words) => rebuffered::<[u32; 4]>(words@.subrange(0, size as int)),
    }
}

/// Whether a buffer of type `C` has room for `len` units.
pub open spec fn has_room<C: BufferMut>(len: nat) -> bool {
    match C::capacity() {
        Some(n) => len <= n,
        None => true,
    }
}

/// A fixed-size array has room for exactly the sequences no longer than it.
pub proof fn lemma_room_of_array<U: Unit, const N: usize>(len: nat)
    ensures
        has_room::<[U; N]>(len) <==> len <= N,
{
}

/// A vector has room for every sequence.
pub proof fn lemma_room_of_vec<U: Unit>(len: nat)
    ensures
        has_room::<Vec<U>>(len),
{
}

/// Re-homing keeps the data: the re-homed buffer starts with it.
pub proof fn lemma_rebuffer_keeps_data<C: BufferMut>(data: Seq<C::Unit>)
    requires
        has_room::<C>(data.len()),
    ensures
        rebuffered::<C>(data).len() >= data.len(),
        rebuffered::<C>(data).subrange(0, data.len() as int) == data,
{
    assert(rebuffered::<C>(data).subrange(0, data.len() as int) =~= data);
}

/// Re-homing twice into the same backend is the same as re-homing once.
pub proof fn lemma_rebuffer_idempotent<C: BufferMut>(data: Seq<C::Unit>)
    requires
        has_room::<C>(data.len()),
    ensures
        rebuffered::<C>(rebuffered::<C>(data).subrange(0, data.len() as int)) == rebuffered::<C>(
            data,
        ),
{
    lemma_rebuffer_keeps_data::<C>(data);
}

/// Re-homing into the same backend changes nothing, provided the buffer
/// holds nothing but zeros behind the data: a growable buffer must hold the
/// data alone, a fixed one the data and zeros up to its capacity.
pub proof fn lemma_rebuffer_same_backend<C: BufferMut>(buffer: C, size: nat)
    requires
        size <= buffer.units().len(),
        C::capacity() is None ==> buffer.units().len() == size,
        forall|i: int| size <= i < buffer.units().len() ==> buffer.units()[i] == C::Unit::from_bits(
            0
        ),
    ensures
        has_room::<C>(size),
        rebuffered::<C>(buffer.units().subrange(0, size as int)) == buffer.units(),
{
    buffer.lemma_capacity();
    assert(rebuffered::<C>(buffer.units().subrange(0, size as int)) =~= buffer.units());
}

/// Re-homes a unit sequence into a fresh buffer of another backend. Fails
/// with `BufferOverflow` exactly when the target is fixed and too small.
pub fn try_rebuffer<C: BufferMut>(data: &[C::Unit]) -> (r: Result<C, Error>)
    ensures
        has_room::<C>(data@.len()) ==> r is Ok && r->Ok_0.units() == rebuffered::<C>(data@),
        !has_room::<C>(data@.len()) ==> r == Err::<C, Error>(Error::BufferOverflow),
{
    let mut buffer = C::default();
    proof {
        buffer.lemma_capacity();
    }
    match buffer.required_capacity(data.len()) {
        Err(_) => Err(Error::BufferOverflow),
        Ok(()) => {
            let ghost grown = buffer.units();
            copy_into(buffer.as_mut_slice(), data);
            proof {
                buffer.lemma_capacity();
                assert(buffer.units() =~= rebuffered::<C>(data@));
            }
            Ok(buffer)
        },
    }
}

} // verus!
