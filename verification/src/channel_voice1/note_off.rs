//! The note off message of the MIDI 1.0 channel voice family.

use vstd::prelude::*;
use crate::bit_ops::{lemma_low_mask_bound, lemma_mask_identity};
use crate::buffer::{zeros, Buffer, BufferMut, MessageData};
use crate::channel_voice1::UMP_MESSAGE_TYPE;
use crate::common_properties::{
    channel, channel_schema, channel_voice_status, channel_voice_status_schema, group, group_schema,
    ump_type, ump_type_schema,
};
use crate::error::{ERR_INCORRECT_STATUS, ERR_INCORRECT_UMP_MESSAGE_TYPE, Error};
use crate::numeric_types::{U4, U7};
use crate::property::{
    constant_holds, has_room, owned_words, read_u4, read_u7, rebuffered, spec_validate_size,
    try_rebuffer, validate_constant, validate_size,
};
use crate::schema::{
    lemma_read_after_other_write, lemma_read_after_write, min_size, place, size_of, spec_read,
    spec_write, write_field, Place, Schema, Sizes, Unit,
};

verus! {

pub const STATUS: u8 = 0b1000;

/// A note off message over any buffer of words or bytes.
#[derive(Clone, Debug, PartialEq, Eq)]
pub struct NoteOff<B: Buffer>(pub B);

/// The least number of units the message occupies in each wire form.
pub open spec fn sizes() -> Sizes {
    Sizes { ump: 1, bytes: 3 }
}

pub fn message_sizes() -> (sizes: Sizes)
    ensures
        sizes == self::sizes(),
{
    Sizes { ump: 1, bytes: 3 }
}

/// The least number of units of type `U` the message occupies.
pub fn minimum_size_in_units<U: Unit>() -> (size: usize)
    ensures
        size == min_size::<U>(sizes()),
{
    size_of::<U>(&message_sizes())
}

pub open spec fn note() -> Schema {
    Schema {
        ump: Place { index: 0, shift: 8, width: 7 },
        bytes: Place { index: 1, shift: 0, width: 7 },
    }
}

pub fn note_schema() -> (schema: Schema)
    ensures
        schema == note(),
{
    Schema {
        ump: Place { index: 0, shift: 8, width: 7 },
        bytes: Place { index: 1, shift: 0, width: 7 },
    }
}

pub open spec fn velocity() -> Schema {
    Schema {
        ump: Place { index: 0, shift: 0, width: 7 },
        bytes: Place { index: 2, shift: 0, width: 7 },
    }
}

pub fn velocity_schema() -> (schema: Schema)
    ensures
        schema == velocity(),
{
    Schema {
        ump: Place { index: 0, shift: 0, width: 7 },
        bytes: Place { index: 2, shift: 0, width: 7 },
    }
}

/// The verdict of the parser on a unit sequence: the first rule that
/// fails, in field order, or `Ok`.
pub open spec fn spec_validate<U: Unit>(units: Seq<U>) -> Result<(), Error> {
    if spec_validate_size::<U>(units.len(), sizes()) is Err {
        spec_validate_size::<U>(units.len(), sizes())
    } else if !constant_holds(units, ump_type(), UMP_MESSAGE_TYPE as u32) {
        Err(Error::InvalidData(ERR_INCORRECT_UMP_MESSAGE_TYPE))
    } else if !constant_holds(units, channel_voice_status(), STATUS as u32) {
        Err(Error::InvalidData(ERR_INCORRECT_STATUS))
    } else {
        Ok(())
    }
}

/// The units of a freshly built message in a buffer of `len` units: all
/// zero but for the fields the kind fixes.
pub open spec fn spec_new<U: Unit>(len: nat) -> Seq<U> {
    spec_write(
        spec_write(zeros::<U>(len), ump_type(), UMP_MESSAGE_TYPE as u32),
        channel_voice_status(),
        STATUS as u32,
    )
}

/// The units of a message built with the given field values: a fresh
/// message with each field written in turn.
pub open spec fn spec_with_fields<U: Unit>(
    len: nat,
    group_value: u32,
    channel_value: u32,
    note_value: u32,
    velocity_value: u32,
) -> Seq<U> {
    spec_write(
        spec_write(
            spec_write(
                spec_write(spec_new::<U>(len), group(), group_value),
                channel(),
                channel_value,
            ),
            note(),
            note_value,
        ),
        velocity(),
        velocity_value,
    )
}

/// Validates every field of the kind in order and stops at the first
/// that fails.
pub fn validate<U: Unit>(units: &[U]) -> (r: Result<(), Error>)
    ensures
        r == spec_validate(units@),
{
    match validate_size(units, &message_sizes()) {
        Err(e) => {
            return Err(e);
        },
        Ok(()) => {},
    }
    match validate_constant(
        units,
        &ump_type_schema(),
        UMP_MESSAGE_TYPE as u32,
        ERR_INCORRECT_UMP_MESSAGE_TYPE,
    ) {
        Err(e) => {
            return Err(e);
        },
        Ok(()) => {},
    }
    validate_constant(units, &channel_voice_status_schema(), STATUS as u32, ERR_INCORRECT_STATUS)
}

impl<B: Buffer> NoteOff<B> {
    /// The buffer holds a message of this kind.
    pub open spec fn wf(&self) -> bool {
        spec_validate(self.0.units()) is Ok
    }

    pub open spec fn spec_group(&self) -> u32 {
        spec_read(self.0.units(), group())
    }

    pub open spec fn spec_channel(&self) -> u32 {
        spec_read(self.0.units(), channel())
    }

    pub open spec fn spec_note(&self) -> u32 {
        spec_read(self.0.units(), note())
    }

    pub open spec fn spec_velocity(&self) -> u32 {
        spec_read(self.0.units(), velocity())
    }

    /// Parses a buffer: the message over it if it validates, else the
    /// first failure.
    pub fn try_from(buffer: B) -> (r: Result<Self, Error>)
        ensures
            match spec_validate(buffer.units()) {
                Ok(()) => r == Ok::<Self, Error>(NoteOff(buffer)),
                Err(e) => r == Err::<Self, Error>(e),
            },
    {
        match validate(buffer.as_slice()) {
            Ok(()) => Ok(NoteOff(buffer)),
            Err(e) => Err(e),
        }
    }

    /// The units the message occupies: the front of the buffer.
    pub fn data(&self) -> (data: &[B::Unit])
        requires
            self.wf(),
        ensures
            data@ == self.0.units().subrange(0, min_size::<B::Unit>(sizes()) as int),
    {
        let size = size_of::<B::Unit>(&message_sizes());
        vstd::slice::slice_subrange(self.0.as_slice(), 0, size)
    }

    pub fn group(&self) -> (value: U4)
        requires
            self.wf(),
        ensures
            value@ == self.spec_group(),
    {
        read_u4(self.0.as_slice(), &group_schema())
    }

    pub fn channel(&self) -> (value: U4)
        requires
            self.wf(),
        ensures
            value@ == self.spec_channel(),
    {
        read_u4(self.0.as_slice(), &channel_schema())
    }

    pub fn note(&self) -> (value: U7)
        requires
            self.wf(),
        ensures
            value@ == self.spec_note(),
    {
        read_u7(self.0.as_slice(), &note_schema())
    }

    pub fn velocity(&self) -> (value: U7)
        requires
            self.wf(),
        ensures
            value@ == self.spec_velocity(),
    {
        read_u7(self.0.as_slice(), &velocity_schema())
    }

    /// Re-homes the message into a fresh buffer of another backend with
    /// the same unit type. Fails with `BufferOverflow` exactly when the
    /// target is fixed and too small.
    pub fn try_rebuffer_into<C: BufferMut<Unit = B::Unit>>(self) -> (r: Result<NoteOff<C>, Error>)
        requires
            self.wf(),
        ensures
            has_room::<C>(min_size::<B::Unit>(sizes()) as nat) ==> r is Ok && r->Ok_0.wf()
                && r->Ok_0.0.units() == rebuffered::<C>(
                self.0.units().subrange(0, min_size::<B::Unit>(sizes()) as int),
            ),
            !has_room::<C>(min_size::<B::Unit>(sizes()) as nat) ==> r == Err::<NoteOff<C>, Error>(
                Error::BufferOverflow,
            ),
    {
        match try_rebuffer::<C>(self.data()) {
            Ok(buffer) => {
                proof {
                    let size = min_size::<B::Unit>(sizes()) as int;
                    assert(buffer.units().subrange(0, size) =~= self.0.units().subrange(0, size));
                    lemma_same_front(self.0.units(), buffer.units());
                }
                Ok(NoteOff(buffer))
            },
            Err(e) => Err(e),
        }
    }

    /// Re-homes the message into a buffer known to have room for it.
    pub fn rebuffer_into<C: BufferMut<Unit = B::Unit>>(self) -> (message: NoteOff<C>)
        requires
            self.wf(),
            has_room::<C>(min_size::<B::Unit>(sizes()) as nat),
        ensures
            message.wf(),
            message.0.units() == rebuffered::<C>(
                self.0.units().subrange(0, min_size::<B::Unit>(sizes()) as int),
            ),
    {
        let ghost front = self.0.units().subrange(0, min_size::<B::Unit>(sizes()) as int);
        match self.try_rebuffer_into::<C>() {
            Ok(message) => message,
            Err(_) => {
                proof {
                    assert(false);
                }
                NoteOff(C::default())
            },
        }
    }
}

impl<B: BufferMut> NoteOff<B> {
    /// Builds the message with every settable field at zero. Fails with
    /// `BufferOverflow` exactly when the buffer type is too small.
    pub fn try_new() -> (r: Result<Self, Error>)
        ensures
            has_room::<B>(min_size::<B::Unit>(sizes()) as nat) ==> r is Ok && r->Ok_0.wf()
                && r->Ok_0.0.units() == spec_new::<B::Unit>(
                rebuffered::<B>(zeros::<B::Unit>(min_size::<B::Unit>(sizes()) as nat)).len(),
            ),
            !has_room::<B>(min_size::<B::Unit>(sizes()) as nat) ==> r == Err::<Self, Error>(
                Error::BufferOverflow,
            ),
    {
        let mut buffer = B::default();
        proof {
            buffer.lemma_capacity();
        }
        match buffer.required_capacity(size_of::<B::Unit>(&message_sizes())) {
            Err(_) => Err(Error::BufferOverflow),
            Ok(()) => {
                proof {
                    buffer.lemma_capacity();
                    assert(buffer.units() =~= zeros::<B::Unit>(buffer.units().len()));
                }
                let units = buffer.as_mut_slice();
                write_field(units, &ump_type_schema(), UMP_MESSAGE_TYPE as u32);
                write_field(units, &channel_voice_status_schema(), STATUS as u32);
                let message = NoteOff(buffer);
                proof {
                    lemma_new_is_valid::<B::Unit>(message.0.units().len());
                }
                Ok(message)
            },
        }
    }

    /// Builds the message in a buffer known to have room for it.
    pub fn new() -> (message: Self)
        requires
            has_room::<B>(min_size::<B::Unit>(sizes()) as nat),
        ensures
            message.wf(),
            message.0.units() == spec_new::<B::Unit>(
                rebuffered::<B>(zeros::<B::Unit>(min_size::<B::Unit>(sizes()) as nat)).len(),
            ),
    {
        match Self::try_new() {
            Ok(message) => message,
            Err(_) => {
                proof {
                    assert(false);
                }
                NoteOff(B::default())
            },
        }
    }

    /// Re-homes a message of another backend into a fresh buffer of this
    /// one.
    pub fn try_rebuffer_from<A: Buffer<Unit = B::Unit>>(
        other: NoteOff<A>,
    ) -> (r: Result<Self, Error>)
        requires
            other.wf(),
        ensures
            has_room::<B>(min_size::<B::Unit>(sizes()) as nat) ==> r is Ok && r->Ok_0.wf()
                && r->Ok_0.0.units() == rebuffered::<B>(
                other.0.units().subrange(0, min_size::<B::Unit>(sizes()) as int),
            ),
            !has_room::<B>(min_size::<B::Unit>(sizes()) as nat) ==> r == Err::<Self, Error>(
                Error::BufferOverflow,
            ),
    {
        other.try_rebuffer_into::<B>()
    }

    /// Re-homes a message of another backend into a buffer known to have
    /// room for it.
    pub fn rebuffer_from<A: Buffer<Unit = B::Unit>>(other: NoteOff<A>) -> (message: Self)
        requires
            other.wf(),
            has_room::<B>(min_size::<B::Unit>(sizes()) as nat),
        ensures
            message.wf(),
            message.0.units() == rebuffered::<B>(
                other.0.units().subrange(0, min_size::<B::Unit>(sizes()) as int),
            ),
    {
        other.rebuffer_into::<B>()
    }

    pub fn set_group(&mut self, value: U4)
        requires
            old(self).wf(),
        ensures
            final(self).wf(),
            final(self).0.units() == spec_write(old(self).0.units(), group(), value@),
            place::<B::Unit>(group()).is_absent() || final(self).spec_group() == value@,
            final(self).spec_channel() == old(self).spec_channel(),
            final(self).spec_note() == old(self).spec_note(),
            final(self).spec_velocity() == old(self).spec_velocity(),
    {
        let raw: u32 = value.as_u32();
        proof {
            lemma_low_mask_bound(4);
            lemma_field_written::<B::Unit>(old(self).0.units(), group(), raw);
        }
        write_field(self.0.as_mut_slice(), &group_schema(), raw);
    }

    pub fn set_channel(&mut self, value: U4)
        requires
            old(self).wf(),
        ensures
            final(self).wf(),
            final(self).0.units() == spec_write(old(self).0.units(), channel(), value@),
            place::<B::Unit>(channel()).is_absent() || final(self).spec_channel() == value@,
            final(self).spec_group() == old(self).spec_group(),
            final(self).spec_note() == old(self).spec_note(),
            final(self).spec_velocity() == old(self).spec_velocity(),
    {
        let raw: u32 = value.as_u32();
        proof {
            lemma_low_mask_bound(4);
            lemma_field_written::<B::Unit>(old(self).0.units(), channel(), raw);
        }
        write_field(self.0.as_mut_slice(), &channel_schema(), raw);
    }

    pub fn set_note(&mut self, value: U7)
        requires
            old(self).wf(),
        ensures
            final(self).wf(),
            final(self).0.units() == spec_write(old(self).0.units(), note(), value@),
            place::<B::Unit>(note()).is_absent() || final(self).spec_note() == value@,
            final(self).spec_group() == old(self).spec_group(),
            final(self).spec_channel() == old(self).spec_channel(),
            final(self).spec_velocity() == old(self).spec_velocity(),
    {
        let raw: u32 = value.as_u32();
        proof {
            lemma_low_mask_bound(7);
            lemma_field_written::<B::Unit>(old(self).0.units(), note(), raw);
        }
        write_field(self.0.as_mut_slice(), &note_schema(), raw);
    }

    pub fn set_velocity(&mut self, value: U7)
        requires
            old(self).wf(),
        ensures
            final(self).wf(),
            final(self).0.units() == spec_write(old(self).0.units(), velocity(), value@),
            place::<B::Unit>(velocity()).is_absent() || final(self).spec_velocity() == value@,
            final(self).spec_group() == old(self).spec_group(),
            final(self).spec_channel() == old(self).spec_channel(),
            final(self).spec_note() == old(self).spec_note(),
    {
        let raw: u32 = value.as_u32();
        proof {
            lemma_low_mask_bound(7);
            lemma_field_written::<B::Unit>(old(self).0.units(), velocity(), raw);
        }
        write_field(self.0.as_mut_slice(), &velocity_schema(), raw);
    }
}

impl NoteOff<[u32; 4]> {
    /// Builds the message in an array of four words.
    pub fn new_arr() -> (message: Self)
        ensures
            message.wf(),
            message.0@ == spec_new::<u32>(4),
    {
        proof {
            assert(
                rebuffered::<[u32; 4]>(zeros::<u32>(min_size::<u32>(sizes()) as nat)).len() == 4
            );
        }
        Self::new()
    }
}

impl NoteOff<[u8; 3]> {
    /// Builds the message in an array of three bytes.
    pub fn new_arr_bytes() -> (message: Self)
        ensures
            message.wf(),
            message.0@ == spec_new::<u8>(3),
    {
        proof {
            assert(rebuffered::<[u8; 3]>(zeros::<u8>(min_size::<u8>(sizes()) as nat)).len() == 3);
        }
        Self::new()
    }
}

impl<'a> NoteOff<MessageData<'a>> {
    /// The message in a packet of its own: an owned packet as it is, a
    /// borrowed message as the words it occupies, then zeros.
    pub fn into_owned(self) -> (owned: NoteOff<[u32; 4]>)
        requires
            self.wf(),
        ensures
            owned.wf(),
            owned.0@ == owned_words(self.0, 1),
    {
        match self.0 {
            MessageData::Owned(words) => NoteOff(words),
            MessageData::Borrowed(words) => NoteOff(words).rebuffer_into::<[u32; 4]>(),
        }
    }
}

impl<B: BufferMut<Unit = u32>> NoteOff<B> {
    /// Converts the byte stream form of the message: every field is read
    /// from `other` and encoded anew under the schema of this form.
    pub fn try_from_bytes<A: Buffer<Unit = u8>>(other: NoteOff<A>) -> (r: Result<Self, Error>)
        requires
            other.wf(),
        ensures
            has_room::<B>(min_size::<u32>(sizes()) as nat) ==> r is Ok && r->Ok_0.wf()
                && r->Ok_0.0.units() == spec_with_fields::<u32>(
                r->Ok_0.0.units().len(),
                other.spec_group(),
                other.spec_channel(),
                other.spec_note(),
                other.spec_velocity(),
            ),
            !has_room::<B>(min_size::<u32>(sizes()) as nat) ==> r == Err::<Self, Error>(
                Error::BufferOverflow,
            ),
    {
        match Self::try_new() {
            Err(e) => Err(e),
            Ok(mut message) => {
                message.set_group(other.group());
                message.set_channel(other.channel());
                message.set_note(other.note());
                message.set_velocity(other.velocity());
                Ok(message)
            },
        }
    }

    /// Converts the byte stream form into a buffer known to have room.
    pub fn from_bytes<A: Buffer<Unit = u8>>(other: NoteOff<A>) -> (message: Self)
        requires
            other.wf(),
            has_room::<B>(min_size::<u32>(sizes()) as nat),
        ensures
            message.wf(),
            message.0.units() == spec_with_fields::<u32>(
                message.0.units().len(),
                other.spec_group(),
                other.spec_channel(),
                other.spec_note(),
                other.spec_velocity(),
            ),
    {
        match Self::try_from_bytes(other) {
            Ok(message) => message,
            Err(_) => {
                proof {
                    assert(false);
                }
                NoteOff(B::default())
            },
        }
    }
}

impl<B: BufferMut<Unit = u8>> NoteOff<B> {
    /// Converts the packet form of the message: every field is read
    /// from `other` and encoded anew under the schema of this form.
    pub fn try_from_ump<A: Buffer<Unit = u32>>(other: NoteOff<A>) -> (r: Result<Self, Error>)
        requires
            other.wf(),
        ensures
            has_room::<B>(min_size::<u8>(sizes()) as nat) ==> r is Ok && r->Ok_0.wf()
                && r->Ok_0.0.units() == spec_with_fields::<u8>(
                r->Ok_0.0.units().len(),
                other.spec_group(),
                other.spec_channel(),
                other.spec_note(),
                other.spec_velocity(),
            ),
            !has_room::<B>(min_size::<u8>(sizes()) as nat) ==> r == Err::<Self, Error>(
                Error::BufferOverflow,
            ),
    {
        match Self::try_new() {
            Err(e) => Err(e),
            Ok(mut message) => {
                message.set_group(other.group());
                message.set_channel(other.channel());
                message.set_note(other.note());
                message.set_velocity(other.velocity());
                Ok(message)
            },
        }
    }

    /// Converts the packet form into a buffer known to have room.
    pub fn from_ump<A: Buffer<Unit = u32>>(other: NoteOff<A>) -> (message: Self)
        requires
            other.wf(),
            has_room::<B>(min_size::<u8>(sizes()) as nat),
        ensures
            message.wf(),
            message.0.units() == spec_with_fields::<u8>(
                message.0.units().len(),
                other.spec_group(),
                other.spec_channel(),
                other.spec_note(),
                other.spec_velocity(),
            ),
    {
        match Self::try_from_ump(other) {
            Ok(message) => message,
            Err(_) => {
                proof {
                    assert(false);
                }
                NoteOff(B::default())
            },
        }
    }
}

/// A fresh message of enough units validates.
pub proof fn lemma_new_is_valid<U: Unit>(len: nat)
    requires
        len >= min_size::<U>(sizes()),
        min_size::<U>(sizes()) > 0,
    ensures
        spec_validate(spec_new::<U>(len)) is Ok,
        spec_new::<U>(len).len() == len,
{
    lemma_low_mask_bound(0);
    lemma_low_mask_bound(4);
    let step0 = spec_write(zeros::<U>(len), ump_type(), UMP_MESSAGE_TYPE as u32);
    if !place::<U>(ump_type()).is_absent() {
        lemma_mask_identity(UMP_MESSAGE_TYPE as u32, place::<U>(ump_type()).width);
        lemma_read_after_write(zeros::<U>(len), ump_type(), UMP_MESSAGE_TYPE as u32);
    }
    let step1 = spec_write(step0, channel_voice_status(), STATUS as u32);
    if !place::<U>(channel_voice_status()).is_absent() {
        lemma_mask_identity(STATUS as u32, place::<U>(channel_voice_status()).width);
        lemma_read_after_write(step0, channel_voice_status(), STATUS as u32);
    }
    lemma_read_after_other_write(step0, channel_voice_status(), STATUS as u32, ump_type());
}

/// Writing a settable field of a valid message keeps the message valid,
/// sets that field, and leaves every other field as it was.
pub proof fn lemma_field_written<U: Unit>(units: Seq<U>, schema: Schema, value: u32)
    requires
        spec_validate(units) is Ok,
        schema == group() || schema == channel() || schema == note() || schema == velocity(),
        place::<U>(schema).is_absent() || value <= place::<U>(schema).max_value(),
    ensures
        spec_validate(spec_write(units, schema, value)) is Ok,
        spec_write(units, schema, value).len() == units.len(),
        place::<U>(schema).is_absent() || spec_read(spec_write(units, schema, value), schema)
            == value,
        schema != group() ==> spec_read(spec_write(units, schema, value), group()) == spec_read(
            units,
            group(),
        ),
        schema != channel() ==> spec_read(spec_write(units, schema, value), channel()) == spec_read(
            units,
            channel(),
        ),
        schema != note() ==> spec_read(spec_write(units, schema, value), note()) == spec_read(
            units,
            note(),
        ),
        schema != velocity() ==> spec_read(
            spec_write(units, schema, value),
            velocity(),
        ) == spec_read(
            units,
            velocity(),
        ),
{
    lemma_read_after_other_write(units, schema, value, ump_type());
    lemma_read_after_other_write(units, schema, value, channel_voice_status());
    if !place::<U>(schema).is_absent() {
        lemma_read_after_write(units, schema, value);
        lemma_mask_identity(value, place::<U>(schema).width);
    }
    if schema != group() {
        lemma_read_after_other_write(units, schema, value, group());
    }
    if schema != channel() {
        lemma_read_after_other_write(units, schema, value, channel());
    }
    if schema != note() {
        lemma_read_after_other_write(units, schema, value, note());
    }
    if schema != velocity() {
        lemma_read_after_other_write(units, schema, value, velocity());
    }
}

/// The parser accepts exactly the sequences that are long enough, hold
/// the fields the kind fixes; every
/// rejection is `InvalidData`.
pub proof fn lemma_verdict<U: Unit>(units: Seq<U>)
    ensures
        spec_validate(units) is Ok <==> {
            &&& min_size::<U>(sizes()) > 0
            &&& units.len() >= min_size::<U>(sizes())
            &&& constant_holds(units, ump_type(), UMP_MESSAGE_TYPE as u32)
            &&& constant_holds(units, channel_voice_status(), STATUS as u32)
        },
        spec_validate(units) is Err ==> spec_validate(units)->Err_0 is InvalidData,
        units.len() == 0 ==> spec_validate(units) == Err::<(), Error>(
            Error::InvalidData(crate::error::ERR_SLICE_TOO_SHORT),
        ),
{
}

/// Validity and every field depend only on the units the message
/// occupies: two sequences with the same front read the same.
pub proof fn lemma_same_front<U: Unit>(a: Seq<U>, b: Seq<U>)
    requires
        spec_validate(a) is Ok,
        b.len() >= min_size::<U>(sizes()),
        b.subrange(0, min_size::<U>(sizes()) as int) == a.subrange(
            0,
            min_size::<U>(sizes()) as int,
        ),
    ensures
        spec_validate(b) is Ok,
        spec_read(b, group()) == spec_read(a, group()),
        spec_read(b, channel()) == spec_read(a, channel()),
        spec_read(b, note()) == spec_read(a, note()),
        spec_read(b, velocity()) == spec_read(a, velocity()),
{
    let size = min_size::<U>(sizes()) as int;
    assert forall|i: int| 0 <= i < size implies a[i] == b[i] by {
        assert(a.subrange(0, size)[i] == b.subrange(0, size)[i]);
    }
}

/// Decoding what was encoded gives back every field: a message built
/// from in-range values validates, and each field that has a place in
/// the wire form reads as the value it was built with.
pub proof fn lemma_round_trip<U: Unit>(
    len: nat,
    group_value: u32,
    channel_value: u32,
    note_value: u32,
    velocity_value: u32,
)
    requires
        len >= min_size::<U>(sizes()),
        min_size::<U>(sizes()) > 0,
        group_value <= 0xf,
        channel_value <= 0xf,
        note_value <= 0x7f,
        velocity_value <= 0x7f,
    ensures
        spec_validate(
            spec_with_fields::<U>(len, group_value, channel_value, note_value, velocity_value)
        ) is Ok,
        spec_with_fields::<U>(
            len,
            group_value,
            channel_value,
            note_value,
            velocity_value,
        ).len() == len,
        place::<U>(group()).is_absent() || spec_read(
            spec_with_fields::<U>(len, group_value, channel_value, note_value, velocity_value),
            group(),
        ) == group_value,
        place::<U>(channel()).is_absent() || spec_read(
            spec_with_fields::<U>(len, group_value, channel_value, note_value, velocity_value),
            channel(),
        ) == channel_value,
        place::<U>(note()).is_absent() || spec_read(
            spec_with_fields::<U>(len, group_value, channel_value, note_value, velocity_value),
            note(),
        ) == note_value,
        place::<U>(velocity()).is_absent() || spec_read(
            spec_with_fields::<U>(len, group_value, channel_value, note_value, velocity_value),
            velocity(),
        ) == velocity_value,
{
    lemma_new_is_valid::<U>(len);
    lemma_low_mask_bound(0);
    lemma_field_written::<U>(spec_new::<U>(len), group(), group_value);
    let step0 = spec_write(spec_new::<U>(len), group(), group_value);
    lemma_field_written::<U>(step0, channel(), channel_value);
    let step1 = spec_write(step0, channel(), channel_value);
    lemma_field_written::<U>(step1, note(), note_value);
    let step2 = spec_write(step1, note(), note_value);
    lemma_field_written::<U>(step2, velocity(), velocity_value);
    let step3 = spec_write(step2, velocity(), velocity_value);
}

} // verus!
