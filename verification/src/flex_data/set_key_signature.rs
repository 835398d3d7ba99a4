//! The set key signature message of the flex data family.

use vstd::prelude::*;
use crate::bit_ops::{lemma_low_mask_bound, lemma_mask_identity};
use crate::buffer::{zeros, Buffer, BufferMut, MessageData};
use crate::common_properties::{
    channel, channel_schema, group, group_schema, ump_type, ump_type_schema,
};
use crate::error::{
    ERR_INCONSISTENT_PACKETS, ERR_INCORRECT_STATUS, ERR_INCORRECT_UMP_MESSAGE_TYPE, ERR_TONIC,
    Error,
};
use crate::flex_data::UMP_MESSAGE_TYPE;
use crate::flex_data::tonic::Tonic;
use crate::numeric_types::U4;
use crate::property::{
    constant_holds, has_room, owned_words, read_u4, rebuffered, spec_validate_limit,
    spec_validate_size, try_rebuffer, validate_constant, validate_limit, validate_size,
};
use crate::schema::{
    lemma_read_after_other_write, lemma_read_after_write, min_size, place, size_of, spec_read,
    spec_write, write_field, Place, Schema, Sizes, Unit,
};

verus! {

pub const STATUS: u8 = 0x5;

pub const BANK: u8 = 0x0;

/// The status bank and the status, as one number.
pub const CODE: u16 = 0x0005;

/// The key signature of what follows.
#[derive(Clone, Debug, PartialEq, Eq)]
pub struct SetKeySignature<B: Buffer<Unit = u32>>(pub B);

/// The least number of units the message occupies in each wire form.
pub open spec fn sizes() -> Sizes {
    Sizes { ump: 4, bytes: 0 }
}

pub fn message_sizes() -> (sizes: Sizes)
    ensures
        sizes == self::sizes(),
{
    Sizes { ump: 4, bytes: 0 }
}

/// The least number of units of type `U` the message occupies.
pub fn minimum_size_in_units<U: Unit>() -> (size: usize)
    ensures
        size == min_size::<U>(sizes()),
{
    size_of::<U>(&message_sizes())
}

pub open spec fn format() -> Schema {
    Schema {
        ump: Place { index: 0, shift: 22, width: 2 },
        bytes: Place { index: 0, shift: 0, width: 0 },
    }
}

pub fn format_schema() -> (schema: Schema)
    ensures
        schema == format(),
{
    Schema {
        ump: Place { index: 0, shift: 22, width: 2 },
        bytes: Place { index: 0, shift: 0, width: 0 },
    }
}

pub open spec fn bank() -> Schema {
    Schema {
        ump: Place { index: 0, shift: 8, width: 8 },
        bytes: Place { index: 0, shift: 0, width: 0 },
    }
}

pub fn bank_schema() -> (schema: Schema)
    ensures
        schema == bank(),
{
    Schema {
        ump: Place { index: 0, shift: 8, width: 8 },
        bytes: Place { index: 0, shift: 0, width: 0 },
    }
}

pub open spec fn status() -> Schema {
    Schema {
        ump: Place { index: 0, shift: 0, width: 8 },
        bytes: Place { index: 0, shift: 0, width: 0 },
    }
}

pub fn status_schema() -> (schema: Schema)
    ensures
        schema == status(),
{
    Schema {
        ump: Place { index: 0, shift: 0, width: 8 },
        bytes: Place { index: 0, shift: 0, width: 0 },
    }
}

pub open spec fn sharps_flats() -> Schema {
    Schema {
        ump: Place { index: 1, shift: 28, width: 4 },
        bytes: Place { index: 0, shift: 0, width: 0 },
    }
}

pub fn sharps_flats_schema() -> (schema: Schema)
    ensures
        schema == sharps_flats(),
{
    Schema {
        ump: Place { index: 1, shift: 28, width: 4 },
        bytes: Place { index: 0, shift: 0, width: 0 },
    }
}

pub open spec fn tonic() -> Schema {
    Schema {
        ump: Place { index: 1, shift: 24, width: 4 },
        bytes: Place { index: 0, shift: 0, width: 0 },
    }
}

pub fn tonic_schema() -> (schema: Schema)
    ensures
        schema == tonic(),
{
    Schema {
        ump: Place { index: 1, shift: 24, width: 4 },
        bytes: Place { index: 0, shift: 0, width: 0 },
    }
}

/// The verdict of the parser on a unit sequence: the first rule that
/// fails, in field order, or `Ok`.
pub open spec fn spec_validate<U: Unit>(units: Seq<U>) -> Result<(), Error> {
    if spec_validate_size::<U>(units.len(), sizes()) is Err {
        spec_validate_size::<U>(units.len(), sizes())
    } else if !constant_holds(units, ump_type(), UMP_MESSAGE_TYPE as u32) {
        Err(Error::InvalidData(ERR_INCORRECT_UMP_MESSAGE_TYPE))
    } else if !constant_holds(units, format(), 0) {
        Err(Error::InvalidData(ERR_INCONSISTENT_PACKETS))
    } else if !constant_holds(units, bank(), BANK as u32) {
        Err(Error::InvalidData(ERR_INCORRECT_STATUS))
    } else if !constant_holds(units, status(), STATUS as u32) {
        Err(Error::InvalidData(ERR_INCORRECT_STATUS))
    } else if spec_validate_limit(units, tonic(), 7, ERR_TONIC) is Err {
        Err(Error::InvalidData(ERR_TONIC))
    } else {
        Ok(())
    }
}

/// The units of a freshly built message in a buffer of `len` units: all
/// zero but for the fields the kind fixes.
pub open spec fn spec_new<U: Unit>(len: nat) -> Seq<U> {
    spec_write(
        spec_write(
            spec_write(
                spec_write(
                    spec_write(zeros::<U>(len), ump_type(), UMP_MESSAGE_TYPE as u32),
                    format(),
                    0,
                ),
                bank(),
                BANK as u32,
            ),
            status(),
            STATUS as u32,
        ),
        tonic(),
        3,
    )
}

/// The units of a message built with the given field values: a fresh
/// message with each field written in turn.
pub open spec fn spec_with_fields<U: Unit>(
    len: nat,
    group_value: u32,
    channel_value: u32,
    sharps_flats_value: u32,
    tonic_value: u32,
) -> Seq<U> {
    spec_write(
        spec_write(
            spec_write(
                spec_write(spec_new::<U>(len), group(), group_value),
                channel(),
                channel_value,
            ),
            sharps_flats(),
            sharps_flats_value,
        ),
        tonic(),
        tonic_value,
    )
}

/// Validates every field of the kind in order and stops at the first
/// that fails.
pub fn validate<U: Unit>(units: &[U]) -> (r: Result<(), Error>)
    ensures
        r == spec_validate(units@),
{
    match validate_size(units, &message_sizes()) {
        Err(e) => {
            return Err(e);
        },
        Ok(()) => {},
    }
    match validate_constant(
        units,
        &ump_type_schema(),
        UMP_MESSAGE_TYPE as u32,
        ERR_INCORRECT_UMP_MESSAGE_TYPE,
    ) {
        Err(e) => {
            return Err(e);
        },
        Ok(()) => {},
    }
    match validate_constant(units, &format_schema(), 0, ERR_INCONSISTENT_PACKETS) {
        Err(e) => {
            return Err(e);
        },
        Ok(()) => {},
    }
    match validate_constant(units, &bank_schema(), BANK as u32, ERR_INCORRECT_STATUS) {
        Err(e) => {
            return Err(e);
        },
        Ok(()) => {},
    }
    match validate_constant(units, &status_schema(), STATUS as u32, ERR_INCORRECT_STATUS) {
        Err(e) => {
            return Err(e);
        },
        Ok(()) => {},
    }
    validate_limit(units, &tonic_schema(), 7, ERR_TONIC)
}

impl<B: Buffer<Unit = u32>> SetKeySignature<B> {
    /// The buffer holds a message of this kind.
    pub open spec fn wf(&self) -> bool {
        spec_validate(self.0.units()) is Ok
    }

    pub open spec fn spec_group(&self) -> u32 {
        spec_read(self.0.units(), group())
    }

    pub open spec fn spec_channel(&self) -> u32 {
        spec_read(self.0.units(), channel())
    }

    pub open spec fn spec_sharps_flats(&self) -> u32 {
        spec_read(self.0.units(), sharps_flats())
    }

    pub open spec fn spec_tonic(&self) -> u32 {
        spec_read(self.0.units(), tonic())
    }

    /// Parses a buffer: the message over it if it validates, else the
    /// first failure.
    pub fn try_from(buffer: B) -> (r: Result<Self, Error>)
        ensures
            match spec_validate(buffer.units()) {
                Ok(()) => r == Ok::<Self, Error>(SetKeySignature(buffer)),
                Err(e) => r == Err::<Self, Error>(e),
            },
    {
        match validate(buffer.as_slice()) {
            Ok(()) => Ok(SetKeySignature(buffer)),
            Err(e) => Err(e),
        }
    }

    /// The units the message occupies: the front of the buffer.
    pub fn data(&self) -> (data: &[B::Unit])
        requires
            self.wf(),
        ensures
            data@ == self.0.units().subrange(0, min_size::<B::Unit>(sizes()) as int),
    {
        let size = size_of::<B::Unit>(&message_sizes());
        vstd::slice::slice_subrange(self.0.as_slice(), 0, size)
    }

    pub fn group(&self) -> (value: U4)
        requires
            self.wf(),
        ensures
            value@ == self.spec_group(),
    {
        read_u4(self.0.as_slice(), &group_schema())
    }

    pub fn channel(&self) -> (value: U4)
        requires
            self.wf(),
        ensures
            value@ == self.spec_channel(),
    {
        read_u4(self.0.as_slice(), &channel_schema())
    }

    pub fn sharps_flats(&self) -> (value: U4)
        requires
            self.wf(),
        ensures
            value@ == self.spec_sharps_flats(),
    {
        read_u4(self.0.as_slice(), &sharps_flats_schema())
    }

    pub fn tonic(&self) -> (value: Tonic)
        requires
            self.wf(),
        ensures
            value.nibble() == self.spec_tonic(),
    {
        match Tonic::from_nibble(read_u4(self.0.as_slice(), &tonic_schema())) {
            Ok(value) => {
                proof {
                    Tonic::lemma_domain(self.spec_tonic());
                }
                value
            },
            Err(_) => {
                proof {
                    Tonic::lemma_domain(self.spec_tonic());
                    assert(false);
                }
                Tonic::NonStandard
            },
        }
    }

    /// Re-homes the message into a fresh buffer of another backend with
    /// the same unit type. Fails with `BufferOverflow` exactly when the
    /// target is fixed and too small.
    pub fn try_rebuffer_into<C: BufferMut<Unit = B::Unit>>(
        self,
    ) -> (r: Result<SetKeySignature<C>, Error>)
        requires
            self.wf(),
        ensures
            has_room::<C>(min_size::<B::Unit>(sizes()) as nat) ==> r is Ok && r->Ok_0.wf()
                && r->Ok_0.0.units() == rebuffered::<C>(
                self.0.units().subrange(0, min_size::<B::Unit>(sizes()) as int),
            ),
            !has_room::<C>(
                min_size::<B::Unit>(sizes()) as nat
            ) ==> r == Err::<SetKeySignature<C>, Error>(
                Error::BufferOverflow,
            ),
    {
        match try_rebuffer::<C>(self.data()) {
            Ok(buffer) => {
                proof {
                    let size = min_size::<B::Unit>(sizes()) as int;
                    assert(buffer.units().subrange(0, size) =~= self.0.units().subrange(0, size));
                    lemma_same_front(self.0.units(), buffer.units());
                }
                Ok(SetKeySignature(buffer))
            },
            Err(e) => Err(e),
        }
    }

    /// Re-homes the message into a buffer known to have room for it.
    pub fn rebuffer_into<C: BufferMut<Unit = B::Unit>>(self) -> (message: SetKeySignature<C>)
        requires
            self.wf(),
            has_room::<C>(min_size::<B::Unit>(sizes()) as nat),
        ensures
            message.wf(),
            message.0.units() == rebuffered::<C>(
                self.0.units().subrange(0, min_size::<B::Unit>(sizes()) as int),
            ),
    {
        let ghost front = self.0.units().subrange(0, min_size::<B::Unit>(sizes()) as int);
        match self.try_rebuffer_into::<C>() {
            Ok(message) => message,
            Err(_) => {
                proof {
                    assert(false);
                }
                SetKeySignature(C::default())
            },
        }
    }
}

impl<B: BufferMut<Unit = u32>> SetKeySignature<B> {
    /// Builds the message with every settable field at zero. Fails with
    /// `BufferOverflow` exactly when the buffer type is too small.
    pub fn try_new() -> (r: Result<Self, Error>)
        ensures
            has_room::<B>(min_size::<B::Unit>(sizes()) as nat) ==> r is Ok && r->Ok_0.wf()
                && r->Ok_0.0.units() == spec_new::<B::Unit>(
                rebuffered::<B>(zeros::<B::Unit>(min_size::<B::Unit>(sizes()) as nat)).len(),
            ),
            !has_room::<B>(min_size::<B::Unit>(sizes()) as nat) ==> r == Err::<Self, Error>(
                Error::BufferOverflow,
            ),
    {
        let mut buffer = B::default();
        proof {
            buffer.lemma_capacity();
        }
        match buffer.required_capacity(size_of::<B::Unit>(&message_sizes())) {
            Err(_) => Err(Error::BufferOverflow),
            Ok(()) => {
                proof {
                    buffer.lemma_capacity();
                    assert(buffer.units() =~= zeros::<B::Unit>(buffer.units().len()));
                }
                let units = buffer.as_mut_slice();
                write_field(units, &ump_type_schema(), UMP_MESSAGE_TYPE as u32);
                write_field(units, &format_schema(), 0);
                write_field(units, &bank_schema(), BANK as u32);
                write_field(units, &status_schema(), STATUS as u32);
                write_field(units, &tonic_schema(), 3);
                let message = SetKeySignature(buffer);
                proof {
                    lemma_new_is_valid::<B::Unit>(message.0.units().len());
                }
                Ok(message)
            },
        }
    }

    /// Builds the message in a buffer known to have room for it.
    pub fn new() -> (message: Self)
        requires
            has_room::<B>(min_size::<B::Unit>(sizes()) as nat),
        ensures
            message.wf(),
            message.0.units() == spec_new::<B::Unit>(
                rebuffered::<B>(zeros::<B::Unit>(min_size::<B::Unit>(sizes()) as nat)).len(),
            ),
    {
        match Self::try_new() {
            Ok(message) => message,
            Err(_) => {
                proof {
                    assert(false);
                }
                SetKeySignature(B::default())
            },
        }
    }

    /// Re-homes a message of another backend into a fresh buffer of this
    /// one.
    pub fn try_rebuffer_from<A: Buffer<Unit = B::Unit>>(
        other: SetKeySignature<A>,
    ) -> (r: Result<Self, Error>)
        requires
            other.wf(),
        ensures
            has_room::<B>(min_size::<B::Unit>(sizes()) as nat) ==> r is Ok && r->Ok_0.wf()
                && r->Ok_0.0.units() == rebuffered::<B>(
                other.0.units().subrange(0, min_size::<B::Unit>(sizes()) as int),
            ),
            !has_room::<B>(min_size::<B::Unit>(sizes()) as nat) ==> r == Err::<Self, Error>(
                Error::BufferOverflow,
            ),
    {
        other.try_rebuffer_into::<B>()
    }

    /// Re-homes a message of another backend into a buffer known to have
    /// room for it.
    pub fn rebuffer_from<A: Buffer<Unit = B::Unit>>(other: SetKeySignature<A>) -> (message: Self)
        requires
            other.wf(),
            has_room::<B>(min_size::<B::Unit>(sizes()) as nat),
        ensures
            message.wf(),
            message.0.units() == rebuffered::<B>(
                other.0.units().subrange(0, min_size::<B::Unit>(sizes()) as int),
            ),
    {
        other.rebuffer_into::<B>()
    }

    pub fn set_group(&mut self, value: U4)
        requires
            old(self).wf(),
        ensures
            final(self).wf(),
            final(self).0.units() == spec_write(old(self).0.units(), group(), value@),
            place::<B::Unit>(group()).is_absent() || final(self).spec_group() == value@,
            final(self).spec_channel() == old(self).spec_channel(),
            final(self).spec_sharps_flats() == old(self).spec_sharps_flats(),
            final(self).spec_tonic() == old(self).spec_tonic(),
    {
        let raw: u32 = value.as_u32();
        proof {
            lemma_low_mask_bound(4);
            lemma_field_written::<B::Unit>(old(self).0.units(), group(), raw);
        }
        write_field(self.0.as_mut_slice(), &group_schema(), raw);
    }

    pub fn set_channel(&mut self, value: U4)
        requires
            old(self).wf(),
        ensures
            final(self).wf(),
            final(self).0.units() == spec_write(old(self).0.units(), channel(), value@),
            place::<B::Unit>(channel()).is_absent() || final(self).spec_channel() == value@,
            final(self).spec_group() == old(self).spec_group(),
            final(self).spec_sharps_flats() == old(self).spec_sharps_flats(),
            final(self).spec_tonic() == old(self).spec_tonic(),
    {
        let raw: u32 = value.as_u32();
        proof {
            lemma_low_mask_bound(4);
            lemma_field_written::<B::Unit>(old(self).0.units(), channel(), raw);
        }
        write_field(self.0.as_mut_slice(), &channel_schema(), raw);
    }

    pub fn set_sharps_flats(&mut self, value: U4)
        requires
            old(self).wf(),
        ensures
            final(self).wf(),
            final(self).0.units() == spec_write(old(self).0.units(), sharps_flats(), value@),
            place::<B::Unit>(
                sharps_flats()
            ).is_absent() || final(self).spec_sharps_flats() == value@,
            final(self).spec_group() == old(self).spec_group(),
            final(self).spec_channel() == old(self).spec_channel(),
            final(self).spec_tonic() == old(self).spec_tonic(),
    {
        let raw: u32 = value.as_u32();
        proof {
            lemma_low_mask_bound(4);
            lemma_field_written::<B::Unit>(old(self).0.units(), sharps_flats(), raw);
        }
        write_field(self.0.as_mut_slice(), &sharps_flats_schema(), raw);
    }

    pub fn set_tonic(&mut self, value: Tonic)
        requires
            old(self).wf(),
        ensures
            final(self).wf(),
            final(self).0.units() == spec_write(old(self).0.units(), tonic(), value.nibble()),
            place::<B::Unit>(tonic()).is_absent() || final(self).spec_tonic() == value.nibble(),
            final(self).spec_group() == old(self).spec_group(),
            final(self).spec_channel() == old(self).spec_channel(),
            final(self).spec_sharps_flats() == old(self).spec_sharps_flats(),
    {
        let raw: u32 = value.into_nibble().as_u32();
        proof {
            lemma_low_mask_bound(4);
            lemma_field_written::<B::Unit>(old(self).0.units(), tonic(), raw);
        }
        write_field(self.0.as_mut_slice(), &tonic_schema(), raw);
    }
}

impl SetKeySignature<[u32; 4]> {
    /// Builds the message in an array of four words.
    pub fn new_arr() -> (message: Self)
        ensures
            message.wf(),
            message.0@ == spec_new::<u32>(4),
    {
        proof {
            assert(
                rebuffered::<[u32; 4]>(zeros::<u32>(min_size::<u32>(sizes()) as nat)).len() == 4
            );
        }
        Self::new()
    }
}

impl<'a> SetKeySignature<MessageData<'a>> {
    /// The message in a packet of its own: an owned packet as it is, a
    /// borrowed message as the words it occupies, then zeros.
    pub fn into_owned(self) -> (owned: SetKeySignature<[u32; 4]>)
        requires
            self.wf(),
        ensures
            owned.wf(),
            owned.0@ == owned_words(self.0, 4),
    {
        match self.0 {
            MessageData::Owned(words) => SetKeySignature(words),
            MessageData::Borrowed(words) => SetKeySignature(words).rebuffer_into::<[u32; 4]>(),
        }
    }
}

/// A fresh message of enough units validates.
pub proof fn lemma_new_is_valid<U: Unit>(len: nat)
    requires
        len >= min_size::<U>(sizes()),
        min_size::<U>(sizes()) > 0,
    ensures
        spec_validate(spec_new::<U>(len)) is Ok,
        spec_new::<U>(len).len() == len,
{
    lemma_low_mask_bound(0);
    lemma_low_mask_bound(4);
    let step0 = spec_write(zeros::<U>(len), ump_type(), UMP_MESSAGE_TYPE as u32);
    if !place::<U>(ump_type()).is_absent() {
        lemma_mask_identity(UMP_MESSAGE_TYPE as u32, place::<U>(ump_type()).width);
        lemma_read_after_write(zeros::<U>(len), ump_type(), UMP_MESSAGE_TYPE as u32);
    }
    let step1 = spec_write(step0, format(), 0);
    if !place::<U>(format()).is_absent() {
        lemma_mask_identity(0, place::<U>(format()).width);
        lemma_read_after_write(step0, format(), 0);
    }
    lemma_read_after_other_write(step0, format(), 0, ump_type());
    let step2 = spec_write(step1, bank(), BANK as u32);
    if !place::<U>(bank()).is_absent() {
        lemma_mask_identity(BANK as u32, place::<U>(bank()).width);
        lemma_read_after_write(step1, bank(), BANK as u32);
    }
    lemma_read_after_other_write(step1, bank(), BANK as u32, ump_type());
    lemma_read_after_other_write(step1, bank(), BANK as u32, format());
    let step3 = spec_write(step2, status(), STATUS as u32);
    if !place::<U>(status()).is_absent() {
        lemma_mask_identity(STATUS as u32, place::<U>(status()).width);
        lemma_read_after_write(step2, status(), STATUS as u32);
    }
    lemma_read_after_other_write(step2, status(), STATUS as u32, ump_type());
    lemma_read_after_other_write(step2, status(), STATUS as u32, format());
    lemma_read_after_other_write(step2, status(), STATUS as u32, bank());
    let step4 = spec_write(step3, tonic(), 3);
    lemma_mask_identity(3, place::<U>(tonic()).width);
    lemma_read_after_write(step3, tonic(), 3);
    lemma_read_after_other_write(step3, tonic(), 3, ump_type());
    lemma_read_after_other_write(step3, tonic(), 3, format());
    lemma_read_after_other_write(step3, tonic(), 3, bank());
    lemma_read_after_other_write(step3, tonic(), 3, status());
}

/// Writing a settable field of a valid message keeps the message valid,
/// sets that field, and leaves every other field as it was.
pub proof fn lemma_field_written<U: Unit>(units: Seq<U>, schema: Schema, value: u32)
    requires
        spec_validate(units) is Ok,
        schema == group() || schema == channel() || schema == sharps_flats() || schema == tonic(),
        place::<U>(schema).is_absent() || value <= place::<U>(schema).max_value(),
        schema == tonic() ==> value <= 7,
    ensures
        spec_validate(spec_write(units, schema, value)) is Ok,
        spec_write(units, schema, value).len() == units.len(),
        place::<U>(schema).is_absent() || spec_read(spec_write(units, schema, value), schema)
            == value,
        schema != group() ==> spec_read(spec_write(units, schema, value), group()) == spec_read(
            units,
            group(),
        ),
        schema != channel() ==> spec_read(spec_write(units, schema, value), channel()) == spec_read(
            units,
            channel(),
        ),
        schema != sharps_flats() ==> spec_read(
            spec_write(units, schema, value),
            sharps_flats(),
        ) == spec_read(
            units,
            sharps_flats(),
        ),
        schema != tonic() ==> spec_read(spec_write(units, schema, value), tonic()) == spec_read(
            units,
            tonic(),
        ),
{
    lemma_read_after_other_write(units, schema, value, ump_type());
    lemma_read_after_other_write(units, schema, value, format());
    lemma_read_after_other_write(units, schema, value, bank());
    lemma_read_after_other_write(units, schema, value, status());
    if !place::<U>(schema).is_absent() {
        lemma_read_after_write(units, schema, value);
        lemma_mask_identity(value, place::<U>(schema).width);
    }
    if schema != group() {
        lemma_read_after_other_write(units, schema, value, group());
    }
    if schema != channel() {
        lemma_read_after_other_write(units, schema, value, channel());
    }
    if schema != sharps_flats() {
        lemma_read_after_other_write(units, schema, value, sharps_flats());
    }
    if schema != tonic() {
        lemma_read_after_other_write(units, schema, value, tonic());
    }
}

/// The parser accepts exactly the sequences that are long enough, hold
/// the fields the kind fixes, and keep every enumerated field
/// inside its domain; every
/// rejection is `InvalidData`.
pub proof fn lemma_verdict<U: Unit>(units: Seq<U>)
    ensures
        spec_validate(units) is Ok <==> {
            &&& min_size::<U>(sizes()) > 0
            &&& units.len() >= min_size::<U>(sizes())
            &&& constant_holds(units, ump_type(), UMP_MESSAGE_TYPE as u32)
            &&& constant_holds(units, format(), 0)
            &&& constant_holds(units, bank(), BANK as u32)
            &&& constant_holds(units, status(), STATUS as u32)
            &&& spec_read(units, tonic()) <= 7
        },
        spec_validate(units) is Err ==> spec_validate(units)->Err_0 is InvalidData,
{
}

/// Validity and every field depend only on the units the message
/// occupies: two sequences with the same front read the same.
pub proof fn lemma_same_front<U: Unit>(a: Seq<U>, b: Seq<U>)
    requires
        spec_validate(a) is Ok,
        b.len() >= min_size::<U>(sizes()),
        b.subrange(0, min_size::<U>(sizes()) as int) == a.subrange(
            0,
            min_size::<U>(sizes()) as int,
        ),
    ensures
        spec_validate(b) is Ok,
        spec_read(b, group()) == spec_read(a, group()),
        spec_read(b, channel()) == spec_read(a, channel()),
        spec_read(b, sharps_flats()) == spec_read(a, sharps_flats()),
        spec_read(b, tonic()) == spec_read(a, tonic()),
{
    let size = min_size::<U>(sizes()) as int;
    assert forall|i: int| 0 <= i < size implies a[i] == b[i] by {
        assert(a.subrange(0, size)[i] == b.subrange(0, size)[i]);
    }
}

/// Decoding what was encoded gives back every field: a message built
/// from in-range values validates, and each field that has a place in
/// the wire form reads as the value it was built with.
pub proof fn lemma_round_trip<U: Unit>(
    len: nat,
    group_value: u32,
    channel_value: u32,
    sharps_flats_value: u32,
    tonic_value: u32,
)
    requires
        len >= min_size::<U>(sizes()),
        min_size::<U>(sizes()) > 0,
        group_value <= 0xf,
        channel_value <= 0xf,
        sharps_flats_value <= 0xf,
        tonic_value <= 7,
    ensures
        spec_validate(
            spec_with_fields::<U>(len, group_value, channel_value, sharps_flats_value, tonic_value)
        ) is Ok,
        spec_with_fields::<U>(
            len,
            group_value,
            channel_value,
            sharps_flats_value,
            tonic_value,
        ).len() == len,
        place::<U>(group()).is_absent() || spec_read(
            spec_with_fields::<U>(len, group_value, channel_value, sharps_flats_value, tonic_value),
            group(),
        ) == group_value,
        place::<U>(channel()).is_absent() || spec_read(
            spec_with_fields::<U>(len, group_value, channel_value, sharps_flats_value, tonic_value),
            channel(),
        ) == channel_value,
        place::<U>(sharps_flats()).is_absent() || spec_read(
            spec_with_fields::<U>(len, group_value, channel_value, sharps_flats_value, tonic_value),
            sharps_flats(),
        ) == sharps_flats_value,
        place::<U>(tonic()).is_absent() || spec_read(
            spec_with_fields::<U>(len, group_value, channel_value, sharps_flats_value, tonic_value),
            tonic(),
        ) == tonic_value,
{
    lemma_new_is_valid::<U>(len);
    lemma_low_mask_bound(0);
    lemma_field_written::<U>(spec_new::<U>(len), group(), group_value);
    let step0 = spec_write(spec_new::<U>(len), group(), group_value);
    lemma_field_written::<U>(step0, channel(), channel_value);
    let step1 = spec_write(step0, channel(), channel_value);
    lemma_field_written::<U>(step1, sharps_flats(), sharps_flats_value);
    let step2 = spec_write(step1, sharps_flats(), sharps_flats_value);
    lemma_field_written::<U>(step2, tonic(), tonic_value);
    let step3 = spec_write(step2, tonic(), tonic_value);
}

} // verus!
