//! The stream configuration request message of the stream family.

use vstd::prelude::*;
use crate::bit_ops::{lemma_low_mask_bound, lemma_mask_identity};
use crate::buffer::{zeros, Buffer, BufferMut, MessageData};
use crate::common_properties::{ump_type, ump_type_schema};
use crate::error::{
    ERR_INCONSISTENT_PACKETS, ERR_INCORRECT_STATUS, ERR_INCORRECT_UMP_MESSAGE_TYPE, Error,
};
use crate::property::{
    bool_bits, constant_holds, has_room, owned_words, read_bool, read_u8, rebuffered,
    spec_validate_size, try_rebuffer, validate_constant, validate_size, write_bool,
};
use crate::schema::{
    lemma_read_after_other_write, lemma_read_after_write, min_size, place, size_of, spec_read,
    spec_write, write_field, Place, Schema, Sizes, Unit,
};
use crate::ump_stream::UMP_MESSAGE_TYPE;

verus! {

pub const STATUS: u16 = 0x5;

/// A request to change the protocol of a stream.
#[derive(Clone, Debug, PartialEq, Eq)]
pub struct StreamConfigurationRequest<B: Buffer<Unit = u32>>(pub B);

/// The least number of units the message occupies in each wire form.
pub open spec fn sizes() -> Sizes {
    Sizes { ump: 1, bytes: 0 }
}

pub fn message_sizes() -> (sizes: Sizes)
    ensures
        sizes == self::sizes(),
{
    Sizes { ump: 1, bytes: 0 }
}

/// The least number of units of type `U` the message occupies.
pub fn minimum_size_in_units<U: Unit>() -> (size: usize)
    ensures
        size == min_size::<U>(sizes()),
{
    size_of::<U>(&message_sizes())
}

pub open spec fn format() -> Schema {
    Schema {
        ump: Place { index: 0, shift: 26, width: 2 },
        bytes: Place { index: 0, shift: 0, width: 0 },
    }
}

pub fn format_schema() -> (schema: Schema)
    ensures
        schema == format(),
{
    Schema {
        ump: Place { index: 0, shift: 26, width: 2 },
        bytes: Place { index: 0, shift: 0, width: 0 },
    }
}

pub open spec fn status() -> Schema {
    Schema {
        ump: Place { index: 0, shift: 16, width: 10 },
        bytes: Place { index: 0, shift: 0, width: 0 },
    }
}

pub fn status_schema() -> (schema: Schema)
    ensures
        schema == status(),
{
    Schema {
        ump: Place { index: 0, shift: 16, width: 10 },
        bytes: Place { index: 0, shift: 0, width: 0 },
    }
}

pub open spec fn protocol() -> Schema {
    Schema {
        ump: Place { index: 0, shift: 8, width: 8 },
        bytes: Place { index: 0, shift: 0, width: 0 },
    }
}

pub fn protocol_schema() -> (schema: Schema)
    ensures
        schema == protocol(),
{
    Schema {
        ump: Place { index: 0, shift: 8, width: 8 },
        bytes: Place { index: 0, shift: 0, width: 0 },
    }
}

pub open spec fn receive_jr_timestamps() -> Schema {
    Schema {
        ump: Place { index: 0, shift: 1, width: 1 },
        bytes: Place { index: 0, shift: 0, width: 0 },
    }
}

pub fn receive_jr_timestamps_schema() -> (schema: Schema)
    ensures
        schema == receive_jr_timestamps(),
{
    Schema {
        ump: Place { index: 0, shift: 1, width: 1 },
        bytes: Place { index: 0, shift: 0, width: 0 },
    }
}

pub open spec fn send_jr_timestamps() -> Schema {
    Schema {
        ump: Place { index: 0, shift: 0, width: 1 },
        bytes: Place { index: 0, shift: 0, width: 0 },
    }
}

pub fn send_jr_timestamps_schema() -> (schema: Schema)
    ensures
        schema == send_jr_timestamps(),
{
    Schema {
        ump: Place { index: 0, shift: 0, width: 1 },
        bytes: Place { index: 0, shift: 0, width: 0 },
    }
}

/// The verdict of the parser on a unit sequence: the first rule that
/// fails, in field order, or `Ok`.
pub open spec fn spec_validate<U: Unit>(units: Seq<U>) -> Result<(), Error> {
    if spec_validate_size::<U>(units.len(), sizes()) is Err {
        spec_validate_size::<U>(units.len(), sizes())
    } else if !constant_holds(units, ump_type(), UMP_MESSAGE_TYPE as u32) {
        Err(Error::InvalidData(ERR_INCORRECT_UMP_MESSAGE_TYPE))
    } else if !constant_holds(units, format(), 0) {
        Err(Error::InvalidData(ERR_INCONSISTENT_PACKETS))
    } else if !constant_holds(units, status(), STATUS as u32) {
        Err(Error::InvalidData(ERR_INCORRECT_STATUS))
    } else {
        Ok(())
    }
}

/// The units of a freshly built message in a buffer of `len` units: all
/// zero but for the fields the kind fixes.
pub open spec fn spec_new<U: Unit>(len: nat) -> Seq<U> {
    spec_write(
        spec_write(spec_write(zeros::<U>(len), ump_type(), UMP_MESSAGE_TYPE as u32), format(), 0),
        status(),
        STATUS as u32,
    )
}

/// The units of a message built with the given field values: a fresh
/// message with each field written in turn.
pub open spec fn spec_with_fields<U: Unit>(
    len: nat,
    protocol_value: u32,
    receive_jr_timestamps_value: u32,
    send_jr_timestamps_value: u32,
) -> Seq<U> {
    spec_write(
        spec_write(
            spec_write(spec_new::<U>(len), protocol(), protocol_value),
            receive_jr_timestamps(),
            receive_jr_timestamps_value,
        ),
        send_jr_timestamps(),
        send_jr_timestamps_value,
    )
}

/// Validates every field of the kind in order and stops at the first
/// that fails.
pub fn validate<U: Unit>(units: &[U]) -> (r: Result<(), Error>)
    ensures
        r == spec_validate(units@),
{
    match validate_size(units, &message_sizes()) {
        Err(e) => {
            return Err(e);
        },
        Ok(()) => {},
    }
    match validate_constant(
        units,
        &ump_type_schema(),
        UMP_MESSAGE_TYPE as u32,
        ERR_INCORRECT_UMP_MESSAGE_TYPE,
    ) {
        Err(e) => {
            return Err(e);
        },
        Ok(()) => {},
    }
    match validate_constant(units, &format_schema(), 0, ERR_INCONSISTENT_PACKETS) {
        Err(e) => {
            return Err(e);
        },
        Ok(()) => {},
    }
    validate_constant(units, &status_schema(), STATUS as u32, ERR_INCORRECT_STATUS)
}

impl<B: Buffer<Unit = u32>> StreamConfigurationRequest<B> {
    /// The buffer holds a message of this kind.
    pub open spec fn wf(&self) -> bool {
        spec_validate(self.0.units()) is Ok
    }

    pub open spec fn spec_protocol(&self) -> u32 {
        spec_read(self.0.units(), protocol())
    }

    pub open spec fn spec_receive_jr_timestamps(&self) -> u32 {
        spec_read(self.0.units(), receive_jr_timestamps())
    }

    pub open spec fn spec_send_jr_timestamps(&self) -> u32 {
        spec_read(self.0.units(), send_jr_timestamps())
    }

    /// Parses a buffer: the message over it if it validates, else the
    /// first failure.
    pub fn try_from(buffer: B) -> (r: Result<Self, Error>)
        ensures
            match spec_validate(buffer.units()) {
                Ok(()) => r == Ok::<Self, Error>(StreamConfigurationRequest(buffer)),
                Err(e) => r == Err::<Self, Error>(e),
            },
    {
        match validate(buffer.as_slice()) {
            Ok(()) => Ok(StreamConfigurationRequest(buffer)),
            Err(e) => Err(e),
        }
    }

    /// The units the message occupies: the front of the buffer.
    pub fn data(&self) -> (data: &[B::Unit])
        requires
            self.wf(),
        ensures
            data@ == self.0.units().subrange(0, min_size::<B::Unit>(sizes()) as int),
    {
        let size = size_of::<B::Unit>(&message_sizes());
        vstd::slice::slice_subrange(self.0.as_slice(), 0, size)
    }

    pub fn protocol(&self) -> (value: u8)
        requires
            self.wf(),
        ensures
            value == self.spec_protocol(),
    {
        read_u8(self.0.as_slice(), &protocol_schema())
    }

    pub fn receive_jr_timestamps(&self) -> (value: bool)
        requires
            self.wf(),
        ensures
            value == (self.spec_receive_jr_timestamps() != 0),
    {
        read_bool(self.0.as_slice(), &receive_jr_timestamps_schema())
    }

    pub fn send_jr_timestamps(&self) -> (value: bool)
        requires
            self.wf(),
        ensures
            value == (self.spec_send_jr_timestamps() != 0),
    {
        read_bool(self.0.as_slice(), &send_jr_timestamps_schema())
    }

    /// Re-homes the message into a fresh buffer of another backend with
    /// the same unit type. Fails with `BufferOverflow` exactly when the
    /// target is fixed and too small.
    pub fn try_rebuffer_into<C: BufferMut<Unit = B::Unit>>(
        self,
    ) -> (r: Result<StreamConfigurationRequest<C>, Error>)
        requires
            self.wf(),
        ensures
            has_room::<C>(min_size::<B::Unit>(sizes()) as nat) ==> r is Ok && r->Ok_0.wf()
                && r->Ok_0.0.units() == rebuffered::<C>(
                self.0.units().subrange(0, min_size::<B::Unit>(sizes()) as int),
            ),
            !has_room::<C>(
                min_size::<B::Unit>(sizes()) as nat
            ) ==> r == Err::<StreamConfigurationRequest<C>, Error>(
                Error::BufferOverflow,
            ),
    {
        match try_rebuffer::<C>(self.data()) {
            Ok(buffer) => {
                proof {
                    let size = min_size::<B::Unit>(sizes()) as int;
                    assert(buffer.units().subrange(0, size) =~= self.0.units().subrange(0, size));
                    lemma_same_front(self.0.units(), buffer.units());
                }
                Ok(StreamConfigurationRequest(buffer))
            },
            Err(e) => Err(e),
        }
    }

    /// Re-homes the message into a buffer known to have room for it.
    pub fn rebuffer_into<C: BufferMut<Unit = B::Unit>>(
        self,
    ) -> (message: StreamConfigurationRequest<C>)
        requires
            self.wf(),
            has_room::<C>(min_size::<B::Unit>(sizes()) as nat),
        ensures
            message.wf(),
            message.0.units() == rebuffered::<C>(
                self.0.units().subrange(0, min_size::<B::Unit>(sizes()) as int),
            ),
    {
        let ghost front = self.0.units().subrange(0, min_size::<B::Unit>(sizes()) as int);
        match self.try_rebuffer_into::<C>() {
            Ok(message) => message,
            Err(_) => {
                proof {
                    assert(false);
                }
                StreamConfigurationRequest(C::default())
            },
        }
    }
}

impl<B: BufferMut<Unit = u32>> StreamConfigurationRequest<B> {
    /// Builds the message with every settable field at zero. Fails with
    /// `BufferOverflow` exactly when the buffer type is too small.
    pub fn try_new() -> (r: Result<Self, Error>)
        ensures
            has_room::<B>(min_size::<B::Unit>(sizes()) as nat) ==> r is Ok && r->Ok_0.wf()
                && r->Ok_0.0.units() == spec_new::<B::Unit>(
                rebuffered::<B>(zeros::<B::Unit>(min_size::<B::Unit>(sizes()) as nat)).len(),
            ),
            !has_room::<B>(min_size::<B::Unit>(sizes()) as nat) ==> r == Err::<Self, Error>(
                Error::BufferOverflow,
            ),
    {
        let mut buffer = B::default();
        proof {
            buffer.lemma_capacity();
        }
        match buffer.required_capacity(size_of::<B::Unit>(&message_sizes())) {
            Err(_) => Err(Error::BufferOverflow),
            Ok(()) => {
                proof {
                    buffer.lemma_capacity();
                    assert(buffer.units() =~= zeros::<B::Unit>(buffer.units().len()));
                }
                let units = buffer.as_mut_slice();
                write_field(units, &ump_type_schema(), UMP_MESSAGE_TYPE as u32);
                write_field(units, &format_schema(), 0);
                write_field(units, &status_schema(), STATUS as u32);
                let message = StreamConfigurationRequest(buffer);
                proof {
                    lemma_new_is_valid::<B::Unit>(message.0.units().len());
                }
                Ok(message)
            },
        }
    }

    /// Builds the message in a buffer known to have room for it.
    pub fn new() -> (message: Self)
        requires
            has_room::<B>(min_size::<B::Unit>(sizes()) as nat),
        ensures
            message.wf(),
            message.0.units() == spec_new::<B::Unit>(
                rebuffered::<B>(zeros::<B::Unit>(min_size::<B::Unit>(sizes()) as nat)).len(),
            ),
    {
        match Self::try_new() {
            Ok(message) => message,
            Err(_) => {
                proof {
                    assert(false);
                }
                StreamConfigurationRequest(B::default())
            },
        }
    }

    /// Re-homes a message of another backend into a fresh buffer of this
    /// one.
    pub fn try_rebuffer_from<A: Buffer<Unit = B::Unit>>(
        other: StreamConfigurationRequest<A>,
    ) -> (r: Result<Self, Error>)
        requires
            other.wf(),
        ensures
            has_room::<B>(min_size::<B::Unit>(sizes()) as nat) ==> r is Ok && r->Ok_0.wf()
                && r->Ok_0.0.units() == rebuffered::<B>(
                other.0.units().subrange(0, min_size::<B::Unit>(sizes()) as int),
            ),
            !has_room::<B>(min_size::<B::Unit>(sizes()) as nat) ==> r == Err::<Self, Error>(
                Error::BufferOverflow,
            ),
    {
        other.try_rebuffer_into::<B>()
    }

    /// Re-homes a message of another backend into a buffer known to have
    /// room for it.
    pub fn rebuffer_from<A: Buffer<Unit = B::Unit>>(
        other: StreamConfigurationRequest<A>,
    ) -> (message: Self)
        requires
            other.wf(),
            has_room::<B>(min_size::<B::Unit>(sizes()) as nat),
        ensures
            message.wf(),
            message.0.units() == rebuffered::<B>(
                other.0.units().subrange(0, min_size::<B::Unit>(sizes()) as int),
            ),
    {
        other.rebuffer_into::<B>()
    }

    pub fn set_protocol(&mut self, value: u8)
        requires
            old(self).wf(),
        ensures
            final(self).wf(),
            final(self).0.units() == spec_write(old(self).0.units(), protocol(), value as u32),
            place::<B::Unit>(protocol()).is_absent() || final(self).spec_protocol() == value as u32,
            final(self).spec_receive_jr_timestamps() == old(self).spec_receive_jr_timestamps(),
            final(self).spec_send_jr_timestamps() == old(self).spec_send_jr_timestamps(),
    {
        let raw: u32 = value as u32;
        proof {
            lemma_low_mask_bound(8);
            lemma_field_written::<B::Unit>(old(self).0.units(), protocol(), raw);
        }
        write_field(self.0.as_mut_slice(), &protocol_schema(), raw);
    }

    pub fn set_receive_jr_timestamps(&mut self, value: bool)
        requires
            old(self).wf(),
        ensures
            final(self).wf(),
            final(self).0.units() == spec_write(
                old(self).0.units(),
                receive_jr_timestamps(),
                bool_bits(value),
            ),
            place::<B::Unit>(
                receive_jr_timestamps()
            ).is_absent() || final(self).spec_receive_jr_timestamps() == bool_bits(value),
            final(self).spec_protocol() == old(self).spec_protocol(),
            final(self).spec_send_jr_timestamps() == old(self).spec_send_jr_timestamps(),
    {
        proof {
            lemma_low_mask_bound(1);
            lemma_field_written::<B::Unit>(
                old(self).0.units(),
                receive_jr_timestamps(),
                bool_bits(value),
            );
        }
        write_bool(self.0.as_mut_slice(), &receive_jr_timestamps_schema(), value);
    }

    pub fn set_send_jr_timestamps(&mut self, value: bool)
        requires
            old(self).wf(),
        ensures
            final(self).wf(),
            final(self).0.units() == spec_write(
                old(self).0.units(),
                send_jr_timestamps(),
                bool_bits(value),
            ),
            place::<B::Unit>(
                send_jr_timestamps()
            ).is_absent() || final(self).spec_send_jr_timestamps() == bool_bits(value),
            final(self).spec_protocol() == old(self).spec_protocol(),
            final(self).spec_receive_jr_timestamps() == old(self).spec_receive_jr_timestamps(),
    {
        proof {
            lemma_low_mask_bound(1);
            lemma_field_written::<B::Unit>(
                old(self).0.units(),
                send_jr_timestamps(),
                bool_bits(value),
            );
        }
        write_bool(self.0.as_mut_slice(), &send_jr_timestamps_schema(), value);
    }
}

impl StreamConfigurationRequest<[u32; 4]> {
    /// Builds the message in an array of four words.
    pub fn new_arr() -> (message: Self)
        ensures
            message.wf(),
            message.0@ == spec_new::<u32>(4),
    {
        proof {
            assert(
                rebuffered::<[u32; 4]>(zeros::<u32>(min_size::<u32>(sizes()) as nat)).len() == 4
            );
        }
        Self::new()
    }
}

impl<'a> StreamConfigurationRequest<MessageData<'a>> {
    /// The message in a packet of its own: an owned packet as it is, a
    /// borrowed message as the words it occupies, then zeros.
    pub fn into_owned(self) -> (owned: StreamConfigurationRequest<[u32; 4]>)
        requires
            self.wf(),
        ensures
            owned.wf(),
            owned.0@ == owned_words(self.0, 1),
    {
        match self.0 {
            MessageData::Owned(words) => StreamConfigurationRequest(words),
            MessageData::Borrowed(
                words
            ) => StreamConfigurationRequest(words).rebuffer_into::<[u32; 4]>(),
        }
    }
}

/// A fresh message of enough units validates.
pub proof fn lemma_new_is_valid<U: Unit>(len: nat)
    requires
        len >= min_size::<U>(sizes()),
        min_size::<U>(sizes()) > 0,
    ensures
        spec_validate(spec_new::<U>(len)) is Ok,
        spec_new::<U>(len).len() == len,
{
    lemma_low_mask_bound(0);
    lemma_low_mask_bound(4);
    let step0 = spec_write(zeros::<U>(len), ump_type(), UMP_MESSAGE_TYPE as u32);
    if !place::<U>(ump_type()).is_absent() {
        lemma_mask_identity(UMP_MESSAGE_TYPE as u32, place::<U>(ump_type()).width);
        lemma_read_after_write(zeros::<U>(len), ump_type(), UMP_MESSAGE_TYPE as u32);
    }
    let step1 = spec_write(step0, format(), 0);
    if !place::<U>(format()).is_absent() {
        lemma_mask_identity(0, place::<U>(format()).width);
        lemma_read_after_write(step0, format(), 0);
    }
    lemma_read_after_other_write(step0, format(), 0, ump_type());
    let step2 = spec_write(step1, status(), STATUS as u32);
    if !place::<U>(status()).is_absent() {
        lemma_mask_identity(STATUS as u32, place::<U>(status()).width);
        lemma_read_after_write(step1, status(), STATUS as u32);
    }
    lemma_read_after_other_write(step1, status(), STATUS as u32, ump_type());
    lemma_read_after_other_write(step1, status(), STATUS as u32, format());
}

/// Writing a settable field of a valid message keeps the message valid,
/// sets that field, and leaves every other field as it was.
pub proof fn lemma_field_written<U: Unit>(units: Seq<U>, schema: Schema, value: u32)
    requires
        spec_validate(units) is Ok,
        schema == protocol() || schema == receive_jr_timestamps() || schema == send_jr_timestamps(),
        place::<U>(schema).is_absent() || value <= place::<U>(schema).max_value(),
    ensures
        spec_validate(spec_write(units, schema, value)) is Ok,
        spec_write(units, schema, value).len() == units.len(),
        place::<U>(schema).is_absent() || spec_read(spec_write(units, schema, value), schema)
            == value,
        schema != protocol() ==> spec_read(
            spec_write(units, schema, value),
            protocol(),
        ) == spec_read(
            units,
            protocol(),
        ),
        schema != receive_jr_timestamps() ==> spec_read(
            spec_write(units, schema, value),
            receive_jr_timestamps(),
        ) == spec_read(
            units,
            receive_jr_timestamps(),
        ),
        schema != send_jr_timestamps() ==> spec_read(
            spec_write(units, schema, value),
            send_jr_timestamps(),
        ) == spec_read(
            units,
            send_jr_timestamps(),
        ),
{
    lemma_read_after_other_write(units, schema, value, ump_type());
    lemma_read_after_other_write(units, schema, value, format());
    lemma_read_after_other_write(units, schema, value, status());
    if !place::<U>(schema).is_absent() {
        lemma_read_after_write(units, schema, value);
        lemma_mask_identity(value, place::<U>(schema).width);
    }
    if schema != protocol() {
        lemma_read_after_other_write(units, schema, value, protocol());
    }
    if schema != receive_jr_timestamps() {
        lemma_read_after_other_write(units, schema, value, receive_jr_timestamps());
    }
    if schema != send_jr_timestamps() {
        lemma_read_after_other_write(units, schema, value, send_jr_timestamps());
    }
}

/// The parser accepts exactly the sequences that are long enough, hold
/// the fields the kind fixes; every
/// rejection is `InvalidData`.
pub proof fn lemma_verdict<U: Unit>(units: Seq<U>)
    ensures
        spec_validate(units) is Ok <==> {
            &&& min_size::<U>(sizes()) > 0
            &&& units.len() >= min_size::<U>(sizes())
            &&& constant_holds(units, ump_type(), UMP_MESSAGE_TYPE as u32)
            &&& constant_holds(units, format(), 0)
            &&& constant_holds(units, status(), STATUS as u32)
        },
        spec_validate(units) is Err ==> spec_validate(units)->Err_0 is InvalidData,
{
}

/// Validity and every field depend only on the units the message
/// occupies: two sequences with the same front read the same.
pub proof fn lemma_same_front<U: Unit>(a: Seq<U>, b: Seq<U>)
    requires
        spec_validate(a) is Ok,
        b.len() >= min_size::<U>(sizes()),
        b.subrange(0, min_size::<U>(sizes()) as int) == a.subrange(
            0,
            min_size::<U>(sizes()) as int,
        ),
    ensures
        spec_validate(b) is Ok,
        spec_read(b, protocol()) == spec_read(a, protocol()),
        spec_read(b, receive_jr_timestamps()) == spec_read(a, receive_jr_timestamps()),
        spec_read(b, send_jr_timestamps()) == spec_read(a, send_jr_timestamps()),
{
    let size = min_size::<U>(sizes()) as int;
    assert forall|i: int| 0 <= i < size implies a[i] == b[i] by {
        assert(a.subrange(0, size)[i] == b.subrange(0, size)[i]);
    }
}

/// Decoding what was encoded gives back every field: a message built
/// from in-range values validates, and each field that has a place in
/// the wire form reads as the value it was built with.
pub proof fn lemma_round_trip<U: Unit>(
    len: nat,
    protocol_value: u32,
    receive_jr_timestamps_value: u32,
    send_jr_timestamps_value: u32,
)
    requires
        len >= min_size::<U>(sizes()),
        min_size::<U>(sizes()) > 0,
        protocol_value <= 0xff,
        receive_jr_timestamps_value <= 0x1,
        send_jr_timestamps_value <= 0x1,
    ensures
        spec_validate(
            spec_with_fields::<U>(
                len,
                protocol_value,
                receive_jr_timestamps_value,
                send_jr_timestamps_value,
            )
        ) is Ok,
        spec_with_fields::<U>(
            len,
            protocol_value,
            receive_jr_timestamps_value,
            send_jr_timestamps_value,
        ).len() == len,
        place::<U>(protocol()).is_absent() || spec_read(
            spec_with_fields::<U>(
                len,
                protocol_value,
                receive_jr_timestamps_value,
                send_jr_timestamps_value,
            ),
            protocol(),
        ) == protocol_value,
        place::<U>(receive_jr_timestamps()).is_absent() || spec_read(
            spec_with_fields::<U>(
                len,
                protocol_value,
                receive_jr_timestamps_value,
                send_jr_timestamps_value,
            ),
            receive_jr_timestamps(),
        ) == receive_jr_timestamps_value,
        place::<U>(send_jr_timestamps()).is_absent() || spec_read(
            spec_with_fields::<U>(
                len,
                protocol_value,
                receive_jr_timestamps_value,
                send_jr_timestamps_value,
            ),
            send_jr_timestamps(),
        ) == send_jr_timestamps_value,
{
    lemma_new_is_valid::<U>(len);
    lemma_low_mask_bound(0);
    lemma_field_written::<U>(spec_new::<U>(len), protocol(), protocol_value);
    let step0 = spec_write(spec_new::<U>(len), protocol(), protocol_value);
    lemma_field_written::<U>(step0, receive_jr_timestamps(), receive_jr_timestamps_value);
    let step1 = spec_write(step0, receive_jr_timestamps(), receive_jr_timestamps_value);
    lemma_field_written::<U>(step1, send_jr_timestamps(), send_jr_timestamps_value);
    let step2 = spec_write(step1, send_jr_timestamps(), send_jr_timestamps_value);
}

} // verus!
