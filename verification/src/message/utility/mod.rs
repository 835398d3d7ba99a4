//! The utility messages in their ownership-qualified forms, the union of
//! them, and the builder that starts any of them.

use vstd::prelude::*;
use vstd::std_specs::convert::{FromSpec, FromSpecImpl};
use crate::buffer::{Buffer, MessageData};
use crate::common_properties::{
    channel_voice_status, channel_voice_status_schema, ump_type, ump_type_schema,
};
use crate::error::{
    ERR_INCORRECT_STATUS, ERR_INCORRECT_UMP_MESSAGE_TYPE, ERR_SLICE_TOO_SHORT,
    ERR_UNKNOWN_UTILITY_STATUS, Error,
};
use crate::numeric_types::U4;
use crate::property::{owned_words, rebuffered};
use crate::schema::{read_field, spec_read};
use crate::utility::no_op::NoOp;
use crate::utility::time_stamp::TimeStamp;
use no_op::NoOpBuilder;
use time_stamp::TimeStampBuilder;

pub mod no_op;
pub mod time_stamp;

verus! {

/// Any utility message, borrowed or owned.
#[derive(Clone, Debug, PartialEq, Eq)]
#[non_exhaustive]
pub enum UtilityMessage<'a> {
    NoOp(NoOp<MessageData<'a>>),
    TimeStamp(TimeStamp<MessageData<'a>>),
}

/// Any utility message over borrowed words.
#[derive(Clone, Debug, PartialEq, Eq)]
#[non_exhaustive]
pub enum UtilityBorrowed<'a> {
    NoOp(NoOp<&'a [u32]>),
    TimeStamp(TimeStamp<&'a [u32]>),
}

/// Any utility message that owns its words.
#[derive(Clone, Debug, PartialEq, Eq)]
#[non_exhaustive]
pub enum UtilityOwned {
    NoOp(NoOp<[u32; 4]>),
    TimeStamp(TimeStamp<[u32; 4]>),
}

/// The starting point for building any utility message; `M` is the type the
/// finished message is handed out as.
pub struct UtilityBuilder<M>(pub core::marker::PhantomData<M>);

impl<M: From<NoOp<[u32; 4]>> + From<TimeStamp<[u32; 4]>>> UtilityBuilder<M> {
    /// The builder holds nothing: it only fixes the type of the result.
    pub fn new() -> (builder: Self)
        ensures
            builder == UtilityBuilder::<M>(core::marker::PhantomData),
    {
        UtilityBuilder(core::marker::PhantomData)
    }

    pub fn no_op(self) -> (builder: NoOpBuilder<M>)
        ensures
            builder.wf()
                && builder.state() == Ok::<Seq<u32>, Error>(
                    crate::utility::no_op::spec_new::<u32>(4)
                ),
    {
        NoOpBuilder::new()
    }

    pub fn time_stamp(self) -> (builder: TimeStampBuilder<M>)
        ensures
            builder.wf()
                && builder.state() == Ok::<Seq<u32>, Error>(
                    crate::utility::time_stamp::spec_new::<u32>(4)
                ),
    {
        TimeStampBuilder::new()
    }
}

impl<M: From<NoOp<[u32; 4]>> + From<TimeStamp<[u32; 4]>>> Default for UtilityBuilder<M> {
    fn default() -> (builder: Self)
        ensures
            builder == UtilityBuilder::<M>(core::marker::PhantomData),
    {
        UtilityBuilder(core::marker::PhantomData)
    }
}

impl UtilityOwned {
    /// The starting point for building a message of this type.
    pub fn builder() -> (builder: UtilityBuilder<Self>)
        ensures
            builder == UtilityBuilder::<Self>(core::marker::PhantomData),
    {
        UtilityBuilder::new()
    }
}

impl<'a> UtilityMessage<'a> {
    /// The starting point for building a message of this type.
    pub fn builder() -> (builder: UtilityBuilder<Self>)
        ensures
            builder == UtilityBuilder::<Self>(core::marker::PhantomData),
    {
        UtilityBuilder::new()
    }
}

/// The field that tells the utility messages apart.
pub open spec fn spec_status(units: Seq<u32>) -> u32 {
    spec_read(units, channel_voice_status())
}

/// Reads the discriminant, and nothing else, from the first word.
pub fn status(units: &[u32]) -> (value: u8)
    requires
        units@.len() > 0,
    ensures
        value == spec_status(units@),
{
    let raw = read_field(units, &channel_voice_status_schema());
    proof {
        crate::bit_ops::lemma_low_mask_bound(0);
    }
    raw as u8
}

/// Whether a discriminant value names a member of the union.
pub open spec fn is_defined(status: u32) -> bool {
    status == crate::utility::no_op::STATUS
    || status == crate::utility::time_stamp::STATUS
}

/// The verdict on a word sequence: that of the member its discriminant
/// names. A discriminant that names none is `InvalidData`, as is an
/// empty sequence.
pub open spec fn spec_validate(units: Seq<u32>) -> Result<(), Error> {
    if units.len() < 1 {
        Err(Error::InvalidData(ERR_SLICE_TOO_SHORT))
    } else if spec_status(units) == crate::utility::no_op::STATUS {
        crate::utility::no_op::spec_validate::<u32>(units)
    } else if spec_status(units) == crate::utility::time_stamp::STATUS {
        crate::utility::time_stamp::spec_validate::<u32>(units)
    } else {
        Err(Error::InvalidData(ERR_UNKNOWN_UTILITY_STATUS))
    }
}

/// Reads the discriminant and runs the validation of the member it names.
pub fn validate_data(buffer: &[u32]) -> (r: Result<(), Error>)
    ensures
        r == spec_validate(buffer@),
{
    if buffer.len() < 1 {
        return Err(Error::InvalidData(ERR_SLICE_TOO_SHORT));
    }
    let found = status(buffer);
    if found == crate::utility::no_op::STATUS {
        crate::utility::no_op::validate::<u32>(buffer)
    } else if found == crate::utility::time_stamp::STATUS {
        crate::utility::time_stamp::validate::<u32>(buffer)
    } else {
        Err(Error::InvalidData(ERR_UNKNOWN_UTILITY_STATUS))
    }
}

impl<'a> UtilityMessage<'a> {
    /// The words of the underlying buffer.
    pub open spec fn units(&self) -> Seq<u32> {
        match self {
            UtilityMessage::NoOp(m) => m.0.units(),
            UtilityMessage::TimeStamp(m) => m.0.units(),
        }
    }

    /// The message inside is a valid message of its kind.
    pub open spec fn wf(&self) -> bool {
        match self {
            UtilityMessage::NoOp(m) => m.wf(),
            UtilityMessage::TimeStamp(m) => m.wf(),
        }
    }

    /// The discriminant of the member inside.
    pub open spec fn code(&self) -> u32 {
        match self {
            UtilityMessage::NoOp(_) => crate::utility::no_op::STATUS as u32,
            UtilityMessage::TimeStamp(_) => crate::utility::time_stamp::STATUS as u32,
        }
    }

    /// The words the message occupies.
    pub open spec fn spec_data(&self) -> Seq<u32> {
        match self {
            UtilityMessage::NoOp(m) => m.0.units().subrange(0, 1),
            UtilityMessage::TimeStamp(m) => m.0.units().subrange(0, 1),
        }
    }

    /// The words of the owned copy of the message.
    pub open spec fn spec_owned(&self) -> Seq<u32> {
        match self {
            UtilityMessage::NoOp(m) => owned_words(m.0, 1),
            UtilityMessage::TimeStamp(m) => owned_words(m.0, 1),
        }
    }

    /// The message a validated slice is taken as: the member its
    /// discriminant names, over that slice.
    pub open spec fn spec_from_data(buffer: &'a [u32]) -> Self {
        if spec_status(buffer@) == crate::utility::no_op::STATUS {
            UtilityMessage::NoOp(NoOp(MessageData::Borrowed(NoOp(buffer).0)))
        } else {
            UtilityMessage::TimeStamp(TimeStamp(MessageData::Borrowed(TimeStamp(buffer).0)))
        }
    }

    /// Validates that a slice holds a message of the union.
    pub fn validate_data(buffer: &'a [u32]) -> (r: Result<(), Error>)
        ensures
            r == spec_validate(buffer@),
    {
        validate_data(buffer)
    }

    /// Takes a validated slice as the member its discriminant names.
    pub fn from_data_unchecked(buffer: &'a [u32]) -> (message: Self)
        requires
            spec_validate(buffer@) is Ok,
        ensures
            message == Self::spec_from_data(buffer),
            message.wf(),
            message.units() == buffer@,
            message.code() == spec_status(buffer@),
    {
        UtilityMessage::from(UtilityBorrowed::from_data_unchecked(buffer))
    }

    /// Parses a slice: the member its discriminant names if the slice
    /// validates as that member, else the first failure.
    pub fn from_data(buffer: &'a [u32]) -> (r: Result<Self, Error>)
        ensures
            match spec_validate(buffer@) {
                Ok(()) => r == Ok::<Self, Error>(Self::spec_from_data(buffer)),
                Err(e) => r == Err::<Self, Error>(e),
            },
    {
        match validate_data(buffer) {
            Ok(()) => Ok(Self::from_data_unchecked(buffer)),
            Err(e) => Err(e),
        }
    }

    /// The words the message occupies.
    pub fn data(&self) -> (data: &[u32])
        requires
            self.wf(),
        ensures
            data@ == self.spec_data(),
    {
        match self {
            UtilityMessage::NoOp(m) => m.data(),
            UtilityMessage::TimeStamp(m) => m.data(),
        }
    }

    /// The message with its words owned; the member is kept.
    pub fn into_owned(self) -> (owned: UtilityOwned)
        requires
            self.wf(),
        ensures
            owned.wf(),
            owned.code() == self.code(),
            owned.units() == self.spec_owned(),
    {
        match self {
            UtilityMessage::NoOp(m) => UtilityOwned::NoOp(m.into_owned()),
            UtilityMessage::TimeStamp(m) => UtilityOwned::TimeStamp(m.into_owned()),
        }
    }
}

impl<'a> UtilityBorrowed<'a> {
    /// The words of the underlying buffer.
    pub open spec fn units(&self) -> Seq<u32> {
        match self {
            UtilityBorrowed::NoOp(m) => m.0.units(),
            UtilityBorrowed::TimeStamp(m) => m.0.units(),
        }
    }

    /// The message inside is a valid message of its kind.
    pub open spec fn wf(&self) -> bool {
        match self {
            UtilityBorrowed::NoOp(m) => m.wf(),
            UtilityBorrowed::TimeStamp(m) => m.wf(),
        }
    }

    /// The discriminant of the member inside.
    pub open spec fn code(&self) -> u32 {
        match self {
            UtilityBorrowed::NoOp(_) => crate::utility::no_op::STATUS as u32,
            UtilityBorrowed::TimeStamp(_) => crate::utility::time_stamp::STATUS as u32,
        }
    }

    /// The words the message occupies.
    pub open spec fn spec_data(&self) -> Seq<u32> {
        match self {
            UtilityBorrowed::NoOp(m) => m.0.units().subrange(0, 1),
            UtilityBorrowed::TimeStamp(m) => m.0.units().subrange(0, 1),
        }
    }

    /// The words of the owned copy of the message.
    pub open spec fn spec_owned(&self) -> Seq<u32> {
        match self {
            UtilityBorrowed::NoOp(m) => rebuffered::<[u32; 4]>(m.0.units().subrange(0, 1)),
            UtilityBorrowed::TimeStamp(m) => rebuffered::<[u32; 4]>(m.0.units().subrange(0, 1)),
        }
    }

    /// The message a validated slice is taken as: the member its
    /// discriminant names, over that slice.
    pub open spec fn spec_from_data(buffer: &'a [u32]) -> Self {
        if spec_status(buffer@) == crate::utility::no_op::STATUS {
            UtilityBorrowed::NoOp(NoOp(buffer))
        } else {
            UtilityBorrowed::TimeStamp(TimeStamp(buffer))
        }
    }

    /// Validates that a slice holds a message of the union.
    pub fn validate_data(buffer: &'a [u32]) -> (r: Result<(), Error>)
        ensures
            r == spec_validate(buffer@),
    {
        validate_data(buffer)
    }

    /// Takes a validated slice as the member its discriminant names.
    pub fn from_data_unchecked(buffer: &'a [u32]) -> (message: Self)
        requires
            spec_validate(buffer@) is Ok,
        ensures
            message == Self::spec_from_data(buffer),
            message.wf(),
            message.units() == buffer@,
            message.code() == spec_status(buffer@),
    {
        let found = status(buffer);
        if found == crate::utility::no_op::STATUS {
            UtilityBorrowed::NoOp(NoOp(buffer))
        } else {
            UtilityBorrowed::TimeStamp(TimeStamp(buffer))
        }
    }

    /// Parses a slice: the member its discriminant names if the slice
    /// validates as that member, else the first failure.
    pub fn from_data(buffer: &'a [u32]) -> (r: Result<Self, Error>)
        ensures
            match spec_validate(buffer@) {
                Ok(()) => r == Ok::<Self, Error>(Self::spec_from_data(buffer)),
                Err(e) => r == Err::<Self, Error>(e),
            },
    {
        match validate_data(buffer) {
            Ok(()) => Ok(Self::from_data_unchecked(buffer)),
            Err(e) => Err(e),
        }
    }

    /// The words the message occupies.
    pub fn data(&self) -> (data: &[u32])
        requires
            self.wf(),
        ensures
            data@ == self.spec_data(),
    {
        match self {
            UtilityBorrowed::NoOp(m) => m.data(),
            UtilityBorrowed::TimeStamp(m) => m.data(),
        }
    }

    /// The message with its words owned; the member is kept.
    pub fn into_owned(self) -> (owned: UtilityOwned)
        requires
            self.wf(),
        ensures
            owned.wf(),
            owned.code() == self.code(),
            owned.units() == self.spec_owned(),
    {
        match self {
            UtilityBorrowed::NoOp(m) => UtilityOwned::NoOp(m.rebuffer_into::<[u32; 4]>()),
            UtilityBorrowed::TimeStamp(m) => UtilityOwned::TimeStamp(m.rebuffer_into::<[u32; 4]>()),
        }
    }
}

impl UtilityOwned {
    /// The words of the underlying buffer.
    pub open spec fn units(&self) -> Seq<u32> {
        match self {
            UtilityOwned::NoOp(m) => m.0.units(),
            UtilityOwned::TimeStamp(m) => m.0.units(),
        }
    }

    /// The message inside is a valid message of its kind.
    pub open spec fn wf(&self) -> bool {
        match self {
            UtilityOwned::NoOp(m) => m.wf(),
            UtilityOwned::TimeStamp(m) => m.wf(),
        }
    }

    /// The discriminant of the member inside.
    pub open spec fn code(&self) -> u32 {
        match self {
            UtilityOwned::NoOp(_) => crate::utility::no_op::STATUS as u32,
            UtilityOwned::TimeStamp(_) => crate::utility::time_stamp::STATUS as u32,
        }
    }

    /// The words the message occupies.
    pub open spec fn spec_data(&self) -> Seq<u32> {
        match self {
            UtilityOwned::NoOp(m) => m.0.units().subrange(0, 1),
            UtilityOwned::TimeStamp(m) => m.0.units().subrange(0, 1),
        }
    }

    /// The words the message occupies.
    pub fn data(&self) -> (data: &[u32])
        requires
            self.wf(),
        ensures
            data@ == self.spec_data(),
    {
        match self {
            UtilityOwned::NoOp(m) => m.data(),
            UtilityOwned::TimeStamp(m) => m.data(),
        }
    }
}

/// Routing is by discriminant alone: a sequence that validates holds a
/// discriminant that names a member, and a sequence whose discriminant
/// names none never validates.
pub proof fn lemma_routing(units: Seq<u32>)
    ensures
        spec_validate(units) is Ok ==> units.len() >= 1 && is_defined(spec_status(units)),
        units.len() >= 1 && !is_defined(spec_status(units)) ==> spec_validate(units) == Err::<
            (),
            Error,
        >(Error::InvalidData(ERR_UNKNOWN_UTILITY_STATUS)),
        units.len() >= 1
            && spec_status(units) == crate::utility::no_op::STATUS ==> spec_validate(units)
            == crate::utility::no_op::spec_validate::<u32>(units),
        units.len() >= 1
            && spec_status(units) == crate::utility::time_stamp::STATUS ==> spec_validate(units)
            == crate::utility::time_stamp::spec_validate::<u32>(units),
{
}

impl<'a> UtilityMessage<'a> {
    /// The message that a borrowed one becomes: the same member, still borrowed.
    pub open spec fn spec_from_borrowed(value: UtilityBorrowed<'a>) -> Self {
        match value {
            UtilityBorrowed::NoOp(m) => UtilityMessage::NoOp(NoOp(MessageData::Borrowed(m.0))),
            UtilityBorrowed::TimeStamp(m) => UtilityMessage::TimeStamp(
                TimeStamp(MessageData::Borrowed(m.0))
            ),
        }
    }

    /// The message that an owned one becomes: the same member, still owned.
    pub open spec fn spec_from_owned(value: UtilityOwned) -> Self {
        match value {
            UtilityOwned::NoOp(m) => UtilityMessage::NoOp(NoOp(MessageData::Owned(m.0))),
            UtilityOwned::TimeStamp(m) => UtilityMessage::TimeStamp(
                TimeStamp(MessageData::Owned(m.0))
            ),
        }
    }
}

/// An owned message taken as a message and made owned again is the
/// message it was: the same member, the same words, as valid as before.
pub proof fn lemma_owned_round_trip(owned: UtilityOwned)
    ensures
        UtilityMessage::spec_from_owned(owned).spec_owned() == owned.units(),
        UtilityMessage::spec_from_owned(owned).units() == owned.units(),
        UtilityMessage::spec_from_owned(owned).code() == owned.code(),
        UtilityMessage::spec_from_owned(owned).wf() == owned.wf(),
{
}

impl<'a> From<UtilityBorrowed<'a>> for UtilityMessage<'a> {
    fn from(value: UtilityBorrowed<'a>) -> (r: Self) {
        match value {
            UtilityBorrowed::NoOp(m) => UtilityMessage::NoOp(NoOp(MessageData::Borrowed(m.0))),
            UtilityBorrowed::TimeStamp(m) => UtilityMessage::TimeStamp(
                TimeStamp(MessageData::Borrowed(m.0))
            ),
        }
    }
}

impl<'a> FromSpecImpl<UtilityBorrowed<'a>> for UtilityMessage<'a> {
    open spec fn obeys_from_spec() -> bool {
        true
    }

    open spec fn from_spec(value: UtilityBorrowed<'a>) -> Self {
        UtilityMessage::spec_from_borrowed(value)
    }
}

impl<'a> From<UtilityOwned> for UtilityMessage<'a> {
    fn from(value: UtilityOwned) -> (r: Self) {
        match value {
            UtilityOwned::NoOp(m) => UtilityMessage::NoOp(NoOp(MessageData::Owned(m.0))),
            UtilityOwned::TimeStamp(m) => UtilityMessage::TimeStamp(
                TimeStamp(MessageData::Owned(m.0))
            ),
        }
    }
}

impl<'a> FromSpecImpl<UtilityOwned> for UtilityMessage<'a> {
    open spec fn obeys_from_spec() -> bool {
        true
    }

    open spec fn from_spec(value: UtilityOwned) -> Self {
        UtilityMessage::spec_from_owned(value)
    }
}

impl From<NoOp<[u32; 4]>> for UtilityOwned {
    fn from(value: NoOp<[u32; 4]>) -> (r: Self) {
        UtilityOwned::NoOp(value)
    }
}

impl FromSpecImpl<NoOp<[u32; 4]>> for UtilityOwned {
    open spec fn obeys_from_spec() -> bool {
        true
    }

    open spec fn from_spec(value: NoOp<[u32; 4]>) -> Self {
        UtilityOwned::NoOp(value)
    }
}

impl<'a> From<NoOp<[u32; 4]>> for UtilityMessage<'a> {
    fn from(value: NoOp<[u32; 4]>) -> (r: Self) {
        UtilityMessage::NoOp(NoOp(MessageData::Owned(value.0)))
    }
}

impl<'a> FromSpecImpl<NoOp<[u32; 4]>> for UtilityMessage<'a> {
    open spec fn obeys_from_spec() -> bool {
        true
    }

    open spec fn from_spec(value: NoOp<[u32; 4]>) -> Self {
        UtilityMessage::NoOp(NoOp(MessageData::Owned(value.0)))
    }
}

impl From<TimeStamp<[u32; 4]>> for UtilityOwned {
    fn from(value: TimeStamp<[u32; 4]>) -> (r: Self) {
        UtilityOwned::TimeStamp(value)
    }
}

impl FromSpecImpl<TimeStamp<[u32; 4]>> for UtilityOwned {
    open spec fn obeys_from_spec() -> bool {
        true
    }

    open spec fn from_spec(value: TimeStamp<[u32; 4]>) -> Self {
        UtilityOwned::TimeStamp(value)
    }
}

impl<'a> From<TimeStamp<[u32; 4]>> for UtilityMessage<'a> {
    fn from(value: TimeStamp<[u32; 4]>) -> (r: Self) {
        UtilityMessage::TimeStamp(TimeStamp(MessageData::Owned(value.0)))
    }
}

impl<'a> FromSpecImpl<TimeStamp<[u32; 4]>> for UtilityMessage<'a> {
    open spec fn obeys_from_spec() -> bool {
        true
    }

    open spec fn from_spec(value: TimeStamp<[u32; 4]>) -> Self {
        UtilityMessage::TimeStamp(TimeStamp(MessageData::Owned(value.0)))
    }
}

/// Validates the front of a utility packet: it must exist, be of the utility
/// type, and hold the given status.
pub fn validate_packet(p: &[u32], op_code: U4) -> (r: Result<(), Error>)
    ensures
        r == (if p@.len() < 1 {
            Err::<(), Error>(Error::InvalidData(ERR_SLICE_TOO_SHORT))
        } else if spec_read(p@, ump_type()) != 0 {
            Err::<(), Error>(Error::InvalidData(ERR_INCORRECT_UMP_MESSAGE_TYPE))
        } else if spec_status(p@) != op_code@ {
            Err::<(), Error>(Error::InvalidData(ERR_INCORRECT_STATUS))
        } else {
            Ok::<(), Error>(())
        }),
{
    if p.len() < 1 {
        Err(Error::InvalidData(ERR_SLICE_TOO_SHORT))
    } else if read_field(p, &ump_type_schema()) != 0 {
        Err(Error::InvalidData(ERR_INCORRECT_UMP_MESSAGE_TYPE))
    } else if read_field(p, &channel_voice_status_schema()) != op_code.as_u32() {
        Err(Error::InvalidData(ERR_INCORRECT_STATUS))
    } else {
        Ok(())
    }
}

} // verus!
