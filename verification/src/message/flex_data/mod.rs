//! The flex data messages in their ownership-qualified forms, the union of
//! them, and the builder that starts any of them.

use vstd::prelude::*;
use vstd::std_specs::convert::{FromSpec, FromSpecImpl};
use composer_name::{
    ComposerNameBorrowed, ComposerNameBuilder, ComposerNameMessage, ComposerNameOwned,
};
use crate::buffer::{Buffer, MessageData};
use crate::common_properties::{flex_status, flex_status_schema};
use crate::error::{ERR_SLICE_TOO_SHORT, ERR_UNKNOWN_FLEX_DATA_STATUS, Error};
use crate::flex_data::set_key_signature::SetKeySignature;
use crate::property::{owned_words, rebuffered};
use crate::schema::{read_field, spec_read};
use set_key_signature::SetKeySignatureBuilder;

pub mod composer_name;
pub mod set_key_signature;

verus! {

/// Any flex data message, borrowed or owned.
#[derive(Clone, Debug, PartialEq, Eq)]
#[non_exhaustive]
pub enum FlexDataMessage<'a> {
    ComposerName(ComposerNameMessage<'a>),
    SetKeySignature(SetKeySignature<MessageData<'a>>),
}

/// Any flex data message over borrowed words.
#[derive(Clone, Debug, PartialEq, Eq)]
#[non_exhaustive]
pub enum FlexDataBorrowed<'a> {
    ComposerName(ComposerNameBorrowed<'a>),
    SetKeySignature(SetKeySignature<&'a [u32]>),
}

/// Any flex data message that owns its words.
#[derive(Clone, Debug, PartialEq, Eq)]
#[non_exhaustive]
pub enum FlexDataOwned {
    ComposerName(ComposerNameOwned),
    SetKeySignature(SetKeySignature<[u32; 4]>),
}

/// The starting point for building any flex data message; `M` is the type the
/// finished message is handed out as.
pub struct FlexDataBuilder<M>(pub core::marker::PhantomData<M>);

impl<M: From<ComposerNameOwned> + From<SetKeySignature<[u32; 4]>>> FlexDataBuilder<M> {
    /// The builder holds nothing: it only fixes the type of the result.
    pub fn new() -> (builder: Self)
        ensures
            builder == FlexDataBuilder::<M>(core::marker::PhantomData),
    {
        FlexDataBuilder(core::marker::PhantomData)
    }

    pub fn composer_name(self) -> (builder: ComposerNameBuilder<M>)
        ensures
            builder.wf()
                && builder.header == composer_name::default_header()
                && builder.payload@ == Seq::<u8>::empty(),
    {
        ComposerNameBuilder::new()
    }

    pub fn set_key_signature(self) -> (builder: SetKeySignatureBuilder<M>)
        ensures
            builder.wf()
                && builder.state() == Ok::<Seq<u32>, Error>(
                    crate::flex_data::set_key_signature::spec_new::<u32>(4)
                ),
    {
        SetKeySignatureBuilder::new()
    }
}

impl<M: From<ComposerNameOwned> + From<SetKeySignature<[u32; 4]>>> Default for FlexDataBuilder<M> {
    fn default() -> (builder: Self)
        ensures
            builder == FlexDataBuilder::<M>(core::marker::PhantomData),
    {
        FlexDataBuilder(core::marker::PhantomData)
    }
}

impl FlexDataOwned {
    /// The starting point for building a message of this type.
    pub fn builder() -> (builder: FlexDataBuilder<Self>)
        ensures
            builder == FlexDataBuilder::<Self>(core::marker::PhantomData),
    {
        FlexDataBuilder::new()
    }
}

impl<'a> FlexDataMessage<'a> {
    /// The starting point for building a message of this type.
    pub fn builder() -> (builder: FlexDataBuilder<Self>)
        ensures
            builder == FlexDataBuilder::<Self>(core::marker::PhantomData),
    {
        FlexDataBuilder::new()
    }
}

/// The field that tells the flex data messages apart.
pub open spec fn spec_status(units: Seq<u32>) -> u32 {
    spec_read(units, flex_status())
}

/// Reads the discriminant, and nothing else, from the first word.
pub fn status(units: &[u32]) -> (value: u16)
    requires
        units@.len() > 0,
    ensures
        value == spec_status(units@),
{
    let raw = read_field(units, &flex_status_schema());
    proof {
        crate::bit_ops::lemma_low_mask_bound(0);
    }
    raw as u16
}

/// Whether a discriminant value names a member of the union.
pub open spec fn is_defined(status: u32) -> bool {
    status == composer_name::CODE
    || status == crate::flex_data::set_key_signature::CODE
}

/// The verdict on a word sequence: that of the member its discriminant
/// names. A discriminant that names none is `InvalidData`, as is an
/// empty sequence.
pub open spec fn spec_validate(units: Seq<u32>) -> Result<(), Error> {
    if units.len() < 1 {
        Err(Error::InvalidData(ERR_SLICE_TOO_SHORT))
    } else if spec_status(units) == composer_name::CODE {
        composer_name::spec_validate(units)
    } else if spec_status(units) == crate::flex_data::set_key_signature::CODE {
        crate::flex_data::set_key_signature::spec_validate::<u32>(units)
    } else {
        Err(Error::InvalidData(ERR_UNKNOWN_FLEX_DATA_STATUS))
    }
}

/// Reads the discriminant and runs the validation of the member it names.
pub fn validate_data(buffer: &[u32]) -> (r: Result<(), Error>)
    ensures
        r == spec_validate(buffer@),
{
    if buffer.len() < 1 {
        return Err(Error::InvalidData(ERR_SLICE_TOO_SHORT));
    }
    let found = status(buffer);
    if found == composer_name::CODE {
        composer_name::validate_data(buffer)
    } else if found == crate::flex_data::set_key_signature::CODE {
        crate::flex_data::set_key_signature::validate::<u32>(buffer)
    } else {
        Err(Error::InvalidData(ERR_UNKNOWN_FLEX_DATA_STATUS))
    }
}

impl<'a> FlexDataMessage<'a> {
    /// The words of the underlying buffer.
    pub open spec fn units(&self) -> Seq<u32> {
        match self {
            FlexDataMessage::ComposerName(m) => m.units(),
            FlexDataMessage::SetKeySignature(m) => m.0.units(),
        }
    }

    /// The message inside is a valid message of its kind.
    pub open spec fn wf(&self) -> bool {
        match self {
            FlexDataMessage::ComposerName(m) => m.wf(),
            FlexDataMessage::SetKeySignature(m) => m.wf(),
        }
    }

    /// The discriminant of the member inside.
    pub open spec fn code(&self) -> u32 {
        match self {
            FlexDataMessage::ComposerName(_) => composer_name::CODE as u32,
            FlexDataMessage::SetKeySignature(_) => crate::flex_data::set_key_signature::CODE as u32,
        }
    }

    /// The words the message occupies.
    pub open spec fn spec_data(&self) -> Seq<u32> {
        match self {
            FlexDataMessage::ComposerName(m) => m.spec_data(),
            FlexDataMessage::SetKeySignature(m) => m.0.units().subrange(0, 4),
        }
    }

    /// The words of the owned copy of the message.
    pub open spec fn spec_owned(&self) -> Seq<u32> {
        match self {
            FlexDataMessage::ComposerName(m) => m.spec_owned(),
            FlexDataMessage::SetKeySignature(m) => owned_words(m.0, 4),
        }
    }

    /// The message a validated slice is taken as: the member its
    /// discriminant names, over that slice.
    pub open spec fn spec_from_data(buffer: &'a [u32]) -> Self {
        if spec_status(buffer@) == composer_name::CODE {
            FlexDataMessage::ComposerName(
                ComposerNameMessage::Borrowed(ComposerNameBorrowed::spec_from_data(buffer))
            )
        } else {
            FlexDataMessage::SetKeySignature(
                SetKeySignature(MessageData::Borrowed(SetKeySignature(buffer).0))
            )
        }
    }

    /// Validates that a slice holds a message of the union.
    pub fn validate_data(buffer: &'a [u32]) -> (r: Result<(), Error>)
        ensures
            r == spec_validate(buffer@),
    {
        validate_data(buffer)
    }

    /// Takes a validated slice as the member its discriminant names.
    pub fn from_data_unchecked(buffer: &'a [u32]) -> (message: Self)
        requires
            spec_validate(buffer@) is Ok,
        ensures
            message == Self::spec_from_data(buffer),
            message.wf(),
            message.units() == buffer@,
            message.code() == spec_status(buffer@),
    {
        FlexDataMessage::from(FlexDataBorrowed::from_data_unchecked(buffer))
    }

    /// Parses a slice: the member its discriminant names if the slice
    /// validates as that member, else the first failure.
    pub fn from_data(buffer: &'a [u32]) -> (r: Result<Self, Error>)
        ensures
            match spec_validate(buffer@) {
                Ok(()) => r == Ok::<Self, Error>(Self::spec_from_data(buffer)),
                Err(e) => r == Err::<Self, Error>(e),
            },
    {
        match validate_data(buffer) {
            Ok(()) => Ok(Self::from_data_unchecked(buffer)),
            Err(e) => Err(e),
        }
    }

    /// The words the message occupies.
    pub fn data(&self) -> (data: &[u32])
        requires
            self.wf(),
        ensures
            data@ == self.spec_data(),
    {
        match self {
            FlexDataMessage::ComposerName(m) => m.data(),
            FlexDataMessage::SetKeySignature(m) => m.data(),
        }
    }

    /// The message with its words owned; the member is kept.
    pub fn into_owned(self) -> (owned: FlexDataOwned)
        requires
            self.wf(),
        ensures
            owned.wf(),
            owned.code() == self.code(),
            owned.units() == self.spec_owned(),
    {
        match self {
            FlexDataMessage::ComposerName(m) => FlexDataOwned::ComposerName(m.into_owned()),
            FlexDataMessage::SetKeySignature(m) => FlexDataOwned::SetKeySignature(m.into_owned()),
        }
    }
}

impl<'a> FlexDataBorrowed<'a> {
    /// The words of the underlying buffer.
    pub open spec fn units(&self) -> Seq<u32> {
        match self {
            FlexDataBorrowed::ComposerName(m) => m.units(),
            FlexDataBorrowed::SetKeySignature(m) => m.0.units(),
        }
    }

    /// The message inside is a valid message of its kind.
    pub open spec fn wf(&self) -> bool {
        match self {
            FlexDataBorrowed::ComposerName(m) => m.wf(),
            FlexDataBorrowed::SetKeySignature(m) => m.wf(),
        }
    }

    /// The discriminant of the member inside.
    pub open spec fn code(&self) -> u32 {
        match self {
            FlexDataBorrowed::ComposerName(_) => composer_name::CODE as u32,
            FlexDataBorrowed::SetKeySignature(
                _
            ) => crate::flex_data::set_key_signature::CODE as u32,
        }
    }

    /// The words the message occupies.
    pub open spec fn spec_data(&self) -> Seq<u32> {
        match self {
            FlexDataBorrowed::ComposerName(m) => m.spec_data(),
            FlexDataBorrowed::SetKeySignature(m) => m.0.units().subrange(0, 4),
        }
    }

    /// The words of the owned copy of the message.
    pub open spec fn spec_owned(&self) -> Seq<u32> {
        match self {
            FlexDataBorrowed::ComposerName(m) => m.spec_owned(),
            FlexDataBorrowed::SetKeySignature(m) => rebuffered::<[u32; 4]>(
                m.0.units().subrange(0, 4)
            ),
        }
    }

    /// The message a validated slice is taken as: the member its
    /// discriminant names, over that slice.
    pub open spec fn spec_from_data(buffer: &'a [u32]) -> Self {
        if spec_status(buffer@) == composer_name::CODE {
            FlexDataBorrowed::ComposerName(ComposerNameBorrowed::spec_from_data(buffer))
        } else {
            FlexDataBorrowed::SetKeySignature(SetKeySignature(buffer))
        }
    }

    /// Validates that a slice holds a message of the union.
    pub fn validate_data(buffer: &'a [u32]) -> (r: Result<(), Error>)
        ensures
            r == spec_validate(buffer@),
    {
        validate_data(buffer)
    }

    /// Takes a validated slice as the member its discriminant names.
    pub fn from_data_unchecked(buffer: &'a [u32]) -> (message: Self)
        requires
            spec_validate(buffer@) is Ok,
        ensures
            message == Self::spec_from_data(buffer),
            message.wf(),
            message.units() == buffer@,
            message.code() == spec_status(buffer@),
    {
        let found = status(buffer);
        if found == composer_name::CODE {
            FlexDataBorrowed::ComposerName(ComposerNameBorrowed::from_data_unchecked(buffer))
        } else {
            FlexDataBorrowed::SetKeySignature(SetKeySignature(buffer))
        }
    }

    /// Parses a slice: the member its discriminant names if the slice
    /// validates as that member, else the first failure.
    pub fn from_data(buffer: &'a [u32]) -> (r: Result<Self, Error>)
        ensures
            match spec_validate(buffer@) {
                Ok(()) => r == Ok::<Self, Error>(Self::spec_from_data(buffer)),
                Err(e) => r == Err::<Self, Error>(e),
            },
    {
        match validate_data(buffer) {
            Ok(()) => Ok(Self::from_data_unchecked(buffer)),
            Err(e) => Err(e),
        }
    }

    /// The words the message occupies.
    pub fn data(&self) -> (data: &[u32])
        requires
            self.wf(),
        ensures
            data@ == self.spec_data(),
    {
        match self {
            FlexDataBorrowed::ComposerName(m) => m.data(),
            FlexDataBorrowed::SetKeySignature(m) => m.data(),
        }
    }

    /// The message with its words owned; the member is kept.
    pub fn into_owned(self) -> (owned: FlexDataOwned)
        requires
            self.wf(),
        ensures
            owned.wf(),
            owned.code() == self.code(),
            owned.units() == self.spec_owned(),
    {
        match self {
            FlexDataBorrowed::ComposerName(m) => FlexDataOwned::ComposerName(m.into_owned()),
            FlexDataBorrowed::SetKeySignature(m) => FlexDataOwned::SetKeySignature(
                m.rebuffer_into::<[u32; 4]>()
            ),
        }
    }
}

impl FlexDataOwned {
    /// The words of the underlying buffer.
    pub open spec fn units(&self) -> Seq<u32> {
        match self {
            FlexDataOwned::ComposerName(m) => m.units(),
            FlexDataOwned::SetKeySignature(m) => m.0.units(),
        }
    }

    /// The message inside is a valid message of its kind.
    pub open spec fn wf(&self) -> bool {
        match self {
            FlexDataOwned::ComposerName(m) => m.wf(),
            FlexDataOwned::SetKeySignature(m) => m.wf(),
        }
    }

    /// The discriminant of the member inside.
    pub open spec fn code(&self) -> u32 {
        match self {
            FlexDataOwned::ComposerName(_) => composer_name::CODE as u32,
            FlexDataOwned::SetKeySignature(_) => crate::flex_data::set_key_signature::CODE as u32,
        }
    }

    /// The words the message occupies.
    pub open spec fn spec_data(&self) -> Seq<u32> {
        match self {
            FlexDataOwned::ComposerName(m) => m.spec_data(),
            FlexDataOwned::SetKeySignature(m) => m.0.units().subrange(0, 4),
        }
    }

    /// The words the message occupies.
    pub fn data(&self) -> (data: &[u32])
        requires
            self.wf(),
        ensures
            data@ == self.spec_data(),
    {
        match self {
            FlexDataOwned::ComposerName(m) => m.data(),
            FlexDataOwned::SetKeySignature(m) => m.data(),
        }
    }
}

/// Routing is by discriminant alone: a sequence that validates holds a
/// discriminant that names a member, and a sequence whose discriminant
/// names none never validates.
pub proof fn lemma_routing(units: Seq<u32>)
    ensures
        spec_validate(units) is Ok ==> units.len() >= 1 && is_defined(spec_status(units)),
        units.len() >= 1 && !is_defined(spec_status(units)) ==> spec_validate(units) == Err::<
            (),
            Error,
        >(Error::InvalidData(ERR_UNKNOWN_FLEX_DATA_STATUS)),
        units.len() >= 1 && spec_status(units) == composer_name::CODE ==> spec_validate(units)
            == composer_name::spec_validate(units),
        units.len() >= 1
            && spec_status(
                units
            ) == crate::flex_data::set_key_signature::CODE ==> spec_validate(units)
            == crate::flex_data::set_key_signature::spec_validate::<u32>(units),
{
}

impl<'a> FlexDataMessage<'a> {
    /// The message that a borrowed one becomes: the same member, still borrowed.
    pub open spec fn spec_from_borrowed(value: FlexDataBorrowed<'a>) -> Self {
        match value {
            FlexDataBorrowed::ComposerName(m) => FlexDataMessage::ComposerName(
                ComposerNameMessage::Borrowed(m)
            ),
            FlexDataBorrowed::SetKeySignature(m) => FlexDataMessage::SetKeySignature(
                SetKeySignature(MessageData::Borrowed(m.0))
            ),
        }
    }

    /// The message that an owned one becomes: the same member, still owned.
    pub open spec fn spec_from_owned(value: FlexDataOwned) -> Self {
        match value {
            FlexDataOwned::ComposerName(m) => FlexDataMessage::ComposerName(
                ComposerNameMessage::Owned(m)
            ),
            FlexDataOwned::SetKeySignature(m) => FlexDataMessage::SetKeySignature(
                SetKeySignature(MessageData::Owned(m.0))
            ),
        }
    }
}

/// An owned message taken as a message and made owned again is the
/// message it was: the same member, the same words, as valid as before.
pub proof fn lemma_owned_round_trip(owned: FlexDataOwned)
    ensures
        FlexDataMessage::spec_from_owned(owned).spec_owned() == owned.units(),
        FlexDataMessage::spec_from_owned(owned).units() == owned.units(),
        FlexDataMessage::spec_from_owned(owned).code() == owned.code(),
        FlexDataMessage::spec_from_owned(owned).wf() == owned.wf(),
{
}

impl<'a> From<FlexDataBorrowed<'a>> for FlexDataMessage<'a> {
    fn from(value: FlexDataBorrowed<'a>) -> (r: Self) {
        match value {
            FlexDataBorrowed::ComposerName(m) => FlexDataMessage::ComposerName(
                ComposerNameMessage::from(m)
            ),
            FlexDataBorrowed::SetKeySignature(m) => FlexDataMessage::SetKeySignature(
                SetKeySignature(MessageData::Borrowed(m.0))
            ),
        }
    }
}

impl<'a> FromSpecImpl<FlexDataBorrowed<'a>> for FlexDataMessage<'a> {
    open spec fn obeys_from_spec() -> bool {
        true
    }

    open spec fn from_spec(value: FlexDataBorrowed<'a>) -> Self {
        FlexDataMessage::spec_from_borrowed(value)
    }
}

impl<'a> From<FlexDataOwned> for FlexDataMessage<'a> {
    fn from(value: FlexDataOwned) -> (r: Self) {
        match value {
            FlexDataOwned::ComposerName(m) => FlexDataMessage::ComposerName(
                ComposerNameMessage::from(m)
            ),
            FlexDataOwned::SetKeySignature(m) => FlexDataMessage::SetKeySignature(
                SetKeySignature(MessageData::Owned(m.0))
            ),
        }
    }
}

impl<'a> FromSpecImpl<FlexDataOwned> for FlexDataMessage<'a> {
    open spec fn obeys_from_spec() -> bool {
        true
    }

    open spec fn from_spec(value: FlexDataOwned) -> Self {
        FlexDataMessage::spec_from_owned(value)
    }
}

impl From<ComposerNameOwned> for FlexDataOwned {
    fn from(value: ComposerNameOwned) -> (r: Self) {
        FlexDataOwned::ComposerName(value)
    }
}

impl FromSpecImpl<ComposerNameOwned> for FlexDataOwned {
    open spec fn obeys_from_spec() -> bool {
        true
    }

    open spec fn from_spec(value: ComposerNameOwned) -> Self {
        FlexDataOwned::ComposerName(value)
    }
}

impl<'a> From<ComposerNameOwned> for FlexDataMessage<'a> {
    fn from(value: ComposerNameOwned) -> (r: Self) {
        FlexDataMessage::ComposerName(ComposerNameMessage::from(value))
    }
}

impl<'a> FromSpecImpl<ComposerNameOwned> for FlexDataMessage<'a> {
    open spec fn obeys_from_spec() -> bool {
        true
    }

    open spec fn from_spec(value: ComposerNameOwned) -> Self {
        FlexDataMessage::ComposerName(ComposerNameMessage::Owned(value))
    }
}

impl From<SetKeySignature<[u32; 4]>> for FlexDataOwned {
    fn from(value: SetKeySignature<[u32; 4]>) -> (r: Self) {
        FlexDataOwned::SetKeySignature(value)
    }
}

impl FromSpecImpl<SetKeySignature<[u32; 4]>> for FlexDataOwned {
    open spec fn obeys_from_spec() -> bool {
        true
    }

    open spec fn from_spec(value: SetKeySignature<[u32; 4]>) -> Self {
        FlexDataOwned::SetKeySignature(value)
    }
}

impl<'a> From<SetKeySignature<[u32; 4]>> for FlexDataMessage<'a> {
    fn from(value: SetKeySignature<[u32; 4]>) -> (r: Self) {
        FlexDataMessage::SetKeySignature(SetKeySignature(MessageData::Owned(value.0)))
    }
}

impl<'a> FromSpecImpl<SetKeySignature<[u32; 4]>> for FlexDataMessage<'a> {
    open spec fn obeys_from_spec() -> bool {
        true
    }

    open spec fn from_spec(value: SetKeySignature<[u32; 4]>) -> Self {
        FlexDataMessage::SetKeySignature(SetKeySignature(MessageData::Owned(value.0)))
    }
}

} // verus!
