//! The stream messages in their ownership-qualified forms, the union of
//! them, and the builder that starts any of them.

use vstd::prelude::*;
use vstd::std_specs::convert::{FromSpec, FromSpecImpl};
use crate::buffer::{Buffer, MessageData};
use crate::common_properties::{stream_status, stream_status_schema};
use crate::error::{ERR_SLICE_TOO_SHORT, ERR_UNKNOWN_UMP_STREAM_STATUS, Error};
use crate::property::{owned_words, rebuffered};
use crate::schema::{read_field, spec_read};
use crate::ump_stream::end_of_clip::EndOfClip;
use crate::ump_stream::start_of_clip::StartOfClip;
use crate::ump_stream::stream_configuration_request::StreamConfigurationRequest;
use end_of_clip::EndOfClipBuilder;
use endpoint_name::{
    EndpointName, EndpointNameBorrowed, EndpointNameBuilder, EndpointNameMessage, EndpointNameOwned,
};
use function_block_name::{
    FunctionBlockNameBorrowed, FunctionBlockNameBuilder, FunctionBlockNameMessage,
    FunctionBlockNameOwned,
};
use start_of_clip::StartOfClipBuilder;
use stream_configuration_request::StreamConfigurationRequestBuilder;

pub mod end_of_clip;
pub mod endpoint_name;
pub mod function_block_name;
pub mod start_of_clip;
pub mod stream_configuration_request;

verus! {

/// Any stream message, borrowed or owned.
#[derive(Clone, Debug, PartialEq, Eq)]
#[non_exhaustive]
pub enum UmpStreamMessage<'a> {
    EndOfClip(EndOfClip<MessageData<'a>>),
    EndpointName(EndpointNameMessage<'a>),
    FunctionBlockName(FunctionBlockNameMessage<'a>),
    StartOfClip(StartOfClip<MessageData<'a>>),
    StreamConfigurationRequest(StreamConfigurationRequest<MessageData<'a>>),
}

/// Any stream message over borrowed words.
#[derive(Clone, Debug, PartialEq, Eq)]
#[non_exhaustive]
pub enum UmpStreamBorrowed<'a> {
    EndOfClip(EndOfClip<&'a [u32]>),
    EndpointName(EndpointNameBorrowed<'a>),
    FunctionBlockName(FunctionBlockNameBorrowed<'a>),
    StartOfClip(StartOfClip<&'a [u32]>),
    StreamConfigurationRequest(StreamConfigurationRequest<&'a [u32]>),
}

/// Any stream message that owns its words.
#[derive(Clone, Debug, PartialEq, Eq)]
#[non_exhaustive]
pub enum UmpStreamOwned {
    EndOfClip(EndOfClip<[u32; 4]>),
    EndpointName(EndpointNameOwned),
    FunctionBlockName(FunctionBlockNameOwned),
    StartOfClip(StartOfClip<[u32; 4]>),
    StreamConfigurationRequest(StreamConfigurationRequest<[u32; 4]>),
}

/// The starting point for building any stream message; `M` is the type the
/// finished message is handed out as.
pub struct UmpStreamBuilder<M>(pub core::marker::PhantomData<M>);

impl<M> UmpStreamBuilder<M> where
    M: From<EndOfClip<[u32; 4]>>
        + From<EndpointNameOwned>
        + From<FunctionBlockNameOwned>
        + From<StartOfClip<[u32; 4]>>
        + From<StreamConfigurationRequest<[u32; 4]>>,
 {
    /// The builder holds nothing: it only fixes the type of the result.
    pub fn new() -> (builder: Self)
        ensures
            builder == UmpStreamBuilder::<M>(core::marker::PhantomData),
    {
        UmpStreamBuilder(core::marker::PhantomData)
    }

    pub fn end_of_clip(self) -> (builder: EndOfClipBuilder<M>)
        ensures
            builder.wf()
                && builder.state() == Ok::<Seq<u32>, Error>(
                    crate::ump_stream::end_of_clip::spec_new::<u32>(4)
                ),
    {
        EndOfClipBuilder::new()
    }

    pub fn endpoint_name(self) -> (builder: EndpointNameBuilder<M>)
        ensures
            builder.state() == Ok::<Seq<u32>, Error>(
                endpoint_name::spec_encode_name(Seq::<u8>::empty())
            ),
    {
        EndpointNameBuilder::new()
    }

    pub fn function_block_name(self) -> (builder: FunctionBlockNameBuilder<M>)
        ensures
            builder.wf()
                && builder.header == function_block_name::default_header()
                && builder.payload@ == Seq::<u8>::empty(),
    {
        FunctionBlockNameBuilder::new()
    }

    pub fn start_of_clip(self) -> (builder: StartOfClipBuilder<M>)
        ensures
            builder.wf()
                && builder.state() == Ok::<Seq<u32>, Error>(
                    crate::ump_stream::start_of_clip::spec_new::<u32>(4)
                ),
    {
        StartOfClipBuilder::new()
    }

    pub fn stream_configuration_request(self) -> (builder: StreamConfigurationRequestBuilder<M>)
        ensures
            builder.wf()
                && builder.state() == Ok::<Seq<u32>, Error>(
                    crate::ump_stream::stream_configuration_request::spec_new::<u32>(4)
                ),
    {
        StreamConfigurationRequestBuilder::new()
    }
}

impl<M> Default for UmpStreamBuilder<M> where
    M: From<EndOfClip<[u32; 4]>>
        + From<EndpointNameOwned>
        + From<FunctionBlockNameOwned>
        + From<StartOfClip<[u32; 4]>>
        + From<StreamConfigurationRequest<[u32; 4]>>,
 {
    fn default() -> (builder: Self)
        ensures
            builder == UmpStreamBuilder::<M>(core::marker::PhantomData),
    {
        UmpStreamBuilder(core::marker::PhantomData)
    }
}

impl UmpStreamOwned {
    /// The starting point for building a message of this type.
    pub fn builder() -> (builder: UmpStreamBuilder<Self>)
        ensures
            builder == UmpStreamBuilder::<Self>(core::marker::PhantomData),
    {
        UmpStreamBuilder::new()
    }
}

impl<'a> UmpStreamMessage<'a> {
    /// The starting point for building a message of this type.
    pub fn builder() -> (builder: UmpStreamBuilder<Self>)
        ensures
            builder == UmpStreamBuilder::<Self>(core::marker::PhantomData),
    {
        UmpStreamBuilder::new()
    }
}

/// The field that tells the stream messages apart.
pub open spec fn spec_status(units: Seq<u32>) -> u32 {
    spec_read(units, stream_status())
}

/// Reads the discriminant, and nothing else, from the first word.
pub fn status(units: &[u32]) -> (value: u16)
    requires
        units@.len() > 0,
    ensures
        value == spec_status(units@),
{
    let raw = read_field(units, &stream_status_schema());
    proof {
        crate::bit_ops::lemma_low_mask_bound(0);
    }
    raw as u16
}

/// Whether a discriminant value names a member of the union.
pub open spec fn is_defined(status: u32) -> bool {
    status == crate::ump_stream::end_of_clip::STATUS
    || status == endpoint_name::STATUS
    || status == function_block_name::STATUS
    || status == crate::ump_stream::start_of_clip::STATUS
    || status == crate::ump_stream::stream_configuration_request::STATUS
}

/// The verdict on a word sequence: that of the member its discriminant
/// names. A discriminant that names none is `InvalidData`, as is an
/// empty sequence.
pub open spec fn spec_validate(units: Seq<u32>) -> Result<(), Error> {
    if units.len() < 1 {
        Err(Error::InvalidData(ERR_SLICE_TOO_SHORT))
    } else if spec_status(units) == crate::ump_stream::end_of_clip::STATUS {
        crate::ump_stream::end_of_clip::spec_validate::<u32>(units)
    } else if spec_status(units) == endpoint_name::STATUS {
        endpoint_name::spec_validate(units)
    } else if spec_status(units) == function_block_name::STATUS {
        function_block_name::spec_validate(units)
    } else if spec_status(units) == crate::ump_stream::start_of_clip::STATUS {
        crate::ump_stream::start_of_clip::spec_validate::<u32>(units)
    } else if spec_status(units) == crate::ump_stream::stream_configuration_request::STATUS {
        crate::ump_stream::stream_configuration_request::spec_validate::<u32>(units)
    } else {
        Err(Error::InvalidData(ERR_UNKNOWN_UMP_STREAM_STATUS))
    }
}

/// Reads the discriminant and runs the validation of the member it names.
pub fn validate_data(buffer: &[u32]) -> (r: Result<(), Error>)
    ensures
        r == spec_validate(buffer@),
{
    if buffer.len() < 1 {
        return Err(Error::InvalidData(ERR_SLICE_TOO_SHORT));
    }
    let found = status(buffer);
    if found == crate::ump_stream::end_of_clip::STATUS {
        crate::ump_stream::end_of_clip::validate::<u32>(buffer)
    } else if found == endpoint_name::STATUS {
        endpoint_name::validate_data(buffer)
    } else if found == function_block_name::STATUS {
        function_block_name::validate_data(buffer)
    } else if found == crate::ump_stream::start_of_clip::STATUS {
        crate::ump_stream::start_of_clip::validate::<u32>(buffer)
    } else if found == crate::ump_stream::stream_configuration_request::STATUS {
        crate::ump_stream::stream_configuration_request::validate::<u32>(buffer)
    } else {
        Err(Error::InvalidData(ERR_UNKNOWN_UMP_STREAM_STATUS))
    }
}

impl<'a> UmpStreamMessage<'a> {
    /// The words of the underlying buffer.
    pub open spec fn units(&self) -> Seq<u32> {
        match self {
            UmpStreamMessage::EndOfClip(m) => m.0.units(),
            UmpStreamMessage::EndpointName(m) => m.units(),
            UmpStreamMessage::FunctionBlockName(m) => m.units(),
            UmpStreamMessage::StartOfClip(m) => m.0.units(),
            UmpStreamMessage::StreamConfigurationRequest(m) => m.0.units(),
        }
    }

    /// The message inside is a valid message of its kind.
    pub open spec fn wf(&self) -> bool {
        match self {
            UmpStreamMessage::EndOfClip(m) => m.wf(),
            UmpStreamMessage::EndpointName(m) => m.wf(),
            UmpStreamMessage::FunctionBlockName(m) => m.wf(),
            UmpStreamMessage::StartOfClip(m) => m.wf(),
            UmpStreamMessage::StreamConfigurationRequest(m) => m.wf(),
        }
    }

    /// The discriminant of the member inside.
    pub open spec fn code(&self) -> u32 {
        match self {
            UmpStreamMessage::EndOfClip(_) => crate::ump_stream::end_of_clip::STATUS as u32,
            UmpStreamMessage::EndpointName(_) => endpoint_name::STATUS as u32,
            UmpStreamMessage::FunctionBlockName(_) => function_block_name::STATUS as u32,
            UmpStreamMessage::StartOfClip(_) => crate::ump_stream::start_of_clip::STATUS as u32,
            UmpStreamMessage::StreamConfigurationRequest(
                _
            ) => crate::ump_stream::stream_configuration_request::STATUS as u32,
        }
    }

    /// The words the message occupies.
    pub open spec fn spec_data(&self) -> Seq<u32> {
        match self {
            UmpStreamMessage::EndOfClip(m) => m.0.units().subrange(0, 1),
            UmpStreamMessage::EndpointName(m) => m.spec_data(),
            UmpStreamMessage::FunctionBlockName(m) => m.spec_data(),
            UmpStreamMessage::StartOfClip(m) => m.0.units().subrange(0, 1),
            UmpStreamMessage::StreamConfigurationRequest(m) => m.0.units().subrange(0, 1),
        }
    }

    /// The words of the owned copy of the message.
    pub open spec fn spec_owned(&self) -> Seq<u32> {
        match self {
            UmpStreamMessage::EndOfClip(m) => owned_words(m.0, 1),
            UmpStreamMessage::EndpointName(m) => m.spec_owned(),
            UmpStreamMessage::FunctionBlockName(m) => m.spec_owned(),
            UmpStreamMessage::StartOfClip(m) => owned_words(m.0, 1),
            UmpStreamMessage::StreamConfigurationRequest(m) => owned_words(m.0, 1),
        }
    }

    /// The message a validated slice is taken as: the member its
    /// discriminant names, over that slice.
    pub open spec fn spec_from_data(buffer: &'a [u32]) -> Self {
        if spec_status(buffer@) == crate::ump_stream::end_of_clip::STATUS {
            UmpStreamMessage::EndOfClip(EndOfClip(MessageData::Borrowed(EndOfClip(buffer).0)))
        } else if spec_status(buffer@) == endpoint_name::STATUS {
            UmpStreamMessage::EndpointName(
                EndpointNameMessage::Borrowed(EndpointNameBorrowed::spec_from_data(buffer))
            )
        } else if spec_status(buffer@) == function_block_name::STATUS {
            UmpStreamMessage::FunctionBlockName(
                FunctionBlockNameMessage::Borrowed(
                    FunctionBlockNameBorrowed::spec_from_data(buffer)
                )
            )
        } else if spec_status(buffer@) == crate::ump_stream::start_of_clip::STATUS {
            UmpStreamMessage::StartOfClip(StartOfClip(MessageData::Borrowed(StartOfClip(buffer).0)))
        } else {
            UmpStreamMessage::StreamConfigurationRequest(
                StreamConfigurationRequest(
                    MessageData::Borrowed(StreamConfigurationRequest(buffer).0)
                )
            )
        }
    }

    /// Validates that a slice holds a message of the union.
    pub fn validate_data(buffer: &'a [u32]) -> (r: Result<(), Error>)
        ensures
            r == spec_validate(buffer@),
    {
        validate_data(buffer)
    }

    /// Takes a validated slice as the member its discriminant names.
    pub fn from_data_unchecked(buffer: &'a [u32]) -> (message: Self)
        requires
            spec_validate(buffer@) is Ok,
        ensures
            message == Self::spec_from_data(buffer),
            message.wf(),
            message.units() == buffer@,
            message.code() == spec_status(buffer@),
    {
        UmpStreamMessage::from(UmpStreamBorrowed::from_data_unchecked(buffer))
    }

    /// Parses a slice: the member its discriminant names if the slice
    /// validates as that member, else the first failure.
    pub fn from_data(buffer: &'a [u32]) -> (r: Result<Self, Error>)
        ensures
            match spec_validate(buffer@) {
                Ok(()) => r == Ok::<Self, Error>(Self::spec_from_data(buffer)),
                Err(e) => r == Err::<Self, Error>(e),
            },
    {
        match validate_data(buffer) {
            Ok(()) => Ok(Self::from_data_unchecked(buffer)),
            Err(e) => Err(e),
        }
    }

    /// The words the message occupies.
    pub fn data(&self) -> (data: &[u32])
        requires
            self.wf(),
        ensures
            data@ == self.spec_data(),
    {
        match self {
            UmpStreamMessage::EndOfClip(m) => m.data(),
            UmpStreamMessage::EndpointName(m) => m.data(),
            UmpStreamMessage::FunctionBlockName(m) => m.data(),
            UmpStreamMessage::StartOfClip(m) => m.data(),
            UmpStreamMessage::StreamConfigurationRequest(m) => m.data(),
        }
    }

    /// The message with its words owned; the member is kept.
    pub fn into_owned(self) -> (owned: UmpStreamOwned)
        requires
            self.wf(),
        ensures
            owned.wf(),
            owned.code() == self.code(),
            owned.units() == self.spec_owned(),
    {
        match self {
            UmpStreamMessage::EndOfClip(m) => UmpStreamOwned::EndOfClip(m.into_owned()),
            UmpStreamMessage::EndpointName(m) => UmpStreamOwned::EndpointName(m.into_owned()),
            UmpStreamMessage::FunctionBlockName(m) => UmpStreamOwned::FunctionBlockName(
                m.into_owned()
            ),
            UmpStreamMessage::StartOfClip(m) => UmpStreamOwned::StartOfClip(m.into_owned()),
            UmpStreamMessage::StreamConfigurationRequest(
                m
            ) => UmpStreamOwned::StreamConfigurationRequest(
                m.into_owned()
            ),
        }
    }
}

impl<'a> UmpStreamBorrowed<'a> {
    /// The words of the underlying buffer.
    pub open spec fn units(&self) -> Seq<u32> {
        match self {
            UmpStreamBorrowed::EndOfClip(m) => m.0.units(),
            UmpStreamBorrowed::EndpointName(m) => m.units(),
            UmpStreamBorrowed::FunctionBlockName(m) => m.units(),
            UmpStreamBorrowed::StartOfClip(m) => m.0.units(),
            UmpStreamBorrowed::StreamConfigurationRequest(m) => m.0.units(),
        }
    }

    /// The message inside is a valid message of its kind.
    pub open spec fn wf(&self) -> bool {
        match self {
            UmpStreamBorrowed::EndOfClip(m) => m.wf(),
            UmpStreamBorrowed::EndpointName(m) => m.wf(),
            UmpStreamBorrowed::FunctionBlockName(m) => m.wf(),
            UmpStreamBorrowed::StartOfClip(m) => m.wf(),
            UmpStreamBorrowed::StreamConfigurationRequest(m) => m.wf(),
        }
    }

    /// The discriminant of the member inside.
    pub open spec fn code(&self) -> u32 {
        match self {
            UmpStreamBorrowed::EndOfClip(_) => crate::ump_stream::end_of_clip::STATUS as u32,
            UmpStreamBorrowed::EndpointName(_) => endpoint_name::STATUS as u32,
            UmpStreamBorrowed::FunctionBlockName(_) => function_block_name::STATUS as u32,
            UmpStreamBorrowed::StartOfClip(_) => crate::ump_stream::start_of_clip::STATUS as u32,
            UmpStreamBorrowed::StreamConfigurationRequest(
                _
            ) => crate::ump_stream::stream_configuration_request::STATUS as u32,
        }
    }

    /// The words the message occupies.
    pub open spec fn spec_data(&self) -> Seq<u32> {
        match self {
            UmpStreamBorrowed::EndOfClip(m) => m.0.units().subrange(0, 1),
            UmpStreamBorrowed::EndpointName(m) => m.spec_data(),
            UmpStreamBorrowed::FunctionBlockName(m) => m.spec_data(),
            UmpStreamBorrowed::StartOfClip(m) => m.0.units().subrange(0, 1),
            UmpStreamBorrowed::StreamConfigurationRequest(m) => m.0.units().subrange(0, 1),
        }
    }

    /// The words of the owned copy of the message.
    pub open spec fn spec_owned(&self) -> Seq<u32> {
        match self {
            UmpStreamBorrowed::EndOfClip(m) => rebuffered::<[u32; 4]>(m.0.units().subrange(0, 1)),
            UmpStreamBorrowed::EndpointName(m) => m.spec_owned(),
            UmpStreamBorrowed::FunctionBlockName(m) => m.spec_owned(),
            UmpStreamBorrowed::StartOfClip(m) => rebuffered::<[u32; 4]>(m.0.units().subrange(0, 1)),
            UmpStreamBorrowed::StreamConfigurationRequest(m) => rebuffered::<[u32; 4]>(
                m.0.units().subrange(0, 1)
            ),
        }
    }

    /// The message a validated slice is taken as: the member its
    /// discriminant names, over that slice.
    pub open spec fn spec_from_data(buffer: &'a [u32]) -> Self {
        if spec_status(buffer@) == crate::ump_stream::end_of_clip::STATUS {
            UmpStreamBorrowed::EndOfClip(EndOfClip(buffer))
        } else if spec_status(buffer@) == endpoint_name::STATUS {
            UmpStreamBorrowed::EndpointName(EndpointNameBorrowed::spec_from_data(buffer))
        } else if spec_status(buffer@) == function_block_name::STATUS {
            UmpStreamBorrowed::FunctionBlockName(FunctionBlockNameBorrowed::spec_from_data(buffer))
        } else if spec_status(buffer@) == crate::ump_stream::start_of_clip::STATUS {
            UmpStreamBorrowed::StartOfClip(StartOfClip(buffer))
        } else {
            UmpStreamBorrowed::StreamConfigurationRequest(StreamConfigurationRequest(buffer))
        }
    }

    /// Validates that a slice holds a message of the union.
    pub fn validate_data(buffer: &'a [u32]) -> (r: Result<(), Error>)
        ensures
            r == spec_validate(buffer@),
    {
        validate_data(buffer)
    }

    /// Takes a validated slice as the member its discriminant names.
    pub fn from_data_unchecked(buffer: &'a [u32]) -> (message: Self)
        requires
            spec_validate(buffer@) is Ok,
        ensures
            message == Self::spec_from_data(buffer),
            message.wf(),
            message.units() == buffer@,
            message.code() == spec_status(buffer@),
    {
        let found = status(buffer);
        if found == crate::ump_stream::end_of_clip::STATUS {
            UmpStreamBorrowed::EndOfClip(EndOfClip(buffer))
        } else if found == endpoint_name::STATUS {
            UmpStreamBorrowed::EndpointName(EndpointNameBorrowed::from_data_unchecked(buffer))
        } else if found == function_block_name::STATUS {
            UmpStreamBorrowed::FunctionBlockName(
                FunctionBlockNameBorrowed::from_data_unchecked(buffer)
            )
        } else if found == crate::ump_stream::start_of_clip::STATUS {
            UmpStreamBorrowed::StartOfClip(StartOfClip(buffer))
        } else {
            UmpStreamBorrowed::StreamConfigurationRequest(StreamConfigurationRequest(buffer))
        }
    }

    /// Parses a slice: the member its discriminant names if the slice
    /// validates as that member, else the first failure.
    pub fn from_data(buffer: &'a [u32]) -> (r: Result<Self, Error>)
        ensures
            match spec_validate(buffer@) {
                Ok(()) => r == Ok::<Self, Error>(Self::spec_from_data(buffer)),
                Err(e) => r == Err::<Self, Error>(e),
            },
    {
        match validate_data(buffer) {
            Ok(()) => Ok(Self::from_data_unchecked(buffer)),
            Err(e) => Err(e),
        }
    }

    /// The words the message occupies.
    pub fn data(&self) -> (data: &[u32])
        requires
            self.wf(),
        ensures
            data@ == self.spec_data(),
    {
        match self {
            UmpStreamBorrowed::EndOfClip(m) => m.data(),
            UmpStreamBorrowed::EndpointName(m) => m.data(),
            UmpStreamBorrowed::FunctionBlockName(m) => m.data(),
            UmpStreamBorrowed::StartOfClip(m) => m.data(),
            UmpStreamBorrowed::StreamConfigurationRequest(m) => m.data(),
        }
    }

    /// The message with its words owned; the member is kept.
    pub fn into_owned(self) -> (owned: UmpStreamOwned)
        requires
            self.wf(),
        ensures
            owned.wf(),
            owned.code() == self.code(),
            owned.units() == self.spec_owned(),
    {
        match self {
            UmpStreamBorrowed::EndOfClip(m) => UmpStreamOwned::EndOfClip(
                m.rebuffer_into::<[u32; 4]>()
            ),
            UmpStreamBorrowed::EndpointName(m) => UmpStreamOwned::EndpointName(m.into_owned()),
            UmpStreamBorrowed::FunctionBlockName(m) => UmpStreamOwned::FunctionBlockName(
                m.into_owned()
            ),
            UmpStreamBorrowed::StartOfClip(m) => UmpStreamOwned::StartOfClip(
                m.rebuffer_into::<[u32; 4]>()
            ),
            UmpStreamBorrowed::StreamConfigurationRequest(
                m
            ) => UmpStreamOwned::StreamConfigurationRequest(
                m.rebuffer_into::<[u32; 4]>()
            ),
        }
    }
}

impl UmpStreamOwned {
    /// The words of the underlying buffer.
    pub open spec fn units(&self) -> Seq<u32> {
        match self {
            UmpStreamOwned::EndOfClip(m) => m.0.units(),
            UmpStreamOwned::EndpointName(m) => m.units(),
            UmpStreamOwned::FunctionBlockName(m) => m.units(),
            UmpStreamOwned::StartOfClip(m) => m.0.units(),
            UmpStreamOwned::StreamConfigurationRequest(m) => m.0.units(),
        }
    }

    /// The message inside is a valid message of its kind.
    pub open spec fn wf(&self) -> bool {
        match self {
            UmpStreamOwned::EndOfClip(m) => m.wf(),
            UmpStreamOwned::EndpointName(m) => m.wf(),
            UmpStreamOwned::FunctionBlockName(m) => m.wf(),
            UmpStreamOwned::StartOfClip(m) => m.wf(),
            UmpStreamOwned::StreamConfigurationRequest(m) => m.wf(),
        }
    }

    /// The discriminant of the member inside.
    pub open spec fn code(&self) -> u32 {
        match self {
            UmpStreamOwned::EndOfClip(_) => crate::ump_stream::end_of_clip::STATUS as u32,
            UmpStreamOwned::EndpointName(_) => endpoint_name::STATUS as u32,
            UmpStreamOwned::FunctionBlockName(_) => function_block_name::STATUS as u32,
            UmpStreamOwned::StartOfClip(_) => crate::ump_stream::start_of_clip::STATUS as u32,
            UmpStreamOwned::StreamConfigurationRequest(
                _
            ) => crate::ump_stream::stream_configuration_request::STATUS as u32,
        }
    }

    /// The words the message occupies.
    pub open spec fn spec_data(&self) -> Seq<u32> {
        match self {
            UmpStreamOwned::EndOfClip(m) => m.0.units().subrange(0, 1),
            UmpStreamOwned::EndpointName(m) => m.spec_data(),
            UmpStreamOwned::FunctionBlockName(m) => m.spec_data(),
            UmpStreamOwned::StartOfClip(m) => m.0.units().subrange(0, 1),
            UmpStreamOwned::StreamConfigurationRequest(m) => m.0.units().subrange(0, 1),
        }
    }

    /// The words the message occupies.
    pub fn data(&self) -> (data: &[u32])
        requires
            self.wf(),
        ensures
            data@ == self.spec_data(),
    {
        match self {
            UmpStreamOwned::EndOfClip(m) => m.data(),
            UmpStreamOwned::EndpointName(m) => m.data(),
            UmpStreamOwned::FunctionBlockName(m) => m.data(),
            UmpStreamOwned::StartOfClip(m) => m.data(),
            UmpStreamOwned::StreamConfigurationRequest(m) => m.data(),
        }
    }
}

/// Routing is by discriminant alone: a sequence that validates holds a
/// discriminant that names a member, and a sequence whose discriminant
/// names none never validates.
pub proof fn lemma_routing(units: Seq<u32>)
    ensures
        spec_validate(units) is Ok ==> units.len() >= 1 && is_defined(spec_status(units)),
        units.len() >= 1 && !is_defined(spec_status(units)) ==> spec_validate(units) == Err::<
            (),
            Error,
        >(Error::InvalidData(ERR_UNKNOWN_UMP_STREAM_STATUS)),
        units.len() >= 1
            && spec_status(units) == crate::ump_stream::end_of_clip::STATUS ==> spec_validate(units)
            == crate::ump_stream::end_of_clip::spec_validate::<u32>(units),
        units.len() >= 1 && spec_status(units) == endpoint_name::STATUS ==> spec_validate(units)
            == endpoint_name::spec_validate(units),
        units.len() >= 1
            && spec_status(units) == function_block_name::STATUS ==> spec_validate(units)
            == function_block_name::spec_validate(units),
        units.len() >= 1
            && spec_status(
                units
            ) == crate::ump_stream::start_of_clip::STATUS ==> spec_validate(units)
            == crate::ump_stream::start_of_clip::spec_validate::<u32>(units),
        units.len() >= 1
            && spec_status(
                units
            ) == crate::ump_stream::stream_configuration_request::STATUS ==> spec_validate(units)
            == crate::ump_stream::stream_configuration_request::spec_validate::<u32>(units),
{
}

impl<'a> UmpStreamMessage<'a> {
    /// The message that a borrowed one becomes: the same member, still borrowed.
    pub open spec fn spec_from_borrowed(value: UmpStreamBorrowed<'a>) -> Self {
        match value {
            UmpStreamBorrowed::EndOfClip(m) => UmpStreamMessage::EndOfClip(
                EndOfClip(MessageData::Borrowed(m.0))
            ),
            UmpStreamBorrowed::EndpointName(m) => UmpStreamMessage::EndpointName(
                EndpointNameMessage::Borrowed(m)
            ),
            UmpStreamBorrowed::FunctionBlockName(m) => UmpStreamMessage::FunctionBlockName(
                FunctionBlockNameMessage::Borrowed(m)
            ),
            UmpStreamBorrowed::StartOfClip(m) => UmpStreamMessage::StartOfClip(
                StartOfClip(MessageData::Borrowed(m.0))
            ),
            UmpStreamBorrowed::StreamConfigurationRequest(
                m
            ) => UmpStreamMessage::StreamConfigurationRequest(
                StreamConfigurationRequest(MessageData::Borrowed(m.0))
            ),
        }
    }

    /// The message that an owned one becomes: the same member, still owned.
    pub open spec fn spec_from_owned(value: UmpStreamOwned) -> Self {
        match value {
            UmpStreamOwned::EndOfClip(m) => UmpStreamMessage::EndOfClip(
                EndOfClip(MessageData::Owned(m.0))
            ),
            UmpStreamOwned::EndpointName(m) => UmpStreamMessage::EndpointName(
                EndpointNameMessage::Owned(m)
            ),
            UmpStreamOwned::FunctionBlockName(m) => UmpStreamMessage::FunctionBlockName(
                FunctionBlockNameMessage::Owned(m)
            ),
            UmpStreamOwned::StartOfClip(m) => UmpStreamMessage::StartOfClip(
                StartOfClip(MessageData::Owned(m.0))
            ),
            UmpStreamOwned::StreamConfigurationRequest(
                m
            ) => UmpStreamMessage::StreamConfigurationRequest(
                StreamConfigurationRequest(MessageData::Owned(m.0))
            ),
        }
    }
}

/// An owned message taken as a message and made owned again is the
/// message it was: the same member, the same words, as valid as before.
pub proof fn lemma_owned_round_trip(owned: UmpStreamOwned)
    ensures
        UmpStreamMessage::spec_from_owned(owned).spec_owned() == owned.units(),
        UmpStreamMessage::spec_from_owned(owned).units() == owned.units(),
        UmpStreamMessage::spec_from_owned(owned).code() == owned.code(),
        UmpStreamMessage::spec_from_owned(owned).wf() == owned.wf(),
{
}

impl<'a> From<UmpStreamBorrowed<'a>> for UmpStreamMessage<'a> {
    fn from(value: UmpStreamBorrowed<'a>) -> (r: Self) {
        match value {
            UmpStreamBorrowed::EndOfClip(m) => UmpStreamMessage::EndOfClip(
                EndOfClip(MessageData::Borrowed(m.0))
            ),
            UmpStreamBorrowed::EndpointName(m) => UmpStreamMessage::EndpointName(
                EndpointNameMessage::from(m)
            ),
            UmpStreamBorrowed::FunctionBlockName(m) => UmpStreamMessage::FunctionBlockName(
                FunctionBlockNameMessage::from(m)
            ),
            UmpStreamBorrowed::StartOfClip(m) => UmpStreamMessage::StartOfClip(
                StartOfClip(MessageData::Borrowed(m.0))
            ),
            UmpStreamBorrowed::StreamConfigurationRequest(
                m
            ) => UmpStreamMessage::StreamConfigurationRequest(
                StreamConfigurationRequest(MessageData::Borrowed(m.0))
            ),
        }
    }
}

impl<'a> FromSpecImpl<UmpStreamBorrowed<'a>> for UmpStreamMessage<'a> {
    open spec fn obeys_from_spec() -> bool {
        true
    }

    open spec fn from_spec(value: UmpStreamBorrowed<'a>) -> Self {
        UmpStreamMessage::spec_from_borrowed(value)
    }
}

impl<'a> From<UmpStreamOwned> for UmpStreamMessage<'a> {
    fn from(value: UmpStreamOwned) -> (r: Self) {
        match value {
            UmpStreamOwned::EndOfClip(m) => UmpStreamMessage::EndOfClip(
                EndOfClip(MessageData::Owned(m.0))
            ),
            UmpStreamOwned::EndpointName(m) => UmpStreamMessage::EndpointName(
                EndpointNameMessage::from(m)
            ),
            UmpStreamOwned::FunctionBlockName(m) => UmpStreamMessage::FunctionBlockName(
                FunctionBlockNameMessage::from(m)
            ),
            UmpStreamOwned::StartOfClip(m) => UmpStreamMessage::StartOfClip(
                StartOfClip(MessageData::Owned(m.0))
            ),
            UmpStreamOwned::StreamConfigurationRequest(
                m
            ) => UmpStreamMessage::StreamConfigurationRequest(
                StreamConfigurationRequest(MessageData::Owned(m.0))
            ),
        }
    }
}

impl<'a> FromSpecImpl<UmpStreamOwned> for UmpStreamMessage<'a> {
    open spec fn obeys_from_spec() -> bool {
        true
    }

    open spec fn from_spec(value: UmpStreamOwned) -> Self {
        UmpStreamMessage::spec_from_owned(value)
    }
}

impl From<EndOfClip<[u32; 4]>> for UmpStreamOwned {
    fn from(value: EndOfClip<[u32; 4]>) -> (r: Self) {
        UmpStreamOwned::EndOfClip(value)
    }
}

impl FromSpecImpl<EndOfClip<[u32; 4]>> for UmpStreamOwned {
    open spec fn obeys_from_spec() -> bool {
        true
    }

    open spec fn from_spec(value: EndOfClip<[u32; 4]>) -> Self {
        UmpStreamOwned::EndOfClip(value)
    }
}

impl<'a> From<EndOfClip<[u32; 4]>> for UmpStreamMessage<'a> {
    fn from(value: EndOfClip<[u32; 4]>) -> (r: Self) {
        UmpStreamMessage::EndOfClip(EndOfClip(MessageData::Owned(value.0)))
    }
}

impl<'a> FromSpecImpl<EndOfClip<[u32; 4]>> for UmpStreamMessage<'a> {
    open spec fn obeys_from_spec() -> bool {
        true
    }

    open spec fn from_spec(value: EndOfClip<[u32; 4]>) -> Self {
        UmpStreamMessage::EndOfClip(EndOfClip(MessageData::Owned(value.0)))
    }
}

impl From<EndpointNameOwned> for UmpStreamOwned {
    fn from(value: EndpointNameOwned) -> (r: Self) {
        UmpStreamOwned::EndpointName(value)
    }
}

impl FromSpecImpl<EndpointNameOwned> for UmpStreamOwned {
    open spec fn obeys_from_spec() -> bool {
        true
    }

    open spec fn from_spec(value: EndpointNameOwned) -> Self {
        UmpStreamOwned::EndpointName(value)
    }
}

impl<'a> From<EndpointNameOwned> for UmpStreamMessage<'a> {
    fn from(value: EndpointNameOwned) -> (r: Self) {
        UmpStreamMessage::EndpointName(EndpointNameMessage::from(value))
    }
}

impl<'a> FromSpecImpl<EndpointNameOwned> for UmpStreamMessage<'a> {
    open spec fn obeys_from_spec() -> bool {
        true
    }

    open spec fn from_spec(value: EndpointNameOwned) -> Self {
        UmpStreamMessage::EndpointName(EndpointNameMessage::Owned(value))
    }
}

impl From<FunctionBlockNameOwned> for UmpStreamOwned {
    fn from(value: FunctionBlockNameOwned) -> (r: Self) {
        UmpStreamOwned::FunctionBlockName(value)
    }
}

impl FromSpecImpl<FunctionBlockNameOwned> for UmpStreamOwned {
    open spec fn obeys_from_spec() -> bool {
        true
    }

    open spec fn from_spec(value: FunctionBlockNameOwned) -> Self {
        UmpStreamOwned::FunctionBlockName(value)
    }
}

impl<'a> From<FunctionBlockNameOwned> for UmpStreamMessage<'a> {
    fn from(value: FunctionBlockNameOwned) -> (r: Self) {
        UmpStreamMessage::FunctionBlockName(FunctionBlockNameMessage::from(value))
    }
}

impl<'a> FromSpecImpl<FunctionBlockNameOwned> for UmpStreamMessage<'a> {
    open spec fn obeys_from_spec() -> bool {
        true
    }

    open spec fn from_spec(value: FunctionBlockNameOwned) -> Self {
        UmpStreamMessage::FunctionBlockName(FunctionBlockNameMessage::Owned(value))
    }
}

impl From<StartOfClip<[u32; 4]>> for UmpStreamOwned {
    fn from(value: StartOfClip<[u32; 4]>) -> (r: Self) {
        UmpStreamOwned::StartOfClip(value)
    }
}

impl FromSpecImpl<StartOfClip<[u32; 4]>> for UmpStreamOwned {
    open spec fn obeys_from_spec() -> bool {
        true
    }

    open spec fn from_spec(value: StartOfClip<[u32; 4]>) -> Self {
        UmpStreamOwned::StartOfClip(value)
    }
}

impl<'a> From<StartOfClip<[u32; 4]>> for UmpStreamMessage<'a> {
    fn from(value: StartOfClip<[u32; 4]>) -> (r: Self) {
        UmpStreamMessage::StartOfClip(StartOfClip(MessageData::Owned(value.0)))
    }
}

impl<'a> FromSpecImpl<StartOfClip<[u32; 4]>> for UmpStreamMessage<'a> {
    open spec fn obeys_from_spec() -> bool {
        true
    }

    open spec fn from_spec(value: StartOfClip<[u32; 4]>) -> Self {
        UmpStreamMessage::StartOfClip(StartOfClip(MessageData::Owned(value.0)))
    }
}

impl From<StreamConfigurationRequest<[u32; 4]>> for UmpStreamOwned {
    fn from(value: StreamConfigurationRequest<[u32; 4]>) -> (r: Self) {
        UmpStreamOwned::StreamConfigurationRequest(value)
    }
}

impl FromSpecImpl<StreamConfigurationRequest<[u32; 4]>> for UmpStreamOwned {
    open spec fn obeys_from_spec() -> bool {
        true
    }

    open spec fn from_spec(value: StreamConfigurationRequest<[u32; 4]>) -> Self {
        UmpStreamOwned::StreamConfigurationRequest(value)
    }
}

impl<'a> From<StreamConfigurationRequest<[u32; 4]>> for UmpStreamMessage<'a> {
    fn from(value: StreamConfigurationRequest<[u32; 4]>) -> (r: Self) {
        UmpStreamMessage::StreamConfigurationRequest(
            StreamConfigurationRequest(MessageData::Owned(value.0))
        )
    }
}

impl<'a> FromSpecImpl<StreamConfigurationRequest<[u32; 4]>> for UmpStreamMessage<'a> {
    open spec fn obeys_from_spec() -> bool {
        true
    }

    open spec fn from_spec(value: StreamConfigurationRequest<[u32; 4]>) -> Self {
        UmpStreamMessage::StreamConfigurationRequest(
            StreamConfigurationRequest(MessageData::Owned(value.0))
        )
    }
}

} // verus!
