//! Messages in their ownership-qualified forms: borrowed views, owned packets,
//! builders, and the unions that route a packet to its family and kind.

use vstd::prelude::*;
use vstd::std_specs::convert::{FromSpec, FromSpecImpl};
use crate::common_properties::{ump_type, ump_type_schema};
use crate::error::{
    ERR_NO_BYTE_FORM, ERR_OWNED_NEEDS_ALLOCATION, ERR_SLICE_TOO_SHORT, ERR_UNKNOWN_BYTE_STATUS,
    ERR_UNKNOWN_MESSAGE_TYPE, Error,
};
use crate::schema::{read_field, spec_read};
use flex_data::{FlexDataBorrowed, FlexDataBuilder, FlexDataMessage, FlexDataOwned};
use midi1_channel_voice::{
    Midi1ChannelVoiceBorrowed, Midi1ChannelVoiceBuilder, Midi1ChannelVoiceMessage,
    Midi1ChannelVoiceOwned,
};
use midi2_channel_voice::{
    Midi2ChannelVoiceBorrowed, Midi2ChannelVoiceBuilder, Midi2ChannelVoiceMessage,
    Midi2ChannelVoiceOwned,
};
use system_common::{
    SystemCommonBorrowed, SystemCommonBuilder, SystemCommonMessage, SystemCommonOwned,
};
use system_exclusive_7bit::{Sysex7Borrowed, Sysex7Builder, Sysex7Message, Sysex7Owned};
use system_exclusive_8bit::{Sysex8Borrowed, Sysex8Builder, Sysex8Message, Sysex8Owned};
use ump_stream::{UmpStreamBorrowed, UmpStreamBuilder, UmpStreamMessage, UmpStreamOwned};
use utility::{UtilityBorrowed, UtilityBuilder, UtilityMessage, UtilityOwned};

pub mod conversions;
pub mod flex_data;
pub mod midi1_channel_voice;
pub mod midi2_channel_voice;
pub mod system_common;
pub mod system_exclusive_7bit;
pub mod system_exclusive_8bit;
pub mod ump_stream;
pub mod utility;

verus! {

/// Any message, borrowed or owned.
#[derive(Clone, Debug, PartialEq, Eq)]
#[non_exhaustive]
pub enum Message<'a> {
    FlexData(FlexDataMessage<'a>),
    Midi1ChannelVoice(Midi1ChannelVoiceMessage<'a>),
    Midi2ChannelVoice(Midi2ChannelVoiceMessage<'a>),
    Sysex7(Sysex7Message<'a>),
    Sysex8(Sysex8Message<'a>),
    SystemCommon(SystemCommonMessage<'a>),
    UmpStream(UmpStreamMessage<'a>),
    Utility(UtilityMessage<'a>),
}

/// Any message over borrowed words.
#[derive(Clone, Debug, PartialEq, Eq)]
#[non_exhaustive]
pub enum MessageBorrowed<'a> {
    FlexData(FlexDataBorrowed<'a>),
    Midi1ChannelVoice(Midi1ChannelVoiceBorrowed<'a>),
    Midi2ChannelVoice(Midi2ChannelVoiceBorrowed<'a>),
    Sysex7(Sysex7Borrowed<'a>),
    Sysex8(Sysex8Borrowed<'a>),
    SystemCommon(SystemCommonBorrowed<'a>),
    UmpStream(UmpStreamBorrowed<'a>),
    Utility(UtilityBorrowed<'a>),
}

/// Any message that owns its words.
#[derive(Clone, Debug, PartialEq, Eq)]
#[non_exhaustive]
pub enum MessageOwned {
    FlexData(FlexDataOwned),
    Midi1ChannelVoice(Midi1ChannelVoiceOwned),
    Midi2ChannelVoice(Midi2ChannelVoiceOwned),
    Sysex7(Sysex7Owned),
    Sysex8(Sysex8Owned),
    SystemCommon(SystemCommonOwned),
    UmpStream(UmpStreamOwned),
    Utility(UtilityOwned),
}

/// The starting point for building any message; `M` is the type the
/// finished message is handed out as.
pub struct MessageBuilder<M>(pub core::marker::PhantomData<M>);

impl<M> MessageBuilder<M> {
    /// The builder holds nothing: it only fixes the type of the result.
    pub fn new() -> (builder: Self)
        ensures
            builder == MessageBuilder::<M>(core::marker::PhantomData),
    {
        MessageBuilder(core::marker::PhantomData)
    }

    pub fn flex_data(self) -> (builder: FlexDataBuilder<M>)
        where
            M: From<flex_data::composer_name::ComposerNameOwned>
                + From<flex_data::set_key_signature::SetKeySignatureOwned>,
        ensures
            builder == FlexDataBuilder::<M>(core::marker::PhantomData),
    {
        FlexDataBuilder::new()
    }

    pub fn midi1_channel_voice(self) -> (builder: Midi1ChannelVoiceBuilder<M>)
        where
            M: From<midi1_channel_voice::channel_pressure::ChannelPressureOwned>
                + From<midi1_channel_voice::control_change::ControlChangeOwned>
                + From<midi1_channel_voice::key_pressure::KeyPressureOwned>
                + From<midi1_channel_voice::note_off::NoteOffOwned>
                + From<midi1_channel_voice::note_on::NoteOnOwned>
                + From<midi1_channel_voice::pitch_bend::PitchBendOwned>,
        ensures
            builder == Midi1ChannelVoiceBuilder::<M>(core::marker::PhantomData),
    {
        Midi1ChannelVoiceBuilder::new()
    }

    pub fn midi2_channel_voice(self) -> (builder: Midi2ChannelVoiceBuilder<M>)
        where
            M: From<midi2_channel_voice::channel_pitch_bend::ChannelPitchBendOwned>
                + From<midi2_channel_voice::channel_pressure::ChannelPressureOwned>
                + From<midi2_channel_voice::control_change::ControlChangeOwned>
                + From<midi2_channel_voice::note_off::NoteOffOwned>
                + From<midi2_channel_voice::note_on::NoteOnOwned>,
        ensures
            builder == Midi2ChannelVoiceBuilder::<M>(core::marker::PhantomData),
    {
        Midi2ChannelVoiceBuilder::new()
    }

    pub fn sysex7(self) -> (builder: Sysex7Builder<M>)
        where
            M: From<Sysex7Owned>,
        ensures
            builder.wf()
                && builder.header == system_exclusive_7bit::default_header()
                && builder.payload@ == Seq::<u8>::empty(),
    {
        Sysex7Builder::new()
    }

    pub fn sysex8(self) -> (builder: Sysex8Builder<M>)
        where
            M: From<Sysex8Owned>,
        ensures
            builder.wf()
                && builder.header == system_exclusive_8bit::default_header()
                && builder.payload@ == Seq::<u8>::empty(),
    {
        Sysex8Builder::new()
    }

    pub fn system_common(self) -> (builder: SystemCommonBuilder<M>)
        where
            M: From<system_common::active_sensing::ActiveSensingOwned>
                + From<system_common::cont::ContinueOwned>
                + From<system_common::reset::ResetOwned>
                + From<system_common::song_position_pointer::SongPositionPointerOwned>
                + From<system_common::song_select::SongSelectOwned>
                + From<system_common::start::StartOwned>
                + From<system_common::stop::StopOwned>
                + From<system_common::time_code::TimeCodeOwned>
                + From<system_common::timing_clock::TimingClockOwned>
                + From<system_common::tune_request::TuneRequestOwned>,
        ensures
            builder == SystemCommonBuilder::<M>(core::marker::PhantomData),
    {
        SystemCommonBuilder::new()
    }

    pub fn ump_stream(self) -> (builder: UmpStreamBuilder<M>)
        where
            M: From<ump_stream::end_of_clip::EndOfClipOwned>
                + From<ump_stream::endpoint_name::EndpointNameOwned>
                + From<ump_stream::function_block_name::FunctionBlockNameOwned>
                + From<ump_stream::start_of_clip::StartOfClipOwned>
                + From<ump_stream::stream_configuration_request::StreamConfigurationRequestOwned>,
        ensures
            builder == UmpStreamBuilder::<M>(core::marker::PhantomData),
    {
        UmpStreamBuilder::new()
    }

    pub fn utility(self) -> (builder: UtilityBuilder<M>)
        where
            M: From<utility::no_op::NoOpOwned>
                + From<utility::time_stamp::TimeStampOwned>,
        ensures
            builder == UtilityBuilder::<M>(core::marker::PhantomData),
    {
        UtilityBuilder::new()
    }
}

impl<M> Default for MessageBuilder<M> {
    fn default() -> (builder: Self)
        ensures
            builder == MessageBuilder::<M>(core::marker::PhantomData),
    {
        MessageBuilder(core::marker::PhantomData)
    }
}

impl MessageOwned {
    /// The starting point for building a message of this type.
    pub fn builder() -> (builder: MessageBuilder<Self>)
        ensures
            builder == MessageBuilder::<Self>(core::marker::PhantomData),
    {
        MessageBuilder::new()
    }
}

impl<'a> Message<'a> {
    /// The starting point for building a message of this type.
    pub fn builder() -> (builder: MessageBuilder<Self>)
        ensures
            builder == MessageBuilder::<Self>(core::marker::PhantomData),
    {
        MessageBuilder::new()
    }
}

/// The message-type nibble, which tells the families apart.
pub open spec fn spec_status(units: Seq<u32>) -> u32 {
    spec_read(units, ump_type())
}

/// Reads the discriminant, and nothing else, from the first word.
pub fn status(units: &[u32]) -> (value: u8)
    requires
        units@.len() > 0,
    ensures
        value == spec_status(units@),
{
    let raw = read_field(units, &ump_type_schema());
    proof {
        crate::bit_ops::lemma_low_mask_bound(0);
    }
    raw as u8
}

/// Whether a discriminant value names a member of the union.
pub open spec fn is_defined(status: u32) -> bool {
    status == crate::flex_data::UMP_MESSAGE_TYPE
    || status == crate::channel_voice1::UMP_MESSAGE_TYPE
    || status == crate::channel_voice2::UMP_MESSAGE_TYPE
    || status == system_exclusive_7bit::UMP_MESSAGE_TYPE
    || status == system_exclusive_8bit::UMP_MESSAGE_TYPE
    || status == crate::system_common::UMP_MESSAGE_TYPE
    || status == crate::ump_stream::UMP_MESSAGE_TYPE
    || status == crate::utility::UMP_MESSAGE_TYPE
}

/// The verdict on a word sequence: that of the member its discriminant
/// names. A discriminant that names none is `InvalidData`, as is an
/// empty sequence.
pub open spec fn spec_validate(units: Seq<u32>) -> Result<(), Error> {
    if units.len() < 1 {
        Err(Error::InvalidData(ERR_SLICE_TOO_SHORT))
    } else if spec_status(units) == crate::flex_data::UMP_MESSAGE_TYPE {
        flex_data::spec_validate(units)
    } else if spec_status(units) == crate::channel_voice1::UMP_MESSAGE_TYPE {
        midi1_channel_voice::spec_validate(units)
    } else if spec_status(units) == crate::channel_voice2::UMP_MESSAGE_TYPE {
        midi2_channel_voice::spec_validate(units)
    } else if spec_status(units) == system_exclusive_7bit::UMP_MESSAGE_TYPE {
        system_exclusive_7bit::spec_validate(units)
    } else if spec_status(units) == system_exclusive_8bit::UMP_MESSAGE_TYPE {
        system_exclusive_8bit::spec_validate(units)
    } else if spec_status(units) == crate::system_common::UMP_MESSAGE_TYPE {
        system_common::spec_validate(units)
    } else if spec_status(units) == crate::ump_stream::UMP_MESSAGE_TYPE {
        ump_stream::spec_validate(units)
    } else if spec_status(units) == crate::utility::UMP_MESSAGE_TYPE {
        utility::spec_validate(units)
    } else {
        Err(Error::InvalidData(ERR_UNKNOWN_MESSAGE_TYPE))
    }
}

/// Reads the discriminant and runs the validation of the member it names.
pub fn validate_data(buffer: &[u32]) -> (r: Result<(), Error>)
    ensures
        r == spec_validate(buffer@),
{
    if buffer.len() < 1 {
        return Err(Error::InvalidData(ERR_SLICE_TOO_SHORT));
    }
    let found = status(buffer);
    if found == crate::flex_data::UMP_MESSAGE_TYPE {
        flex_data::validate_data(buffer)
    } else if found == crate::channel_voice1::UMP_MESSAGE_TYPE {
        midi1_channel_voice::validate_data(buffer)
    } else if found == crate::channel_voice2::UMP_MESSAGE_TYPE {
        midi2_channel_voice::validate_data(buffer)
    } else if found == system_exclusive_7bit::UMP_MESSAGE_TYPE {
        system_exclusive_7bit::validate_data(buffer)
    } else if found == system_exclusive_8bit::UMP_MESSAGE_TYPE {
        system_exclusive_8bit::validate_data(buffer)
    } else if found == crate::system_common::UMP_MESSAGE_TYPE {
        system_common::validate_data(buffer)
    } else if found == crate::ump_stream::UMP_MESSAGE_TYPE {
        ump_stream::validate_data(buffer)
    } else if found == crate::utility::UMP_MESSAGE_TYPE {
        utility::validate_data(buffer)
    } else {
        Err(Error::InvalidData(ERR_UNKNOWN_MESSAGE_TYPE))
    }
}

impl<'a> Message<'a> {
    /// The words of the underlying buffer.
    pub open spec fn units(&self) -> Seq<u32> {
        match self {
            Message::FlexData(m) => m.units(),
            Message::Midi1ChannelVoice(m) => m.units(),
            Message::Midi2ChannelVoice(m) => m.units(),
            Message::Sysex7(m) => m.units(),
            Message::Sysex8(m) => m.units(),
            Message::SystemCommon(m) => m.units(),
            Message::UmpStream(m) => m.units(),
            Message::Utility(m) => m.units(),
        }
    }

    /// The message inside is a valid message of its kind.
    pub open spec fn wf(&self) -> bool {
        match self {
            Message::FlexData(m) => m.wf(),
            Message::Midi1ChannelVoice(m) => m.wf(),
            Message::Midi2ChannelVoice(m) => m.wf(),
            Message::Sysex7(m) => m.wf(),
            Message::Sysex8(m) => m.wf(),
            Message::SystemCommon(m) => m.wf(),
            Message::UmpStream(m) => m.wf(),
            Message::Utility(m) => m.wf(),
        }
    }

    /// The discriminant of the member inside.
    pub open spec fn code(&self) -> u32 {
        match self {
            Message::FlexData(_) => crate::flex_data::UMP_MESSAGE_TYPE as u32,
            Message::Midi1ChannelVoice(_) => crate::channel_voice1::UMP_MESSAGE_TYPE as u32,
            Message::Midi2ChannelVoice(_) => crate::channel_voice2::UMP_MESSAGE_TYPE as u32,
            Message::Sysex7(_) => system_exclusive_7bit::UMP_MESSAGE_TYPE as u32,
            Message::Sysex8(_) => system_exclusive_8bit::UMP_MESSAGE_TYPE as u32,
            Message::SystemCommon(_) => crate::system_common::UMP_MESSAGE_TYPE as u32,
            Message::UmpStream(_) => crate::ump_stream::UMP_MESSAGE_TYPE as u32,
            Message::Utility(_) => crate::utility::UMP_MESSAGE_TYPE as u32,
        }
    }

    /// The words the message occupies.
    pub open spec fn spec_data(&self) -> Seq<u32> {
        match self {
            Message::FlexData(m) => m.spec_data(),
            Message::Midi1ChannelVoice(m) => m.spec_data(),
            Message::Midi2ChannelVoice(m) => m.spec_data(),
            Message::Sysex7(m) => m.spec_data(),
            Message::Sysex8(m) => m.spec_data(),
            Message::SystemCommon(m) => m.spec_data(),
            Message::UmpStream(m) => m.spec_data(),
            Message::Utility(m) => m.spec_data(),
        }
    }

    /// The words of the owned copy of the message.
    pub open spec fn spec_owned(&self) -> Seq<u32> {
        match self {
            Message::FlexData(m) => m.spec_owned(),
            Message::Midi1ChannelVoice(m) => m.spec_owned(),
            Message::Midi2ChannelVoice(m) => m.spec_owned(),
            Message::Sysex7(m) => m.spec_owned(),
            Message::Sysex8(m) => m.spec_owned(),
            Message::SystemCommon(m) => m.spec_owned(),
            Message::UmpStream(m) => m.spec_owned(),
            Message::Utility(m) => m.spec_owned(),
        }
    }

    /// The message a validated slice is taken as: the member its
    /// discriminant names, over that slice.
    pub open spec fn spec_from_data(buffer: &'a [u32]) -> Self {
        if spec_status(buffer@) == crate::flex_data::UMP_MESSAGE_TYPE {
            Message::FlexData(
                FlexDataMessage::spec_from_borrowed(FlexDataBorrowed::spec_from_data(buffer))
            )
        } else if spec_status(buffer@) == crate::channel_voice1::UMP_MESSAGE_TYPE {
            Message::Midi1ChannelVoice(
                Midi1ChannelVoiceMessage::spec_from_borrowed(
                    Midi1ChannelVoiceBorrowed::spec_from_data(buffer)
                )
            )
        } else if spec_status(buffer@) == crate::channel_voice2::UMP_MESSAGE_TYPE {
            Message::Midi2ChannelVoice(
                Midi2ChannelVoiceMessage::spec_from_borrowed(
                    Midi2ChannelVoiceBorrowed::spec_from_data(buffer)
                )
            )
        } else if spec_status(buffer@) == system_exclusive_7bit::UMP_MESSAGE_TYPE {
            Message::Sysex7(Sysex7Message::Borrowed(Sysex7Borrowed::spec_from_data(buffer)))
        } else if spec_status(buffer@) == system_exclusive_8bit::UMP_MESSAGE_TYPE {
            Message::Sysex8(Sysex8Message::Borrowed(Sysex8Borrowed::spec_from_data(buffer)))
        } else if spec_status(buffer@) == crate::system_common::UMP_MESSAGE_TYPE {
            Message::SystemCommon(
                SystemCommonMessage::spec_from_borrowed(
                    SystemCommonBorrowed::spec_from_data(buffer)
                )
            )
        } else if spec_status(buffer@) == crate::ump_stream::UMP_MESSAGE_TYPE {
            Message::UmpStream(
                UmpStreamMessage::spec_from_borrowed(UmpStreamBorrowed::spec_from_data(buffer))
            )
        } else {
            Message::Utility(
                UtilityMessage::spec_from_borrowed(UtilityBorrowed::spec_from_data(buffer))
            )
        }
    }

    /// Validates that a slice holds a message of the union.
    pub fn validate_data(buffer: &'a [u32]) -> (r: Result<(), Error>)
        ensures
            r == spec_validate(buffer@),
    {
        validate_data(buffer)
    }

    /// Takes a validated slice as the member its discriminant names.
    pub fn from_data_unchecked(buffer: &'a [u32]) -> (message: Self)
        requires
            spec_validate(buffer@) is Ok,
        ensures
            message == Self::spec_from_data(buffer),
            message.wf(),
            message.units() == buffer@,
            message.code() == spec_status(buffer@),
    {
        Message::from(MessageBorrowed::from_data_unchecked(buffer))
    }

    /// Parses a slice: the member its discriminant names if the slice
    /// validates as that member, else the first failure.
    pub fn from_data(buffer: &'a [u32]) -> (r: Result<Self, Error>)
        ensures
            match spec_validate(buffer@) {
                Ok(()) => r == Ok::<Self, Error>(Self::spec_from_data(buffer)),
                Err(e) => r == Err::<Self, Error>(e),
            },
    {
        match validate_data(buffer) {
            Ok(()) => Ok(Self::from_data_unchecked(buffer)),
            Err(e) => Err(e),
        }
    }

    /// The words the message occupies.
    pub fn data(&self) -> (data: &[u32])
        requires
            self.wf(),
        ensures
            data@ == self.spec_data(),
    {
        match self {
            Message::FlexData(m) => m.data(),
            Message::Midi1ChannelVoice(m) => m.data(),
            Message::Midi2ChannelVoice(m) => m.data(),
            Message::Sysex7(m) => m.data(),
            Message::Sysex8(m) => m.data(),
            Message::SystemCommon(m) => m.data(),
            Message::UmpStream(m) => m.data(),
            Message::Utility(m) => m.data(),
        }
    }

    /// The message with its words owned; the member is kept.
    pub fn into_owned(self) -> (owned: MessageOwned)
        requires
            self.wf(),
        ensures
            owned.wf(),
            owned.code() == self.code(),
            owned.units() == self.spec_owned(),
    {
        match self {
            Message::FlexData(m) => MessageOwned::FlexData(m.into_owned()),
            Message::Midi1ChannelVoice(m) => MessageOwned::Midi1ChannelVoice(m.into_owned()),
            Message::Midi2ChannelVoice(m) => MessageOwned::Midi2ChannelVoice(m.into_owned()),
            Message::Sysex7(m) => MessageOwned::Sysex7(m.into_owned()),
            Message::Sysex8(m) => MessageOwned::Sysex8(m.into_owned()),
            Message::SystemCommon(m) => MessageOwned::SystemCommon(m.into_owned()),
            Message::UmpStream(m) => MessageOwned::UmpStream(m.into_owned()),
            Message::Utility(m) => MessageOwned::Utility(m.into_owned()),
        }
    }
}

impl<'a> MessageBorrowed<'a> {
    /// The words of the underlying buffer.
    pub open spec fn units(&self) -> Seq<u32> {
        match self {
            MessageBorrowed::FlexData(m) => m.units(),
            MessageBorrowed::Midi1ChannelVoice(m) => m.units(),
            MessageBorrowed::Midi2ChannelVoice(m) => m.units(),
            MessageBorrowed::Sysex7(m) => m.units(),
            MessageBorrowed::Sysex8(m) => m.units(),
            MessageBorrowed::SystemCommon(m) => m.units(),
            MessageBorrowed::UmpStream(m) => m.units(),
            MessageBorrowed::Utility(m) => m.units(),
        }
    }

    /// The message inside is a valid message of its kind.
    pub open spec fn wf(&self) -> bool {
        match self {
            MessageBorrowed::FlexData(m) => m.wf(),
            MessageBorrowed::Midi1ChannelVoice(m) => m.wf(),
            MessageBorrowed::Midi2ChannelVoice(m) => m.wf(),
            MessageBorrowed::Sysex7(m) => m.wf(),
            MessageBorrowed::Sysex8(m) => m.wf(),
            MessageBorrowed::SystemCommon(m) => m.wf(),
            MessageBorrowed::UmpStream(m) => m.wf(),
            MessageBorrowed::Utility(m) => m.wf(),
        }
    }

    /// The discriminant of the member inside.
    pub open spec fn code(&self) -> u32 {
        match self {
            MessageBorrowed::FlexData(_) => crate::flex_data::UMP_MESSAGE_TYPE as u32,
            MessageBorrowed::Midi1ChannelVoice(_) => crate::channel_voice1::UMP_MESSAGE_TYPE as u32,
            MessageBorrowed::Midi2ChannelVoice(_) => crate::channel_voice2::UMP_MESSAGE_TYPE as u32,
            MessageBorrowed::Sysex7(_) => system_exclusive_7bit::UMP_MESSAGE_TYPE as u32,
            MessageBorrowed::Sysex8(_) => system_exclusive_8bit::UMP_MESSAGE_TYPE as u32,
            MessageBorrowed::SystemCommon(_) => crate::system_common::UMP_MESSAGE_TYPE as u32,
            MessageBorrowed::UmpStream(_) => crate::ump_stream::UMP_MESSAGE_TYPE as u32,
            MessageBorrowed::Utility(_) => crate::utility::UMP_MESSAGE_TYPE as u32,
        }
    }

    /// The words the message occupies.
    pub open spec fn spec_data(&self) -> Seq<u32> {
        match self {
            MessageBorrowed::FlexData(m) => m.spec_data(),
            MessageBorrowed::Midi1ChannelVoice(m) => m.spec_data(),
            MessageBorrowed::Midi2ChannelVoice(m) => m.spec_data(),
            MessageBorrowed::Sysex7(m) => m.spec_data(),
            MessageBorrowed::Sysex8(m) => m.spec_data(),
            MessageBorrowed::SystemCommon(m) => m.spec_data(),
            MessageBorrowed::UmpStream(m) => m.spec_data(),
            MessageBorrowed::Utility(m) => m.spec_data(),
        }
    }

    /// The words of the owned copy of the message.
    pub open spec fn spec_owned(&self) -> Seq<u32> {
        match self {
            MessageBorrowed::FlexData(m) => m.spec_owned(),
            MessageBorrowed::Midi1ChannelVoice(m) => m.spec_owned(),
            MessageBorrowed::Midi2ChannelVoice(m) => m.spec_owned(),
            MessageBorrowed::Sysex7(m) => m.spec_owned(),
            MessageBorrowed::Sysex8(m) => m.spec_owned(),
            MessageBorrowed::SystemCommon(m) => m.spec_owned(),
            MessageBorrowed::UmpStream(m) => m.spec_owned(),
            MessageBorrowed::Utility(m) => m.spec_owned(),
        }
    }

    /// The message a validated slice is taken as: the member its
    /// discriminant names, over that slice.
    pub open spec fn spec_from_data(buffer: &'a [u32]) -> Self {
        if spec_status(buffer@) == crate::flex_data::UMP_MESSAGE_TYPE {
            MessageBorrowed::FlexData(FlexDataBorrowed::spec_from_data(buffer))
        } else if spec_status(buffer@) == crate::channel_voice1::UMP_MESSAGE_TYPE {
            MessageBorrowed::Midi1ChannelVoice(Midi1ChannelVoiceBorrowed::spec_from_data(buffer))
        } else if spec_status(buffer@) == crate::channel_voice2::UMP_MESSAGE_TYPE {
            MessageBorrowed::Midi2ChannelVoice(Midi2ChannelVoiceBorrowed::spec_from_data(buffer))
        } else if spec_status(buffer@) == system_exclusive_7bit::UMP_MESSAGE_TYPE {
            MessageBorrowed::Sysex7(Sysex7Borrowed::spec_from_data(buffer))
        } else if spec_status(buffer@) == system_exclusive_8bit::UMP_MESSAGE_TYPE {
            MessageBorrowed::Sysex8(Sysex8Borrowed::spec_from_data(buffer))
        } else if spec_status(buffer@) == crate::system_common::UMP_MESSAGE_TYPE {
            MessageBorrowed::SystemCommon(SystemCommonBorrowed::spec_from_data(buffer))
        } else if spec_status(buffer@) == crate::ump_stream::UMP_MESSAGE_TYPE {
            MessageBorrowed::UmpStream(UmpStreamBorrowed::spec_from_data(buffer))
        } else {
            MessageBorrowed::Utility(UtilityBorrowed::spec_from_data(buffer))
        }
    }

    /// Validates that a slice holds a message of the union.
    pub fn validate_data(buffer: &'a [u32]) -> (r: Result<(), Error>)
        ensures
            r == spec_validate(buffer@),
    {
        validate_data(buffer)
    }

    /// Takes a validated slice as the member its discriminant names.
    pub fn from_data_unchecked(buffer: &'a [u32]) -> (message: Self)
        requires
            spec_validate(buffer@) is Ok,
        ensures
            message == Self::spec_from_data(buffer),
            message.wf(),
            message.units() == buffer@,
            message.code() == spec_status(buffer@),
    {
        let found = status(buffer);
        if found == crate::flex_data::UMP_MESSAGE_TYPE {
            MessageBorrowed::FlexData(FlexDataBorrowed::from_data_unchecked(buffer))
        } else if found == crate::channel_voice1::UMP_MESSAGE_TYPE {
            MessageBorrowed::Midi1ChannelVoice(
                Midi1ChannelVoiceBorrowed::from_data_unchecked(buffer)
            )
        } else if found == crate::channel_voice2::UMP_MESSAGE_TYPE {
            MessageBorrowed::Midi2ChannelVoice(
                Midi2ChannelVoiceBorrowed::from_data_unchecked(buffer)
            )
        } else if found == system_exclusive_7bit::UMP_MESSAGE_TYPE {
            MessageBorrowed::Sysex7(Sysex7Borrowed::from_data_unchecked(buffer))
        } else if found == system_exclusive_8bit::UMP_MESSAGE_TYPE {
            MessageBorrowed::Sysex8(Sysex8Borrowed::from_data_unchecked(buffer))
        } else if found == crate::system_common::UMP_MESSAGE_TYPE {
            MessageBorrowed::SystemCommon(SystemCommonBorrowed::from_data_unchecked(buffer))
        } else if found == crate::ump_stream::UMP_MESSAGE_TYPE {
            MessageBorrowed::UmpStream(UmpStreamBorrowed::from_data_unchecked(buffer))
        } else {
            MessageBorrowed::Utility(UtilityBorrowed::from_data_unchecked(buffer))
        }
    }

    /// Parses a slice: the member its discriminant names if the slice
    /// validates as that member, else the first failure.
    pub fn from_data(buffer: &'a [u32]) -> (r: Result<Self, Error>)
        ensures
            match spec_validate(buffer@) {
                Ok(()) => r == Ok::<Self, Error>(Self::spec_from_data(buffer)),
                Err(e) => r == Err::<Self, Error>(e),
            },
    {
        match validate_data(buffer) {
            Ok(()) => Ok(Self::from_data_unchecked(buffer)),
            Err(e) => Err(e),
        }
    }

    /// The words the message occupies.
    pub fn data(&self) -> (data: &[u32])
        requires
            self.wf(),
        ensures
            data@ == self.spec_data(),
    {
        match self {
            MessageBorrowed::FlexData(m) => m.data(),
            MessageBorrowed::Midi1ChannelVoice(m) => m.data(),
            MessageBorrowed::Midi2ChannelVoice(m) => m.data(),
            MessageBorrowed::Sysex7(m) => m.data(),
            MessageBorrowed::Sysex8(m) => m.data(),
            MessageBorrowed::SystemCommon(m) => m.data(),
            MessageBorrowed::UmpStream(m) => m.data(),
            MessageBorrowed::Utility(m) => m.data(),
        }
    }

    /// The message with its words owned; the member is kept.
    pub fn into_owned(self) -> (owned: MessageOwned)
        requires
            self.wf(),
        ensures
            owned.wf(),
            owned.code() == self.code(),
            owned.units() == self.spec_owned(),
    {
        match self {
            MessageBorrowed::FlexData(m) => MessageOwned::FlexData(m.into_owned()),
            MessageBorrowed::Midi1ChannelVoice(m) => MessageOwned::Midi1ChannelVoice(
                m.into_owned()
            ),
            MessageBorrowed::Midi2ChannelVoice(m) => MessageOwned::Midi2ChannelVoice(
                m.into_owned()
            ),
            MessageBorrowed::Sysex7(m) => MessageOwned::Sysex7(m.into_owned()),
            MessageBorrowed::Sysex8(m) => MessageOwned::Sysex8(m.into_owned()),
            MessageBorrowed::SystemCommon(m) => MessageOwned::SystemCommon(m.into_owned()),
            MessageBorrowed::UmpStream(m) => MessageOwned::UmpStream(m.into_owned()),
            MessageBorrowed::Utility(m) => MessageOwned::Utility(m.into_owned()),
        }
    }
}

impl MessageOwned {
    /// The words of the underlying buffer.
    pub open spec fn units(&self) -> Seq<u32> {
        match self {
            MessageOwned::FlexData(m) => m.units(),
            MessageOwned::Midi1ChannelVoice(m) => m.units(),
            MessageOwned::Midi2ChannelVoice(m) => m.units(),
            MessageOwned::Sysex7(m) => m.units(),
            MessageOwned::Sysex8(m) => m.units(),
            MessageOwned::SystemCommon(m) => m.units(),
            MessageOwned::UmpStream(m) => m.units(),
            MessageOwned::Utility(m) => m.units(),
        }
    }

    /// The message inside is a valid message of its kind.
    pub open spec fn wf(&self) -> bool {
        match self {
            MessageOwned::FlexData(m) => m.wf(),
            MessageOwned::Midi1ChannelVoice(m) => m.wf(),
            MessageOwned::Midi2ChannelVoice(m) => m.wf(),
            MessageOwned::Sysex7(m) => m.wf(),
            MessageOwned::Sysex8(m) => m.wf(),
            MessageOwned::SystemCommon(m) => m.wf(),
            MessageOwned::UmpStream(m) => m.wf(),
            MessageOwned::Utility(m) => m.wf(),
        }
    }

    /// The discriminant of the member inside.
    pub open spec fn code(&self) -> u32 {
        match self {
            MessageOwned::FlexData(_) => crate::flex_data::UMP_MESSAGE_TYPE as u32,
            MessageOwned::Midi1ChannelVoice(_) => crate::channel_voice1::UMP_MESSAGE_TYPE as u32,
            MessageOwned::Midi2ChannelVoice(_) => crate::channel_voice2::UMP_MESSAGE_TYPE as u32,
            MessageOwned::Sysex7(_) => system_exclusive_7bit::UMP_MESSAGE_TYPE as u32,
            MessageOwned::Sysex8(_) => system_exclusive_8bit::UMP_MESSAGE_TYPE as u32,
            MessageOwned::SystemCommon(_) => crate::system_common::UMP_MESSAGE_TYPE as u32,
            MessageOwned::UmpStream(_) => crate::ump_stream::UMP_MESSAGE_TYPE as u32,
            MessageOwned::Utility(_) => crate::utility::UMP_MESSAGE_TYPE as u32,
        }
    }

    /// The words the message occupies.
    pub open spec fn spec_data(&self) -> Seq<u32> {
        match self {
            MessageOwned::FlexData(m) => m.spec_data(),
            MessageOwned::Midi1ChannelVoice(m) => m.spec_data(),
            MessageOwned::Midi2ChannelVoice(m) => m.spec_data(),
            MessageOwned::Sysex7(m) => m.spec_data(),
            MessageOwned::Sysex8(m) => m.spec_data(),
            MessageOwned::SystemCommon(m) => m.spec_data(),
            MessageOwned::UmpStream(m) => m.spec_data(),
            MessageOwned::Utility(m) => m.spec_data(),
        }
    }

    /// The words the message occupies.
    pub fn data(&self) -> (data: &[u32])
        requires
            self.wf(),
        ensures
            data@ == self.spec_data(),
    {
        match self {
            MessageOwned::FlexData(m) => m.data(),
            MessageOwned::Midi1ChannelVoice(m) => m.data(),
            MessageOwned::Midi2ChannelVoice(m) => m.data(),
            MessageOwned::Sysex7(m) => m.data(),
            MessageOwned::Sysex8(m) => m.data(),
            MessageOwned::SystemCommon(m) => m.data(),
            MessageOwned::UmpStream(m) => m.data(),
            MessageOwned::Utility(m) => m.data(),
        }
    }
}

/// Routing is by discriminant alone: a sequence that validates holds a
/// discriminant that names a member, and a sequence whose discriminant
/// names none never validates.
pub proof fn lemma_routing(units: Seq<u32>)
    ensures
        spec_validate(units) is Ok ==> units.len() >= 1 && is_defined(spec_status(units)),
        units.len() >= 1 && !is_defined(spec_status(units)) ==> spec_validate(units) == Err::<
            (),
            Error,
        >(Error::InvalidData(ERR_UNKNOWN_MESSAGE_TYPE)),
        units.len() >= 1
            && spec_status(units) == crate::flex_data::UMP_MESSAGE_TYPE ==> spec_validate(units)
            == flex_data::spec_validate(units),
        units.len() >= 1
            && spec_status(
                units
            ) == crate::channel_voice1::UMP_MESSAGE_TYPE ==> spec_validate(units)
            == midi1_channel_voice::spec_validate(units),
        units.len() >= 1
            && spec_status(
                units
            ) == crate::channel_voice2::UMP_MESSAGE_TYPE ==> spec_validate(units)
            == midi2_channel_voice::spec_validate(units),
        units.len() >= 1
            && spec_status(
                units
            ) == system_exclusive_7bit::UMP_MESSAGE_TYPE ==> spec_validate(units)
            == system_exclusive_7bit::spec_validate(units),
        units.len() >= 1
            && spec_status(
                units
            ) == system_exclusive_8bit::UMP_MESSAGE_TYPE ==> spec_validate(units)
            == system_exclusive_8bit::spec_validate(units),
        units.len() >= 1
            && spec_status(units) == crate::system_common::UMP_MESSAGE_TYPE ==> spec_validate(units)
            == system_common::spec_validate(units),
        units.len() >= 1
            && spec_status(units) == crate::ump_stream::UMP_MESSAGE_TYPE ==> spec_validate(units)
            == ump_stream::spec_validate(units),
        units.len() >= 1
            && spec_status(units) == crate::utility::UMP_MESSAGE_TYPE ==> spec_validate(units)
            == utility::spec_validate(units),
{
}

impl<'a> Message<'a> {
    /// The message that a borrowed one becomes: the same member, still borrowed.
    pub open spec fn spec_from_borrowed(value: MessageBorrowed<'a>) -> Self {
        match value {
            MessageBorrowed::FlexData(m) => Message::FlexData(
                FlexDataMessage::spec_from_borrowed(m)
            ),
            MessageBorrowed::Midi1ChannelVoice(m) => Message::Midi1ChannelVoice(
                Midi1ChannelVoiceMessage::spec_from_borrowed(m)
            ),
            MessageBorrowed::Midi2ChannelVoice(m) => Message::Midi2ChannelVoice(
                Midi2ChannelVoiceMessage::spec_from_borrowed(m)
            ),
            MessageBorrowed::Sysex7(m) => Message::Sysex7(Sysex7Message::Borrowed(m)),
            MessageBorrowed::Sysex8(m) => Message::Sysex8(Sysex8Message::Borrowed(m)),
            MessageBorrowed::SystemCommon(m) => Message::SystemCommon(
                SystemCommonMessage::spec_from_borrowed(m)
            ),
            MessageBorrowed::UmpStream(m) => Message::UmpStream(
                UmpStreamMessage::spec_from_borrowed(m)
            ),
            MessageBorrowed::Utility(m) => Message::Utility(UtilityMessage::spec_from_borrowed(m)),
        }
    }

    /// The message that an owned one becomes: the same member, still owned.
    pub open spec fn spec_from_owned(value: MessageOwned) -> Self {
        match value {
            MessageOwned::FlexData(m) => Message::FlexData(FlexDataMessage::spec_from_owned(m)),
            MessageOwned::Midi1ChannelVoice(m) => Message::Midi1ChannelVoice(
                Midi1ChannelVoiceMessage::spec_from_owned(m)
            ),
            MessageOwned::Midi2ChannelVoice(m) => Message::Midi2ChannelVoice(
                Midi2ChannelVoiceMessage::spec_from_owned(m)
            ),
            MessageOwned::Sysex7(m) => Message::Sysex7(Sysex7Message::Owned(m)),
            MessageOwned::Sysex8(m) => Message::Sysex8(Sysex8Message::Owned(m)),
            MessageOwned::SystemCommon(m) => Message::SystemCommon(
                SystemCommonMessage::spec_from_owned(m)
            ),
            MessageOwned::UmpStream(m) => Message::UmpStream(UmpStreamMessage::spec_from_owned(m)),
            MessageOwned::Utility(m) => Message::Utility(UtilityMessage::spec_from_owned(m)),
        }
    }
}

/// An owned message taken as a message and made owned again is the
/// message it was: the same member, the same words, as valid as before.
pub proof fn lemma_owned_round_trip(owned: MessageOwned)
    ensures
        Message::spec_from_owned(owned).spec_owned() == owned.units(),
        Message::spec_from_owned(owned).units() == owned.units(),
        Message::spec_from_owned(owned).code() == owned.code(),
        Message::spec_from_owned(owned).wf() == owned.wf(),
{
    match owned {
        MessageOwned::FlexData(m) => {
            flex_data::lemma_owned_round_trip(m);
        },
        MessageOwned::Midi1ChannelVoice(m) => {
            midi1_channel_voice::lemma_owned_round_trip(m);
        },
        MessageOwned::Midi2ChannelVoice(m) => {
            midi2_channel_voice::lemma_owned_round_trip(m);
        },
        MessageOwned::Sysex7(_) => {},
        MessageOwned::Sysex8(_) => {},
        MessageOwned::SystemCommon(m) => {
            system_common::lemma_owned_round_trip(m);
        },
        MessageOwned::UmpStream(m) => {
            ump_stream::lemma_owned_round_trip(m);
        },
        MessageOwned::Utility(m) => {
            utility::lemma_owned_round_trip(m);
        },
    }
}

impl<'a> From<MessageBorrowed<'a>> for Message<'a> {
    fn from(value: MessageBorrowed<'a>) -> (r: Self) {
        match value {
            MessageBorrowed::FlexData(m) => Message::FlexData(FlexDataMessage::from(m)),
            MessageBorrowed::Midi1ChannelVoice(m) => Message::Midi1ChannelVoice(
                Midi1ChannelVoiceMessage::from(m)
            ),
            MessageBorrowed::Midi2ChannelVoice(m) => Message::Midi2ChannelVoice(
                Midi2ChannelVoiceMessage::from(m)
            ),
            MessageBorrowed::Sysex7(m) => Message::Sysex7(Sysex7Message::from(m)),
            MessageBorrowed::Sysex8(m) => Message::Sysex8(Sysex8Message::from(m)),
            MessageBorrowed::SystemCommon(m) => Message::SystemCommon(SystemCommonMessage::from(m)),
            MessageBorrowed::UmpStream(m) => Message::UmpStream(UmpStreamMessage::from(m)),
            MessageBorrowed::Utility(m) => Message::Utility(UtilityMessage::from(m)),
        }
    }
}

impl<'a> FromSpecImpl<MessageBorrowed<'a>> for Message<'a> {
    open spec fn obeys_from_spec() -> bool {
        true
    }

    open spec fn from_spec(value: MessageBorrowed<'a>) -> Self {
        Message::spec_from_borrowed(value)
    }
}

impl<'a> From<MessageOwned> for Message<'a> {
    fn from(value: MessageOwned) -> (r: Self) {
        match value {
            MessageOwned::FlexData(m) => Message::FlexData(FlexDataMessage::from(m)),
            MessageOwned::Midi1ChannelVoice(m) => Message::Midi1ChannelVoice(
                Midi1ChannelVoiceMessage::from(m)
            ),
            MessageOwned::Midi2ChannelVoice(m) => Message::Midi2ChannelVoice(
                Midi2ChannelVoiceMessage::from(m)
            ),
            MessageOwned::Sysex7(m) => Message::Sysex7(Sysex7Message::from(m)),
            MessageOwned::Sysex8(m) => Message::Sysex8(Sysex8Message::from(m)),
            MessageOwned::SystemCommon(m) => Message::SystemCommon(SystemCommonMessage::from(m)),
            MessageOwned::UmpStream(m) => Message::UmpStream(UmpStreamMessage::from(m)),
            MessageOwned::Utility(m) => Message::Utility(UtilityMessage::from(m)),
        }
    }
}

impl<'a> FromSpecImpl<MessageOwned> for Message<'a> {
    open spec fn obeys_from_spec() -> bool {
        true
    }

    open spec fn from_spec(value: MessageOwned) -> Self {
        Message::spec_from_owned(value)
    }
}

/// Whether a status byte belongs to a channel voice message.
pub open spec fn is_channel_voice_status(status: u8) -> bool {
    0x80 <= status <= 0xEF
}

/// Whether a status byte belongs to a system common or real time message.
pub open spec fn is_system_status(status: u8) -> bool {
    (0xF1 <= status <= 0xF6) || 0xF8 <= status
}

/// The verdict on a byte sequence: that of the family its status byte
/// belongs to. A status byte of no family is `InvalidData`, as is an empty
/// sequence.
pub open spec fn spec_validate_bytes(bytes: Seq<u8>) -> Result<(), Error> {
    if bytes.len() < 1 {
        Err(Error::InvalidData(ERR_SLICE_TOO_SHORT))
    } else if is_channel_voice_status(bytes[0]) {
        midi1_channel_voice::spec_validate_bytes(bytes)
    } else if is_system_status(bytes[0]) {
        system_common::spec_validate_bytes(bytes)
    } else {
        Err(Error::InvalidData(ERR_UNKNOWN_BYTE_STATUS))
    }
}

/// The packet that valid bytes convert to.
pub open spec fn spec_from_bytes(bytes: Seq<u8>) -> Seq<u32> {
    if is_channel_voice_status(bytes[0]) {
        midi1_channel_voice::spec_from_bytes(bytes)
    } else {
        system_common::spec_from_bytes(bytes)
    }
}

/// Reads the status byte and runs the validation of the family it belongs to.
pub fn validate_byte_data(buffer: &[u8]) -> (r: Result<(), Error>)
    ensures
        r == spec_validate_bytes(buffer@),
{
    if buffer.len() < 1 {
        return Err(Error::InvalidData(ERR_SLICE_TOO_SHORT));
    }
    let found = buffer[0];
    if 0x80 <= found && found <= 0xEF {
        midi1_channel_voice::validate_byte_data(buffer)
    } else if (0xF1 <= found && found <= 0xF6) || 0xF8 <= found {
        system_common::validate_byte_data(buffer)
    } else {
        Err(Error::InvalidData(ERR_UNKNOWN_BYTE_STATUS))
    }
}

impl MessageOwned {
    /// Validates that bytes hold a message of the byte stream.
    pub fn validate_byte_data(buffer: &[u8]) -> (r: Result<(), Error>)
        ensures
            r == spec_validate_bytes(buffer@),
    {
        validate_byte_data(buffer)
    }

    /// Converts validated bytes into an owned packet of the family the
    /// status byte belongs to.
    pub fn from_byte_data_unchecked(buffer: &[u8]) -> (message: Self)
        requires
            spec_validate_bytes(buffer@) is Ok,
        ensures
            message.wf(),
            message.units() == spec_from_bytes(buffer@),
            match message {
                MessageOwned::Midi1ChannelVoice(m) => is_channel_voice_status(buffer@[0])
                    && m.code()
                    == midi1_channel_voice::spec_byte_status(buffer@),
                MessageOwned::SystemCommon(m) => !is_channel_voice_status(buffer@[0]) && m.code()
                    == system_common::spec_byte_status(buffer@),
                _ => false,
            },
    {
        let found = buffer[0];
        if 0x80 <= found && found <= 0xEF {
            MessageOwned::Midi1ChannelVoice(
                Midi1ChannelVoiceOwned::from_byte_data_unchecked(buffer)
            )
        } else {
            MessageOwned::SystemCommon(SystemCommonOwned::from_byte_data_unchecked(buffer))
        }
    }

    /// Parses bytes and converts them into an owned packet.
    pub fn from_byte_data(buffer: &[u8]) -> (r: Result<Self, Error>)
        ensures
            match spec_validate_bytes(buffer@) {
                Ok(()) => r is Ok && r->Ok_0.wf() && r->Ok_0.units() == spec_from_bytes(buffer@)
                    && match r->Ok_0 {
                    MessageOwned::Midi1ChannelVoice(m) => is_channel_voice_status(buffer@[0])
                        && m.code() == midi1_channel_voice::spec_byte_status(buffer@),
                    MessageOwned::SystemCommon(m) => !is_channel_voice_status(buffer@[0])
                        && m.code() == system_common::spec_byte_status(buffer@),
                    _ => false,
                },
                Err(e) => r == Err::<Self, Error>(e),
            },
    {
        match validate_byte_data(buffer) {
            Ok(()) => Ok(Self::from_byte_data_unchecked(buffer)),
            Err(e) => Err(e),
        }
    }
}

impl<'b> Message<'b> {
    /// Validates that bytes hold a message of the byte stream.
    pub fn validate_byte_data(buffer: &[u8]) -> (r: Result<(), Error>)
        ensures
            r == spec_validate_bytes(buffer@),
    {
        MessageOwned::validate_byte_data(buffer)
    }

    /// Converts validated bytes into an owned packet.
    pub fn from_byte_data_unchecked(buffer: &[u8]) -> (message: Self)
        requires
            spec_validate_bytes(buffer@) is Ok,
        ensures
            message.wf(),
            message.units() == spec_from_bytes(buffer@),
            match message {
                Message::Midi1ChannelVoice(m) => is_channel_voice_status(buffer@[0]) && m.code()
                    == midi1_channel_voice::spec_byte_status(buffer@),
                Message::SystemCommon(m) => !is_channel_voice_status(buffer@[0]) && m.code()
                    == system_common::spec_byte_status(buffer@),
                _ => false,
            },
    {
        Message::from(MessageOwned::from_byte_data_unchecked(buffer))
    }

    /// Parses bytes and converts them into an owned packet.
    pub fn from_byte_data(buffer: &[u8]) -> (r: Result<Self, Error>)
        ensures
            match spec_validate_bytes(buffer@) {
                Ok(()) => r is Ok && r->Ok_0.wf() && r->Ok_0.units() == spec_from_bytes(buffer@)
                    && match r->Ok_0 {
                    Message::Midi1ChannelVoice(m) => is_channel_voice_status(buffer@[0])
                        && m.code() == midi1_channel_voice::spec_byte_status(buffer@),
                    Message::SystemCommon(m) => !is_channel_voice_status(buffer@[0])
                        && m.code() == system_common::spec_byte_status(buffer@),
                    _ => false,
                },
                Err(e) => r == Err::<Self, Error>(e),
            },
    {
        match validate_byte_data(buffer) {
            Ok(()) => Ok(Self::from_byte_data_unchecked(buffer)),
            Err(e) => Err(e),
        }
    }
}

impl MessageOwned {
    /// Whether the message has a byte stream form: only the MIDI 1.0 channel
    /// voice and the system families do.
    pub open spec fn has_byte_form(&self) -> bool {
        self is Midi1ChannelVoice || self is SystemCommon
    }

    /// The byte stream form of a message that has one.
    pub open spec fn spec_bytes(&self) -> Seq<u8> {
        match self {
            MessageOwned::Midi1ChannelVoice(m) => m.spec_bytes(),
            MessageOwned::SystemCommon(m) => m.spec_bytes(),
            _ => Seq::empty(),
        }
    }

    /// Writes the byte stream form of the message over the front of
    /// `buffer` and hands the written bytes back. A message without a byte
    /// stream form is `InvalidData`; a buffer too short is `BufferOverflow`.
    /// On failure the buffer is left as it was.
    pub fn try_write_byte_data<'a>(&self, buffer: &'a mut [u8]) -> (r: Result<&'a mut [u8], Error>)
        requires
            self.wf(),
        ensures
            !self.has_byte_form() ==> r is Err && r->Err_0 == Error::InvalidData(ERR_NO_BYTE_FORM)
                && final(buffer)@ == old(buffer)@,
            self.has_byte_form() && old(buffer)@.len() < self.spec_bytes().len() ==> r is Err
                && r->Err_0 == Error::BufferOverflow && final(buffer)@ == old(buffer)@,
            self.has_byte_form() && old(buffer)@.len() >= self.spec_bytes().len() ==> r is Ok
                && r->Ok_0@ == self.spec_bytes() && final(buffer)@ == final(r->Ok_0)@ + old(
                buffer,
            )@.subrange(self.spec_bytes().len() as int, old(buffer)@.len() as int),
    {
        match self {
            MessageOwned::Midi1ChannelVoice(m) => m.try_write_byte_data(buffer),
            MessageOwned::SystemCommon(m) => m.try_write_byte_data(buffer),
            _ => Err(Error::InvalidData(ERR_NO_BYTE_FORM)),
        }
    }
}

impl<'b> MessageBorrowed<'b> {
    /// Whether the message has a byte stream form: only the MIDI 1.0 channel
    /// voice and the system families do.
    pub open spec fn has_byte_form(&self) -> bool {
        self is Midi1ChannelVoice || self is SystemCommon
    }

    /// The byte stream form of a message that has one.
    pub open spec fn spec_bytes(&self) -> Seq<u8> {
        match self {
            MessageBorrowed::Midi1ChannelVoice(m) => m.spec_bytes(),
            MessageBorrowed::SystemCommon(m) => m.spec_bytes(),
            _ => Seq::empty(),
        }
    }

    /// Writes the byte stream form of the message over the front of
    /// `buffer` and hands the written bytes back. A message without a byte
    /// stream form is `InvalidData`; a buffer too short is `BufferOverflow`.
    /// On failure the buffer is left as it was.
    pub fn try_write_byte_data<'a>(&self, buffer: &'a mut [u8]) -> (r: Result<&'a mut [u8], Error>)
        requires
            self.wf(),
        ensures
            !self.has_byte_form() ==> r is Err && r->Err_0 == Error::InvalidData(ERR_NO_BYTE_FORM)
                && final(buffer)@ == old(buffer)@,
            self.has_byte_form() && old(buffer)@.len() < self.spec_bytes().len() ==> r is Err
                && r->Err_0 == Error::BufferOverflow && final(buffer)@ == old(buffer)@,
            self.has_byte_form() && old(buffer)@.len() >= self.spec_bytes().len() ==> r is Ok
                && r->Ok_0@ == self.spec_bytes() && final(buffer)@ == final(r->Ok_0)@ + old(
                buffer,
            )@.subrange(self.spec_bytes().len() as int, old(buffer)@.len() as int),
    {
        match self {
            MessageBorrowed::Midi1ChannelVoice(m) => m.try_write_byte_data(buffer),
            MessageBorrowed::SystemCommon(m) => m.try_write_byte_data(buffer),
            _ => Err(Error::InvalidData(ERR_NO_BYTE_FORM)),
        }
    }
}

impl<'b> Message<'b> {
    /// Whether the message has a byte stream form: only the MIDI 1.0 channel
    /// voice and the system families do.
    pub open spec fn has_byte_form(&self) -> bool {
        self is Midi1ChannelVoice || self is SystemCommon
    }

    /// The byte stream form of a message that has one.
    pub open spec fn spec_bytes(&self) -> Seq<u8> {
        match self {
            Message::Midi1ChannelVoice(m) => m.spec_bytes(),
            Message::SystemCommon(m) => m.spec_bytes(),
            _ => Seq::empty(),
        }
    }

    /// Writes the byte stream form of the message over the front of
    /// `buffer` and hands the written bytes back. A message without a byte
    /// stream form is `InvalidData`; a buffer too short is `BufferOverflow`.
    /// On failure the buffer is left as it was.
    pub fn try_write_byte_data<'a>(&self, buffer: &'a mut [u8]) -> (r: Result<&'a mut [u8], Error>)
        requires
            self.wf(),
        ensures
            !self.has_byte_form() ==> r is Err && r->Err_0 == Error::InvalidData(ERR_NO_BYTE_FORM)
                && final(buffer)@ == old(buffer)@,
            self.has_byte_form() && old(buffer)@.len() < self.spec_bytes().len() ==> r is Err
                && r->Err_0 == Error::BufferOverflow && final(buffer)@ == old(buffer)@,
            self.has_byte_form() && old(buffer)@.len() >= self.spec_bytes().len() ==> r is Ok
                && r->Ok_0@ == self.spec_bytes() && final(buffer)@ == final(r->Ok_0)@ + old(
                buffer,
            )@.subrange(self.spec_bytes().len() as int, old(buffer)@.len() as int),
    {
        match self {
            Message::Midi1ChannelVoice(m) => m.try_write_byte_data(buffer),
            Message::SystemCommon(m) => m.try_write_byte_data(buffer),
            _ => Err(Error::InvalidData(ERR_NO_BYTE_FORM)),
        }
    }
}

impl<'a> MessageBorrowed<'a> {
    /// Whether the owned form of every message of the family fits a packet
    /// of fixed size, and so can be had without allocating. The flex data,
    /// system exclusive and stream families hold messages of any length.
    pub open spec fn owned_is_fixed(&self) -> bool {
        !(self is FlexData || self is Sysex7 || self is Sysex8 || self is UmpStream)
    }

    /// The message with its words owned, without allocating. Messages of a
    /// family whose owned form needs a growable buffer are `InvalidData`.
    pub fn try_into_owned(self) -> (r: Result<MessageOwned, Error>)
        requires
            self.wf(),
        ensures
            self.owned_is_fixed() ==> r is Ok && r->Ok_0.wf() && r->Ok_0.code() == self.code()
                && r->Ok_0.units() == self.spec_owned(),
            !self.owned_is_fixed() ==> r is Err && r->Err_0 == Error::InvalidData(
                ERR_OWNED_NEEDS_ALLOCATION,
            ),
    {
        match self {
            MessageBorrowed::Midi1ChannelVoice(m) => Ok(
                MessageOwned::Midi1ChannelVoice(m.into_owned())
            ),
            MessageBorrowed::Midi2ChannelVoice(m) => Ok(
                MessageOwned::Midi2ChannelVoice(m.into_owned())
            ),
            MessageBorrowed::Utility(m) => Ok(MessageOwned::Utility(m.into_owned())),
            MessageBorrowed::SystemCommon(m) => Ok(MessageOwned::SystemCommon(m.into_owned())),
            _ => Err(Error::InvalidData(ERR_OWNED_NEEDS_ALLOCATION)),
        }
    }
}

impl<'a> Message<'a> {
    /// Whether the owned form of every message of the family fits a packet
    /// of fixed size, and so can be had without allocating. The flex data,
    /// system exclusive and stream families hold messages of any length.
    pub open spec fn owned_is_fixed(&self) -> bool {
        !(self is FlexData || self is Sysex7 || self is Sysex8 || self is UmpStream)
    }

    /// The message with its words owned, without allocating. Messages of a
    /// family whose owned form needs a growable buffer are `InvalidData`.
    pub fn try_into_owned(self) -> (r: Result<MessageOwned, Error>)
        requires
            self.wf(),
        ensures
            self.owned_is_fixed() ==> r is Ok && r->Ok_0.wf() && r->Ok_0.code() == self.code()
                && r->Ok_0.units() == self.spec_owned(),
            !self.owned_is_fixed() ==> r is Err && r->Err_0 == Error::InvalidData(
                ERR_OWNED_NEEDS_ALLOCATION,
            ),
    {
        match self {
            Message::Midi1ChannelVoice(m) => Ok(MessageOwned::Midi1ChannelVoice(m.into_owned())),
            Message::Midi2ChannelVoice(m) => Ok(MessageOwned::Midi2ChannelVoice(m.into_owned())),
            Message::Utility(m) => Ok(MessageOwned::Utility(m.into_owned())),
            Message::SystemCommon(m) => Ok(MessageOwned::SystemCommon(m.into_owned())),
            _ => Err(Error::InvalidData(ERR_OWNED_NEEDS_ALLOCATION)),
        }
    }
}

} // verus!
