//! The MIDI 1.0 channel voice messages in their ownership-qualified forms, the union of
//! them, and the builder that starts any of them.

use vstd::prelude::*;
use vstd::std_specs::convert::{FromSpec, FromSpecImpl};
use channel_pressure::ChannelPressureBuilder;
use control_change::ControlChangeBuilder;
use crate::buffer::{Buffer, MessageData};
use crate::channel_voice1::channel_pressure::ChannelPressure;
use crate::channel_voice1::control_change::ControlChange;
use crate::channel_voice1::key_pressure::KeyPressure;
use crate::channel_voice1::note_off::NoteOff;
use crate::channel_voice1::note_on::NoteOn;
use crate::channel_voice1::pitch_bend::PitchBend;
use crate::channel_voice1::program_change::ProgramChange;
use crate::common_properties::{channel_voice_status, channel_voice_status_schema};
use crate::error::{ERR_SLICE_TOO_SHORT, ERR_UNKNOWN_CHANNEL_VOICE_STATUS, Error};
use crate::property::{owned_words, rebuffered, spec_read_u14, write_front};
use crate::schema::{read_field, spec_read};
use key_pressure::KeyPressureBuilder;
use note_off::NoteOffBuilder;
use note_on::NoteOnBuilder;
use pitch_bend::PitchBendBuilder;

pub mod channel_pressure;
pub mod control_change;
pub mod key_pressure;
pub mod note;
pub mod note_off;
pub mod note_on;
pub mod pitch_bend;
pub mod program_change;

verus! {

/// Any MIDI 1.0 channel voice message, borrowed or owned.
#[derive(Clone, Debug, PartialEq, Eq)]
#[non_exhaustive]
pub enum Midi1ChannelVoiceMessage<'a> {
    ChannelPressure(ChannelPressure<MessageData<'a>>),
    ControlChange(ControlChange<MessageData<'a>>),
    KeyPressure(KeyPressure<MessageData<'a>>),
    NoteOff(NoteOff<MessageData<'a>>),
    NoteOn(NoteOn<MessageData<'a>>),
    PitchBend(PitchBend<MessageData<'a>>),
    ProgramChange(ProgramChange<MessageData<'a>>),
}

/// Any MIDI 1.0 channel voice message over borrowed words.
#[derive(Clone, Debug, PartialEq, Eq)]
#[non_exhaustive]
pub enum Midi1ChannelVoiceBorrowed<'a> {
    ChannelPressure(ChannelPressure<&'a [u32]>),
    ControlChange(ControlChange<&'a [u32]>),
    KeyPressure(KeyPressure<&'a [u32]>),
    NoteOff(NoteOff<&'a [u32]>),
    NoteOn(NoteOn<&'a [u32]>),
    PitchBend(PitchBend<&'a [u32]>),
    ProgramChange(ProgramChange<&'a [u32]>),
}

/// Any MIDI 1.0 channel voice message that owns its words.
#[derive(Clone, Debug, PartialEq, Eq)]
#[non_exhaustive]
pub enum Midi1ChannelVoiceOwned {
    ChannelPressure(ChannelPressure<[u32; 4]>),
    ControlChange(ControlChange<[u32; 4]>),
    KeyPressure(KeyPressure<[u32; 4]>),
    NoteOff(NoteOff<[u32; 4]>),
    NoteOn(NoteOn<[u32; 4]>),
    PitchBend(PitchBend<[u32; 4]>),
    ProgramChange(ProgramChange<[u32; 4]>),
}

/// The starting point for building any MIDI 1.0 channel voice message; `M` is the type the
/// finished message is handed out as.
pub struct Midi1ChannelVoiceBuilder<M>(pub core::marker::PhantomData<M>);

impl<M> Midi1ChannelVoiceBuilder<M> where
    M: From<ChannelPressure<[u32; 4]>>
        + From<ControlChange<[u32; 4]>>
        + From<KeyPressure<[u32; 4]>>
        + From<NoteOff<[u32; 4]>>
        + From<NoteOn<[u32; 4]>>
        + From<PitchBend<[u32; 4]>>,
 {
    /// The builder holds nothing: it only fixes the type of the result.
    pub fn new() -> (builder: Self)
        ensures
            builder == Midi1ChannelVoiceBuilder::<M>(core::marker::PhantomData),
    {
        Midi1ChannelVoiceBuilder(core::marker::PhantomData)
    }

    pub fn channel_pressure(self) -> (builder: ChannelPressureBuilder<M>)
        ensures
            builder.wf()
                && builder.state() == Ok::<Seq<u32>, Error>(
                    crate::channel_voice1::channel_pressure::spec_new::<u32>(4)
                ),
    {
        ChannelPressureBuilder::new()
    }

    pub fn control_change(self) -> (builder: ControlChangeBuilder<M>)
        ensures
            builder.wf()
                && builder.state() == Ok::<Seq<u32>, Error>(
                    crate::channel_voice1::control_change::spec_new::<u32>(4)
                ),
    {
        ControlChangeBuilder::new()
    }

    pub fn key_pressure(self) -> (builder: KeyPressureBuilder<M>)
        ensures
            builder.wf()
                && builder.state() == Ok::<Seq<u32>, Error>(
                    crate::channel_voice1::key_pressure::spec_new::<u32>(4)
                ),
    {
        KeyPressureBuilder::new()
    }

    pub fn note_off(self) -> (builder: NoteOffBuilder<M>)
        ensures
            builder.wf()
                && builder.state() == Ok::<Seq<u32>, Error>(
                    crate::channel_voice1::note_off::spec_new::<u32>(4)
                ),
    {
        NoteOffBuilder::new()
    }

    pub fn note_on(self) -> (builder: NoteOnBuilder<M>)
        ensures
            builder.wf()
                && builder.state() == Ok::<Seq<u32>, Error>(
                    crate::channel_voice1::note_on::spec_new::<u32>(4)
                ),
    {
        NoteOnBuilder::new()
    }

    pub fn pitch_bend(self) -> (builder: PitchBendBuilder<M>)
        ensures
            builder.wf()
                && builder.state() == Ok::<Seq<u32>, Error>(
                    crate::channel_voice1::pitch_bend::spec_new::<u32>(4)
                ),
    {
        PitchBendBuilder::new()
    }
}

impl<M> Default for Midi1ChannelVoiceBuilder<M> where
    M: From<ChannelPressure<[u32; 4]>>
        + From<ControlChange<[u32; 4]>>
        + From<KeyPressure<[u32; 4]>>
        + From<NoteOff<[u32; 4]>>
        + From<NoteOn<[u32; 4]>>
        + From<PitchBend<[u32; 4]>>,
 {
    fn default() -> (builder: Self)
        ensures
            builder == Midi1ChannelVoiceBuilder::<M>(core::marker::PhantomData),
    {
        Midi1ChannelVoiceBuilder(core::marker::PhantomData)
    }
}

impl Midi1ChannelVoiceOwned {
    /// The starting point for building a message of this type.
    pub fn builder() -> (builder: Midi1ChannelVoiceBuilder<Self>)
        ensures
            builder == Midi1ChannelVoiceBuilder::<Self>(core::marker::PhantomData),
    {
        Midi1ChannelVoiceBuilder::new()
    }
}

impl<'a> Midi1ChannelVoiceMessage<'a> {
    /// The starting point for building a message of this type.
    pub fn builder() -> (builder: Midi1ChannelVoiceBuilder<Self>)
        ensures
            builder == Midi1ChannelVoiceBuilder::<Self>(core::marker::PhantomData),
    {
        Midi1ChannelVoiceBuilder::new()
    }
}

/// The field that tells the MIDI 1.0 channel voice messages apart.
pub open spec fn spec_status(units: Seq<u32>) -> u32 {
    spec_read(units, channel_voice_status())
}

/// Reads the discriminant, and nothing else, from the first word.
pub fn status(units: &[u32]) -> (value: u8)
    requires
        units@.len() > 0,
    ensures
        value == spec_status(units@),
{
    let raw = read_field(units, &channel_voice_status_schema());
    proof {
        crate::bit_ops::lemma_low_mask_bound(0);
    }
    raw as u8
}

/// Whether a discriminant value names a member of the union.
pub open spec fn is_defined(status: u32) -> bool {
    status == crate::channel_voice1::channel_pressure::STATUS
    || status == crate::channel_voice1::control_change::STATUS
    || status == crate::channel_voice1::key_pressure::STATUS
    || status == crate::channel_voice1::note_off::STATUS
    || status == crate::channel_voice1::note_on::STATUS
    || status == crate::channel_voice1::pitch_bend::STATUS
    || status == crate::channel_voice1::program_change::STATUS
}

/// The verdict on a word sequence: that of the member its discriminant
/// names. A discriminant that names none is `InvalidData`, as is an
/// empty sequence.
pub open spec fn spec_validate(units: Seq<u32>) -> Result<(), Error> {
    if units.len() < 1 {
        Err(Error::InvalidData(ERR_SLICE_TOO_SHORT))
    } else if spec_status(units) == crate::channel_voice1::channel_pressure::STATUS {
        crate::channel_voice1::channel_pressure::spec_validate::<u32>(units)
    } else if spec_status(units) == crate::channel_voice1::control_change::STATUS {
        crate::channel_voice1::control_change::spec_validate::<u32>(units)
    } else if spec_status(units) == crate::channel_voice1::key_pressure::STATUS {
        crate::channel_voice1::key_pressure::spec_validate::<u32>(units)
    } else if spec_status(units) == crate::channel_voice1::note_off::STATUS {
        crate::channel_voice1::note_off::spec_validate::<u32>(units)
    } else if spec_status(units) == crate::channel_voice1::note_on::STATUS {
        crate::channel_voice1::note_on::spec_validate::<u32>(units)
    } else if spec_status(units) == crate::channel_voice1::pitch_bend::STATUS {
        crate::channel_voice1::pitch_bend::spec_validate::<u32>(units)
    } else if spec_status(units) == crate::channel_voice1::program_change::STATUS {
        crate::channel_voice1::program_change::spec_validate::<u32>(units)
    } else {
        Err(Error::InvalidData(ERR_UNKNOWN_CHANNEL_VOICE_STATUS))
    }
}

/// Reads the discriminant and runs the validation of the member it names.
pub fn validate_data(buffer: &[u32]) -> (r: Result<(), Error>)
    ensures
        r == spec_validate(buffer@),
{
    if buffer.len() < 1 {
        return Err(Error::InvalidData(ERR_SLICE_TOO_SHORT));
    }
    let found = status(buffer);
    if found == crate::channel_voice1::channel_pressure::STATUS {
        crate::channel_voice1::channel_pressure::validate::<u32>(buffer)
    } else if found == crate::channel_voice1::control_change::STATUS {
        crate::channel_voice1::control_change::validate::<u32>(buffer)
    } else if found == crate::channel_voice1::key_pressure::STATUS {
        crate::channel_voice1::key_pressure::validate::<u32>(buffer)
    } else if found == crate::channel_voice1::note_off::STATUS {
        crate::channel_voice1::note_off::validate::<u32>(buffer)
    } else if found == crate::channel_voice1::note_on::STATUS {
        crate::channel_voice1::note_on::validate::<u32>(buffer)
    } else if found == crate::channel_voice1::pitch_bend::STATUS {
        crate::channel_voice1::pitch_bend::validate::<u32>(buffer)
    } else if found == crate::channel_voice1::program_change::STATUS {
        crate::channel_voice1::program_change::validate::<u32>(buffer)
    } else {
        Err(Error::InvalidData(ERR_UNKNOWN_CHANNEL_VOICE_STATUS))
    }
}

impl<'a> Midi1ChannelVoiceMessage<'a> {
    /// The words of the underlying buffer.
    pub open spec fn units(&self) -> Seq<u32> {
        match self {
            Midi1ChannelVoiceMessage::ChannelPressure(m) => m.0.units(),
            Midi1ChannelVoiceMessage::ControlChange(m) => m.0.units(),
            Midi1ChannelVoiceMessage::KeyPressure(m) => m.0.units(),
            Midi1ChannelVoiceMessage::NoteOff(m) => m.0.units(),
            Midi1ChannelVoiceMessage::NoteOn(m) => m.0.units(),
            Midi1ChannelVoiceMessage::PitchBend(m) => m.0.units(),
            Midi1ChannelVoiceMessage::ProgramChange(m) => m.0.units(),
        }
    }

    /// The message inside is a valid message of its kind.
    pub open spec fn wf(&self) -> bool {
        match self {
            Midi1ChannelVoiceMessage::ChannelPressure(m) => m.wf(),
            Midi1ChannelVoiceMessage::ControlChange(m) => m.wf(),
            Midi1ChannelVoiceMessage::KeyPressure(m) => m.wf(),
            Midi1ChannelVoiceMessage::NoteOff(m) => m.wf(),
            Midi1ChannelVoiceMessage::NoteOn(m) => m.wf(),
            Midi1ChannelVoiceMessage::PitchBend(m) => m.wf(),
            Midi1ChannelVoiceMessage::ProgramChange(m) => m.wf(),
        }
    }

    /// The discriminant of the member inside.
    pub open spec fn code(&self) -> u32 {
        match self {
            Midi1ChannelVoiceMessage::ChannelPressure(
                _
            ) => crate::channel_voice1::channel_pressure::STATUS as u32,
            Midi1ChannelVoiceMessage::ControlChange(
                _
            ) => crate::channel_voice1::control_change::STATUS as u32,
            Midi1ChannelVoiceMessage::KeyPressure(
                _
            ) => crate::channel_voice1::key_pressure::STATUS as u32,
            Midi1ChannelVoiceMessage::NoteOff(_) => crate::channel_voice1::note_off::STATUS as u32,
            Midi1ChannelVoiceMessage::NoteOn(_) => crate::channel_voice1::note_on::STATUS as u32,
            Midi1ChannelVoiceMessage::PitchBend(
                _
            ) => crate::channel_voice1::pitch_bend::STATUS as u32,
            Midi1ChannelVoiceMessage::ProgramChange(
                _
            ) => crate::channel_voice1::program_change::STATUS as u32,
        }
    }

    /// The words the message occupies.
    pub open spec fn spec_data(&self) -> Seq<u32> {
        match self {
            Midi1ChannelVoiceMessage::ChannelPressure(m) => m.0.units().subrange(0, 1),
            Midi1ChannelVoiceMessage::ControlChange(m) => m.0.units().subrange(0, 1),
            Midi1ChannelVoiceMessage::KeyPressure(m) => m.0.units().subrange(0, 1),
            Midi1ChannelVoiceMessage::NoteOff(m) => m.0.units().subrange(0, 1),
            Midi1ChannelVoiceMessage::NoteOn(m) => m.0.units().subrange(0, 1),
            Midi1ChannelVoiceMessage::PitchBend(m) => m.0.units().subrange(0, 1),
            Midi1ChannelVoiceMessage::ProgramChange(m) => m.0.units().subrange(0, 1),
        }
    }

    /// The words of the owned copy of the message.
    pub open spec fn spec_owned(&self) -> Seq<u32> {
        match self {
            Midi1ChannelVoiceMessage::ChannelPressure(m) => owned_words(m.0, 1),
            Midi1ChannelVoiceMessage::ControlChange(m) => owned_words(m.0, 1),
            Midi1ChannelVoiceMessage::KeyPressure(m) => owned_words(m.0, 1),
            Midi1ChannelVoiceMessage::NoteOff(m) => owned_words(m.0, 1),
            Midi1ChannelVoiceMessage::NoteOn(m) => owned_words(m.0, 1),
            Midi1ChannelVoiceMessage::PitchBend(m) => owned_words(m.0, 1),
            Midi1ChannelVoiceMessage::ProgramChange(m) => owned_words(m.0, 1),
        }
    }

    /// The message a validated slice is taken as: the member its
    /// discriminant names, over that slice.
    pub open spec fn spec_from_data(buffer: &'a [u32]) -> Self {
        if spec_status(buffer@) == crate::channel_voice1::channel_pressure::STATUS {
            Midi1ChannelVoiceMessage::ChannelPressure(
                ChannelPressure(MessageData::Borrowed(ChannelPressure(buffer).0))
            )
        } else if spec_status(buffer@) == crate::channel_voice1::control_change::STATUS {
            Midi1ChannelVoiceMessage::ControlChange(
                ControlChange(MessageData::Borrowed(ControlChange(buffer).0))
            )
        } else if spec_status(buffer@) == crate::channel_voice1::key_pressure::STATUS {
            Midi1ChannelVoiceMessage::KeyPressure(
                KeyPressure(MessageData::Borrowed(KeyPressure(buffer).0))
            )
        } else if spec_status(buffer@) == crate::channel_voice1::note_off::STATUS {
            Midi1ChannelVoiceMessage::NoteOff(NoteOff(MessageData::Borrowed(NoteOff(buffer).0)))
        } else if spec_status(buffer@) == crate::channel_voice1::note_on::STATUS {
            Midi1ChannelVoiceMessage::NoteOn(NoteOn(MessageData::Borrowed(NoteOn(buffer).0)))
        } else if spec_status(buffer@) == crate::channel_voice1::pitch_bend::STATUS {
            Midi1ChannelVoiceMessage::PitchBend(
                PitchBend(MessageData::Borrowed(PitchBend(buffer).0))
            )
        } else {
            Midi1ChannelVoiceMessage::ProgramChange(
                ProgramChange(MessageData::Borrowed(ProgramChange(buffer).0))
            )
        }
    }

    /// Validates that a slice holds a message of the union.
    pub fn validate_data(buffer: &'a [u32]) -> (r: Result<(), Error>)
        ensures
            r == spec_validate(buffer@),
    {
        validate_data(buffer)
    }

    /// Takes a validated slice as the member its discriminant names.
    pub fn from_data_unchecked(buffer: &'a [u32]) -> (message: Self)
        requires
            spec_validate(buffer@) is Ok,
        ensures
            message == Self::spec_from_data(buffer),
            message.wf(),
            message.units() == buffer@,
            message.code() == spec_status(buffer@),
    {
        Midi1ChannelVoiceMessage::from(Midi1ChannelVoiceBorrowed::from_data_unchecked(buffer))
    }

    /// Parses a slice: the member its discriminant names if the slice
    /// validates as that member, else the first failure.
    pub fn from_data(buffer: &'a [u32]) -> (r: Result<Self, Error>)
        ensures
            match spec_validate(buffer@) {
                Ok(()) => r == Ok::<Self, Error>(Self::spec_from_data(buffer)),
                Err(e) => r == Err::<Self, Error>(e),
            },
    {
        match validate_data(buffer) {
            Ok(()) => Ok(Self::from_data_unchecked(buffer)),
            Err(e) => Err(e),
        }
    }

    /// The words the message occupies.
    pub fn data(&self) -> (data: &[u32])
        requires
            self.wf(),
        ensures
            data@ == self.spec_data(),
    {
        match self {
            Midi1ChannelVoiceMessage::ChannelPressure(m) => m.data(),
            Midi1ChannelVoiceMessage::ControlChange(m) => m.data(),
            Midi1ChannelVoiceMessage::KeyPressure(m) => m.data(),
            Midi1ChannelVoiceMessage::NoteOff(m) => m.data(),
            Midi1ChannelVoiceMessage::NoteOn(m) => m.data(),
            Midi1ChannelVoiceMessage::PitchBend(m) => m.data(),
            Midi1ChannelVoiceMessage::ProgramChange(m) => m.data(),
        }
    }

    /// The message with its words owned; the member is kept.
    pub fn into_owned(self) -> (owned: Midi1ChannelVoiceOwned)
        requires
            self.wf(),
        ensures
            owned.wf(),
            owned.code() == self.code(),
            owned.units() == self.spec_owned(),
    {
        match self {
            Midi1ChannelVoiceMessage::ChannelPressure(m) => Midi1ChannelVoiceOwned::ChannelPressure(
                m.into_owned()
            ),
            Midi1ChannelVoiceMessage::ControlChange(m) => Midi1ChannelVoiceOwned::ControlChange(
                m.into_owned()
            ),
            Midi1ChannelVoiceMessage::KeyPressure(m) => Midi1ChannelVoiceOwned::KeyPressure(
                m.into_owned()
            ),
            Midi1ChannelVoiceMessage::NoteOff(m) => Midi1ChannelVoiceOwned::NoteOff(m.into_owned()),
            Midi1ChannelVoiceMessage::NoteOn(m) => Midi1ChannelVoiceOwned::NoteOn(m.into_owned()),
            Midi1ChannelVoiceMessage::PitchBend(m) => Midi1ChannelVoiceOwned::PitchBend(
                m.into_owned()
            ),
            Midi1ChannelVoiceMessage::ProgramChange(m) => Midi1ChannelVoiceOwned::ProgramChange(
                m.into_owned()
            ),
        }
    }
}

impl<'a> Midi1ChannelVoiceBorrowed<'a> {
    /// The words of the underlying buffer.
    pub open spec fn units(&self) -> Seq<u32> {
        match self {
            Midi1ChannelVoiceBorrowed::ChannelPressure(m) => m.0.units(),
            Midi1ChannelVoiceBorrowed::ControlChange(m) => m.0.units(),
            Midi1ChannelVoiceBorrowed::KeyPressure(m) => m.0.units(),
            Midi1ChannelVoiceBorrowed::NoteOff(m) => m.0.units(),
            Midi1ChannelVoiceBorrowed::NoteOn(m) => m.0.units(),
            Midi1ChannelVoiceBorrowed::PitchBend(m) => m.0.units(),
            Midi1ChannelVoiceBorrowed::ProgramChange(m) => m.0.units(),
        }
    }

    /// The message inside is a valid message of its kind.
    pub open spec fn wf(&self) -> bool {
        match self {
            Midi1ChannelVoiceBorrowed::ChannelPressure(m) => m.wf(),
            Midi1ChannelVoiceBorrowed::ControlChange(m) => m.wf(),
            Midi1ChannelVoiceBorrowed::KeyPressure(m) => m.wf(),
            Midi1ChannelVoiceBorrowed::NoteOff(m) => m.wf(),
            Midi1ChannelVoiceBorrowed::NoteOn(m) => m.wf(),
            Midi1ChannelVoiceBorrowed::PitchBend(m) => m.wf(),
            Midi1ChannelVoiceBorrowed::ProgramChange(m) => m.wf(),
        }
    }

    /// The discriminant of the member inside.
    pub open spec fn code(&self) -> u32 {
        match self {
            Midi1ChannelVoiceBorrowed::ChannelPressure(
                _
            ) => crate::channel_voice1::channel_pressure::STATUS as u32,
            Midi1ChannelVoiceBorrowed::ControlChange(
                _
            ) => crate::channel_voice1::control_change::STATUS as u32,
            Midi1ChannelVoiceBorrowed::KeyPressure(
                _
            ) => crate::channel_voice1::key_pressure::STATUS as u32,
            Midi1ChannelVoiceBorrowed::NoteOff(_) => crate::channel_voice1::note_off::STATUS as u32,
            Midi1ChannelVoiceBorrowed::NoteOn(_) => crate::channel_voice1::note_on::STATUS as u32,
            Midi1ChannelVoiceBorrowed::PitchBend(
                _
            ) => crate::channel_voice1::pitch_bend::STATUS as u32,
            Midi1ChannelVoiceBorrowed::ProgramChange(
                _
            ) => crate::channel_voice1::program_change::STATUS as u32,
        }
    }

    /// The words the message occupies.
    pub open spec fn spec_data(&self) -> Seq<u32> {
        match self {
            Midi1ChannelVoiceBorrowed::ChannelPressure(m) => m.0.units().subrange(0, 1),
            Midi1ChannelVoiceBorrowed::ControlChange(m) => m.0.units().subrange(0, 1),
            Midi1ChannelVoiceBorrowed::KeyPressure(m) => m.0.units().subrange(0, 1),
            Midi1ChannelVoiceBorrowed::NoteOff(m) => m.0.units().subrange(0, 1),
            Midi1ChannelVoiceBorrowed::NoteOn(m) => m.0.units().subrange(0, 1),
            Midi1ChannelVoiceBorrowed::PitchBend(m) => m.0.units().subrange(0, 1),
            Midi1ChannelVoiceBorrowed::ProgramChange(m) => m.0.units().subrange(0, 1),
        }
    }

    /// The words of the owned copy of the message.
    pub open spec fn spec_owned(&self) -> Seq<u32> {
        match self {
            Midi1ChannelVoiceBorrowed::ChannelPressure(m) => rebuffered::<[u32; 4]>(
                m.0.units().subrange(0, 1)
            ),
            Midi1ChannelVoiceBorrowed::ControlChange(m) => rebuffered::<[u32; 4]>(
                m.0.units().subrange(0, 1)
            ),
            Midi1ChannelVoiceBorrowed::KeyPressure(m) => rebuffered::<[u32; 4]>(
                m.0.units().subrange(0, 1)
            ),
            Midi1ChannelVoiceBorrowed::NoteOff(m) => rebuffered::<[u32; 4]>(
                m.0.units().subrange(0, 1)
            ),
            Midi1ChannelVoiceBorrowed::NoteOn(m) => rebuffered::<[u32; 4]>(
                m.0.units().subrange(0, 1)
            ),
            Midi1ChannelVoiceBorrowed::PitchBend(m) => rebuffered::<[u32; 4]>(
                m.0.units().subrange(0, 1)
            ),
            Midi1ChannelVoiceBorrowed::ProgramChange(m) => rebuffered::<[u32; 4]>(
                m.0.units().subrange(0, 1)
            ),
        }
    }

    /// The message a validated slice is taken as: the member its
    /// discriminant names, over that slice.
    pub open spec fn spec_from_data(buffer: &'a [u32]) -> Self {
        if spec_status(buffer@) == crate::channel_voice1::channel_pressure::STATUS {
            Midi1ChannelVoiceBorrowed::ChannelPressure(ChannelPressure(buffer))
        } else if spec_status(buffer@) == crate::channel_voice1::control_change::STATUS {
            Midi1ChannelVoiceBorrowed::ControlChange(ControlChange(buffer))
        } else if spec_status(buffer@) == crate::channel_voice1::key_pressure::STATUS {
            Midi1ChannelVoiceBorrowed::KeyPressure(KeyPressure(buffer))
        } else if spec_status(buffer@) == crate::channel_voice1::note_off::STATUS {
            Midi1ChannelVoiceBorrowed::NoteOff(NoteOff(buffer))
        } else if spec_status(buffer@) == crate::channel_voice1::note_on::STATUS {
            Midi1ChannelVoiceBorrowed::NoteOn(NoteOn(buffer))
        } else if spec_status(buffer@) == crate::channel_voice1::pitch_bend::STATUS {
            Midi1ChannelVoiceBorrowed::PitchBend(PitchBend(buffer))
        } else {
            Midi1ChannelVoiceBorrowed::ProgramChange(ProgramChange(buffer))
        }
    }

    /// Validates that a slice holds a message of the union.
    pub fn validate_data(buffer: &'a [u32]) -> (r: Result<(), Error>)
        ensures
            r == spec_validate(buffer@),
    {
        validate_data(buffer)
    }

    /// Takes a validated slice as the member its discriminant names.
    pub fn from_data_unchecked(buffer: &'a [u32]) -> (message: Self)
        requires
            spec_validate(buffer@) is Ok,
        ensures
            message == Self::spec_from_data(buffer),
            message.wf(),
            message.units() == buffer@,
            message.code() == spec_status(buffer@),
    {
        let found = status(buffer);
        if found == crate::channel_voice1::channel_pressure::STATUS {
            Midi1ChannelVoiceBorrowed::ChannelPressure(ChannelPressure(buffer))
        } else if found == crate::channel_voice1::control_change::STATUS {
            Midi1ChannelVoiceBorrowed::ControlChange(ControlChange(buffer))
        } else if found == crate::channel_voice1::key_pressure::STATUS {
            Midi1ChannelVoiceBorrowed::KeyPressure(KeyPressure(buffer))
        } else if found == crate::channel_voice1::note_off::STATUS {
            Midi1ChannelVoiceBorrowed::NoteOff(NoteOff(buffer))
        } else if found == crate::channel_voice1::note_on::STATUS {
            Midi1ChannelVoiceBorrowed::NoteOn(NoteOn(buffer))
        } else if found == crate::channel_voice1::pitch_bend::STATUS {
            Midi1ChannelVoiceBorrowed::PitchBend(PitchBend(buffer))
        } else {
            Midi1ChannelVoiceBorrowed::ProgramChange(ProgramChange(buffer))
        }
    }

    /// Parses a slice: the member its discriminant names if the slice
    /// validates as that member, else the first failure.
    pub fn from_data(buffer: &'a [u32]) -> (r: Result<Self, Error>)
        ensures
            match spec_validate(buffer@) {
                Ok(()) => r == Ok::<Self, Error>(Self::spec_from_data(buffer)),
                Err(e) => r == Err::<Self, Error>(e),
            },
    {
        match validate_data(buffer) {
            Ok(()) => Ok(Self::from_data_unchecked(buffer)),
            Err(e) => Err(e),
        }
    }

    /// The words the message occupies.
    pub fn data(&self) -> (data: &[u32])
        requires
            self.wf(),
        ensures
            data@ == self.spec_data(),
    {
        match self {
            Midi1ChannelVoiceBorrowed::ChannelPressure(m) => m.data(),
            Midi1ChannelVoiceBorrowed::ControlChange(m) => m.data(),
            Midi1ChannelVoiceBorrowed::KeyPressure(m) => m.data(),
            Midi1ChannelVoiceBorrowed::NoteOff(m) => m.data(),
            Midi1ChannelVoiceBorrowed::NoteOn(m) => m.data(),
            Midi1ChannelVoiceBorrowed::PitchBend(m) => m.data(),
            Midi1ChannelVoiceBorrowed::ProgramChange(m) => m.data(),
        }
    }

    /// The message with its words owned; the member is kept.
    pub fn into_owned(self) -> (owned: Midi1ChannelVoiceOwned)
        requires
            self.wf(),
        ensures
            owned.wf(),
            owned.code() == self.code(),
            owned.units() == self.spec_owned(),
    {
        match self {
            Midi1ChannelVoiceBorrowed::ChannelPressure(
                m
            ) => Midi1ChannelVoiceOwned::ChannelPressure(
                m.rebuffer_into::<[u32; 4]>()
            ),
            Midi1ChannelVoiceBorrowed::ControlChange(m) => Midi1ChannelVoiceOwned::ControlChange(
                m.rebuffer_into::<[u32; 4]>()
            ),
            Midi1ChannelVoiceBorrowed::KeyPressure(m) => Midi1ChannelVoiceOwned::KeyPressure(
                m.rebuffer_into::<[u32; 4]>()
            ),
            Midi1ChannelVoiceBorrowed::NoteOff(m) => Midi1ChannelVoiceOwned::NoteOff(
                m.rebuffer_into::<[u32; 4]>()
            ),
            Midi1ChannelVoiceBorrowed::NoteOn(m) => Midi1ChannelVoiceOwned::NoteOn(
                m.rebuffer_into::<[u32; 4]>()
            ),
            Midi1ChannelVoiceBorrowed::PitchBend(m) => Midi1ChannelVoiceOwned::PitchBend(
                m.rebuffer_into::<[u32; 4]>()
            ),
            Midi1ChannelVoiceBorrowed::ProgramChange(m) => Midi1ChannelVoiceOwned::ProgramChange(
                m.rebuffer_into::<[u32; 4]>()
            ),
        }
    }
}

impl Midi1ChannelVoiceOwned {
    /// The words of the underlying buffer.
    pub open spec fn units(&self) -> Seq<u32> {
        match self {
            Midi1ChannelVoiceOwned::ChannelPressure(m) => m.0.units(),
            Midi1ChannelVoiceOwned::ControlChange(m) => m.0.units(),
            Midi1ChannelVoiceOwned::KeyPressure(m) => m.0.units(),
            Midi1ChannelVoiceOwned::NoteOff(m) => m.0.units(),
            Midi1ChannelVoiceOwned::NoteOn(m) => m.0.units(),
            Midi1ChannelVoiceOwned::PitchBend(m) => m.0.units(),
            Midi1ChannelVoiceOwned::ProgramChange(m) => m.0.units(),
        }
    }

    /// The message inside is a valid message of its kind.
    pub open spec fn wf(&self) -> bool {
        match self {
            Midi1ChannelVoiceOwned::ChannelPressure(m) => m.wf(),
            Midi1ChannelVoiceOwned::ControlChange(m) => m.wf(),
            Midi1ChannelVoiceOwned::KeyPressure(m) => m.wf(),
            Midi1ChannelVoiceOwned::NoteOff(m) => m.wf(),
            Midi1ChannelVoiceOwned::NoteOn(m) => m.wf(),
            Midi1ChannelVoiceOwned::PitchBend(m) => m.wf(),
            Midi1ChannelVoiceOwned::ProgramChange(m) => m.wf(),
        }
    }

    /// The discriminant of the member inside.
    pub open spec fn code(&self) -> u32 {
        match self {
            Midi1ChannelVoiceOwned::ChannelPressure(
                _
            ) => crate::channel_voice1::channel_pressure::STATUS as u32,
            Midi1ChannelVoiceOwned::ControlChange(
                _
            ) => crate::channel_voice1::control_change::STATUS as u32,
            Midi1ChannelVoiceOwned::KeyPressure(
                _
            ) => crate::channel_voice1::key_pressure::STATUS as u32,
            Midi1ChannelVoiceOwned::NoteOff(_) => crate::channel_voice1::note_off::STATUS as u32,
            Midi1ChannelVoiceOwned::NoteOn(_) => crate::channel_voice1::note_on::STATUS as u32,
            Midi1ChannelVoiceOwned::PitchBend(
                _
            ) => crate::channel_voice1::pitch_bend::STATUS as u32,
            Midi1ChannelVoiceOwned::ProgramChange(
                _
            ) => crate::channel_voice1::program_change::STATUS as u32,
        }
    }

    /// The words the message occupies.
    pub open spec fn spec_data(&self) -> Seq<u32> {
        match self {
            Midi1ChannelVoiceOwned::ChannelPressure(m) => m.0.units().subrange(0, 1),
            Midi1ChannelVoiceOwned::ControlChange(m) => m.0.units().subrange(0, 1),
            Midi1ChannelVoiceOwned::KeyPressure(m) => m.0.units().subrange(0, 1),
            Midi1ChannelVoiceOwned::NoteOff(m) => m.0.units().subrange(0, 1),
            Midi1ChannelVoiceOwned::NoteOn(m) => m.0.units().subrange(0, 1),
            Midi1ChannelVoiceOwned::PitchBend(m) => m.0.units().subrange(0, 1),
            Midi1ChannelVoiceOwned::ProgramChange(m) => m.0.units().subrange(0, 1),
        }
    }

    /// The words the message occupies.
    pub fn data(&self) -> (data: &[u32])
        requires
            self.wf(),
        ensures
            data@ == self.spec_data(),
    {
        match self {
            Midi1ChannelVoiceOwned::ChannelPressure(m) => m.data(),
            Midi1ChannelVoiceOwned::ControlChange(m) => m.data(),
            Midi1ChannelVoiceOwned::KeyPressure(m) => m.data(),
            Midi1ChannelVoiceOwned::NoteOff(m) => m.data(),
            Midi1ChannelVoiceOwned::NoteOn(m) => m.data(),
            Midi1ChannelVoiceOwned::PitchBend(m) => m.data(),
            Midi1ChannelVoiceOwned::ProgramChange(m) => m.data(),
        }
    }
}

/// Routing is by discriminant alone: a sequence that validates holds a
/// discriminant that names a member, and a sequence whose discriminant
/// names none never validates.
pub proof fn lemma_routing(units: Seq<u32>)
    ensures
        spec_validate(units) is Ok ==> units.len() >= 1 && is_defined(spec_status(units)),
        units.len() >= 1 && !is_defined(spec_status(units)) ==> spec_validate(units) == Err::<
            (),
            Error,
        >(Error::InvalidData(ERR_UNKNOWN_CHANNEL_VOICE_STATUS)),
        units.len() >= 1
            && spec_status(
                units
            ) == crate::channel_voice1::channel_pressure::STATUS ==> spec_validate(units)
            == crate::channel_voice1::channel_pressure::spec_validate::<u32>(units),
        units.len() >= 1
            && spec_status(
                units
            ) == crate::channel_voice1::control_change::STATUS ==> spec_validate(units)
            == crate::channel_voice1::control_change::spec_validate::<u32>(units),
        units.len() >= 1
            && spec_status(
                units
            ) == crate::channel_voice1::key_pressure::STATUS ==> spec_validate(units)
            == crate::channel_voice1::key_pressure::spec_validate::<u32>(units),
        units.len() >= 1
            && spec_status(
                units
            ) == crate::channel_voice1::note_off::STATUS ==> spec_validate(units)
            == crate::channel_voice1::note_off::spec_validate::<u32>(units),
        units.len() >= 1
            && spec_status(units) == crate::channel_voice1::note_on::STATUS ==> spec_validate(units)
            == crate::channel_voice1::note_on::spec_validate::<u32>(units),
        units.len() >= 1
            && spec_status(
                units
            ) == crate::channel_voice1::pitch_bend::STATUS ==> spec_validate(units)
            == crate::channel_voice1::pitch_bend::spec_validate::<u32>(units),
        units.len() >= 1
            && spec_status(
                units
            ) == crate::channel_voice1::program_change::STATUS ==> spec_validate(units)
            == crate::channel_voice1::program_change::spec_validate::<u32>(units),
{
}

impl<'a> Midi1ChannelVoiceMessage<'a> {
    /// The message that a borrowed one becomes: the same member, still borrowed.
    pub open spec fn spec_from_borrowed(value: Midi1ChannelVoiceBorrowed<'a>) -> Self {
        match value {
            Midi1ChannelVoiceBorrowed::ChannelPressure(
                m
            ) => Midi1ChannelVoiceMessage::ChannelPressure(
                ChannelPressure(MessageData::Borrowed(m.0))
            ),
            Midi1ChannelVoiceBorrowed::ControlChange(m) => Midi1ChannelVoiceMessage::ControlChange(
                ControlChange(MessageData::Borrowed(m.0))
            ),
            Midi1ChannelVoiceBorrowed::KeyPressure(m) => Midi1ChannelVoiceMessage::KeyPressure(
                KeyPressure(MessageData::Borrowed(m.0))
            ),
            Midi1ChannelVoiceBorrowed::NoteOff(m) => Midi1ChannelVoiceMessage::NoteOff(
                NoteOff(MessageData::Borrowed(m.0))
            ),
            Midi1ChannelVoiceBorrowed::NoteOn(m) => Midi1ChannelVoiceMessage::NoteOn(
                NoteOn(MessageData::Borrowed(m.0))
            ),
            Midi1ChannelVoiceBorrowed::PitchBend(m) => Midi1ChannelVoiceMessage::PitchBend(
                PitchBend(MessageData::Borrowed(m.0))
            ),
            Midi1ChannelVoiceBorrowed::ProgramChange(m) => Midi1ChannelVoiceMessage::ProgramChange(
                ProgramChange(MessageData::Borrowed(m.0))
            ),
        }
    }

    /// The message that an owned one becomes: the same member, still owned.
    pub open spec fn spec_from_owned(value: Midi1ChannelVoiceOwned) -> Self {
        match value {
            Midi1ChannelVoiceOwned::ChannelPressure(m) => Midi1ChannelVoiceMessage::ChannelPressure(
                ChannelPressure(MessageData::Owned(m.0))
            ),
            Midi1ChannelVoiceOwned::ControlChange(m) => Midi1ChannelVoiceMessage::ControlChange(
                ControlChange(MessageData::Owned(m.0))
            ),
            Midi1ChannelVoiceOwned::KeyPressure(m) => Midi1ChannelVoiceMessage::KeyPressure(
                KeyPressure(MessageData::Owned(m.0))
            ),
            Midi1ChannelVoiceOwned::NoteOff(m) => Midi1ChannelVoiceMessage::NoteOff(
                NoteOff(MessageData::Owned(m.0))
            ),
            Midi1ChannelVoiceOwned::NoteOn(m) => Midi1ChannelVoiceMessage::NoteOn(
                NoteOn(MessageData::Owned(m.0))
            ),
            Midi1ChannelVoiceOwned::PitchBend(m) => Midi1ChannelVoiceMessage::PitchBend(
                PitchBend(MessageData::Owned(m.0))
            ),
            Midi1ChannelVoiceOwned::ProgramChange(m) => Midi1ChannelVoiceMessage::ProgramChange(
                ProgramChange(MessageData::Owned(m.0))
            ),
        }
    }
}

/// An owned message taken as a message and made owned again is the
/// message it was: the same member, the same words, as valid as before.
pub proof fn lemma_owned_round_trip(owned: Midi1ChannelVoiceOwned)
    ensures
        Midi1ChannelVoiceMessage::spec_from_owned(owned).spec_owned() == owned.units(),
        Midi1ChannelVoiceMessage::spec_from_owned(owned).units() == owned.units(),
        Midi1ChannelVoiceMessage::spec_from_owned(owned).code() == owned.code(),
        Midi1ChannelVoiceMessage::spec_from_owned(owned).wf() == owned.wf(),
{
}

impl<'a> From<Midi1ChannelVoiceBorrowed<'a>> for Midi1ChannelVoiceMessage<'a> {
    fn from(value: Midi1ChannelVoiceBorrowed<'a>) -> (r: Self) {
        match value {
            Midi1ChannelVoiceBorrowed::ChannelPressure(
                m
            ) => Midi1ChannelVoiceMessage::ChannelPressure(
                ChannelPressure(MessageData::Borrowed(m.0))
            ),
            Midi1ChannelVoiceBorrowed::ControlChange(m) => Midi1ChannelVoiceMessage::ControlChange(
                ControlChange(MessageData::Borrowed(m.0))
            ),
            Midi1ChannelVoiceBorrowed::KeyPressure(m) => Midi1ChannelVoiceMessage::KeyPressure(
                KeyPressure(MessageData::Borrowed(m.0))
            ),
            Midi1ChannelVoiceBorrowed::NoteOff(m) => Midi1ChannelVoiceMessage::NoteOff(
                NoteOff(MessageData::Borrowed(m.0))
            ),
            Midi1ChannelVoiceBorrowed::NoteOn(m) => Midi1ChannelVoiceMessage::NoteOn(
                NoteOn(MessageData::Borrowed(m.0))
            ),
            Midi1ChannelVoiceBorrowed::PitchBend(m) => Midi1ChannelVoiceMessage::PitchBend(
                PitchBend(MessageData::Borrowed(m.0))
            ),
            Midi1ChannelVoiceBorrowed::ProgramChange(m) => Midi1ChannelVoiceMessage::ProgramChange(
                ProgramChange(MessageData::Borrowed(m.0))
            ),
        }
    }
}

impl<'a> FromSpecImpl<Midi1ChannelVoiceBorrowed<'a>> for Midi1ChannelVoiceMessage<'a> {
    open spec fn obeys_from_spec() -> bool {
        true
    }

    open spec fn from_spec(value: Midi1ChannelVoiceBorrowed<'a>) -> Self {
        Midi1ChannelVoiceMessage::spec_from_borrowed(value)
    }
}

impl<'a> From<Midi1ChannelVoiceOwned> for Midi1ChannelVoiceMessage<'a> {
    fn from(value: Midi1ChannelVoiceOwned) -> (r: Self) {
        match value {
            Midi1ChannelVoiceOwned::ChannelPressure(m) => Midi1ChannelVoiceMessage::ChannelPressure(
                ChannelPressure(MessageData::Owned(m.0))
            ),
            Midi1ChannelVoiceOwned::ControlChange(m) => Midi1ChannelVoiceMessage::ControlChange(
                ControlChange(MessageData::Owned(m.0))
            ),
            Midi1ChannelVoiceOwned::KeyPressure(m) => Midi1ChannelVoiceMessage::KeyPressure(
                KeyPressure(MessageData::Owned(m.0))
            ),
            Midi1ChannelVoiceOwned::NoteOff(m) => Midi1ChannelVoiceMessage::NoteOff(
                NoteOff(MessageData::Owned(m.0))
            ),
            Midi1ChannelVoiceOwned::NoteOn(m) => Midi1ChannelVoiceMessage::NoteOn(
                NoteOn(MessageData::Owned(m.0))
            ),
            Midi1ChannelVoiceOwned::PitchBend(m) => Midi1ChannelVoiceMessage::PitchBend(
                PitchBend(MessageData::Owned(m.0))
            ),
            Midi1ChannelVoiceOwned::ProgramChange(m) => Midi1ChannelVoiceMessage::ProgramChange(
                ProgramChange(MessageData::Owned(m.0))
            ),
        }
    }
}

impl<'a> FromSpecImpl<Midi1ChannelVoiceOwned> for Midi1ChannelVoiceMessage<'a> {
    open spec fn obeys_from_spec() -> bool {
        true
    }

    open spec fn from_spec(value: Midi1ChannelVoiceOwned) -> Self {
        Midi1ChannelVoiceMessage::spec_from_owned(value)
    }
}

impl From<ChannelPressure<[u32; 4]>> for Midi1ChannelVoiceOwned {
    fn from(value: ChannelPressure<[u32; 4]>) -> (r: Self) {
        Midi1ChannelVoiceOwned::ChannelPressure(value)
    }
}

impl FromSpecImpl<ChannelPressure<[u32; 4]>> for Midi1ChannelVoiceOwned {
    open spec fn obeys_from_spec() -> bool {
        true
    }

    open spec fn from_spec(value: ChannelPressure<[u32; 4]>) -> Self {
        Midi1ChannelVoiceOwned::ChannelPressure(value)
    }
}

impl<'a> From<ChannelPressure<[u32; 4]>> for Midi1ChannelVoiceMessage<'a> {
    fn from(value: ChannelPressure<[u32; 4]>) -> (r: Self) {
        Midi1ChannelVoiceMessage::ChannelPressure(ChannelPressure(MessageData::Owned(value.0)))
    }
}

impl<'a> FromSpecImpl<ChannelPressure<[u32; 4]>> for Midi1ChannelVoiceMessage<'a> {
    open spec fn obeys_from_spec() -> bool {
        true
    }

    open spec fn from_spec(value: ChannelPressure<[u32; 4]>) -> Self {
        Midi1ChannelVoiceMessage::ChannelPressure(ChannelPressure(MessageData::Owned(value.0)))
    }
}

impl From<ControlChange<[u32; 4]>> for Midi1ChannelVoiceOwned {
    fn from(value: ControlChange<[u32; 4]>) -> (r: Self) {
        Midi1ChannelVoiceOwned::ControlChange(value)
    }
}

impl FromSpecImpl<ControlChange<[u32; 4]>> for Midi1ChannelVoiceOwned {
    open spec fn obeys_from_spec() -> bool {
        true
    }

    open spec fn from_spec(value: ControlChange<[u32; 4]>) -> Self {
        Midi1ChannelVoiceOwned::ControlChange(value)
    }
}

impl<'a> From<ControlChange<[u32; 4]>> for Midi1ChannelVoiceMessage<'a> {
    fn from(value: ControlChange<[u32; 4]>) -> (r: Self) {
        Midi1ChannelVoiceMessage::ControlChange(ControlChange(MessageData::Owned(value.0)))
    }
}

impl<'a> FromSpecImpl<ControlChange<[u32; 4]>> for Midi1ChannelVoiceMessage<'a> {
    open spec fn obeys_from_spec() -> bool {
        true
    }

    open spec fn from_spec(value: ControlChange<[u32; 4]>) -> Self {
        Midi1ChannelVoiceMessage::ControlChange(ControlChange(MessageData::Owned(value.0)))
    }
}

impl From<KeyPressure<[u32; 4]>> for Midi1ChannelVoiceOwned {
    fn from(value: KeyPressure<[u32; 4]>) -> (r: Self) {
        Midi1ChannelVoiceOwned::KeyPressure(value)
    }
}

impl FromSpecImpl<KeyPressure<[u32; 4]>> for Midi1ChannelVoiceOwned {
    open spec fn obeys_from_spec() -> bool {
        true
    }

    open spec fn from_spec(value: KeyPressure<[u32; 4]>) -> Self {
        Midi1ChannelVoiceOwned::KeyPressure(value)
    }
}

impl<'a> From<KeyPressure<[u32; 4]>> for Midi1ChannelVoiceMessage<'a> {
    fn from(value: KeyPressure<[u32; 4]>) -> (r: Self) {
        Midi1ChannelVoiceMessage::KeyPressure(KeyPressure(MessageData::Owned(value.0)))
    }
}

impl<'a> FromSpecImpl<KeyPressure<[u32; 4]>> for Midi1ChannelVoiceMessage<'a> {
    open spec fn obeys_from_spec() -> bool {
        true
    }

    open spec fn from_spec(value: KeyPressure<[u32; 4]>) -> Self {
        Midi1ChannelVoiceMessage::KeyPressure(KeyPressure(MessageData::Owned(value.0)))
    }
}

impl From<NoteOff<[u32; 4]>> for Midi1ChannelVoiceOwned {
    fn from(value: NoteOff<[u32; 4]>) -> (r: Self) {
        Midi1ChannelVoiceOwned::NoteOff(value)
    }
}

impl FromSpecImpl<NoteOff<[u32; 4]>> for Midi1ChannelVoiceOwned {
    open spec fn obeys_from_spec() -> bool {
        true
    }

    open spec fn from_spec(value: NoteOff<[u32; 4]>) -> Self {
        Midi1ChannelVoiceOwned::NoteOff(value)
    }
}

impl<'a> From<NoteOff<[u32; 4]>> for Midi1ChannelVoiceMessage<'a> {
    fn from(value: NoteOff<[u32; 4]>) -> (r: Self) {
        Midi1ChannelVoiceMessage::NoteOff(NoteOff(MessageData::Owned(value.0)))
    }
}

impl<'a> FromSpecImpl<NoteOff<[u32; 4]>> for Midi1ChannelVoiceMessage<'a> {
    open spec fn obeys_from_spec() -> bool {
        true
    }

    open spec fn from_spec(value: NoteOff<[u32; 4]>) -> Self {
        Midi1ChannelVoiceMessage::NoteOff(NoteOff(MessageData::Owned(value.0)))
    }
}

impl From<NoteOn<[u32; 4]>> for Midi1ChannelVoiceOwned {
    fn from(value: NoteOn<[u32; 4]>) -> (r: Self) {
        Midi1ChannelVoiceOwned::NoteOn(value)
    }
}

impl FromSpecImpl<NoteOn<[u32; 4]>> for Midi1ChannelVoiceOwned {
    open spec fn obeys_from_spec() -> bool {
        true
    }

    open spec fn from_spec(value: NoteOn<[u32; 4]>) -> Self {
        Midi1ChannelVoiceOwned::NoteOn(value)
    }
}

impl<'a> From<NoteOn<[u32; 4]>> for Midi1ChannelVoiceMessage<'a> {
    fn from(value: NoteOn<[u32; 4]>) -> (r: Self) {
        Midi1ChannelVoiceMessage::NoteOn(NoteOn(MessageData::Owned(value.0)))
    }
}

impl<'a> FromSpecImpl<NoteOn<[u32; 4]>> for Midi1ChannelVoiceMessage<'a> {
    open spec fn obeys_from_spec() -> bool {
        true
    }

    open spec fn from_spec(value: NoteOn<[u32; 4]>) -> Self {
        Midi1ChannelVoiceMessage::NoteOn(NoteOn(MessageData::Owned(value.0)))
    }
}

impl From<PitchBend<[u32; 4]>> for Midi1ChannelVoiceOwned {
    fn from(value: PitchBend<[u32; 4]>) -> (r: Self) {
        Midi1ChannelVoiceOwned::PitchBend(value)
    }
}

impl FromSpecImpl<PitchBend<[u32; 4]>> for Midi1ChannelVoiceOwned {
    open spec fn obeys_from_spec() -> bool {
        true
    }

    open spec fn from_spec(value: PitchBend<[u32; 4]>) -> Self {
        Midi1ChannelVoiceOwned::PitchBend(value)
    }
}

impl<'a> From<PitchBend<[u32; 4]>> for Midi1ChannelVoiceMessage<'a> {
    fn from(value: PitchBend<[u32; 4]>) -> (r: Self) {
        Midi1ChannelVoiceMessage::PitchBend(PitchBend(MessageData::Owned(value.0)))
    }
}

impl<'a> FromSpecImpl<PitchBend<[u32; 4]>> for Midi1ChannelVoiceMessage<'a> {
    open spec fn obeys_from_spec() -> bool {
        true
    }

    open spec fn from_spec(value: PitchBend<[u32; 4]>) -> Self {
        Midi1ChannelVoiceMessage::PitchBend(PitchBend(MessageData::Owned(value.0)))
    }
}

/// The discriminant of the family in its byte stream form.
pub open spec fn spec_byte_status(bytes: Seq<u8>) -> u32 {
    spec_read(bytes, channel_voice_status())
}

/// Reads the discriminant, and nothing else, from the first byte.
pub fn byte_status(bytes: &[u8]) -> (value: u8)
    requires
        bytes@.len() > 0,
    ensures
        value == spec_byte_status(bytes@),
{
    let raw = read_field(bytes, &channel_voice_status_schema());
    proof {
        crate::bit_ops::lemma_low_mask_bound(0);
    }
    raw as u8
}

/// The verdict on a byte sequence: that of the member its status names.
pub open spec fn spec_validate_bytes(bytes: Seq<u8>) -> Result<(), Error> {
    if bytes.len() < 1 {
        Err(Error::InvalidData(ERR_SLICE_TOO_SHORT))
    } else if spec_byte_status(bytes) == crate::channel_voice1::channel_pressure::STATUS {
        crate::channel_voice1::channel_pressure::spec_validate::<u8>(bytes)
    } else if spec_byte_status(bytes) == crate::channel_voice1::control_change::STATUS {
        crate::channel_voice1::control_change::spec_validate::<u8>(bytes)
    } else if spec_byte_status(bytes) == crate::channel_voice1::key_pressure::STATUS {
        crate::channel_voice1::key_pressure::spec_validate::<u8>(bytes)
    } else if spec_byte_status(bytes) == crate::channel_voice1::note_off::STATUS {
        crate::channel_voice1::note_off::spec_validate::<u8>(bytes)
    } else if spec_byte_status(bytes) == crate::channel_voice1::note_on::STATUS {
        crate::channel_voice1::note_on::spec_validate::<u8>(bytes)
    } else if spec_byte_status(bytes) == crate::channel_voice1::pitch_bend::STATUS {
        crate::channel_voice1::pitch_bend::spec_validate::<u8>(bytes)
    } else if spec_byte_status(bytes) == crate::channel_voice1::program_change::STATUS {
        crate::channel_voice1::program_change::spec_validate::<u8>(bytes)
    } else {
        Err(Error::InvalidData(ERR_UNKNOWN_CHANNEL_VOICE_STATUS))
    }
}

/// The packet a valid byte sequence converts to: a fresh packet of the
/// same kind with every field set to the value the bytes hold.
pub open spec fn spec_from_bytes(bytes: Seq<u8>) -> Seq<u32> {
    if spec_byte_status(bytes) == crate::channel_voice1::channel_pressure::STATUS {
        crate::channel_voice1::channel_pressure::spec_with_fields::<u32>(
            4,
            spec_read(bytes, crate::common_properties::group()),
            spec_read(bytes, crate::common_properties::channel()),
            spec_read(bytes, crate::channel_voice1::channel_pressure::pressure()),
        )
    } else if spec_byte_status(bytes) == crate::channel_voice1::control_change::STATUS {
        crate::channel_voice1::control_change::spec_with_fields::<u32>(
            4,
            spec_read(bytes, crate::common_properties::group()),
            spec_read(bytes, crate::common_properties::channel()),
            spec_read(bytes, crate::channel_voice1::control_change::control()),
            spec_read(bytes, crate::channel_voice1::control_change::control_data()),
        )
    } else if spec_byte_status(bytes) == crate::channel_voice1::key_pressure::STATUS {
        crate::channel_voice1::key_pressure::spec_with_fields::<u32>(
            4,
            spec_read(bytes, crate::common_properties::group()),
            spec_read(bytes, crate::common_properties::channel()),
            spec_read(bytes, crate::channel_voice1::key_pressure::note()),
            spec_read(bytes, crate::channel_voice1::key_pressure::pressure()),
        )
    } else if spec_byte_status(bytes) == crate::channel_voice1::note_off::STATUS {
        crate::channel_voice1::note_off::spec_with_fields::<u32>(
            4,
            spec_read(bytes, crate::common_properties::group()),
            spec_read(bytes, crate::common_properties::channel()),
            spec_read(bytes, crate::channel_voice1::note_off::note()),
            spec_read(bytes, crate::channel_voice1::note_off::velocity()),
        )
    } else if spec_byte_status(bytes) == crate::channel_voice1::note_on::STATUS {
        crate::channel_voice1::note_on::spec_with_fields::<u32>(
            4,
            spec_read(bytes, crate::common_properties::group()),
            spec_read(bytes, crate::common_properties::channel()),
            spec_read(bytes, crate::channel_voice1::note_on::note()),
            spec_read(bytes, crate::channel_voice1::note_on::velocity()),
        )
    } else if spec_byte_status(bytes) == crate::channel_voice1::pitch_bend::STATUS {
        crate::channel_voice1::pitch_bend::spec_with_fields::<u32>(
            4,
            spec_read(bytes, crate::common_properties::group()),
            spec_read(bytes, crate::common_properties::channel()),
            spec_read_u14(
                bytes,
                crate::channel_voice1::pitch_bend::bend_low(),
                crate::channel_voice1::pitch_bend::bend_high(),
            ),
        )
    } else {
        crate::channel_voice1::program_change::spec_with_fields::<u32>(
            4,
            spec_read(bytes, crate::common_properties::group()),
            spec_read(bytes, crate::common_properties::channel()),
            spec_read(bytes, crate::channel_voice1::program_change::program()),
        )
    }
}

/// Reads the status byte and runs the validation of the member it names.
pub fn validate_byte_data(buffer: &[u8]) -> (r: Result<(), Error>)
    ensures
        r == spec_validate_bytes(buffer@),
{
    if buffer.len() < 1 {
        return Err(Error::InvalidData(ERR_SLICE_TOO_SHORT));
    }
    let found = byte_status(buffer);
    if found == crate::channel_voice1::channel_pressure::STATUS {
        crate::channel_voice1::channel_pressure::validate::<u8>(buffer)
    } else if found == crate::channel_voice1::control_change::STATUS {
        crate::channel_voice1::control_change::validate::<u8>(buffer)
    } else if found == crate::channel_voice1::key_pressure::STATUS {
        crate::channel_voice1::key_pressure::validate::<u8>(buffer)
    } else if found == crate::channel_voice1::note_off::STATUS {
        crate::channel_voice1::note_off::validate::<u8>(buffer)
    } else if found == crate::channel_voice1::note_on::STATUS {
        crate::channel_voice1::note_on::validate::<u8>(buffer)
    } else if found == crate::channel_voice1::pitch_bend::STATUS {
        crate::channel_voice1::pitch_bend::validate::<u8>(buffer)
    } else if found == crate::channel_voice1::program_change::STATUS {
        crate::channel_voice1::program_change::validate::<u8>(buffer)
    } else {
        Err(Error::InvalidData(ERR_UNKNOWN_CHANNEL_VOICE_STATUS))
    }
}

impl Midi1ChannelVoiceOwned {
    /// Converts validated bytes into an owned packet of the same kind.
    pub fn from_byte_data_unchecked(buffer: &[u8]) -> (message: Self)
        requires
            spec_validate_bytes(buffer@) is Ok,
        ensures
            message.wf(),
            message.code() == spec_byte_status(buffer@),
            message.units() == spec_from_bytes(buffer@),
    {
        let found = byte_status(buffer);
        if found == crate::channel_voice1::channel_pressure::STATUS {
            Midi1ChannelVoiceOwned::ChannelPressure(
                ChannelPressure::<[u32; 4]>::from_bytes(ChannelPressure(buffer))
            )
        } else if found == crate::channel_voice1::control_change::STATUS {
            Midi1ChannelVoiceOwned::ControlChange(
                ControlChange::<[u32; 4]>::from_bytes(ControlChange(buffer))
            )
        } else if found == crate::channel_voice1::key_pressure::STATUS {
            Midi1ChannelVoiceOwned::KeyPressure(
                KeyPressure::<[u32; 4]>::from_bytes(KeyPressure(buffer))
            )
        } else if found == crate::channel_voice1::note_off::STATUS {
            Midi1ChannelVoiceOwned::NoteOff(NoteOff::<[u32; 4]>::from_bytes(NoteOff(buffer)))
        } else if found == crate::channel_voice1::note_on::STATUS {
            Midi1ChannelVoiceOwned::NoteOn(NoteOn::<[u32; 4]>::from_bytes(NoteOn(buffer)))
        } else if found == crate::channel_voice1::pitch_bend::STATUS {
            Midi1ChannelVoiceOwned::PitchBend(PitchBend::<[u32; 4]>::from_bytes(PitchBend(buffer)))
        } else {
            Midi1ChannelVoiceOwned::ProgramChange(
                ProgramChange::<[u32; 4]>::from_bytes(ProgramChange(buffer))
            )
        }
    }

    /// Parses bytes and converts them into an owned packet.
    pub fn from_byte_data(buffer: &[u8]) -> (r: Result<Self, Error>)
        ensures
            match spec_validate_bytes(buffer@) {
                Ok(()) => r is Ok && r->Ok_0.wf() && r->Ok_0.code() == spec_byte_status(buffer@)
                    && r->Ok_0.units() == spec_from_bytes(buffer@),
                Err(e) => r == Err::<Self, Error>(e),
            },
    {
        match validate_byte_data(buffer) {
            Ok(()) => Ok(Self::from_byte_data_unchecked(buffer)),
            Err(e) => Err(e),
        }
    }
}

impl<'a> Midi1ChannelVoiceMessage<'a> {
    /// The byte stream form of the message: a fresh byte message of the
    /// same kind with every field set to the value the packet holds,
    /// cut to the bytes the kind occupies.
    pub open spec fn spec_bytes(&self) -> Seq<u8> {
        match self {
            Midi1ChannelVoiceMessage::ChannelPressure(
                m
            ) => crate::channel_voice1::channel_pressure::spec_with_fields::<u8>(
                3,
                spec_read(m.0.units(), crate::common_properties::group()),
                spec_read(m.0.units(), crate::common_properties::channel()),
                spec_read(m.0.units(), crate::channel_voice1::channel_pressure::pressure()),
            ).subrange(0, 2),
            Midi1ChannelVoiceMessage::ControlChange(
                m
            ) => crate::channel_voice1::control_change::spec_with_fields::<u8>(
                3,
                spec_read(m.0.units(), crate::common_properties::group()),
                spec_read(m.0.units(), crate::common_properties::channel()),
                spec_read(m.0.units(), crate::channel_voice1::control_change::control()),
                spec_read(m.0.units(), crate::channel_voice1::control_change::control_data()),
            ).subrange(0, 3),
            Midi1ChannelVoiceMessage::KeyPressure(
                m
            ) => crate::channel_voice1::key_pressure::spec_with_fields::<u8>(
                3,
                spec_read(m.0.units(), crate::common_properties::group()),
                spec_read(m.0.units(), crate::common_properties::channel()),
                spec_read(m.0.units(), crate::channel_voice1::key_pressure::note()),
                spec_read(m.0.units(), crate::channel_voice1::key_pressure::pressure()),
            ).subrange(0, 3),
            Midi1ChannelVoiceMessage::NoteOff(
                m
            ) => crate::channel_voice1::note_off::spec_with_fields::<u8>(
                3,
                spec_read(m.0.units(), crate::common_properties::group()),
                spec_read(m.0.units(), crate::common_properties::channel()),
                spec_read(m.0.units(), crate::channel_voice1::note_off::note()),
                spec_read(m.0.units(), crate::channel_voice1::note_off::velocity()),
            ).subrange(0, 3),
            Midi1ChannelVoiceMessage::NoteOn(
                m
            ) => crate::channel_voice1::note_on::spec_with_fields::<u8>(
                3,
                spec_read(m.0.units(), crate::common_properties::group()),
                spec_read(m.0.units(), crate::common_properties::channel()),
                spec_read(m.0.units(), crate::channel_voice1::note_on::note()),
                spec_read(m.0.units(), crate::channel_voice1::note_on::velocity()),
            ).subrange(0, 3),
            Midi1ChannelVoiceMessage::PitchBend(
                m
            ) => crate::channel_voice1::pitch_bend::spec_with_fields::<u8>(
                3,
                spec_read(m.0.units(), crate::common_properties::group()),
                spec_read(m.0.units(), crate::common_properties::channel()),
                spec_read_u14(
                    m.0.units(),
                    crate::channel_voice1::pitch_bend::bend_low(),
                    crate::channel_voice1::pitch_bend::bend_high(),
                ),
            ).subrange(0, 3),
            Midi1ChannelVoiceMessage::ProgramChange(
                m
            ) => crate::channel_voice1::program_change::spec_with_fields::<u8>(
                3,
                spec_read(m.0.units(), crate::common_properties::group()),
                spec_read(m.0.units(), crate::common_properties::channel()),
                spec_read(m.0.units(), crate::channel_voice1::program_change::program()),
            ).subrange(0, 2),
        }
    }

    /// Writes the byte stream form of the message over the front of
    /// `buffer` and hands the written bytes back. Fails with
    /// `BufferOverflow`, leaving the buffer as it was, exactly when the
    /// buffer is too short.
    pub fn try_write_byte_data<'b>(&self, buffer: &'b mut [u8]) -> (r: Result<&'b mut [u8], Error>)
        requires
            self.wf(),
        ensures
            old(buffer)@.len() < self.spec_bytes().len() ==> r is Err && r->Err_0
                == Error::BufferOverflow && final(buffer)@ == old(buffer)@,
            old(buffer)@.len() >= self.spec_bytes().len() ==> r is Ok && r->Ok_0@
                == self.spec_bytes() && final(buffer)@ == final(r->Ok_0)@ + old(buffer)@.subrange(
                self.spec_bytes().len() as int,
                old(buffer)@.len() as int,
            ),
    {
        let bytes: [u8; 3] = match self {
            Midi1ChannelVoiceMessage::ChannelPressure(m) => ChannelPressure::<[u8; 3]>::from_ump(
                ChannelPressure(Buffer::as_slice(&m.0))
            ).0,
            Midi1ChannelVoiceMessage::ControlChange(m) => ControlChange::<[u8; 3]>::from_ump(
                ControlChange(Buffer::as_slice(&m.0))
            ).0,
            Midi1ChannelVoiceMessage::KeyPressure(m) => KeyPressure::<[u8; 3]>::from_ump(
                KeyPressure(Buffer::as_slice(&m.0))
            ).0,
            Midi1ChannelVoiceMessage::NoteOff(m) => NoteOff::<[u8; 3]>::from_ump(
                NoteOff(Buffer::as_slice(&m.0))
            ).0,
            Midi1ChannelVoiceMessage::NoteOn(m) => NoteOn::<[u8; 3]>::from_ump(
                NoteOn(Buffer::as_slice(&m.0))
            ).0,
            Midi1ChannelVoiceMessage::PitchBend(m) => PitchBend::<[u8; 3]>::from_ump(
                PitchBend(Buffer::as_slice(&m.0))
            ).0,
            Midi1ChannelVoiceMessage::ProgramChange(m) => ProgramChange::<[u8; 3]>::from_ump(
                ProgramChange(Buffer::as_slice(&m.0))
            ).0,
        };
        let size: usize = match self {
            Midi1ChannelVoiceMessage::ChannelPressure(_) => 2,
            Midi1ChannelVoiceMessage::ControlChange(_) => 3,
            Midi1ChannelVoiceMessage::KeyPressure(_) => 3,
            Midi1ChannelVoiceMessage::NoteOff(_) => 3,
            Midi1ChannelVoiceMessage::NoteOn(_) => 3,
            Midi1ChannelVoiceMessage::PitchBend(_) => 3,
            Midi1ChannelVoiceMessage::ProgramChange(_) => 2,
        };
        write_front(buffer, vstd::slice::slice_subrange(bytes.as_slice(), 0, size))
    }
}

impl<'a> Midi1ChannelVoiceBorrowed<'a> {
    /// The byte stream form of the message: a fresh byte message of the
    /// same kind with every field set to the value the packet holds,
    /// cut to the bytes the kind occupies.
    pub open spec fn spec_bytes(&self) -> Seq<u8> {
        match self {
            Midi1ChannelVoiceBorrowed::ChannelPressure(
                m
            ) => crate::channel_voice1::channel_pressure::spec_with_fields::<u8>(
                3,
                spec_read(m.0.units(), crate::common_properties::group()),
                spec_read(m.0.units(), crate::common_properties::channel()),
                spec_read(m.0.units(), crate::channel_voice1::channel_pressure::pressure()),
            ).subrange(0, 2),
            Midi1ChannelVoiceBorrowed::ControlChange(
                m
            ) => crate::channel_voice1::control_change::spec_with_fields::<u8>(
                3,
                spec_read(m.0.units(), crate::common_properties::group()),
                spec_read(m.0.units(), crate::common_properties::channel()),
                spec_read(m.0.units(), crate::channel_voice1::control_change::control()),
                spec_read(m.0.units(), crate::channel_voice1::control_change::control_data()),
            ).subrange(0, 3),
            Midi1ChannelVoiceBorrowed::KeyPressure(
                m
            ) => crate::channel_voice1::key_pressure::spec_with_fields::<u8>(
                3,
                spec_read(m.0.units(), crate::common_properties::group()),
                spec_read(m.0.units(), crate::common_properties::channel()),
                spec_read(m.0.units(), crate::channel_voice1::key_pressure::note()),
                spec_read(m.0.units(), crate::channel_voice1::key_pressure::pressure()),
            ).subrange(0, 3),
            Midi1ChannelVoiceBorrowed::NoteOff(
                m
            ) => crate::channel_voice1::note_off::spec_with_fields::<u8>(
                3,
                spec_read(m.0.units(), crate::common_properties::group()),
                spec_read(m.0.units(), crate::common_properties::channel()),
                spec_read(m.0.units(), crate::channel_voice1::note_off::note()),
                spec_read(m.0.units(), crate::channel_voice1::note_off::velocity()),
            ).subrange(0, 3),
            Midi1ChannelVoiceBorrowed::NoteOn(
                m
            ) => crate::channel_voice1::note_on::spec_with_fields::<u8>(
                3,
                spec_read(m.0.units(), crate::common_properties::group()),
                spec_read(m.0.units(), crate::common_properties::channel()),
                spec_read(m.0.units(), crate::channel_voice1::note_on::note()),
                spec_read(m.0.units(), crate::channel_voice1::note_on::velocity()),
            ).subrange(0, 3),
            Midi1ChannelVoiceBorrowed::PitchBend(
                m
            ) => crate::channel_voice1::pitch_bend::spec_with_fields::<u8>(
                3,
                spec_read(m.0.units(), crate::common_properties::group()),
                spec_read(m.0.units(), crate::common_properties::channel()),
                spec_read_u14(
                    m.0.units(),
                    crate::channel_voice1::pitch_bend::bend_low(),
                    crate::channel_voice1::pitch_bend::bend_high(),
                ),
            ).subrange(0, 3),
            Midi1ChannelVoiceBorrowed::ProgramChange(
                m
            ) => crate::channel_voice1::program_change::spec_with_fields::<u8>(
                3,
                spec_read(m.0.units(), crate::common_properties::group()),
                spec_read(m.0.units(), crate::common_properties::channel()),
                spec_read(m.0.units(), crate::channel_voice1::program_change::program()),
            ).subrange(0, 2),
        }
    }

    /// Writes the byte stream form of the message over the front of
    /// `buffer` and hands the written bytes back. Fails with
    /// `BufferOverflow`, leaving the buffer as it was, exactly when the
    /// buffer is too short.
    pub fn try_write_byte_data<'b>(&self, buffer: &'b mut [u8]) -> (r: Result<&'b mut [u8], Error>)
        requires
            self.wf(),
        ensures
            old(buffer)@.len() < self.spec_bytes().len() ==> r is Err && r->Err_0
                == Error::BufferOverflow && final(buffer)@ == old(buffer)@,
            old(buffer)@.len() >= self.spec_bytes().len() ==> r is Ok && r->Ok_0@
                == self.spec_bytes() && final(buffer)@ == final(r->Ok_0)@ + old(buffer)@.subrange(
                self.spec_bytes().len() as int,
                old(buffer)@.len() as int,
            ),
    {
        let bytes: [u8; 3] = match self {
            Midi1ChannelVoiceBorrowed::ChannelPressure(m) => ChannelPressure::<[u8; 3]>::from_ump(
                ChannelPressure(Buffer::as_slice(&m.0))
            ).0,
            Midi1ChannelVoiceBorrowed::ControlChange(m) => ControlChange::<[u8; 3]>::from_ump(
                ControlChange(Buffer::as_slice(&m.0))
            ).0,
            Midi1ChannelVoiceBorrowed::KeyPressure(m) => KeyPressure::<[u8; 3]>::from_ump(
                KeyPressure(Buffer::as_slice(&m.0))
            ).0,
            Midi1ChannelVoiceBorrowed::NoteOff(m) => NoteOff::<[u8; 3]>::from_ump(
                NoteOff(Buffer::as_slice(&m.0))
            ).0,
            Midi1ChannelVoiceBorrowed::NoteOn(m) => NoteOn::<[u8; 3]>::from_ump(
                NoteOn(Buffer::as_slice(&m.0))
            ).0,
            Midi1ChannelVoiceBorrowed::PitchBend(m) => PitchBend::<[u8; 3]>::from_ump(
                PitchBend(Buffer::as_slice(&m.0))
            ).0,
            Midi1ChannelVoiceBorrowed::ProgramChange(m) => ProgramChange::<[u8; 3]>::from_ump(
                ProgramChange(Buffer::as_slice(&m.0))
            ).0,
        };
        let size: usize = match self {
            Midi1ChannelVoiceBorrowed::ChannelPressure(_) => 2,
            Midi1ChannelVoiceBorrowed::ControlChange(_) => 3,
            Midi1ChannelVoiceBorrowed::KeyPressure(_) => 3,
            Midi1ChannelVoiceBorrowed::NoteOff(_) => 3,
            Midi1ChannelVoiceBorrowed::NoteOn(_) => 3,
            Midi1ChannelVoiceBorrowed::PitchBend(_) => 3,
            Midi1ChannelVoiceBorrowed::ProgramChange(_) => 2,
        };
        write_front(buffer, vstd::slice::slice_subrange(bytes.as_slice(), 0, size))
    }
}

impl Midi1ChannelVoiceOwned {
    /// The byte stream form of the message: a fresh byte message of the
    /// same kind with every field set to the value the packet holds,
    /// cut to the bytes the kind occupies.
    pub open spec fn spec_bytes(&self) -> Seq<u8> {
        match self {
            Midi1ChannelVoiceOwned::ChannelPressure(
                m
            ) => crate::channel_voice1::channel_pressure::spec_with_fields::<u8>(
                3,
                spec_read(m.0.units(), crate::common_properties::group()),
                spec_read(m.0.units(), crate::common_properties::channel()),
                spec_read(m.0.units(), crate::channel_voice1::channel_pressure::pressure()),
            ).subrange(0, 2),
            Midi1ChannelVoiceOwned::ControlChange(
                m
            ) => crate::channel_voice1::control_change::spec_with_fields::<u8>(
                3,
                spec_read(m.0.units(), crate::common_properties::group()),
                spec_read(m.0.units(), crate::common_properties::channel()),
                spec_read(m.0.units(), crate::channel_voice1::control_change::control()),
                spec_read(m.0.units(), crate::channel_voice1::control_change::control_data()),
            ).subrange(0, 3),
            Midi1ChannelVoiceOwned::KeyPressure(
                m
            ) => crate::channel_voice1::key_pressure::spec_with_fields::<u8>(
                3,
                spec_read(m.0.units(), crate::common_properties::group()),
                spec_read(m.0.units(), crate::common_properties::channel()),
                spec_read(m.0.units(), crate::channel_voice1::key_pressure::note()),
                spec_read(m.0.units(), crate::channel_voice1::key_pressure::pressure()),
            ).subrange(0, 3),
            Midi1ChannelVoiceOwned::NoteOff(
                m
            ) => crate::channel_voice1::note_off::spec_with_fields::<u8>(
                3,
                spec_read(m.0.units(), crate::common_properties::group()),
                spec_read(m.0.units(), crate::common_properties::channel()),
                spec_read(m.0.units(), crate::channel_voice1::note_off::note()),
                spec_read(m.0.units(), crate::channel_voice1::note_off::velocity()),
            ).subrange(0, 3),
            Midi1ChannelVoiceOwned::NoteOn(
                m
            ) => crate::channel_voice1::note_on::spec_with_fields::<u8>(
                3,
                spec_read(m.0.units(), crate::common_properties::group()),
                spec_read(m.0.units(), crate::common_properties::channel()),
                spec_read(m.0.units(), crate::channel_voice1::note_on::note()),
                spec_read(m.0.units(), crate::channel_voice1::note_on::velocity()),
            ).subrange(0, 3),
            Midi1ChannelVoiceOwned::PitchBend(
                m
            ) => crate::channel_voice1::pitch_bend::spec_with_fields::<u8>(
                3,
                spec_read(m.0.units(), crate::common_properties::group()),
                spec_read(m.0.units(), crate::common_properties::channel()),
                spec_read_u14(
                    m.0.units(),
                    crate::channel_voice1::pitch_bend::bend_low(),
                    crate::channel_voice1::pitch_bend::bend_high(),
                ),
            ).subrange(0, 3),
            Midi1ChannelVoiceOwned::ProgramChange(
                m
            ) => crate::channel_voice1::program_change::spec_with_fields::<u8>(
                3,
                spec_read(m.0.units(), crate::common_properties::group()),
                spec_read(m.0.units(), crate::common_properties::channel()),
                spec_read(m.0.units(), crate::channel_voice1::program_change::program()),
            ).subrange(0, 2),
        }
    }

    /// Writes the byte stream form of the message over the front of
    /// `buffer` and hands the written bytes back. Fails with
    /// `BufferOverflow`, leaving the buffer as it was, exactly when the
    /// buffer is too short.
    pub fn try_write_byte_data<'b>(&self, buffer: &'b mut [u8]) -> (r: Result<&'b mut [u8], Error>)
        requires
            self.wf(),
        ensures
            old(buffer)@.len() < self.spec_bytes().len() ==> r is Err && r->Err_0
                == Error::BufferOverflow && final(buffer)@ == old(buffer)@,
            old(buffer)@.len() >= self.spec_bytes().len() ==> r is Ok && r->Ok_0@
                == self.spec_bytes() && final(buffer)@ == final(r->Ok_0)@ + old(buffer)@.subrange(
                self.spec_bytes().len() as int,
                old(buffer)@.len() as int,
            ),
    {
        let bytes: [u8; 3] = match self {
            Midi1ChannelVoiceOwned::ChannelPressure(m) => ChannelPressure::<[u8; 3]>::from_ump(
                ChannelPressure(Buffer::as_slice(&m.0))
            ).0,
            Midi1ChannelVoiceOwned::ControlChange(m) => ControlChange::<[u8; 3]>::from_ump(
                ControlChange(Buffer::as_slice(&m.0))
            ).0,
            Midi1ChannelVoiceOwned::KeyPressure(m) => KeyPressure::<[u8; 3]>::from_ump(
                KeyPressure(Buffer::as_slice(&m.0))
            ).0,
            Midi1ChannelVoiceOwned::NoteOff(m) => NoteOff::<[u8; 3]>::from_ump(
                NoteOff(Buffer::as_slice(&m.0))
            ).0,
            Midi1ChannelVoiceOwned::NoteOn(m) => NoteOn::<[u8; 3]>::from_ump(
                NoteOn(Buffer::as_slice(&m.0))
            ).0,
            Midi1ChannelVoiceOwned::PitchBend(m) => PitchBend::<[u8; 3]>::from_ump(
                PitchBend(Buffer::as_slice(&m.0))
            ).0,
            Midi1ChannelVoiceOwned::ProgramChange(m) => ProgramChange::<[u8; 3]>::from_ump(
                ProgramChange(Buffer::as_slice(&m.0))
            ).0,
        };
        let size: usize = match self {
            Midi1ChannelVoiceOwned::ChannelPressure(_) => 2,
            Midi1ChannelVoiceOwned::ControlChange(_) => 3,
            Midi1ChannelVoiceOwned::KeyPressure(_) => 3,
            Midi1ChannelVoiceOwned::NoteOff(_) => 3,
            Midi1ChannelVoiceOwned::NoteOn(_) => 3,
            Midi1ChannelVoiceOwned::PitchBend(_) => 3,
            Midi1ChannelVoiceOwned::ProgramChange(_) => 2,
        };
        write_front(buffer, vstd::slice::slice_subrange(bytes.as_slice(), 0, size))
    }
}

} // verus!
