//! The MIDI 2.0 channel voice messages in their ownership-qualified forms, the union of
//! them, and the builder that starts any of them.

use vstd::prelude::*;
use vstd::std_specs::convert::{FromSpec, FromSpecImpl};
use channel_pitch_bend::ChannelPitchBendBuilder;
use channel_pressure::ChannelPressureBuilder;
use control_change::ControlChangeBuilder;
use crate::buffer::{Buffer, MessageData};
use crate::channel_voice2::assignable_controller::AssignableController;
use crate::channel_voice2::channel_pitch_bend::ChannelPitchBend;
use crate::channel_voice2::channel_pressure::ChannelPressure;
use crate::channel_voice2::control_change::ControlChange;
use crate::channel_voice2::note_off::NoteOff;
use crate::channel_voice2::note_on::NoteOn;
use crate::common_properties::{channel_voice_status, channel_voice_status_schema};
use crate::error::{ERR_SLICE_TOO_SHORT, ERR_UNKNOWN_MIDI2_CHANNEL_VOICE_STATUS, Error};
use crate::property::{owned_words, rebuffered};
use crate::schema::{read_field, spec_read};
use note_off::NoteOffBuilder;
use note_on::NoteOnBuilder;

pub mod assignable_controller;
pub mod attribute;
pub mod channel_pitch_bend;
pub mod channel_pressure;
pub mod control_change;
pub mod note;
pub mod note_off;
pub mod note_on;

verus! {

/// Any MIDI 2.0 channel voice message, borrowed or owned.
#[derive(Clone, Debug, PartialEq, Eq)]
#[non_exhaustive]
pub enum Midi2ChannelVoiceMessage<'a> {
    AssignableController(AssignableController<MessageData<'a>>),
    ChannelPitchBend(ChannelPitchBend<MessageData<'a>>),
    ChannelPressure(ChannelPressure<MessageData<'a>>),
    ControlChange(ControlChange<MessageData<'a>>),
    NoteOff(NoteOff<MessageData<'a>>),
    NoteOn(NoteOn<MessageData<'a>>),
}

/// Any MIDI 2.0 channel voice message over borrowed words.
#[derive(Clone, Debug, PartialEq, Eq)]
#[non_exhaustive]
pub enum Midi2ChannelVoiceBorrowed<'a> {
    AssignableController(AssignableController<&'a [u32]>),
    ChannelPitchBend(ChannelPitchBend<&'a [u32]>),
    ChannelPressure(ChannelPressure<&'a [u32]>),
    ControlChange(ControlChange<&'a [u32]>),
    NoteOff(NoteOff<&'a [u32]>),
    NoteOn(NoteOn<&'a [u32]>),
}

/// Any MIDI 2.0 channel voice message that owns its words.
#[derive(Clone, Debug, PartialEq, Eq)]
#[non_exhaustive]
pub enum Midi2ChannelVoiceOwned {
    AssignableController(AssignableController<[u32; 4]>),
    ChannelPitchBend(ChannelPitchBend<[u32; 4]>),
    ChannelPressure(ChannelPressure<[u32; 4]>),
    ControlChange(ControlChange<[u32; 4]>),
    NoteOff(NoteOff<[u32; 4]>),
    NoteOn(NoteOn<[u32; 4]>),
}

/// The starting point for building any MIDI 2.0 channel voice message; `M` is the type the
/// finished message is handed out as.
pub struct Midi2ChannelVoiceBuilder<M>(pub core::marker::PhantomData<M>);

impl<M> Midi2ChannelVoiceBuilder<M> where
    M: From<ChannelPitchBend<[u32; 4]>>
        + From<ChannelPressure<[u32; 4]>>
        + From<ControlChange<[u32; 4]>>
        + From<NoteOff<[u32; 4]>>
        + From<NoteOn<[u32; 4]>>,
 {
    /// The builder holds nothing: it only fixes the type of the result.
    pub fn new() -> (builder: Self)
        ensures
            builder == Midi2ChannelVoiceBuilder::<M>(core::marker::PhantomData),
    {
        Midi2ChannelVoiceBuilder(core::marker::PhantomData)
    }

    pub fn channel_pitch_bend(self) -> (builder: ChannelPitchBendBuilder<M>)
        ensures
            builder.wf()
                && builder.state() == Ok::<Seq<u32>, Error>(
                    crate::channel_voice2::channel_pitch_bend::spec_new::<u32>(4)
                ),
    {
        ChannelPitchBendBuilder::new()
    }

    pub fn channel_pressure(self) -> (builder: ChannelPressureBuilder<M>)
        ensures
            builder.wf()
                && builder.state() == Ok::<Seq<u32>, Error>(
                    crate::channel_voice2::channel_pressure::spec_new::<u32>(4)
                ),
    {
        ChannelPressureBuilder::new()
    }

    pub fn control_change(self) -> (builder: ControlChangeBuilder<M>)
        ensures
            builder.wf()
                && builder.state() == Ok::<Seq<u32>, Error>(
                    crate::channel_voice2::control_change::spec_new::<u32>(4)
                ),
    {
        ControlChangeBuilder::new()
    }

    pub fn note_off(self) -> (builder: NoteOffBuilder<M>)
        ensures
            builder.wf()
                && builder.state() == Ok::<Seq<u32>, Error>(
                    crate::channel_voice2::note_off::spec_new::<u32>(4)
                ),
    {
        NoteOffBuilder::new()
    }

    pub fn note_on(self) -> (builder: NoteOnBuilder<M>)
        ensures
            builder.wf()
                && builder.state() == Ok::<Seq<u32>, Error>(
                    crate::channel_voice2::note_on::spec_new::<u32>(4)
                ),
    {
        NoteOnBuilder::new()
    }
}

impl<M> Default for Midi2ChannelVoiceBuilder<M> where
    M: From<ChannelPitchBend<[u32; 4]>>
        + From<ChannelPressure<[u32; 4]>>
        + From<ControlChange<[u32; 4]>>
        + From<NoteOff<[u32; 4]>>
        + From<NoteOn<[u32; 4]>>,
 {
    fn default() -> (builder: Self)
        ensures
            builder == Midi2ChannelVoiceBuilder::<M>(core::marker::PhantomData),
    {
        Midi2ChannelVoiceBuilder(core::marker::PhantomData)
    }
}

impl Midi2ChannelVoiceOwned {
    /// The starting point for building a message of this type.
    pub fn builder() -> (builder: Midi2ChannelVoiceBuilder<Self>)
        ensures
            builder == Midi2ChannelVoiceBuilder::<Self>(core::marker::PhantomData),
    {
        Midi2ChannelVoiceBuilder::new()
    }
}

impl<'a> Midi2ChannelVoiceMessage<'a> {
    /// The starting point for building a message of this type.
    pub fn builder() -> (builder: Midi2ChannelVoiceBuilder<Self>)
        ensures
            builder == Midi2ChannelVoiceBuilder::<Self>(core::marker::PhantomData),
    {
        Midi2ChannelVoiceBuilder::new()
    }
}

/// The field that tells the MIDI 2.0 channel voice messages apart.
pub open spec fn spec_status(units: Seq<u32>) -> u32 {
    spec_read(units, channel_voice_status())
}

/// Reads the discriminant, and nothing else, from the first word.
pub fn status(units: &[u32]) -> (value: u8)
    requires
        units@.len() > 0,
    ensures
        value == spec_status(units@),
{
    let raw = read_field(units, &channel_voice_status_schema());
    proof {
        crate::bit_ops::lemma_low_mask_bound(0);
    }
    raw as u8
}

/// Whether a discriminant value names a member of the union.
pub open spec fn is_defined(status: u32) -> bool {
    status == crate::channel_voice2::assignable_controller::STATUS
    || status == crate::channel_voice2::channel_pitch_bend::STATUS
    || status == crate::channel_voice2::channel_pressure::STATUS
    || status == crate::channel_voice2::control_change::STATUS
    || status == crate::channel_voice2::note_off::STATUS
    || status == crate::channel_voice2::note_on::STATUS
}

/// The verdict on a word sequence: that of the member its discriminant
/// names. A discriminant that names none is `InvalidData`, as is an
/// empty sequence.
pub open spec fn spec_validate(units: Seq<u32>) -> Result<(), Error> {
    if units.len() < 1 {
        Err(Error::InvalidData(ERR_SLICE_TOO_SHORT))
    } else if spec_status(units) == crate::channel_voice2::assignable_controller::STATUS {
        crate::channel_voice2::assignable_controller::spec_validate::<u32>(units)
    } else if spec_status(units) == crate::channel_voice2::channel_pitch_bend::STATUS {
        crate::channel_voice2::channel_pitch_bend::spec_validate::<u32>(units)
    } else if spec_status(units) == crate::channel_voice2::channel_pressure::STATUS {
        crate::channel_voice2::channel_pressure::spec_validate::<u32>(units)
    } else if spec_status(units) == crate::channel_voice2::control_change::STATUS {
        crate::channel_voice2::control_change::spec_validate::<u32>(units)
    } else if spec_status(units) == crate::channel_voice2::note_off::STATUS {
        crate::channel_voice2::note_off::spec_validate::<u32>(units)
    } else if spec_status(units) == crate::channel_voice2::note_on::STATUS {
        crate::channel_voice2::note_on::spec_validate::<u32>(units)
    } else {
        Err(Error::InvalidData(ERR_UNKNOWN_MIDI2_CHANNEL_VOICE_STATUS))
    }
}

/// Reads the discriminant and runs the validation of the member it names.
pub fn validate_data(buffer: &[u32]) -> (r: Result<(), Error>)
    ensures
        r == spec_validate(buffer@),
{
    if buffer.len() < 1 {
        return Err(Error::InvalidData(ERR_SLICE_TOO_SHORT));
    }
    let found = status(buffer);
    if found == crate::channel_voice2::assignable_controller::STATUS {
        crate::channel_voice2::assignable_controller::validate::<u32>(buffer)
    } else if found == crate::channel_voice2::channel_pitch_bend::STATUS {
        crate::channel_voice2::channel_pitch_bend::validate::<u32>(buffer)
    } else if found == crate::channel_voice2::channel_pressure::STATUS {
        crate::channel_voice2::channel_pressure::validate::<u32>(buffer)
    } else if found == crate::channel_voice2::control_change::STATUS {
        crate::channel_voice2::control_change::validate::<u32>(buffer)
    } else if found == crate::channel_voice2::note_off::STATUS {
        crate::channel_voice2::note_off::validate::<u32>(buffer)
    } else if found == crate::channel_voice2::note_on::STATUS {
        crate::channel_voice2::note_on::validate::<u32>(buffer)
    } else {
        Err(Error::InvalidData(ERR_UNKNOWN_MIDI2_CHANNEL_VOICE_STATUS))
    }
}

impl<'a> Midi2ChannelVoiceMessage<'a> {
    /// The words of the underlying buffer.
    pub open spec fn units(&self) -> Seq<u32> {
        match self {
            Midi2ChannelVoiceMessage::AssignableController(m) => m.0.units(),
            Midi2ChannelVoiceMessage::ChannelPitchBend(m) => m.0.units(),
            Midi2ChannelVoiceMessage::ChannelPressure(m) => m.0.units(),
            Midi2ChannelVoiceMessage::ControlChange(m) => m.0.units(),
            Midi2ChannelVoiceMessage::NoteOff(m) => m.0.units(),
            Midi2ChannelVoiceMessage::NoteOn(m) => m.0.units(),
        }
    }

    /// The message inside is a valid message of its kind.
    pub open spec fn wf(&self) -> bool {
        match self {
            Midi2ChannelVoiceMessage::AssignableController(m) => m.wf(),
            Midi2ChannelVoiceMessage::ChannelPitchBend(m) => m.wf(),
            Midi2ChannelVoiceMessage::ChannelPressure(m) => m.wf(),
            Midi2ChannelVoiceMessage::ControlChange(m) => m.wf(),
            Midi2ChannelVoiceMessage::NoteOff(m) => m.wf(),
            Midi2ChannelVoiceMessage::NoteOn(m) => m.wf(),
        }
    }

    /// The discriminant of the member inside.
    pub open spec fn code(&self) -> u32 {
        match self {
            Midi2ChannelVoiceMessage::AssignableController(
                _
            ) => crate::channel_voice2::assignable_controller::STATUS as u32,
            Midi2ChannelVoiceMessage::ChannelPitchBend(
                _
            ) => crate::channel_voice2::channel_pitch_bend::STATUS as u32,
            Midi2ChannelVoiceMessage::ChannelPressure(
                _
            ) => crate::channel_voice2::channel_pressure::STATUS as u32,
            Midi2ChannelVoiceMessage::ControlChange(
                _
            ) => crate::channel_voice2::control_change::STATUS as u32,
            Midi2ChannelVoiceMessage::NoteOff(_) => crate::channel_voice2::note_off::STATUS as u32,
            Midi2ChannelVoiceMessage::NoteOn(_) => crate::channel_voice2::note_on::STATUS as u32,
        }
    }

    /// The words the message occupies.
    pub open spec fn spec_data(&self) -> Seq<u32> {
        match self {
            Midi2ChannelVoiceMessage::AssignableController(m) => m.0.units().subrange(0, 2),
            Midi2ChannelVoiceMessage::ChannelPitchBend(m) => m.0.units().subrange(0, 2),
            Midi2ChannelVoiceMessage::ChannelPressure(m) => m.0.units().subrange(0, 2),
            Midi2ChannelVoiceMessage::ControlChange(m) => m.0.units().subrange(0, 2),
            Midi2ChannelVoiceMessage::NoteOff(m) => m.0.units().subrange(0, 2),
            Midi2ChannelVoiceMessage::NoteOn(m) => m.0.units().subrange(0, 2),
        }
    }

    /// The words of the owned copy of the message.
    pub open spec fn spec_owned(&self) -> Seq<u32> {
        match self {
            Midi2ChannelVoiceMessage::AssignableController(m) => owned_words(m.0, 2),
            Midi2ChannelVoiceMessage::ChannelPitchBend(m) => owned_words(m.0, 2),
            Midi2ChannelVoiceMessage::ChannelPressure(m) => owned_words(m.0, 2),
            Midi2ChannelVoiceMessage::ControlChange(m) => owned_words(m.0, 2),
            Midi2ChannelVoiceMessage::NoteOff(m) => owned_words(m.0, 2),
            Midi2ChannelVoiceMessage::NoteOn(m) => owned_words(m.0, 2),
        }
    }

    /// The message a validated slice is taken as: the member its
    /// discriminant names, over that slice.
    pub open spec fn spec_from_data(buffer: &'a [u32]) -> Self {
        if spec_status(buffer@) == crate::channel_voice2::assignable_controller::STATUS {
            Midi2ChannelVoiceMessage::AssignableController(
                AssignableController(MessageData::Borrowed(AssignableController(buffer).0))
            )
        } else if spec_status(buffer@) == crate::channel_voice2::channel_pitch_bend::STATUS {
            Midi2ChannelVoiceMessage::ChannelPitchBend(
                ChannelPitchBend(MessageData::Borrowed(ChannelPitchBend(buffer).0))
            )
        } else if spec_status(buffer@) == crate::channel_voice2::channel_pressure::STATUS {
            Midi2ChannelVoiceMessage::ChannelPressure(
                ChannelPressure(MessageData::Borrowed(ChannelPressure(buffer).0))
            )
        } else if spec_status(buffer@) == crate::channel_voice2::control_change::STATUS {
            Midi2ChannelVoiceMessage::ControlChange(
                ControlChange(MessageData::Borrowed(ControlChange(buffer).0))
            )
        } else if spec_status(buffer@) == crate::channel_voice2::note_off::STATUS {
            Midi2ChannelVoiceMessage::NoteOff(NoteOff(MessageData::Borrowed(NoteOff(buffer).0)))
        } else {
            Midi2ChannelVoiceMessage::NoteOn(NoteOn(MessageData::Borrowed(NoteOn(buffer).0)))
        }
    }

    /// Validates that a slice holds a message of the union.
    pub fn validate_data(buffer: &'a [u32]) -> (r: Result<(), Error>)
        ensures
            r == spec_validate(buffer@),
    {
        validate_data(buffer)
    }

    /// Takes a validated slice as the member its discriminant names.
    pub fn from_data_unchecked(buffer: &'a [u32]) -> (message: Self)
        requires
            spec_validate(buffer@) is Ok,
        ensures
            message == Self::spec_from_data(buffer),
            message.wf(),
            message.units() == buffer@,
            message.code() == spec_status(buffer@),
    {
        Midi2ChannelVoiceMessage::from(Midi2ChannelVoiceBorrowed::from_data_unchecked(buffer))
    }

    /// Parses a slice: the member its discriminant names if the slice
    /// validates as that member, else the first failure.
    pub fn from_data(buffer: &'a [u32]) -> (r: Result<Self, Error>)
        ensures
            match spec_validate(buffer@) {
                Ok(()) => r == Ok::<Self, Error>(Self::spec_from_data(buffer)),
                Err(e) => r == Err::<Self, Error>(e),
            },
    {
        match validate_data(buffer) {
            Ok(()) => Ok(Self::from_data_unchecked(buffer)),
            Err(e) => Err(e),
        }
    }

    /// The words the message occupies.
    pub fn data(&self) -> (data: &[u32])
        requires
            self.wf(),
        ensures
            data@ == self.spec_data(),
    {
        match self {
            Midi2ChannelVoiceMessage::AssignableController(m) => m.data(),
            Midi2ChannelVoiceMessage::ChannelPitchBend(m) => m.data(),
            Midi2ChannelVoiceMessage::ChannelPressure(m) => m.data(),
            Midi2ChannelVoiceMessage::ControlChange(m) => m.data(),
            Midi2ChannelVoiceMessage::NoteOff(m) => m.data(),
            Midi2ChannelVoiceMessage::NoteOn(m) => m.data(),
        }
    }

    /// The message with its words owned; the member is kept.
    pub fn into_owned(self) -> (owned: Midi2ChannelVoiceOwned)
        requires
            self.wf(),
        ensures
            owned.wf(),
            owned.code() == self.code(),
            owned.units() == self.spec_owned(),
    {
        match self {
            Midi2ChannelVoiceMessage::AssignableController(
                m
            ) => Midi2ChannelVoiceOwned::AssignableController(
                m.into_owned()
            ),
            Midi2ChannelVoiceMessage::ChannelPitchBend(
                m
            ) => Midi2ChannelVoiceOwned::ChannelPitchBend(
                m.into_owned()
            ),
            Midi2ChannelVoiceMessage::ChannelPressure(m) => Midi2ChannelVoiceOwned::ChannelPressure(
                m.into_owned()
            ),
            Midi2ChannelVoiceMessage::ControlChange(m) => Midi2ChannelVoiceOwned::ControlChange(
                m.into_owned()
            ),
            Midi2ChannelVoiceMessage::NoteOff(m) => Midi2ChannelVoiceOwned::NoteOff(m.into_owned()),
            Midi2ChannelVoiceMessage::NoteOn(m) => Midi2ChannelVoiceOwned::NoteOn(m.into_owned()),
        }
    }
}

impl<'a> Midi2ChannelVoiceBorrowed<'a> {
    /// The words of the underlying buffer.
    pub open spec fn units(&self) -> Seq<u32> {
        match self {
            Midi2ChannelVoiceBorrowed::AssignableController(m) => m.0.units(),
            Midi2ChannelVoiceBorrowed::ChannelPitchBend(m) => m.0.units(),
            Midi2ChannelVoiceBorrowed::ChannelPressure(m) => m.0.units(),
            Midi2ChannelVoiceBorrowed::ControlChange(m) => m.0.units(),
            Midi2ChannelVoiceBorrowed::NoteOff(m) => m.0.units(),
            Midi2ChannelVoiceBorrowed::NoteOn(m) => m.0.units(),
        }
    }

    /// The message inside is a valid message of its kind.
    pub open spec fn wf(&self) -> bool {
        match self {
            Midi2ChannelVoiceBorrowed::AssignableController(m) => m.wf(),
            Midi2ChannelVoiceBorrowed::ChannelPitchBend(m) => m.wf(),
            Midi2ChannelVoiceBorrowed::ChannelPressure(m) => m.wf(),
            Midi2ChannelVoiceBorrowed::ControlChange(m) => m.wf(),
            Midi2ChannelVoiceBorrowed::NoteOff(m) => m.wf(),
            Midi2ChannelVoiceBorrowed::NoteOn(m) => m.wf(),
        }
    }

    /// The discriminant of the member inside.
    pub open spec fn code(&self) -> u32 {
        match self {
            Midi2ChannelVoiceBorrowed::AssignableController(
                _
            ) => crate::channel_voice2::assignable_controller::STATUS as u32,
            Midi2ChannelVoiceBorrowed::ChannelPitchBend(
                _
            ) => crate::channel_voice2::channel_pitch_bend::STATUS as u32,
            Midi2ChannelVoiceBorrowed::ChannelPressure(
                _
            ) => crate::channel_voice2::channel_pressure::STATUS as u32,
            Midi2ChannelVoiceBorrowed::ControlChange(
                _
            ) => crate::channel_voice2::control_change::STATUS as u32,
            Midi2ChannelVoiceBorrowed::NoteOff(_) => crate::channel_voice2::note_off::STATUS as u32,
            Midi2ChannelVoiceBorrowed::NoteOn(_) => crate::channel_voice2::note_on::STATUS as u32,
        }
    }

    /// The words the message occupies.
    pub open spec fn spec_data(&self) -> Seq<u32> {
        match self {
            Midi2ChannelVoiceBorrowed::AssignableController(m) => m.0.units().subrange(0, 2),
            Midi2ChannelVoiceBorrowed::ChannelPitchBend(m) => m.0.units().subrange(0, 2),
            Midi2ChannelVoiceBorrowed::ChannelPressure(m) => m.0.units().subrange(0, 2),
            Midi2ChannelVoiceBorrowed::ControlChange(m) => m.0.units().subrange(0, 2),
            Midi2ChannelVoiceBorrowed::NoteOff(m) => m.0.units().subrange(0, 2),
            Midi2ChannelVoiceBorrowed::NoteOn(m) => m.0.units().subrange(0, 2),
        }
    }

    /// The words of the owned copy of the message.
    pub open spec fn spec_owned(&self) -> Seq<u32> {
        match self {
            Midi2ChannelVoiceBorrowed::AssignableController(m) => rebuffered::<[u32; 4]>(
                m.0.units().subrange(0, 2)
            ),
            Midi2ChannelVoiceBorrowed::ChannelPitchBend(m) => rebuffered::<[u32; 4]>(
                m.0.units().subrange(0, 2)
            ),
            Midi2ChannelVoiceBorrowed::ChannelPressure(m) => rebuffered::<[u32; 4]>(
                m.0.units().subrange(0, 2)
            ),
            Midi2ChannelVoiceBorrowed::ControlChange(m) => rebuffered::<[u32; 4]>(
                m.0.units().subrange(0, 2)
            ),
            Midi2ChannelVoiceBorrowed::NoteOff(m) => rebuffered::<[u32; 4]>(
                m.0.units().subrange(0, 2)
            ),
            Midi2ChannelVoiceBorrowed::NoteOn(m) => rebuffered::<[u32; 4]>(
                m.0.units().subrange(0, 2)
            ),
        }
    }

    /// The message a validated slice is taken as: the member its
    /// discriminant names, over that slice.
    pub open spec fn spec_from_data(buffer: &'a [u32]) -> Self {
        if spec_status(buffer@) == crate::channel_voice2::assignable_controller::STATUS {
            Midi2ChannelVoiceBorrowed::AssignableController(AssignableController(buffer))
        } else if spec_status(buffer@) == crate::channel_voice2::channel_pitch_bend::STATUS {
            Midi2ChannelVoiceBorrowed::ChannelPitchBend(ChannelPitchBend(buffer))
        } else if spec_status(buffer@) == crate::channel_voice2::channel_pressure::STATUS {
            Midi2ChannelVoiceBorrowed::ChannelPressure(ChannelPressure(buffer))
        } else if spec_status(buffer@) == crate::channel_voice2::control_change::STATUS {
            Midi2ChannelVoiceBorrowed::ControlChange(ControlChange(buffer))
        } else if spec_status(buffer@) == crate::channel_voice2::note_off::STATUS {
            Midi2ChannelVoiceBorrowed::NoteOff(NoteOff(buffer))
        } else {
            Midi2ChannelVoiceBorrowed::NoteOn(NoteOn(buffer))
        }
    }

    /// Validates that a slice holds a message of the union.
    pub fn validate_data(buffer: &'a [u32]) -> (r: Result<(), Error>)
        ensures
            r == spec_validate(buffer@),
    {
        validate_data(buffer)
    }

    /// Takes a validated slice as the member its discriminant names.
    pub fn from_data_unchecked(buffer: &'a [u32]) -> (message: Self)
        requires
            spec_validate(buffer@) is Ok,
        ensures
            message == Self::spec_from_data(buffer),
            message.wf(),
            message.units() == buffer@,
            message.code() == spec_status(buffer@),
    {
        let found = status(buffer);
        if found == crate::channel_voice2::assignable_controller::STATUS {
            Midi2ChannelVoiceBorrowed::AssignableController(AssignableController(buffer))
        } else if found == crate::channel_voice2::channel_pitch_bend::STATUS {
            Midi2ChannelVoiceBorrowed::ChannelPitchBend(ChannelPitchBend(buffer))
        } else if found == crate::channel_voice2::channel_pressure::STATUS {
            Midi2ChannelVoiceBorrowed::ChannelPressure(ChannelPressure(buffer))
        } else if found == crate::channel_voice2::control_change::STATUS {
            Midi2ChannelVoiceBorrowed::ControlChange(ControlChange(buffer))
        } else if found == crate::channel_voice2::note_off::STATUS {
            Midi2ChannelVoiceBorrowed::NoteOff(NoteOff(buffer))
        } else {
            Midi2ChannelVoiceBorrowed::NoteOn(NoteOn(buffer))
        }
    }

    /// Parses a slice: the member its discriminant names if the slice
    /// validates as that member, else the first failure.
    pub fn from_data(buffer: &'a [u32]) -> (r: Result<Self, Error>)
        ensures
            match spec_validate(buffer@) {
                Ok(()) => r == Ok::<Self, Error>(Self::spec_from_data(buffer)),
                Err(e) => r == Err::<Self, Error>(e),
            },
    {
        match validate_data(buffer) {
            Ok(()) => Ok(Self::from_data_unchecked(buffer)),
            Err(e) => Err(e),
        }
    }

    /// The words the message occupies.
    pub fn data(&self) -> (data: &[u32])
        requires
            self.wf(),
        ensures
            data@ == self.spec_data(),
    {
        match self {
            Midi2ChannelVoiceBorrowed::AssignableController(m) => m.data(),
            Midi2ChannelVoiceBorrowed::ChannelPitchBend(m) => m.data(),
            Midi2ChannelVoiceBorrowed::ChannelPressure(m) => m.data(),
            Midi2ChannelVoiceBorrowed::ControlChange(m) => m.data(),
            Midi2ChannelVoiceBorrowed::NoteOff(m) => m.data(),
            Midi2ChannelVoiceBorrowed::NoteOn(m) => m.data(),
        }
    }

    /// The message with its words owned; the member is kept.
    pub fn into_owned(self) -> (owned: Midi2ChannelVoiceOwned)
        requires
            self.wf(),
        ensures
            owned.wf(),
            owned.code() == self.code(),
            owned.units() == self.spec_owned(),
    {
        match self {
            Midi2ChannelVoiceBorrowed::AssignableController(
                m
            ) => Midi2ChannelVoiceOwned::AssignableController(
                m.rebuffer_into::<[u32; 4]>()
            ),
            Midi2ChannelVoiceBorrowed::ChannelPitchBend(
                m
            ) => Midi2ChannelVoiceOwned::ChannelPitchBend(
                m.rebuffer_into::<[u32; 4]>()
            ),
            Midi2ChannelVoiceBorrowed::ChannelPressure(
                m
            ) => Midi2ChannelVoiceOwned::ChannelPressure(
                m.rebuffer_into::<[u32; 4]>()
            ),
            Midi2ChannelVoiceBorrowed::ControlChange(m) => Midi2ChannelVoiceOwned::ControlChange(
                m.rebuffer_into::<[u32; 4]>()
            ),
            Midi2ChannelVoiceBorrowed::NoteOff(m) => Midi2ChannelVoiceOwned::NoteOff(
                m.rebuffer_into::<[u32; 4]>()
            ),
            Midi2ChannelVoiceBorrowed::NoteOn(m) => Midi2ChannelVoiceOwned::NoteOn(
                m.rebuffer_into::<[u32; 4]>()
            ),
        }
    }
}

impl Midi2ChannelVoiceOwned {
    /// The words of the underlying buffer.
    pub open spec fn units(&self) -> Seq<u32> {
        match self {
            Midi2ChannelVoiceOwned::AssignableController(m) => m.0.units(),
            Midi2ChannelVoiceOwned::ChannelPitchBend(m) => m.0.units(),
            Midi2ChannelVoiceOwned::ChannelPressure(m) => m.0.units(),
            Midi2ChannelVoiceOwned::ControlChange(m) => m.0.units(),
            Midi2ChannelVoiceOwned::NoteOff(m) => m.0.units(),
            Midi2ChannelVoiceOwned::NoteOn(m) => m.0.units(),
        }
    }

    /// The message inside is a valid message of its kind.
    pub open spec fn wf(&self) -> bool {
        match self {
            Midi2ChannelVoiceOwned::AssignableController(m) => m.wf(),
            Midi2ChannelVoiceOwned::ChannelPitchBend(m) => m.wf(),
            Midi2ChannelVoiceOwned::ChannelPressure(m) => m.wf(),
            Midi2ChannelVoiceOwned::ControlChange(m) => m.wf(),
            Midi2ChannelVoiceOwned::NoteOff(m) => m.wf(),
            Midi2ChannelVoiceOwned::NoteOn(m) => m.wf(),
        }
    }

    /// The discriminant of the member inside.
    pub open spec fn code(&self) -> u32 {
        match self {
            Midi2ChannelVoiceOwned::AssignableController(
                _
            ) => crate::channel_voice2::assignable_controller::STATUS as u32,
            Midi2ChannelVoiceOwned::ChannelPitchBend(
                _
            ) => crate::channel_voice2::channel_pitch_bend::STATUS as u32,
            Midi2ChannelVoiceOwned::ChannelPressure(
                _
            ) => crate::channel_voice2::channel_pressure::STATUS as u32,
            Midi2ChannelVoiceOwned::ControlChange(
                _
            ) => crate::channel_voice2::control_change::STATUS as u32,
            Midi2ChannelVoiceOwned::NoteOff(_) => crate::channel_voice2::note_off::STATUS as u32,
            Midi2ChannelVoiceOwned::NoteOn(_) => crate::channel_voice2::note_on::STATUS as u32,
        }
    }

    /// The words the message occupies.
    pub open spec fn spec_data(&self) -> Seq<u32> {
        match self {
            Midi2ChannelVoiceOwned::AssignableController(m) => m.0.units().subrange(0, 2),
            Midi2ChannelVoiceOwned::ChannelPitchBend(m) => m.0.units().subrange(0, 2),
            Midi2ChannelVoiceOwned::ChannelPressure(m) => m.0.units().subrange(0, 2),
            Midi2ChannelVoiceOwned::ControlChange(m) => m.0.units().subrange(0, 2),
            Midi2ChannelVoiceOwned::NoteOff(m) => m.0.units().subrange(0, 2),
            Midi2ChannelVoiceOwned::NoteOn(m) => m.0.units().subrange(0, 2),
        }
    }

    /// The words the message occupies.
    pub fn data(&self) -> (data: &[u32])
        requires
            self.wf(),
        ensures
            data@ == self.spec_data(),
    {
        match self {
            Midi2ChannelVoiceOwned::AssignableController(m) => m.data(),
            Midi2ChannelVoiceOwned::ChannelPitchBend(m) => m.data(),
            Midi2ChannelVoiceOwned::ChannelPressure(m) => m.data(),
            Midi2ChannelVoiceOwned::ControlChange(m) => m.data(),
            Midi2ChannelVoiceOwned::NoteOff(m) => m.data(),
            Midi2ChannelVoiceOwned::NoteOn(m) => m.data(),
        }
    }
}

/// Routing is by discriminant alone: a sequence that validates holds a
/// discriminant that names a member, and a sequence whose discriminant
/// names none never validates.
pub proof fn lemma_routing(units: Seq<u32>)
    ensures
        spec_validate(units) is Ok ==> units.len() >= 1 && is_defined(spec_status(units)),
        units.len() >= 1 && !is_defined(spec_status(units)) ==> spec_validate(units) == Err::<
            (),
            Error,
        >(Error::InvalidData(ERR_UNKNOWN_MIDI2_CHANNEL_VOICE_STATUS)),
        units.len() >= 1
            && spec_status(
                units
            ) == crate::channel_voice2::assignable_controller::STATUS ==> spec_validate(units)
            == crate::channel_voice2::assignable_controller::spec_validate::<u32>(units),
        units.len() >= 1
            && spec_status(
                units
            ) == crate::channel_voice2::channel_pitch_bend::STATUS ==> spec_validate(units)
            == crate::channel_voice2::channel_pitch_bend::spec_validate::<u32>(units),
        units.len() >= 1
            && spec_status(
                units
            ) == crate::channel_voice2::channel_pressure::STATUS ==> spec_validate(units)
            == crate::channel_voice2::channel_pressure::spec_validate::<u32>(units),
        units.len() >= 1
            && spec_status(
                units
            ) == crate::channel_voice2::control_change::STATUS ==> spec_validate(units)
            == crate::channel_voice2::control_change::spec_validate::<u32>(units),
        units.len() >= 1
            && spec_status(
                units
            ) == crate::channel_voice2::note_off::STATUS ==> spec_validate(units)
            == crate::channel_voice2::note_off::spec_validate::<u32>(units),
        units.len() >= 1
            && spec_status(units) == crate::channel_voice2::note_on::STATUS ==> spec_validate(units)
            == crate::channel_voice2::note_on::spec_validate::<u32>(units),
{
}

impl<'a> Midi2ChannelVoiceMessage<'a> {
    /// The message that a borrowed one becomes: the same member, still borrowed.
    pub open spec fn spec_from_borrowed(value: Midi2ChannelVoiceBorrowed<'a>) -> Self {
        match value {
            Midi2ChannelVoiceBorrowed::AssignableController(
                m
            ) => Midi2ChannelVoiceMessage::AssignableController(
                AssignableController(MessageData::Borrowed(m.0))
            ),
            Midi2ChannelVoiceBorrowed::ChannelPitchBend(
                m
            ) => Midi2ChannelVoiceMessage::ChannelPitchBend(
                ChannelPitchBend(MessageData::Borrowed(m.0))
            ),
            Midi2ChannelVoiceBorrowed::ChannelPressure(
                m
            ) => Midi2ChannelVoiceMessage::ChannelPressure(
                ChannelPressure(MessageData::Borrowed(m.0))
            ),
            Midi2ChannelVoiceBorrowed::ControlChange(m) => Midi2ChannelVoiceMessage::ControlChange(
                ControlChange(MessageData::Borrowed(m.0))
            ),
            Midi2ChannelVoiceBorrowed::NoteOff(m) => Midi2ChannelVoiceMessage::NoteOff(
                NoteOff(MessageData::Borrowed(m.0))
            ),
            Midi2ChannelVoiceBorrowed::NoteOn(m) => Midi2ChannelVoiceMessage::NoteOn(
                NoteOn(MessageData::Borrowed(m.0))
            ),
        }
    }

    /// The message that an owned one becomes: the same member, still owned.
    pub open spec fn spec_from_owned(value: Midi2ChannelVoiceOwned) -> Self {
        match value {
            Midi2ChannelVoiceOwned::AssignableController(
                m
            ) => Midi2ChannelVoiceMessage::AssignableController(
                AssignableController(MessageData::Owned(m.0))
            ),
            Midi2ChannelVoiceOwned::ChannelPitchBend(
                m
            ) => Midi2ChannelVoiceMessage::ChannelPitchBend(
                ChannelPitchBend(MessageData::Owned(m.0))
            ),
            Midi2ChannelVoiceOwned::ChannelPressure(m) => Midi2ChannelVoiceMessage::ChannelPressure(
                ChannelPressure(MessageData::Owned(m.0))
            ),
            Midi2ChannelVoiceOwned::ControlChange(m) => Midi2ChannelVoiceMessage::ControlChange(
                ControlChange(MessageData::Owned(m.0))
            ),
            Midi2ChannelVoiceOwned::NoteOff(m) => Midi2ChannelVoiceMessage::NoteOff(
                NoteOff(MessageData::Owned(m.0))
            ),
            Midi2ChannelVoiceOwned::NoteOn(m) => Midi2ChannelVoiceMessage::NoteOn(
                NoteOn(MessageData::Owned(m.0))
            ),
        }
    }
}

/// An owned message taken as a message and made owned again is the
/// message it was: the same member, the same words, as valid as before.
pub proof fn lemma_owned_round_trip(owned: Midi2ChannelVoiceOwned)
    ensures
        Midi2ChannelVoiceMessage::spec_from_owned(owned).spec_owned() == owned.units(),
        Midi2ChannelVoiceMessage::spec_from_owned(owned).units() == owned.units(),
        Midi2ChannelVoiceMessage::spec_from_owned(owned).code() == owned.code(),
        Midi2ChannelVoiceMessage::spec_from_owned(owned).wf() == owned.wf(),
{
}

impl<'a> From<Midi2ChannelVoiceBorrowed<'a>> for Midi2ChannelVoiceMessage<'a> {
    fn from(value: Midi2ChannelVoiceBorrowed<'a>) -> (r: Self) {
        match value {
            Midi2ChannelVoiceBorrowed::AssignableController(
                m
            ) => Midi2ChannelVoiceMessage::AssignableController(
                AssignableController(MessageData::Borrowed(m.0))
            ),
            Midi2ChannelVoiceBorrowed::ChannelPitchBend(
                m
            ) => Midi2ChannelVoiceMessage::ChannelPitchBend(
                ChannelPitchBend(MessageData::Borrowed(m.0))
            ),
            Midi2ChannelVoiceBorrowed::ChannelPressure(
                m
            ) => Midi2ChannelVoiceMessage::ChannelPressure(
                ChannelPressure(MessageData::Borrowed(m.0))
            ),
            Midi2ChannelVoiceBorrowed::ControlChange(m) => Midi2ChannelVoiceMessage::ControlChange(
                ControlChange(MessageData::Borrowed(m.0))
            ),
            Midi2ChannelVoiceBorrowed::NoteOff(m) => Midi2ChannelVoiceMessage::NoteOff(
                NoteOff(MessageData::Borrowed(m.0))
            ),
            Midi2ChannelVoiceBorrowed::NoteOn(m) => Midi2ChannelVoiceMessage::NoteOn(
                NoteOn(MessageData::Borrowed(m.0))
            ),
        }
    }
}

impl<'a> FromSpecImpl<Midi2ChannelVoiceBorrowed<'a>> for Midi2ChannelVoiceMessage<'a> {
    open spec fn obeys_from_spec() -> bool {
        true
    }

    open spec fn from_spec(value: Midi2ChannelVoiceBorrowed<'a>) -> Self {
        Midi2ChannelVoiceMessage::spec_from_borrowed(value)
    }
}

impl<'a> From<Midi2ChannelVoiceOwned> for Midi2ChannelVoiceMessage<'a> {
    fn from(value: Midi2ChannelVoiceOwned) -> (r: Self) {
        match value {
            Midi2ChannelVoiceOwned::AssignableController(
                m
            ) => Midi2ChannelVoiceMessage::AssignableController(
                AssignableController(MessageData::Owned(m.0))
            ),
            Midi2ChannelVoiceOwned::ChannelPitchBend(
                m
            ) => Midi2ChannelVoiceMessage::ChannelPitchBend(
                ChannelPitchBend(MessageData::Owned(m.0))
            ),
            Midi2ChannelVoiceOwned::ChannelPressure(m) => Midi2ChannelVoiceMessage::ChannelPressure(
                ChannelPressure(MessageData::Owned(m.0))
            ),
            Midi2ChannelVoiceOwned::ControlChange(m) => Midi2ChannelVoiceMessage::ControlChange(
                ControlChange(MessageData::Owned(m.0))
            ),
            Midi2ChannelVoiceOwned::NoteOff(m) => Midi2ChannelVoiceMessage::NoteOff(
                NoteOff(MessageData::Owned(m.0))
            ),
            Midi2ChannelVoiceOwned::NoteOn(m) => Midi2ChannelVoiceMessage::NoteOn(
                NoteOn(MessageData::Owned(m.0))
            ),
        }
    }
}

impl<'a> FromSpecImpl<Midi2ChannelVoiceOwned> for Midi2ChannelVoiceMessage<'a> {
    open spec fn obeys_from_spec() -> bool {
        true
    }

    open spec fn from_spec(value: Midi2ChannelVoiceOwned) -> Self {
        Midi2ChannelVoiceMessage::spec_from_owned(value)
    }
}

impl From<ChannelPitchBend<[u32; 4]>> for Midi2ChannelVoiceOwned {
    fn from(value: ChannelPitchBend<[u32; 4]>) -> (r: Self) {
        Midi2ChannelVoiceOwned::ChannelPitchBend(value)
    }
}

impl FromSpecImpl<ChannelPitchBend<[u32; 4]>> for Midi2ChannelVoiceOwned {
    open spec fn obeys_from_spec() -> bool {
        true
    }

    open spec fn from_spec(value: ChannelPitchBend<[u32; 4]>) -> Self {
        Midi2ChannelVoiceOwned::ChannelPitchBend(value)
    }
}

impl<'a> From<ChannelPitchBend<[u32; 4]>> for Midi2ChannelVoiceMessage<'a> {
    fn from(value: ChannelPitchBend<[u32; 4]>) -> (r: Self) {
        Midi2ChannelVoiceMessage::ChannelPitchBend(ChannelPitchBend(MessageData::Owned(value.0)))
    }
}

impl<'a> FromSpecImpl<ChannelPitchBend<[u32; 4]>> for Midi2ChannelVoiceMessage<'a> {
    open spec fn obeys_from_spec() -> bool {
        true
    }

    open spec fn from_spec(value: ChannelPitchBend<[u32; 4]>) -> Self {
        Midi2ChannelVoiceMessage::ChannelPitchBend(ChannelPitchBend(MessageData::Owned(value.0)))
    }
}

impl From<ChannelPressure<[u32; 4]>> for Midi2ChannelVoiceOwned {
    fn from(value: ChannelPressure<[u32; 4]>) -> (r: Self) {
        Midi2ChannelVoiceOwned::ChannelPressure(value)
    }
}

impl FromSpecImpl<ChannelPressure<[u32; 4]>> for Midi2ChannelVoiceOwned {
    open spec fn obeys_from_spec() -> bool {
        true
    }

    open spec fn from_spec(value: ChannelPressure<[u32; 4]>) -> Self {
        Midi2ChannelVoiceOwned::ChannelPressure(value)
    }
}

impl<'a> From<ChannelPressure<[u32; 4]>> for Midi2ChannelVoiceMessage<'a> {
    fn from(value: ChannelPressure<[u32; 4]>) -> (r: Self) {
        Midi2ChannelVoiceMessage::ChannelPressure(ChannelPressure(MessageData::Owned(value.0)))
    }
}

impl<'a> FromSpecImpl<ChannelPressure<[u32; 4]>> for Midi2ChannelVoiceMessage<'a> {
    open spec fn obeys_from_spec() -> bool {
        true
    }

    open spec fn from_spec(value: ChannelPressure<[u32; 4]>) -> Self {
        Midi2ChannelVoiceMessage::ChannelPressure(ChannelPressure(MessageData::Owned(value.0)))
    }
}

impl From<ControlChange<[u32; 4]>> for Midi2ChannelVoiceOwned {
    fn from(value: ControlChange<[u32; 4]>) -> (r: Self) {
        Midi2ChannelVoiceOwned::ControlChange(value)
    }
}

impl FromSpecImpl<ControlChange<[u32; 4]>> for Midi2ChannelVoiceOwned {
    open spec fn obeys_from_spec() -> bool {
        true
    }

    open spec fn from_spec(value: ControlChange<[u32; 4]>) -> Self {
        Midi2ChannelVoiceOwned::ControlChange(value)
    }
}

impl<'a> From<ControlChange<[u32; 4]>> for Midi2ChannelVoiceMessage<'a> {
    fn from(value: ControlChange<[u32; 4]>) -> (r: Self) {
        Midi2ChannelVoiceMessage::ControlChange(ControlChange(MessageData::Owned(value.0)))
    }
}

impl<'a> FromSpecImpl<ControlChange<[u32; 4]>> for Midi2ChannelVoiceMessage<'a> {
    open spec fn obeys_from_spec() -> bool {
        true
    }

    open spec fn from_spec(value: ControlChange<[u32; 4]>) -> Self {
        Midi2ChannelVoiceMessage::ControlChange(ControlChange(MessageData::Owned(value.0)))
    }
}

impl From<NoteOff<[u32; 4]>> for Midi2ChannelVoiceOwned {
    fn from(value: NoteOff<[u32; 4]>) -> (r: Self) {
        Midi2ChannelVoiceOwned::NoteOff(value)
    }
}

impl FromSpecImpl<NoteOff<[u32; 4]>> for Midi2ChannelVoiceOwned {
    open spec fn obeys_from_spec() -> bool {
        true
    }

    open spec fn from_spec(value: NoteOff<[u32; 4]>) -> Self {
        Midi2ChannelVoiceOwned::NoteOff(value)
    }
}

impl<'a> From<NoteOff<[u32; 4]>> for Midi2ChannelVoiceMessage<'a> {
    fn from(value: NoteOff<[u32; 4]>) -> (r: Self) {
        Midi2ChannelVoiceMessage::NoteOff(NoteOff(MessageData::Owned(value.0)))
    }
}

impl<'a> FromSpecImpl<NoteOff<[u32; 4]>> for Midi2ChannelVoiceMessage<'a> {
    open spec fn obeys_from_spec() -> bool {
        true
    }

    open spec fn from_spec(value: NoteOff<[u32; 4]>) -> Self {
        Midi2ChannelVoiceMessage::NoteOff(NoteOff(MessageData::Owned(value.0)))
    }
}

impl From<NoteOn<[u32; 4]>> for Midi2ChannelVoiceOwned {
    fn from(value: NoteOn<[u32; 4]>) -> (r: Self) {
        Midi2ChannelVoiceOwned::NoteOn(value)
    }
}

impl FromSpecImpl<NoteOn<[u32; 4]>> for Midi2ChannelVoiceOwned {
    open spec fn obeys_from_spec() -> bool {
        true
    }

    open spec fn from_spec(value: NoteOn<[u32; 4]>) -> Self {
        Midi2ChannelVoiceOwned::NoteOn(value)
    }
}

impl<'a> From<NoteOn<[u32; 4]>> for Midi2ChannelVoiceMessage<'a> {
    fn from(value: NoteOn<[u32; 4]>) -> (r: Self) {
        Midi2ChannelVoiceMessage::NoteOn(NoteOn(MessageData::Owned(value.0)))
    }
}

impl<'a> FromSpecImpl<NoteOn<[u32; 4]>> for Midi2ChannelVoiceMessage<'a> {
    open spec fn obeys_from_spec() -> bool {
        true
    }

    open spec fn from_spec(value: NoteOn<[u32; 4]>) -> Self {
        Midi2ChannelVoiceMessage::NoteOn(NoteOn(MessageData::Owned(value.0)))
    }
}

} // verus!
