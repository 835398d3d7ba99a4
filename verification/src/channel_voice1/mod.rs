//! The MIDI 1.0 channel voice messages, in packet form and in byte form.

use vstd::prelude::*;
use vstd::std_specs::convert::{FromSpec, FromSpecImpl};
use crate::buffer::{Buffer, BufferMut};
use crate::common_properties::{channel_voice_status, channel_voice_status_schema};
use crate::error::{ERR_SLICE_TOO_SHORT, ERR_UNKNOWN_CHANNEL_VOICE_STATUS, Error};
use crate::numeric_types::U4;
use crate::property::has_room;
use crate::schema::{min_size, read_field, spec_read, Unit};

pub mod channel_pressure;
pub mod control_change;
pub mod key_pressure;
pub mod note_off;
pub mod note_on;
pub mod pitch_bend;
pub mod program_change;

pub use channel_pressure::ChannelPressure;
pub use control_change::ControlChange;
pub use key_pressure::KeyPressure;
pub use note_off::NoteOff;
pub use note_on::NoteOn;
pub use pitch_bend::PitchBend;
pub use program_change::ProgramChange;

verus! {

/// The message-type nibble of MIDI 1.0 channel voice packets.
pub const UMP_MESSAGE_TYPE: u8 = 0x2;

/// Any MIDI 1.0 channel voice message.
#[derive(Clone, Debug, PartialEq, Eq)]
#[non_exhaustive]
pub enum ChannelVoice1<B: Buffer> {
    ChannelPressure(ChannelPressure<B>),
    ControlChange(ControlChange<B>),
    KeyPressure(KeyPressure<B>),
    NoteOff(NoteOff<B>),
    NoteOn(NoteOn<B>),
    PitchBend(PitchBend<B>),
    ProgramChange(ProgramChange<B>),
}

/// The discriminant of the family, as found in a unit sequence.
pub open spec fn spec_status<U: Unit>(units: Seq<U>) -> u32 {
    spec_read(units, channel_voice_status())
}

/// Reads the discriminant, and nothing else, from the front of a buffer.
pub fn status<U: Unit>(units: &[U]) -> (value: u8)
    requires
        units@.len() > 0,
    ensures
        value == spec_status(units@),
{
    let raw = read_field(units, &channel_voice_status_schema());
    proof {
        crate::bit_ops::lemma_low_mask_bound(0);
    }
    raw as u8
}

/// Whether a discriminant value names a message kind of the family.
pub open spec fn is_defined(status: u32) -> bool {
    status == channel_pressure::STATUS
    || status == control_change::STATUS
    || status == key_pressure::STATUS
    || status == note_off::STATUS
    || status == note_on::STATUS
    || status == pitch_bend::STATUS
    || status == program_change::STATUS
}

impl<B: Buffer> ChannelVoice1<B> {
    /// What parsing a buffer yields: the kind its discriminant names, if
    /// the buffer validates as that kind.
    pub open spec fn spec_try_from(buffer: B) -> Result<Self, Error> {
        let units = buffer.units();
        if units.len() < 1 {
            Err(Error::InvalidData(ERR_SLICE_TOO_SHORT))
        } else if spec_status(units) == channel_pressure::STATUS {
            match channel_pressure::spec_validate(units) {
                Ok(()) => Ok(ChannelVoice1::ChannelPressure(ChannelPressure(buffer))),
                Err(e) => Err(e),
            }
        } else if spec_status(units) == control_change::STATUS {
            match control_change::spec_validate(units) {
                Ok(()) => Ok(ChannelVoice1::ControlChange(ControlChange(buffer))),
                Err(e) => Err(e),
            }
        } else if spec_status(units) == key_pressure::STATUS {
            match key_pressure::spec_validate(units) {
                Ok(()) => Ok(ChannelVoice1::KeyPressure(KeyPressure(buffer))),
                Err(e) => Err(e),
            }
        } else if spec_status(units) == note_off::STATUS {
            match note_off::spec_validate(units) {
                Ok(()) => Ok(ChannelVoice1::NoteOff(NoteOff(buffer))),
                Err(e) => Err(e),
            }
        } else if spec_status(units) == note_on::STATUS {
            match note_on::spec_validate(units) {
                Ok(()) => Ok(ChannelVoice1::NoteOn(NoteOn(buffer))),
                Err(e) => Err(e),
            }
        } else if spec_status(units) == pitch_bend::STATUS {
            match pitch_bend::spec_validate(units) {
                Ok(()) => Ok(ChannelVoice1::PitchBend(PitchBend(buffer))),
                Err(e) => Err(e),
            }
        } else if spec_status(units) == program_change::STATUS {
            match program_change::spec_validate(units) {
                Ok(()) => Ok(ChannelVoice1::ProgramChange(ProgramChange(buffer))),
                Err(e) => Err(e),
            }
        } else {
            Err(Error::InvalidData(ERR_UNKNOWN_CHANNEL_VOICE_STATUS))
        }
    }

    /// The message inside is a valid message of its kind.
    pub open spec fn wf(&self) -> bool {
        match self {
            ChannelVoice1::ChannelPressure(m) => m.wf(),
            ChannelVoice1::ControlChange(m) => m.wf(),
            ChannelVoice1::KeyPressure(m) => m.wf(),
            ChannelVoice1::NoteOff(m) => m.wf(),
            ChannelVoice1::NoteOn(m) => m.wf(),
            ChannelVoice1::PitchBend(m) => m.wf(),
            ChannelVoice1::ProgramChange(m) => m.wf(),
        }
    }

    /// The units of the underlying buffer.
    pub open spec fn units(&self) -> Seq<B::Unit> {
        match self {
            ChannelVoice1::ChannelPressure(m) => m.0.units(),
            ChannelVoice1::ControlChange(m) => m.0.units(),
            ChannelVoice1::KeyPressure(m) => m.0.units(),
            ChannelVoice1::NoteOff(m) => m.0.units(),
            ChannelVoice1::NoteOn(m) => m.0.units(),
            ChannelVoice1::PitchBend(m) => m.0.units(),
            ChannelVoice1::ProgramChange(m) => m.0.units(),
        }
    }

    /// The number of units the message inside occupies.
    pub open spec fn size(&self) -> usize {
        match self {
            ChannelVoice1::ChannelPressure(_) => min_size::<B::Unit>(channel_pressure::sizes()),
            ChannelVoice1::ControlChange(_) => min_size::<B::Unit>(control_change::sizes()),
            ChannelVoice1::KeyPressure(_) => min_size::<B::Unit>(key_pressure::sizes()),
            ChannelVoice1::NoteOff(_) => min_size::<B::Unit>(note_off::sizes()),
            ChannelVoice1::NoteOn(_) => min_size::<B::Unit>(note_on::sizes()),
            ChannelVoice1::PitchBend(_) => min_size::<B::Unit>(pitch_bend::sizes()),
            ChannelVoice1::ProgramChange(_) => min_size::<B::Unit>(program_change::sizes()),
        }
    }

    /// Reads the discriminant and routes the buffer to the message kind it
    /// names. Nothing but the discriminant is looked at before the kind
    /// is chosen; a value that names no kind is `InvalidData`.
    pub fn try_from(buffer: B) -> (r: Result<Self, Error>)
        ensures
            r == Self::spec_try_from(buffer),
    {
        if buffer.as_slice().len() < 1 {
            return Err(Error::InvalidData(ERR_SLICE_TOO_SHORT));
        }
        let found = status(buffer.as_slice());
        if found == channel_pressure::STATUS {
            match ChannelPressure::try_from(buffer) {
                Ok(m) => Ok(ChannelVoice1::ChannelPressure(m)),
                Err(e) => Err(e),
            }
        } else if found == control_change::STATUS {
            match ControlChange::try_from(buffer) {
                Ok(m) => Ok(ChannelVoice1::ControlChange(m)),
                Err(e) => Err(e),
            }
        } else if found == key_pressure::STATUS {
            match KeyPressure::try_from(buffer) {
                Ok(m) => Ok(ChannelVoice1::KeyPressure(m)),
                Err(e) => Err(e),
            }
        } else if found == note_off::STATUS {
            match NoteOff::try_from(buffer) {
                Ok(m) => Ok(ChannelVoice1::NoteOff(m)),
                Err(e) => Err(e),
            }
        } else if found == note_on::STATUS {
            match NoteOn::try_from(buffer) {
                Ok(m) => Ok(ChannelVoice1::NoteOn(m)),
                Err(e) => Err(e),
            }
        } else if found == pitch_bend::STATUS {
            match PitchBend::try_from(buffer) {
                Ok(m) => Ok(ChannelVoice1::PitchBend(m)),
                Err(e) => Err(e),
            }
        } else if found == program_change::STATUS {
            match ProgramChange::try_from(buffer) {
                Ok(m) => Ok(ChannelVoice1::ProgramChange(m)),
                Err(e) => Err(e),
            }
        } else {
            Err(Error::InvalidData(ERR_UNKNOWN_CHANNEL_VOICE_STATUS))
        }
    }

    /// The units the message occupies.
    pub fn data(&self) -> (data: &[B::Unit])
        requires
            self.wf(),
        ensures
            data@ == self.units().subrange(0, self.size() as int),
    {
        match self {
            ChannelVoice1::ChannelPressure(m) => m.data(),
            ChannelVoice1::ControlChange(m) => m.data(),
            ChannelVoice1::KeyPressure(m) => m.data(),
            ChannelVoice1::NoteOff(m) => m.data(),
            ChannelVoice1::NoteOn(m) => m.data(),
            ChannelVoice1::PitchBend(m) => m.data(),
            ChannelVoice1::ProgramChange(m) => m.data(),
        }
    }

    pub fn group(&self) -> (value: U4)
        requires
            self.wf(),
        ensures
            value@ == spec_read(self.units(), crate::common_properties::group()),
    {
        match self {
            ChannelVoice1::ChannelPressure(m) => m.group(),
            ChannelVoice1::ControlChange(m) => m.group(),
            ChannelVoice1::KeyPressure(m) => m.group(),
            ChannelVoice1::NoteOff(m) => m.group(),
            ChannelVoice1::NoteOn(m) => m.group(),
            ChannelVoice1::PitchBend(m) => m.group(),
            ChannelVoice1::ProgramChange(m) => m.group(),
        }
    }

    /// Re-homes the message into a fresh buffer of another backend with
    /// the same unit type; the kind is kept.
    pub fn try_rebuffer_into<C: BufferMut<Unit = B::Unit>>(
        self,
    ) -> (r: Result<ChannelVoice1<C>, Error>)
        requires
            self.wf(),
        ensures
            has_room::<C>(self.size() as nat) ==> r is Ok && r->Ok_0.wf() && r->Ok_0.size()
                == self.size() && r->Ok_0.units() == crate::property::rebuffered::<C>(
                self.units().subrange(0, self.size() as int),
            ),
            !has_room::<C>(self.size() as nat) ==> r == Err::<ChannelVoice1<C>, Error>(
                Error::BufferOverflow,
            ),
    {
        match self {
            ChannelVoice1::ChannelPressure(m) => match m.try_rebuffer_into::<C>() {
                Ok(m) => Ok(ChannelVoice1::ChannelPressure(m)),
                Err(e) => Err(e),
            },
            ChannelVoice1::ControlChange(m) => match m.try_rebuffer_into::<C>() {
                Ok(m) => Ok(ChannelVoice1::ControlChange(m)),
                Err(e) => Err(e),
            },
            ChannelVoice1::KeyPressure(m) => match m.try_rebuffer_into::<C>() {
                Ok(m) => Ok(ChannelVoice1::KeyPressure(m)),
                Err(e) => Err(e),
            },
            ChannelVoice1::NoteOff(m) => match m.try_rebuffer_into::<C>() {
                Ok(m) => Ok(ChannelVoice1::NoteOff(m)),
                Err(e) => Err(e),
            },
            ChannelVoice1::NoteOn(m) => match m.try_rebuffer_into::<C>() {
                Ok(m) => Ok(ChannelVoice1::NoteOn(m)),
                Err(e) => Err(e),
            },
            ChannelVoice1::PitchBend(m) => match m.try_rebuffer_into::<C>() {
                Ok(m) => Ok(ChannelVoice1::PitchBend(m)),
                Err(e) => Err(e),
            },
            ChannelVoice1::ProgramChange(m) => match m.try_rebuffer_into::<C>() {
                Ok(m) => Ok(ChannelVoice1::ProgramChange(m)),
                Err(e) => Err(e),
            },
        }
    }
}

impl<B: BufferMut<Unit = u32>> ChannelVoice1<B> {
    /// The units of the conversion of a message into a buffer of `len`
    /// units: a fresh message of the same kind with every field set to
    /// the value `other` holds.
    pub open spec fn spec_from_bytes<A: Buffer<Unit = u8>>(
        other: ChannelVoice1<A>,
        len: nat,
    ) -> Seq<u32> {
        match other {
            ChannelVoice1::ChannelPressure(inner) => channel_pressure::spec_with_fields::<u32>(
                len,
                inner.spec_group(),
                inner.spec_channel(),
                inner.spec_pressure(),
            ),
            ChannelVoice1::ControlChange(inner) => control_change::spec_with_fields::<u32>(
                len,
                inner.spec_group(),
                inner.spec_channel(),
                inner.spec_control(),
                inner.spec_control_data(),
            ),
            ChannelVoice1::KeyPressure(inner) => key_pressure::spec_with_fields::<u32>(
                len,
                inner.spec_group(),
                inner.spec_channel(),
                inner.spec_note(),
                inner.spec_pressure(),
            ),
            ChannelVoice1::NoteOff(inner) => note_off::spec_with_fields::<u32>(
                len,
                inner.spec_group(),
                inner.spec_channel(),
                inner.spec_note(),
                inner.spec_velocity(),
            ),
            ChannelVoice1::NoteOn(inner) => note_on::spec_with_fields::<u32>(
                len,
                inner.spec_group(),
                inner.spec_channel(),
                inner.spec_note(),
                inner.spec_velocity(),
            ),
            ChannelVoice1::PitchBend(inner) => pitch_bend::spec_with_fields::<u32>(
                len,
                inner.spec_group(),
                inner.spec_channel(),
                inner.spec_bend(),
            ),
            ChannelVoice1::ProgramChange(inner) => program_change::spec_with_fields::<u32>(
                len,
                inner.spec_group(),
                inner.spec_channel(),
                inner.spec_program(),
            ),
        }
    }

    /// Converts the byte stream form of a message into this form; the kind
    /// is kept and every field is encoded anew.
    pub fn try_from_bytes<A: Buffer<Unit = u8>>(other: ChannelVoice1<A>) -> (r: Result<Self, Error>)
        requires
            other.wf(),
        ensures
            r is Ok ==> r->Ok_0.wf(),
            r is Err ==> r == Err::<Self, Error>(Error::BufferOverflow),
            match other {
                ChannelVoice1::ChannelPressure(m) => r is Ok <==> has_room::<B>(
                    min_size::<u32>(channel_pressure::sizes()) as nat
                ),
                ChannelVoice1::ControlChange(m) => r is Ok <==> has_room::<B>(
                    min_size::<u32>(control_change::sizes()) as nat
                ),
                ChannelVoice1::KeyPressure(m) => r is Ok <==> has_room::<B>(
                    min_size::<u32>(key_pressure::sizes()) as nat
                ),
                ChannelVoice1::NoteOff(m) => r is Ok <==> has_room::<B>(
                    min_size::<u32>(note_off::sizes()) as nat
                ),
                ChannelVoice1::NoteOn(m) => r is Ok <==> has_room::<B>(
                    min_size::<u32>(note_on::sizes()) as nat
                ),
                ChannelVoice1::PitchBend(m) => r is Ok <==> has_room::<B>(
                    min_size::<u32>(pitch_bend::sizes()) as nat
                ),
                ChannelVoice1::ProgramChange(m) => r is Ok <==> has_room::<B>(
                    min_size::<u32>(program_change::sizes()) as nat
                ),
            },
            match other {
                ChannelVoice1::ChannelPressure(_) => r is Ok ==> r->Ok_0 is ChannelPressure,
                ChannelVoice1::ControlChange(_) => r is Ok ==> r->Ok_0 is ControlChange,
                ChannelVoice1::KeyPressure(_) => r is Ok ==> r->Ok_0 is KeyPressure,
                ChannelVoice1::NoteOff(_) => r is Ok ==> r->Ok_0 is NoteOff,
                ChannelVoice1::NoteOn(_) => r is Ok ==> r->Ok_0 is NoteOn,
                ChannelVoice1::PitchBend(_) => r is Ok ==> r->Ok_0 is PitchBend,
                ChannelVoice1::ProgramChange(_) => r is Ok ==> r->Ok_0 is ProgramChange,
            },
            r is Ok ==> r->Ok_0.units() == Self::spec_from_bytes(other, r->Ok_0.units().len()),
    {
        match other {
            ChannelVoice1::ChannelPressure(m) => match ChannelPressure::try_from_bytes(m) {
                Ok(m) => Ok(ChannelVoice1::ChannelPressure(m)),
                Err(e) => Err(e),
            },
            ChannelVoice1::ControlChange(m) => match ControlChange::try_from_bytes(m) {
                Ok(m) => Ok(ChannelVoice1::ControlChange(m)),
                Err(e) => Err(e),
            },
            ChannelVoice1::KeyPressure(m) => match KeyPressure::try_from_bytes(m) {
                Ok(m) => Ok(ChannelVoice1::KeyPressure(m)),
                Err(e) => Err(e),
            },
            ChannelVoice1::NoteOff(m) => match NoteOff::try_from_bytes(m) {
                Ok(m) => Ok(ChannelVoice1::NoteOff(m)),
                Err(e) => Err(e),
            },
            ChannelVoice1::NoteOn(m) => match NoteOn::try_from_bytes(m) {
                Ok(m) => Ok(ChannelVoice1::NoteOn(m)),
                Err(e) => Err(e),
            },
            ChannelVoice1::PitchBend(m) => match PitchBend::try_from_bytes(m) {
                Ok(m) => Ok(ChannelVoice1::PitchBend(m)),
                Err(e) => Err(e),
            },
            ChannelVoice1::ProgramChange(m) => match ProgramChange::try_from_bytes(m) {
                Ok(m) => Ok(ChannelVoice1::ProgramChange(m)),
                Err(e) => Err(e),
            },
        }
    }
}

impl<B: BufferMut<Unit = u8>> ChannelVoice1<B> {
    /// The units of the conversion of a message into a buffer of `len`
    /// units: a fresh message of the same kind with every field set to
    /// the value `other` holds.
    pub open spec fn spec_from_ump<A: Buffer<Unit = u32>>(
        other: ChannelVoice1<A>,
        len: nat,
    ) -> Seq<u8> {
        match other {
            ChannelVoice1::ChannelPressure(inner) => channel_pressure::spec_with_fields::<u8>(
                len,
                inner.spec_group(),
                inner.spec_channel(),
                inner.spec_pressure(),
            ),
            ChannelVoice1::ControlChange(inner) => control_change::spec_with_fields::<u8>(
                len,
                inner.spec_group(),
                inner.spec_channel(),
                inner.spec_control(),
                inner.spec_control_data(),
            ),
            ChannelVoice1::KeyPressure(inner) => key_pressure::spec_with_fields::<u8>(
                len,
                inner.spec_group(),
                inner.spec_channel(),
                inner.spec_note(),
                inner.spec_pressure(),
            ),
            ChannelVoice1::NoteOff(inner) => note_off::spec_with_fields::<u8>(
                len,
                inner.spec_group(),
                inner.spec_channel(),
                inner.spec_note(),
                inner.spec_velocity(),
            ),
            ChannelVoice1::NoteOn(inner) => note_on::spec_with_fields::<u8>(
                len,
                inner.spec_group(),
                inner.spec_channel(),
                inner.spec_note(),
                inner.spec_velocity(),
            ),
            ChannelVoice1::PitchBend(inner) => pitch_bend::spec_with_fields::<u8>(
                len,
                inner.spec_group(),
                inner.spec_channel(),
                inner.spec_bend(),
            ),
            ChannelVoice1::ProgramChange(inner) => program_change::spec_with_fields::<u8>(
                len,
                inner.spec_group(),
                inner.spec_channel(),
                inner.spec_program(),
            ),
        }
    }

    /// Converts the packet form of a message into this form; the kind
    /// is kept and every field is encoded anew.
    pub fn try_from_ump<A: Buffer<Unit = u32>>(other: ChannelVoice1<A>) -> (r: Result<Self, Error>)
        requires
            other.wf(),
        ensures
            r is Ok ==> r->Ok_0.wf(),
            r is Err ==> r == Err::<Self, Error>(Error::BufferOverflow),
            match other {
                ChannelVoice1::ChannelPressure(m) => r is Ok <==> has_room::<B>(
                    min_size::<u8>(channel_pressure::sizes()) as nat
                ),
                ChannelVoice1::ControlChange(m) => r is Ok <==> has_room::<B>(
                    min_size::<u8>(control_change::sizes()) as nat
                ),
                ChannelVoice1::KeyPressure(m) => r is Ok <==> has_room::<B>(
                    min_size::<u8>(key_pressure::sizes()) as nat
                ),
                ChannelVoice1::NoteOff(m) => r is Ok <==> has_room::<B>(
                    min_size::<u8>(note_off::sizes()) as nat
                ),
                ChannelVoice1::NoteOn(m) => r is Ok <==> has_room::<B>(
                    min_size::<u8>(note_on::sizes()) as nat
                ),
                ChannelVoice1::PitchBend(m) => r is Ok <==> has_room::<B>(
                    min_size::<u8>(pitch_bend::sizes()) as nat
                ),
                ChannelVoice1::ProgramChange(m) => r is Ok <==> has_room::<B>(
                    min_size::<u8>(program_change::sizes()) as nat
                ),
            },
            match other {
                ChannelVoice1::ChannelPressure(_) => r is Ok ==> r->Ok_0 is ChannelPressure,
                ChannelVoice1::ControlChange(_) => r is Ok ==> r->Ok_0 is ControlChange,
                ChannelVoice1::KeyPressure(_) => r is Ok ==> r->Ok_0 is KeyPressure,
                ChannelVoice1::NoteOff(_) => r is Ok ==> r->Ok_0 is NoteOff,
                ChannelVoice1::NoteOn(_) => r is Ok ==> r->Ok_0 is NoteOn,
                ChannelVoice1::PitchBend(_) => r is Ok ==> r->Ok_0 is PitchBend,
                ChannelVoice1::ProgramChange(_) => r is Ok ==> r->Ok_0 is ProgramChange,
            },
            r is Ok ==> r->Ok_0.units() == Self::spec_from_ump(other, r->Ok_0.units().len()),
    {
        match other {
            ChannelVoice1::ChannelPressure(m) => match ChannelPressure::try_from_ump(m) {
                Ok(m) => Ok(ChannelVoice1::ChannelPressure(m)),
                Err(e) => Err(e),
            },
            ChannelVoice1::ControlChange(m) => match ControlChange::try_from_ump(m) {
                Ok(m) => Ok(ChannelVoice1::ControlChange(m)),
                Err(e) => Err(e),
            },
            ChannelVoice1::KeyPressure(m) => match KeyPressure::try_from_ump(m) {
                Ok(m) => Ok(ChannelVoice1::KeyPressure(m)),
                Err(e) => Err(e),
            },
            ChannelVoice1::NoteOff(m) => match NoteOff::try_from_ump(m) {
                Ok(m) => Ok(ChannelVoice1::NoteOff(m)),
                Err(e) => Err(e),
            },
            ChannelVoice1::NoteOn(m) => match NoteOn::try_from_ump(m) {
                Ok(m) => Ok(ChannelVoice1::NoteOn(m)),
                Err(e) => Err(e),
            },
            ChannelVoice1::PitchBend(m) => match PitchBend::try_from_ump(m) {
                Ok(m) => Ok(ChannelVoice1::PitchBend(m)),
                Err(e) => Err(e),
            },
            ChannelVoice1::ProgramChange(m) => match ProgramChange::try_from_ump(m) {
                Ok(m) => Ok(ChannelVoice1::ProgramChange(m)),
                Err(e) => Err(e),
            },
        }
    }
}

impl<B: Buffer> From<ChannelPressure<B>> for ChannelVoice1<B> {
    fn from(value: ChannelPressure<B>) -> (r: Self) {
        ChannelVoice1::ChannelPressure(value)
    }
}

impl<B: Buffer> FromSpecImpl<ChannelPressure<B>> for ChannelVoice1<B> {
    open spec fn obeys_from_spec() -> bool {
        true
    }

    open spec fn from_spec(value: ChannelPressure<B>) -> Self {
        ChannelVoice1::ChannelPressure(value)
    }
}

impl<B: Buffer> From<ControlChange<B>> for ChannelVoice1<B> {
    fn from(value: ControlChange<B>) -> (r: Self) {
        ChannelVoice1::ControlChange(value)
    }
}

impl<B: Buffer> FromSpecImpl<ControlChange<B>> for ChannelVoice1<B> {
    open spec fn obeys_from_spec() -> bool {
        true
    }

    open spec fn from_spec(value: ControlChange<B>) -> Self {
        ChannelVoice1::ControlChange(value)
    }
}

impl<B: Buffer> From<KeyPressure<B>> for ChannelVoice1<B> {
    fn from(value: KeyPressure<B>) -> (r: Self) {
        ChannelVoice1::KeyPressure(value)
    }
}

impl<B: Buffer> FromSpecImpl<KeyPressure<B>> for ChannelVoice1<B> {
    open spec fn obeys_from_spec() -> bool {
        true
    }

    open spec fn from_spec(value: KeyPressure<B>) -> Self {
        ChannelVoice1::KeyPressure(value)
    }
}

impl<B: Buffer> From<NoteOff<B>> for ChannelVoice1<B> {
    fn from(value: NoteOff<B>) -> (r: Self) {
        ChannelVoice1::NoteOff(value)
    }
}

impl<B: Buffer> FromSpecImpl<NoteOff<B>> for ChannelVoice1<B> {
    open spec fn obeys_from_spec() -> bool {
        true
    }

    open spec fn from_spec(value: NoteOff<B>) -> Self {
        ChannelVoice1::NoteOff(value)
    }
}

impl<B: Buffer> From<NoteOn<B>> for ChannelVoice1<B> {
    fn from(value: NoteOn<B>) -> (r: Self) {
        ChannelVoice1::NoteOn(value)
    }
}

impl<B: Buffer> FromSpecImpl<NoteOn<B>> for ChannelVoice1<B> {
    open spec fn obeys_from_spec() -> bool {
        true
    }

    open spec fn from_spec(value: NoteOn<B>) -> Self {
        ChannelVoice1::NoteOn(value)
    }
}

impl<B: Buffer> From<PitchBend<B>> for ChannelVoice1<B> {
    fn from(value: PitchBend<B>) -> (r: Self) {
        ChannelVoice1::PitchBend(value)
    }
}

impl<B: Buffer> FromSpecImpl<PitchBend<B>> for ChannelVoice1<B> {
    open spec fn obeys_from_spec() -> bool {
        true
    }

    open spec fn from_spec(value: PitchBend<B>) -> Self {
        ChannelVoice1::PitchBend(value)
    }
}

impl<B: Buffer> From<ProgramChange<B>> for ChannelVoice1<B> {
    fn from(value: ProgramChange<B>) -> (r: Self) {
        ChannelVoice1::ProgramChange(value)
    }
}

impl<B: Buffer> FromSpecImpl<ProgramChange<B>> for ChannelVoice1<B> {
    open spec fn obeys_from_spec() -> bool {
        true
    }

    open spec fn from_spec(value: ProgramChange<B>) -> Self {
        ChannelVoice1::ProgramChange(value)
    }
}

/// Routing is by discriminant alone: a buffer that parses lands in the
/// variant whose status its discriminant holds, as a valid message of
/// that kind; a discriminant that names no kind never parses.
pub proof fn lemma_routing<B: Buffer>(buffer: B)
    ensures
        match ChannelVoice1::<B>::spec_try_from(buffer) {
            Ok(message) => message.wf() && message.units() == buffer.units() && is_defined(
                spec_status(buffer.units()),
            ) && match message {
                ChannelVoice1::ChannelPressure(_) => spec_status(
                    buffer.units()
                ) == channel_pressure::STATUS,
                ChannelVoice1::ControlChange(_) => spec_status(
                    buffer.units()
                ) == control_change::STATUS,
                ChannelVoice1::KeyPressure(_) => spec_status(
                    buffer.units()
                ) == key_pressure::STATUS,
                ChannelVoice1::NoteOff(_) => spec_status(buffer.units()) == note_off::STATUS,
                ChannelVoice1::NoteOn(_) => spec_status(buffer.units()) == note_on::STATUS,
                ChannelVoice1::PitchBend(_) => spec_status(buffer.units()) == pitch_bend::STATUS,
                ChannelVoice1::ProgramChange(_) => spec_status(
                    buffer.units()
                ) == program_change::STATUS,
            },
            Err(e) => e is InvalidData,
        },
        buffer.units().len() >= 1 && !is_defined(spec_status(buffer.units()))
            ==> ChannelVoice1::<B>::spec_try_from(buffer) == Err::<ChannelVoice1<B>, Error>(
            Error::InvalidData(ERR_UNKNOWN_CHANNEL_VOICE_STATUS),
        ),
{
}

} // verus!
