//! The MIDI 2.0 channel voice messages.

use vstd::prelude::*;
use vstd::std_specs::convert::{FromSpec, FromSpecImpl};
use crate::buffer::{Buffer, BufferMut};
use crate::common_properties::{channel_voice_status, channel_voice_status_schema};
use crate::error::{ERR_SLICE_TOO_SHORT, ERR_UNKNOWN_MIDI2_CHANNEL_VOICE_STATUS, Error};
use crate::numeric_types::U4;
use crate::property::has_room;
use crate::schema::{min_size, read_field, spec_read, Unit};

pub mod assignable_controller;
pub mod channel_pitch_bend;
pub mod channel_pressure;
pub mod control_change;
pub mod note_off;
pub mod note_on;

pub use assignable_controller::AssignableController;
pub use channel_pitch_bend::ChannelPitchBend;
pub use channel_pressure::ChannelPressure;
pub use control_change::ControlChange;
pub use note_off::NoteOff;
pub use note_on::NoteOn;

verus! {

/// The message-type nibble of MIDI 2.0 channel voice packets.
pub const UMP_MESSAGE_TYPE: u8 = 0x4;

/// Any MIDI 2.0 channel voice message.
#[derive(Clone, Debug, PartialEq, Eq)]
#[non_exhaustive]
pub enum ChannelVoice2<B: Buffer<Unit = u32>> {
    AssignableController(AssignableController<B>),
    ChannelPitchBend(ChannelPitchBend<B>),
    ChannelPressure(ChannelPressure<B>),
    ControlChange(ControlChange<B>),
    NoteOff(NoteOff<B>),
    NoteOn(NoteOn<B>),
}

/// The discriminant of the family, as found in a unit sequence.
pub open spec fn spec_status<U: Unit>(units: Seq<U>) -> u32 {
    spec_read(units, channel_voice_status())
}

/// Reads the discriminant, and nothing else, from the front of a buffer.
pub fn status<U: Unit>(units: &[U]) -> (value: u8)
    requires
        units@.len() > 0,
    ensures
        value == spec_status(units@),
{
    let raw = read_field(units, &channel_voice_status_schema());
    proof {
        crate::bit_ops::lemma_low_mask_bound(0);
    }
    raw as u8
}

/// Whether a discriminant value names a message kind of the family.
pub open spec fn is_defined(status: u32) -> bool {
    status == assignable_controller::STATUS
    || status == channel_pitch_bend::STATUS
    || status == channel_pressure::STATUS
    || status == control_change::STATUS
    || status == note_off::STATUS
    || status == note_on::STATUS
}

impl<B: Buffer<Unit = u32>> ChannelVoice2<B> {
    /// What parsing a buffer yields: the kind its discriminant names, if
    /// the buffer validates as that kind.
    pub open spec fn spec_try_from(buffer: B) -> Result<Self, Error> {
        let units = buffer.units();
        if units.len() < 1 {
            Err(Error::InvalidData(ERR_SLICE_TOO_SHORT))
        } else if spec_status(units) == assignable_controller::STATUS {
            match assignable_controller::spec_validate(units) {
                Ok(()) => Ok(ChannelVoice2::AssignableController(AssignableController(buffer))),
                Err(e) => Err(e),
            }
        } else if spec_status(units) == channel_pitch_bend::STATUS {
            match channel_pitch_bend::spec_validate(units) {
                Ok(()) => Ok(ChannelVoice2::ChannelPitchBend(ChannelPitchBend(buffer))),
                Err(e) => Err(e),
            }
        } else if spec_status(units) == channel_pressure::STATUS {
            match channel_pressure::spec_validate(units) {
                Ok(()) => Ok(ChannelVoice2::ChannelPressure(ChannelPressure(buffer))),
                Err(e) => Err(e),
            }
        } else if spec_status(units) == control_change::STATUS {
            match control_change::spec_validate(units) {
                Ok(()) => Ok(ChannelVoice2::ControlChange(ControlChange(buffer))),
                Err(e) => Err(e),
            }
        } else if spec_status(units) == note_off::STATUS {
            match note_off::spec_validate(units) {
                Ok(()) => Ok(ChannelVoice2::NoteOff(NoteOff(buffer))),
                Err(e) => Err(e),
            }
        } else if spec_status(units) == note_on::STATUS {
            match note_on::spec_validate(units) {
                Ok(()) => Ok(ChannelVoice2::NoteOn(NoteOn(buffer))),
                Err(e) => Err(e),
            }
        } else {
            Err(Error::InvalidData(ERR_UNKNOWN_MIDI2_CHANNEL_VOICE_STATUS))
        }
    }

    /// The message inside is a valid message of its kind.
    pub open spec fn wf(&self) -> bool {
        match self {
            ChannelVoice2::AssignableController(m) => m.wf(),
            ChannelVoice2::ChannelPitchBend(m) => m.wf(),
            ChannelVoice2::ChannelPressure(m) => m.wf(),
            ChannelVoice2::ControlChange(m) => m.wf(),
            ChannelVoice2::NoteOff(m) => m.wf(),
            ChannelVoice2::NoteOn(m) => m.wf(),
        }
    }

    /// The units of the underlying buffer.
    pub open spec fn units(&self) -> Seq<B::Unit> {
        match self {
            ChannelVoice2::AssignableController(m) => m.0.units(),
            ChannelVoice2::ChannelPitchBend(m) => m.0.units(),
            ChannelVoice2::ChannelPressure(m) => m.0.units(),
            ChannelVoice2::ControlChange(m) => m.0.units(),
            ChannelVoice2::NoteOff(m) => m.0.units(),
            ChannelVoice2::NoteOn(m) => m.0.units(),
        }
    }

    /// The number of units the message inside occupies.
    pub open spec fn size(&self) -> usize {
        match self {
            ChannelVoice2::AssignableController(_) => min_size::<B::Unit>(
                assignable_controller::sizes()
            ),
            ChannelVoice2::ChannelPitchBend(_) => min_size::<B::Unit>(channel_pitch_bend::sizes()),
            ChannelVoice2::ChannelPressure(_) => min_size::<B::Unit>(channel_pressure::sizes()),
            ChannelVoice2::ControlChange(_) => min_size::<B::Unit>(control_change::sizes()),
            ChannelVoice2::NoteOff(_) => min_size::<B::Unit>(note_off::sizes()),
            ChannelVoice2::NoteOn(_) => min_size::<B::Unit>(note_on::sizes()),
        }
    }

    /// Reads the discriminant and routes the buffer to the message kind it
    /// names. Nothing but the discriminant is looked at before the kind
    /// is chosen; a value that names no kind is `InvalidData`.
    pub fn try_from(buffer: B) -> (r: Result<Self, Error>)
        ensures
            r == Self::spec_try_from(buffer),
    {
        if buffer.as_slice().len() < 1 {
            return Err(Error::InvalidData(ERR_SLICE_TOO_SHORT));
        }
        let found = status(buffer.as_slice());
        if found == assignable_controller::STATUS {
            match AssignableController::try_from(buffer) {
                Ok(m) => Ok(ChannelVoice2::AssignableController(m)),
                Err(e) => Err(e),
            }
        } else if found == channel_pitch_bend::STATUS {
            match ChannelPitchBend::try_from(buffer) {
                Ok(m) => Ok(ChannelVoice2::ChannelPitchBend(m)),
                Err(e) => Err(e),
            }
        } else if found == channel_pressure::STATUS {
            match ChannelPressure::try_from(buffer) {
                Ok(m) => Ok(ChannelVoice2::ChannelPressure(m)),
                Err(e) => Err(e),
            }
        } else if found == control_change::STATUS {
            match ControlChange::try_from(buffer) {
                Ok(m) => Ok(ChannelVoice2::ControlChange(m)),
                Err(e) => Err(e),
            }
        } else if found == note_off::STATUS {
            match NoteOff::try_from(buffer) {
                Ok(m) => Ok(ChannelVoice2::NoteOff(m)),
                Err(e) => Err(e),
            }
        } else if found == note_on::STATUS {
            match NoteOn::try_from(buffer) {
                Ok(m) => Ok(ChannelVoice2::NoteOn(m)),
                Err(e) => Err(e),
            }
        } else {
            Err(Error::InvalidData(ERR_UNKNOWN_MIDI2_CHANNEL_VOICE_STATUS))
        }
    }

    /// The units the message occupies.
    pub fn data(&self) -> (data: &[B::Unit])
        requires
            self.wf(),
        ensures
            data@ == self.units().subrange(0, self.size() as int),
    {
        match self {
            ChannelVoice2::AssignableController(m) => m.data(),
            ChannelVoice2::ChannelPitchBend(m) => m.data(),
            ChannelVoice2::ChannelPressure(m) => m.data(),
            ChannelVoice2::ControlChange(m) => m.data(),
            ChannelVoice2::NoteOff(m) => m.data(),
            ChannelVoice2::NoteOn(m) => m.data(),
        }
    }

    pub fn group(&self) -> (value: U4)
        requires
            self.wf(),
        ensures
            value@ == spec_read(self.units(), crate::common_properties::group()),
    {
        match self {
            ChannelVoice2::AssignableController(m) => m.group(),
            ChannelVoice2::ChannelPitchBend(m) => m.group(),
            ChannelVoice2::ChannelPressure(m) => m.group(),
            ChannelVoice2::ControlChange(m) => m.group(),
            ChannelVoice2::NoteOff(m) => m.group(),
            ChannelVoice2::NoteOn(m) => m.group(),
        }
    }

    /// Re-homes the message into a fresh buffer of another backend with
    /// the same unit type; the kind is kept.
    pub fn try_rebuffer_into<C: BufferMut<Unit = B::Unit>>(
        self,
    ) -> (r: Result<ChannelVoice2<C>, Error>)
        requires
            self.wf(),
        ensures
            has_room::<C>(self.size() as nat) ==> r is Ok && r->Ok_0.wf() && r->Ok_0.size()
                == self.size() && r->Ok_0.units() == crate::property::rebuffered::<C>(
                self.units().subrange(0, self.size() as int),
            ),
            !has_room::<C>(self.size() as nat) ==> r == Err::<ChannelVoice2<C>, Error>(
                Error::BufferOverflow,
            ),
    {
        match self {
            ChannelVoice2::AssignableController(m) => match m.try_rebuffer_into::<C>() {
                Ok(m) => Ok(ChannelVoice2::AssignableController(m)),
                Err(e) => Err(e),
            },
            ChannelVoice2::ChannelPitchBend(m) => match m.try_rebuffer_into::<C>() {
                Ok(m) => Ok(ChannelVoice2::ChannelPitchBend(m)),
                Err(e) => Err(e),
            },
            ChannelVoice2::ChannelPressure(m) => match m.try_rebuffer_into::<C>() {
                Ok(m) => Ok(ChannelVoice2::ChannelPressure(m)),
                Err(e) => Err(e),
            },
            ChannelVoice2::ControlChange(m) => match m.try_rebuffer_into::<C>() {
                Ok(m) => Ok(ChannelVoice2::ControlChange(m)),
                Err(e) => Err(e),
            },
            ChannelVoice2::NoteOff(m) => match m.try_rebuffer_into::<C>() {
                Ok(m) => Ok(ChannelVoice2::NoteOff(m)),
                Err(e) => Err(e),
            },
            ChannelVoice2::NoteOn(m) => match m.try_rebuffer_into::<C>() {
                Ok(m) => Ok(ChannelVoice2::NoteOn(m)),
                Err(e) => Err(e),
            },
        }
    }
}

impl<B: Buffer<Unit = u32>> From<AssignableController<B>> for ChannelVoice2<B> {
    fn from(value: AssignableController<B>) -> (r: Self) {
        ChannelVoice2::AssignableController(value)
    }
}

impl<B: Buffer<Unit = u32>> FromSpecImpl<AssignableController<B>> for ChannelVoice2<B> {
    open spec fn obeys_from_spec() -> bool {
        true
    }

    open spec fn from_spec(value: AssignableController<B>) -> Self {
        ChannelVoice2::AssignableController(value)
    }
}

impl<B: Buffer<Unit = u32>> From<ChannelPitchBend<B>> for ChannelVoice2<B> {
    fn from(value: ChannelPitchBend<B>) -> (r: Self) {
        ChannelVoice2::ChannelPitchBend(value)
    }
}

impl<B: Buffer<Unit = u32>> FromSpecImpl<ChannelPitchBend<B>> for ChannelVoice2<B> {
    open spec fn obeys_from_spec() -> bool {
        true
    }

    open spec fn from_spec(value: ChannelPitchBend<B>) -> Self {
        ChannelVoice2::ChannelPitchBend(value)
    }
}

impl<B: Buffer<Unit = u32>> From<ChannelPressure<B>> for ChannelVoice2<B> {
    fn from(value: ChannelPressure<B>) -> (r: Self) {
        ChannelVoice2::ChannelPressure(value)
    }
}

impl<B: Buffer<Unit = u32>> FromSpecImpl<ChannelPressure<B>> for ChannelVoice2<B> {
    open spec fn obeys_from_spec() -> bool {
        true
    }

    open spec fn from_spec(value: ChannelPressure<B>) -> Self {
        ChannelVoice2::ChannelPressure(value)
    }
}

impl<B: Buffer<Unit = u32>> From<ControlChange<B>> for ChannelVoice2<B> {
    fn from(value: ControlChange<B>) -> (r: Self) {
        ChannelVoice2::ControlChange(value)
    }
}

impl<B: Buffer<Unit = u32>> FromSpecImpl<ControlChange<B>> for ChannelVoice2<B> {
    open spec fn obeys_from_spec() -> bool {
        true
    }

    open spec fn from_spec(value: ControlChange<B>) -> Self {
        ChannelVoice2::ControlChange(value)
    }
}

impl<B: Buffer<Unit = u32>> From<NoteOff<B>> for ChannelVoice2<B> {
    fn from(value: NoteOff<B>) -> (r: Self) {
        ChannelVoice2::NoteOff(value)
    }
}

impl<B: Buffer<Unit = u32>> FromSpecImpl<NoteOff<B>> for ChannelVoice2<B> {
    open spec fn obeys_from_spec() -> bool {
        true
    }

    open spec fn from_spec(value: NoteOff<B>) -> Self {
        ChannelVoice2::NoteOff(value)
    }
}

impl<B: Buffer<Unit = u32>> From<NoteOn<B>> for ChannelVoice2<B> {
    fn from(value: NoteOn<B>) -> (r: Self) {
        ChannelVoice2::NoteOn(value)
    }
}

impl<B: Buffer<Unit = u32>> FromSpecImpl<NoteOn<B>> for ChannelVoice2<B> {
    open spec fn obeys_from_spec() -> bool {
        true
    }

    open spec fn from_spec(value: NoteOn<B>) -> Self {
        ChannelVoice2::NoteOn(value)
    }
}

/// Routing is by discriminant alone: a buffer that parses lands in the
/// variant whose status its discriminant holds, as a valid message of
/// that kind; a discriminant that names no kind never parses.
pub proof fn lemma_routing<B: Buffer<Unit = u32>>(buffer: B)
    ensures
        match ChannelVoice2::<B>::spec_try_from(buffer) {
            Ok(message) => message.wf() && message.units() == buffer.units() && is_defined(
                spec_status(buffer.units()),
            ) && match message {
                ChannelVoice2::AssignableController(_) => spec_status(
                    buffer.units()
                ) == assignable_controller::STATUS,
                ChannelVoice2::ChannelPitchBend(_) => spec_status(
                    buffer.units()
                ) == channel_pitch_bend::STATUS,
                ChannelVoice2::ChannelPressure(_) => spec_status(
                    buffer.units()
                ) == channel_pressure::STATUS,
                ChannelVoice2::ControlChange(_) => spec_status(
                    buffer.units()
                ) == control_change::STATUS,
                ChannelVoice2::NoteOff(_) => spec_status(buffer.units()) == note_off::STATUS,
                ChannelVoice2::NoteOn(_) => spec_status(buffer.units()) == note_on::STATUS,
            },
            Err(e) => e is InvalidData,
        },
        buffer.units().len() >= 1 && !is_defined(spec_status(buffer.units()))
            ==> ChannelVoice2::<B>::spec_try_from(buffer) == Err::<ChannelVoice2<B>, Error>(
            Error::InvalidData(ERR_UNKNOWN_MIDI2_CHANNEL_VOICE_STATUS),
        ),
{
}

} // verus!
