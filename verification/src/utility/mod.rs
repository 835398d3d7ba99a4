//! The utility messages.

use vstd::prelude::*;
use vstd::std_specs::convert::{FromSpec, FromSpecImpl};
use crate::buffer::{Buffer, BufferMut};
use crate::common_properties::{channel_voice_status, channel_voice_status_schema};
use crate::error::{ERR_SLICE_TOO_SHORT, ERR_UNKNOWN_UTILITY_STATUS, Error};
use crate::numeric_types::U4;
use crate::property::has_room;
use crate::schema::{min_size, read_field, spec_read, Unit};

pub mod no_op;
pub mod time_stamp;

pub use no_op::NoOp;
pub use time_stamp::TimeStamp;

verus! {

/// The message-type nibble of utility packets.
pub const UMP_MESSAGE_TYPE: u8 = 0x0;

/// Any utility message.
#[derive(Clone, Debug, PartialEq, Eq)]
#[non_exhaustive]
pub enum Utility<B: Buffer<Unit = u32>> {
    NoOp(NoOp<B>),
    TimeStamp(TimeStamp<B>),
}

/// The discriminant of the family, as found in a unit sequence.
pub open spec fn spec_status<U: Unit>(units: Seq<U>) -> u32 {
    spec_read(units, channel_voice_status())
}

/// Reads the discriminant, and nothing else, from the front of a buffer.
pub fn status<U: Unit>(units: &[U]) -> (value: u8)
    requires
        units@.len() > 0,
    ensures
        value == spec_status(units@),
{
    let raw = read_field(units, &channel_voice_status_schema());
    proof {
        crate::bit_ops::lemma_low_mask_bound(0);
    }
    raw as u8
}

/// Whether a discriminant value names a message kind of the family.
pub open spec fn is_defined(status: u32) -> bool {
    status == no_op::STATUS
    || status == time_stamp::STATUS
}

impl<B: Buffer<Unit = u32>> Utility<B> {
    /// What parsing a buffer yields: the kind its discriminant names, if
    /// the buffer validates as that kind.
    pub open spec fn spec_try_from(buffer: B) -> Result<Self, Error> {
        let units = buffer.units();
        if units.len() < 1 {
            Err(Error::InvalidData(ERR_SLICE_TOO_SHORT))
        } else if spec_status(units) == no_op::STATUS {
            match no_op::spec_validate(units) {
                Ok(()) => Ok(Utility::NoOp(NoOp(buffer))),
                Err(e) => Err(e),
            }
        } else if spec_status(units) == time_stamp::STATUS {
            match time_stamp::spec_validate(units) {
                Ok(()) => Ok(Utility::TimeStamp(TimeStamp(buffer))),
                Err(e) => Err(e),
            }
        } else {
            Err(Error::InvalidData(ERR_UNKNOWN_UTILITY_STATUS))
        }
    }

    /// The message inside is a valid message of its kind.
    pub open spec fn wf(&self) -> bool {
        match self {
            Utility::NoOp(m) => m.wf(),
            Utility::TimeStamp(m) => m.wf(),
        }
    }

    /// The units of the underlying buffer.
    pub open spec fn units(&self) -> Seq<B::Unit> {
        match self {
            Utility::NoOp(m) => m.0.units(),
            Utility::TimeStamp(m) => m.0.units(),
        }
    }

    /// The number of units the message inside occupies.
    pub open spec fn size(&self) -> usize {
        match self {
            Utility::NoOp(_) => min_size::<B::Unit>(no_op::sizes()),
            Utility::TimeStamp(_) => min_size::<B::Unit>(time_stamp::sizes()),
        }
    }

    /// Reads the discriminant and routes the buffer to the message kind it
    /// names. Nothing but the discriminant is looked at before the kind
    /// is chosen; a value that names no kind is `InvalidData`.
    pub fn try_from(buffer: B) -> (r: Result<Self, Error>)
        ensures
            r == Self::spec_try_from(buffer),
    {
        if buffer.as_slice().len() < 1 {
            return Err(Error::InvalidData(ERR_SLICE_TOO_SHORT));
        }
        let found = status(buffer.as_slice());
        if found == no_op::STATUS {
            match NoOp::try_from(buffer) {
                Ok(m) => Ok(Utility::NoOp(m)),
                Err(e) => Err(e),
            }
        } else if found == time_stamp::STATUS {
            match TimeStamp::try_from(buffer) {
                Ok(m) => Ok(Utility::TimeStamp(m)),
                Err(e) => Err(e),
            }
        } else {
            Err(Error::InvalidData(ERR_UNKNOWN_UTILITY_STATUS))
        }
    }

    /// The units the message occupies.
    pub fn data(&self) -> (data: &[B::Unit])
        requires
            self.wf(),
        ensures
            data@ == self.units().subrange(0, self.size() as int),
    {
        match self {
            Utility::NoOp(m) => m.data(),
            Utility::TimeStamp(m) => m.data(),
        }
    }

    pub fn group(&self) -> (value: U4)
        requires
            self.wf(),
        ensures
            value@ == spec_read(self.units(), crate::common_properties::group()),
    {
        match self {
            Utility::NoOp(m) => m.group(),
            Utility::TimeStamp(m) => m.group(),
        }
    }

    /// Re-homes the message into a fresh buffer of another backend with
    /// the same unit type; the kind is kept.
    pub fn try_rebuffer_into<C: BufferMut<Unit = B::Unit>>(self) -> (r: Result<Utility<C>, Error>)
        requires
            self.wf(),
        ensures
            has_room::<C>(self.size() as nat) ==> r is Ok && r->Ok_0.wf() && r->Ok_0.size()
                == self.size() && r->Ok_0.units() == crate::property::rebuffered::<C>(
                self.units().subrange(0, self.size() as int),
            ),
            !has_room::<C>(self.size() as nat) ==> r == Err::<Utility<C>, Error>(
                Error::BufferOverflow,
            ),
    {
        match self {
            Utility::NoOp(m) => match m.try_rebuffer_into::<C>() {
                Ok(m) => Ok(Utility::NoOp(m)),
                Err(e) => Err(e),
            },
            Utility::TimeStamp(m) => match m.try_rebuffer_into::<C>() {
                Ok(m) => Ok(Utility::TimeStamp(m)),
                Err(e) => Err(e),
            },
        }
    }
}

impl<B: Buffer<Unit = u32>> From<NoOp<B>> for Utility<B> {
    fn from(value: NoOp<B>) -> (r: Self) {
        Utility::NoOp(value)
    }
}

impl<B: Buffer<Unit = u32>> FromSpecImpl<NoOp<B>> for Utility<B> {
    open spec fn obeys_from_spec() -> bool {
        true
    }

    open spec fn from_spec(value: NoOp<B>) -> Self {
        Utility::NoOp(value)
    }
}

impl<B: Buffer<Unit = u32>> From<TimeStamp<B>> for Utility<B> {
    fn from(value: TimeStamp<B>) -> (r: Self) {
        Utility::TimeStamp(value)
    }
}

impl<B: Buffer<Unit = u32>> FromSpecImpl<TimeStamp<B>> for Utility<B> {
    open spec fn obeys_from_spec() -> bool {
        true
    }

    open spec fn from_spec(value: TimeStamp<B>) -> Self {
        Utility::TimeStamp(value)
    }
}

/// Routing is by discriminant alone: a buffer that parses lands in the
/// variant whose status its discriminant holds, as a valid message of
/// that kind; a discriminant that names no kind never parses.
pub proof fn lemma_routing<B: Buffer<Unit = u32>>(buffer: B)
    ensures
        match Utility::<B>::spec_try_from(buffer) {
            Ok(message) => message.wf() && message.units() == buffer.units() && is_defined(
                spec_status(buffer.units()),
            ) && match message {
                Utility::NoOp(_) => spec_status(buffer.units()) == no_op::STATUS,
                Utility::TimeStamp(_) => spec_status(buffer.units()) == time_stamp::STATUS,
            },
            Err(e) => e is InvalidData,
        },
        buffer.units().len() >= 1 && !is_defined(spec_status(buffer.units()))
            ==> Utility::<B>::spec_try_from(buffer) == Err::<Utility<B>, Error>(
            Error::InvalidData(ERR_UNKNOWN_UTILITY_STATUS),
        ),
{
}

} // verus!
