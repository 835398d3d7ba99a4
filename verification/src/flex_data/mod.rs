//! The flex data messages: musical metadata such as key, tempo and text.

use vstd::prelude::*;
use vstd::std_specs::convert::{FromSpec, FromSpecImpl};
use crate::buffer::{Buffer, BufferMut};
use crate::common_properties::{flex_status, flex_status_schema};
use crate::error::{ERR_SLICE_TOO_SHORT, ERR_UNKNOWN_FLEX_DATA_STATUS, Error};
use crate::numeric_types::U4;
use crate::property::has_room;
use crate::schema::{min_size, read_field, spec_read, Unit};

pub mod set_key_signature;
pub mod tonic;

pub use set_key_signature::SetKeySignature;

verus! {

/// The message-type nibble of flex data packets.
pub const UMP_MESSAGE_TYPE: u8 = 0xD;

/// Any flex data message.
#[derive(Clone, Debug, PartialEq, Eq)]
#[non_exhaustive]
pub enum FlexData<B: Buffer<Unit = u32>> {
    SetKeySignature(SetKeySignature<B>),
}

/// The discriminant of the family, as found in a unit sequence.
pub open spec fn spec_status<U: Unit>(units: Seq<U>) -> u32 {
    spec_read(units, flex_status())
}

/// Reads the discriminant, and nothing else, from the front of a buffer.
pub fn status<U: Unit>(units: &[U]) -> (value: u16)
    requires
        units@.len() > 0,
    ensures
        value == spec_status(units@),
{
    let raw = read_field(units, &flex_status_schema());
    proof {
        crate::bit_ops::lemma_low_mask_bound(0);
    }
    raw as u16
}

/// Whether a discriminant value names a message kind of the family.
pub open spec fn is_defined(status: u32) -> bool {
    status == set_key_signature::CODE
}

impl<B: Buffer<Unit = u32>> FlexData<B> {
    /// What parsing a buffer yields: the kind its discriminant names, if
    /// the buffer validates as that kind.
    pub open spec fn spec_try_from(buffer: B) -> Result<Self, Error> {
        let units = buffer.units();
        if units.len() < 1 {
            Err(Error::InvalidData(ERR_SLICE_TOO_SHORT))
        } else if spec_status(units) == set_key_signature::CODE {
            match set_key_signature::spec_validate(units) {
                Ok(()) => Ok(FlexData::SetKeySignature(SetKeySignature(buffer))),
                Err(e) => Err(e),
            }
        } else {
            Err(Error::InvalidData(ERR_UNKNOWN_FLEX_DATA_STATUS))
        }
    }

    /// The message inside is a valid message of its kind.
    pub open spec fn wf(&self) -> bool {
        match self {
            FlexData::SetKeySignature(m) => m.wf(),
        }
    }

    /// The units of the underlying buffer.
    pub open spec fn units(&self) -> Seq<B::Unit> {
        match self {
            FlexData::SetKeySignature(m) => m.0.units(),
        }
    }

    /// The number of units the message inside occupies.
    pub open spec fn size(&self) -> usize {
        match self {
            FlexData::SetKeySignature(_) => min_size::<B::Unit>(set_key_signature::sizes()),
        }
    }

    /// Reads the discriminant and routes the buffer to the message kind it
    /// names. Nothing but the discriminant is looked at before the kind
    /// is chosen; a value that names no kind is `InvalidData`.
    pub fn try_from(buffer: B) -> (r: Result<Self, Error>)
        ensures
            r == Self::spec_try_from(buffer),
    {
        if buffer.as_slice().len() < 1 {
            return Err(Error::InvalidData(ERR_SLICE_TOO_SHORT));
        }
        let found = status(buffer.as_slice());
        if found == set_key_signature::CODE {
            match SetKeySignature::try_from(buffer) {
                Ok(m) => Ok(FlexData::SetKeySignature(m)),
                Err(e) => Err(e),
            }
        } else {
            Err(Error::InvalidData(ERR_UNKNOWN_FLEX_DATA_STATUS))
        }
    }

    /// The units the message occupies.
    pub fn data(&self) -> (data: &[B::Unit])
        requires
            self.wf(),
        ensures
            data@ == self.units().subrange(0, self.size() as int),
    {
        match self {
            FlexData::SetKeySignature(m) => m.data(),
        }
    }

    pub fn group(&self) -> (value: U4)
        requires
            self.wf(),
        ensures
            value@ == spec_read(self.units(), crate::common_properties::group()),
    {
        match self {
            FlexData::SetKeySignature(m) => m.group(),
        }
    }

    /// Re-homes the message into a fresh buffer of another backend with
    /// the same unit type; the kind is kept.
    pub fn try_rebuffer_into<C: BufferMut<Unit = B::Unit>>(self) -> (r: Result<FlexData<C>, Error>)
        requires
            self.wf(),
        ensures
            has_room::<C>(self.size() as nat) ==> r is Ok && r->Ok_0.wf() && r->Ok_0.size()
                == self.size() && r->Ok_0.units() == crate::property::rebuffered::<C>(
                self.units().subrange(0, self.size() as int),
            ),
            !has_room::<C>(self.size() as nat) ==> r == Err::<FlexData<C>, Error>(
                Error::BufferOverflow,
            ),
    {
        match self {
            FlexData::SetKeySignature(m) => match m.try_rebuffer_into::<C>() {
                Ok(m) => Ok(FlexData::SetKeySignature(m)),
                Err(e) => Err(e),
            },
        }
    }
}

impl<B: Buffer<Unit = u32>> From<SetKeySignature<B>> for FlexData<B> {
    fn from(value: SetKeySignature<B>) -> (r: Self) {
        FlexData::SetKeySignature(value)
    }
}

impl<B: Buffer<Unit = u32>> FromSpecImpl<SetKeySignature<B>> for FlexData<B> {
    open spec fn obeys_from_spec() -> bool {
        true
    }

    open spec fn from_spec(value: SetKeySignature<B>) -> Self {
        FlexData::SetKeySignature(value)
    }
}

/// Routing is by discriminant alone: a buffer that parses lands in the
/// variant whose status its discriminant holds, as a valid message of
/// that kind; a discriminant that names no kind never parses.
pub proof fn lemma_routing<B: Buffer<Unit = u32>>(buffer: B)
    ensures
        match FlexData::<B>::spec_try_from(buffer) {
            Ok(message) => message.wf() && message.units() == buffer.units() && is_defined(
                spec_status(buffer.units()),
            ) && match message {
                FlexData::SetKeySignature(_) => spec_status(
                    buffer.units()
                ) == set_key_signature::CODE,
            },
            Err(e) => e is InvalidData,
        },
        buffer.units().len() >= 1 && !is_defined(spec_status(buffer.units()))
            ==> FlexData::<B>::spec_try_from(buffer) == Err::<FlexData<B>, Error>(
            Error::InvalidData(ERR_UNKNOWN_FLEX_DATA_STATUS),
        ),
{
}

} // verus!
