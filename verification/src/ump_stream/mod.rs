//! The stream messages of fixed size: configuration and clip markers.

use vstd::prelude::*;
use vstd::std_specs::convert::{FromSpec, FromSpecImpl};
use crate::buffer::{Buffer, BufferMut};
use crate::common_properties::{stream_status, stream_status_schema};
use crate::error::{ERR_SLICE_TOO_SHORT, ERR_UNKNOWN_UMP_STREAM_STATUS, Error};
use crate::property::has_room;
use crate::schema::{min_size, read_field, spec_read, Unit};

pub mod end_of_clip;
pub mod start_of_clip;
pub mod stream_configuration_request;

pub use end_of_clip::EndOfClip;
pub use start_of_clip::StartOfClip;
pub use stream_configuration_request::StreamConfigurationRequest;

verus! {

/// The message-type nibble of stream packets.
pub const UMP_MESSAGE_TYPE: u8 = 0xF;

/// Any stream message of fixed size.
#[derive(Clone, Debug, PartialEq, Eq)]
#[non_exhaustive]
pub enum UmpStream<B: Buffer<Unit = u32>> {
    EndOfClip(EndOfClip<B>),
    StartOfClip(StartOfClip<B>),
    StreamConfigurationRequest(StreamConfigurationRequest<B>),
}

/// The discriminant of the family, as found in a unit sequence.
pub open spec fn spec_status<U: Unit>(units: Seq<U>) -> u32 {
    spec_read(units, stream_status())
}

/// Reads the discriminant, and nothing else, from the front of a buffer.
pub fn status<U: Unit>(units: &[U]) -> (value: u16)
    requires
        units@.len() > 0,
    ensures
        value == spec_status(units@),
{
    let raw = read_field(units, &stream_status_schema());
    proof {
        crate::bit_ops::lemma_low_mask_bound(0);
    }
    raw as u16
}

/// Whether a discriminant value names a message kind of the family.
pub open spec fn is_defined(status: u32) -> bool {
    status == end_of_clip::STATUS
    || status == start_of_clip::STATUS
    || status == stream_configuration_request::STATUS
}

impl<B: Buffer<Unit = u32>> UmpStream<B> {
    /// What parsing a buffer yields: the kind its discriminant names, if
    /// the buffer validates as that kind.
    pub open spec fn spec_try_from(buffer: B) -> Result<Self, Error> {
        let units = buffer.units();
        if units.len() < 1 {
            Err(Error::InvalidData(ERR_SLICE_TOO_SHORT))
        } else if spec_status(units) == end_of_clip::STATUS {
            match end_of_clip::spec_validate(units) {
                Ok(()) => Ok(UmpStream::EndOfClip(EndOfClip(buffer))),
                Err(e) => Err(e),
            }
        } else if spec_status(units) == start_of_clip::STATUS {
            match start_of_clip::spec_validate(units) {
                Ok(()) => Ok(UmpStream::StartOfClip(StartOfClip(buffer))),
                Err(e) => Err(e),
            }
        } else if spec_status(units) == stream_configuration_request::STATUS {
            match stream_configuration_request::spec_validate(units) {
                Ok(()) => Ok(
                    UmpStream::StreamConfigurationRequest(StreamConfigurationRequest(buffer))
                ),
                Err(e) => Err(e),
            }
        } else {
            Err(Error::InvalidData(ERR_UNKNOWN_UMP_STREAM_STATUS))
        }
    }

    /// The message inside is a valid message of its kind.
    pub open spec fn wf(&self) -> bool {
        match self {
            UmpStream::EndOfClip(m) => m.wf(),
            UmpStream::StartOfClip(m) => m.wf(),
            UmpStream::StreamConfigurationRequest(m) => m.wf(),
        }
    }

    /// The units of the underlying buffer.
    pub open spec fn units(&self) -> Seq<B::Unit> {
        match self {
            UmpStream::EndOfClip(m) => m.0.units(),
            UmpStream::StartOfClip(m) => m.0.units(),
            UmpStream::StreamConfigurationRequest(m) => m.0.units(),
        }
    }

    /// The number of units the message inside occupies.
    pub open spec fn size(&self) -> usize {
        match self {
            UmpStream::EndOfClip(_) => min_size::<B::Unit>(end_of_clip::sizes()),
            UmpStream::StartOfClip(_) => min_size::<B::Unit>(start_of_clip::sizes()),
            UmpStream::StreamConfigurationRequest(_) => min_size::<B::Unit>(
                stream_configuration_request::sizes()
            ),
        }
    }

    /// Reads the discriminant and routes the buffer to the message kind it
    /// names. Nothing but the discriminant is looked at before the kind
    /// is chosen; a value that names no kind is `InvalidData`.
    pub fn try_from(buffer: B) -> (r: Result<Self, Error>)
        ensures
            r == Self::spec_try_from(buffer),
    {
        if buffer.as_slice().len() < 1 {
            return Err(Error::InvalidData(ERR_SLICE_TOO_SHORT));
        }
        let found = status(buffer.as_slice());
        if found == end_of_clip::STATUS {
            match EndOfClip::try_from(buffer) {
                Ok(m) => Ok(UmpStream::EndOfClip(m)),
                Err(e) => Err(e),
            }
        } else if found == start_of_clip::STATUS {
            match StartOfClip::try_from(buffer) {
                Ok(m) => Ok(UmpStream::StartOfClip(m)),
                Err(e) => Err(e),
            }
        } else if found == stream_configuration_request::STATUS {
            match StreamConfigurationRequest::try_from(buffer) {
                Ok(m) => Ok(UmpStream::StreamConfigurationRequest(m)),
                Err(e) => Err(e),
            }
        } else {
            Err(Error::InvalidData(ERR_UNKNOWN_UMP_STREAM_STATUS))
        }
    }

    /// The units the message occupies.
    pub fn data(&self) -> (data: &[B::Unit])
        requires
            self.wf(),
        ensures
            data@ == self.units().subrange(0, self.size() as int),
    {
        match self {
            UmpStream::EndOfClip(m) => m.data(),
            UmpStream::StartOfClip(m) => m.data(),
            UmpStream::StreamConfigurationRequest(m) => m.data(),
        }
    }

    /// Re-homes the message into a fresh buffer of another backend with
    /// the same unit type; the kind is kept.
    pub fn try_rebuffer_into<C: BufferMut<Unit = B::Unit>>(self) -> (r: Result<UmpStream<C>, Error>)
        requires
            self.wf(),
        ensures
            has_room::<C>(self.size() as nat) ==> r is Ok && r->Ok_0.wf() && r->Ok_0.size()
                == self.size() && r->Ok_0.units() == crate::property::rebuffered::<C>(
                self.units().subrange(0, self.size() as int),
            ),
            !has_room::<C>(self.size() as nat) ==> r == Err::<UmpStream<C>, Error>(
                Error::BufferOverflow,
            ),
    {
        match self {
            UmpStream::EndOfClip(m) => match m.try_rebuffer_into::<C>() {
                Ok(m) => Ok(UmpStream::EndOfClip(m)),
                Err(e) => Err(e),
            },
            UmpStream::StartOfClip(m) => match m.try_rebuffer_into::<C>() {
                Ok(m) => Ok(UmpStream::StartOfClip(m)),
                Err(e) => Err(e),
            },
            UmpStream::StreamConfigurationRequest(m) => match m.try_rebuffer_into::<C>() {
                Ok(m) => Ok(UmpStream::StreamConfigurationRequest(m)),
                Err(e) => Err(e),
            },
        }
    }
}

impl<B: Buffer<Unit = u32>> From<EndOfClip<B>> for UmpStream<B> {
    fn from(value: EndOfClip<B>) -> (r: Self) {
        UmpStream::EndOfClip(value)
    }
}

impl<B: Buffer<Unit = u32>> FromSpecImpl<EndOfClip<B>> for UmpStream<B> {
    open spec fn obeys_from_spec() -> bool {
        true
    }

    open spec fn from_spec(value: EndOfClip<B>) -> Self {
        UmpStream::EndOfClip(value)
    }
}

impl<B: Buffer<Unit = u32>> From<StartOfClip<B>> for UmpStream<B> {
    fn from(value: StartOfClip<B>) -> (r: Self) {
        UmpStream::StartOfClip(value)
    }
}

impl<B: Buffer<Unit = u32>> FromSpecImpl<StartOfClip<B>> for UmpStream<B> {
    open spec fn obeys_from_spec() -> bool {
        true
    }

    open spec fn from_spec(value: StartOfClip<B>) -> Self {
        UmpStream::StartOfClip(value)
    }
}

impl<B: Buffer<Unit = u32>> From<StreamConfigurationRequest<B>> for UmpStream<B> {
    fn from(value: StreamConfigurationRequest<B>) -> (r: Self) {
        UmpStream::StreamConfigurationRequest(value)
    }
}

impl<B: Buffer<Unit = u32>> FromSpecImpl<StreamConfigurationRequest<B>> for UmpStream<B> {
    open spec fn obeys_from_spec() -> bool {
        true
    }

    open spec fn from_spec(value: StreamConfigurationRequest<B>) -> Self {
        UmpStream::StreamConfigurationRequest(value)
    }
}

/// Routing is by discriminant alone: a buffer that parses lands in the
/// variant whose status its discriminant holds, as a valid message of
/// that kind; a discriminant that names no kind never parses.
pub proof fn lemma_routing<B: Buffer<Unit = u32>>(buffer: B)
    ensures
        match UmpStream::<B>::spec_try_from(buffer) {
            Ok(message) => message.wf() && message.units() == buffer.units() && is_defined(
                spec_status(buffer.units()),
            ) && match message {
                UmpStream::EndOfClip(_) => spec_status(buffer.units()) == end_of_clip::STATUS,
                UmpStream::StartOfClip(_) => spec_status(buffer.units()) == start_of_clip::STATUS,
                UmpStream::StreamConfigurationRequest(_) => spec_status(
                    buffer.units()
                ) == stream_configuration_request::STATUS,
            },
            Err(e) => e is InvalidData,
        },
        buffer.units().len() >= 1 && !is_defined(spec_status(buffer.units()))
            ==> UmpStream::<B>::spec_try_from(buffer) == Err::<UmpStream<B>, Error>(
            Error::InvalidData(ERR_UNKNOWN_UMP_STREAM_STATUS),
        ),
{
}

} // verus!
