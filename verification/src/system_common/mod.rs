//! The system common and system real time messages, in packet form and in
//! byte form.

use vstd::prelude::*;
use vstd::std_specs::convert::{FromSpec, FromSpecImpl};
use crate::buffer::{Buffer, BufferMut};
use crate::common_properties::{status_octet, status_octet_schema};
use crate::error::{ERR_SLICE_TOO_SHORT, ERR_UNKNOWN_SYSTEM_COMMON_STATUS, Error};
use crate::error::ERR_INCORRECT_STATUS;
use crate::numeric_types::U4;
use crate::property::has_room;
use crate::schema::{spec_write, write_field};
use crate::schema::{min_size, read_field, spec_read, Unit};

pub mod active_sensing;
pub mod cont;
pub mod reset;
pub mod song_position_pointer;
pub mod song_select;
pub mod start;
pub mod stop;
pub mod time_code;
pub mod timing_clock;
pub mod tune_request;

pub use active_sensing::ActiveSensing;
pub use cont::Continue;
pub use reset::Reset;
pub use song_position_pointer::SongPositionPointer;
pub use song_select::SongSelect;
pub use start::Start;
pub use stop::Stop;
pub use time_code::TimeCode;
pub use timing_clock::TimingClock;
pub use tune_request::TuneRequest;

verus! {

/// The message-type nibble of system packets.
pub const UMP_MESSAGE_TYPE: u8 = 0x1;

/// Any system common or system real time message.
#[derive(Clone, Debug, PartialEq, Eq)]
#[non_exhaustive]
pub enum SystemCommon<B: Buffer> {
    ActiveSensing(ActiveSensing<B>),
    Continue(Continue<B>),
    Reset(Reset<B>),
    SongPositionPointer(SongPositionPointer<B>),
    SongSelect(SongSelect<B>),
    Start(Start<B>),
    Stop(Stop<B>),
    TimeCode(TimeCode<B>),
    TimingClock(TimingClock<B>),
    TuneRequest(TuneRequest<B>),
}

/// The discriminant of the family, as found in a unit sequence.
pub open spec fn spec_status<U: Unit>(units: Seq<U>) -> u32 {
    spec_read(units, status_octet())
}

/// Reads the discriminant, and nothing else, from the front of a buffer.
pub fn status<U: Unit>(units: &[U]) -> (value: u8)
    requires
        units@.len() > 0,
    ensures
        value == spec_status(units@),
{
    let raw = read_field(units, &status_octet_schema());
    proof {
        crate::bit_ops::lemma_low_mask_bound(0);
    }
    raw as u8
}

/// Whether a discriminant value names a message kind of the family.
pub open spec fn is_defined(status: u32) -> bool {
    status == active_sensing::STATUS
    || status == cont::STATUS
    || status == reset::STATUS
    || status == song_position_pointer::STATUS
    || status == song_select::STATUS
    || status == start::STATUS
    || status == stop::STATUS
    || status == time_code::STATUS
    || status == timing_clock::STATUS
    || status == tune_request::STATUS
}

impl<B: Buffer> SystemCommon<B> {
    /// What parsing a buffer yields: the kind its discriminant names, if
    /// the buffer validates as that kind.
    pub open spec fn spec_try_from(buffer: B) -> Result<Self, Error> {
        let units = buffer.units();
        if units.len() < 1 {
            Err(Error::InvalidData(ERR_SLICE_TOO_SHORT))
        } else if spec_status(units) == active_sensing::STATUS {
            match active_sensing::spec_validate(units) {
                Ok(()) => Ok(SystemCommon::ActiveSensing(ActiveSensing(buffer))),
                Err(e) => Err(e),
            }
        } else if spec_status(units) == cont::STATUS {
            match cont::spec_validate(units) {
                Ok(()) => Ok(SystemCommon::Continue(Continue(buffer))),
                Err(e) => Err(e),
            }
        } else if spec_status(units) == reset::STATUS {
            match reset::spec_validate(units) {
                Ok(()) => Ok(SystemCommon::Reset(Reset(buffer))),
                Err(e) => Err(e),
            }
        } else if spec_status(units) == song_position_pointer::STATUS {
            match song_position_pointer::spec_validate(units) {
                Ok(()) => Ok(SystemCommon::SongPositionPointer(SongPositionPointer(buffer))),
                Err(e) => Err(e),
            }
        } else if spec_status(units) == song_select::STATUS {
            match song_select::spec_validate(units) {
                Ok(()) => Ok(SystemCommon::SongSelect(SongSelect(buffer))),
                Err(e) => Err(e),
            }
        } else if spec_status(units) == start::STATUS {
            match start::spec_validate(units) {
                Ok(()) => Ok(SystemCommon::Start(Start(buffer))),
                Err(e) => Err(e),
            }
        } else if spec_status(units) == stop::STATUS {
            match stop::spec_validate(units) {
                Ok(()) => Ok(SystemCommon::Stop(Stop(buffer))),
                Err(e) => Err(e),
            }
        } else if spec_status(units) == time_code::STATUS {
            match time_code::spec_validate(units) {
                Ok(()) => Ok(SystemCommon::TimeCode(TimeCode(buffer))),
                Err(e) => Err(e),
            }
        } else if spec_status(units) == timing_clock::STATUS {
            match timing_clock::spec_validate(units) {
                Ok(()) => Ok(SystemCommon::TimingClock(TimingClock(buffer))),
                Err(e) => Err(e),
            }
        } else if spec_status(units) == tune_request::STATUS {
            match tune_request::spec_validate(units) {
                Ok(()) => Ok(SystemCommon::TuneRequest(TuneRequest(buffer))),
                Err(e) => Err(e),
            }
        } else {
            Err(Error::InvalidData(ERR_UNKNOWN_SYSTEM_COMMON_STATUS))
        }
    }

    /// The message inside is a valid message of its kind.
    pub open spec fn wf(&self) -> bool {
        match self {
            SystemCommon::ActiveSensing(m) => m.wf(),
            SystemCommon::Continue(m) => m.wf(),
            SystemCommon::Reset(m) => m.wf(),
            SystemCommon::SongPositionPointer(m) => m.wf(),
            SystemCommon::SongSelect(m) => m.wf(),
            SystemCommon::Start(m) => m.wf(),
            SystemCommon::Stop(m) => m.wf(),
            SystemCommon::TimeCode(m) => m.wf(),
            SystemCommon::TimingClock(m) => m.wf(),
            SystemCommon::TuneRequest(m) => m.wf(),
        }
    }

    /// The units of the underlying buffer.
    pub open spec fn units(&self) -> Seq<B::Unit> {
        match self {
            SystemCommon::ActiveSensing(m) => m.0.units(),
            SystemCommon::Continue(m) => m.0.units(),
            SystemCommon::Reset(m) => m.0.units(),
            SystemCommon::SongPositionPointer(m) => m.0.units(),
            SystemCommon::SongSelect(m) => m.0.units(),
            SystemCommon::Start(m) => m.0.units(),
            SystemCommon::Stop(m) => m.0.units(),
            SystemCommon::TimeCode(m) => m.0.units(),
            SystemCommon::TimingClock(m) => m.0.units(),
            SystemCommon::TuneRequest(m) => m.0.units(),
        }
    }

    /// The number of units the message inside occupies.
    pub open spec fn size(&self) -> usize {
        match self {
            SystemCommon::ActiveSensing(_) => min_size::<B::Unit>(active_sensing::sizes()),
            SystemCommon::Continue(_) => min_size::<B::Unit>(cont::sizes()),
            SystemCommon::Reset(_) => min_size::<B::Unit>(reset::sizes()),
            SystemCommon::SongPositionPointer(_) => min_size::<B::Unit>(
                song_position_pointer::sizes()
            ),
            SystemCommon::SongSelect(_) => min_size::<B::Unit>(song_select::sizes()),
            SystemCommon::Start(_) => min_size::<B::Unit>(start::sizes()),
            SystemCommon::Stop(_) => min_size::<B::Unit>(stop::sizes()),
            SystemCommon::TimeCode(_) => min_size::<B::Unit>(time_code::sizes()),
            SystemCommon::TimingClock(_) => min_size::<B::Unit>(timing_clock::sizes()),
            SystemCommon::TuneRequest(_) => min_size::<B::Unit>(tune_request::sizes()),
        }
    }

    /// Reads the discriminant and routes the buffer to the message kind it
    /// names. Nothing but the discriminant is looked at before the kind
    /// is chosen; a value that names no kind is `InvalidData`.
    pub fn try_from(buffer: B) -> (r: Result<Self, Error>)
        ensures
            r == Self::spec_try_from(buffer),
    {
        if buffer.as_slice().len() < 1 {
            return Err(Error::InvalidData(ERR_SLICE_TOO_SHORT));
        }
        let found = status(buffer.as_slice());
        if found == active_sensing::STATUS {
            match ActiveSensing::try_from(buffer) {
                Ok(m) => Ok(SystemCommon::ActiveSensing(m)),
                Err(e) => Err(e),
            }
        } else if found == cont::STATUS {
            match Continue::try_from(buffer) {
                Ok(m) => Ok(SystemCommon::Continue(m)),
                Err(e) => Err(e),
            }
        } else if found == reset::STATUS {
            match Reset::try_from(buffer) {
                Ok(m) => Ok(SystemCommon::Reset(m)),
                Err(e) => Err(e),
            }
        } else if found == song_position_pointer::STATUS {
            match SongPositionPointer::try_from(buffer) {
                Ok(m) => Ok(SystemCommon::SongPositionPointer(m)),
                Err(e) => Err(e),
            }
        } else if found == song_select::STATUS {
            match SongSelect::try_from(buffer) {
                Ok(m) => Ok(SystemCommon::SongSelect(m)),
                Err(e) => Err(e),
            }
        } else if found == start::STATUS {
            match Start::try_from(buffer) {
                Ok(m) => Ok(SystemCommon::Start(m)),
                Err(e) => Err(e),
            }
        } else if found == stop::STATUS {
            match Stop::try_from(buffer) {
                Ok(m) => Ok(SystemCommon::Stop(m)),
                Err(e) => Err(e),
            }
        } else if found == time_code::STATUS {
            match TimeCode::try_from(buffer) {
                Ok(m) => Ok(SystemCommon::TimeCode(m)),
                Err(e) => Err(e),
            }
        } else if found == timing_clock::STATUS {
            match TimingClock::try_from(buffer) {
                Ok(m) => Ok(SystemCommon::TimingClock(m)),
                Err(e) => Err(e),
            }
        } else if found == tune_request::STATUS {
            match TuneRequest::try_from(buffer) {
                Ok(m) => Ok(SystemCommon::TuneRequest(m)),
                Err(e) => Err(e),
            }
        } else {
            Err(Error::InvalidData(ERR_UNKNOWN_SYSTEM_COMMON_STATUS))
        }
    }

    /// The units the message occupies.
    pub fn data(&self) -> (data: &[B::Unit])
        requires
            self.wf(),
        ensures
            data@ == self.units().subrange(0, self.size() as int),
    {
        match self {
            SystemCommon::ActiveSensing(m) => m.data(),
            SystemCommon::Continue(m) => m.data(),
            SystemCommon::Reset(m) => m.data(),
            SystemCommon::SongPositionPointer(m) => m.data(),
            SystemCommon::SongSelect(m) => m.data(),
            SystemCommon::Start(m) => m.data(),
            SystemCommon::Stop(m) => m.data(),
            SystemCommon::TimeCode(m) => m.data(),
            SystemCommon::TimingClock(m) => m.data(),
            SystemCommon::TuneRequest(m) => m.data(),
        }
    }

    pub fn group(&self) -> (value: U4)
        requires
            self.wf(),
        ensures
            value@ == spec_read(self.units(), crate::common_properties::group()),
    {
        match self {
            SystemCommon::ActiveSensing(m) => m.group(),
            SystemCommon::Continue(m) => m.group(),
            SystemCommon::Reset(m) => m.group(),
            SystemCommon::SongPositionPointer(m) => m.group(),
            SystemCommon::SongSelect(m) => m.group(),
            SystemCommon::Start(m) => m.group(),
            SystemCommon::Stop(m) => m.group(),
            SystemCommon::TimeCode(m) => m.group(),
            SystemCommon::TimingClock(m) => m.group(),
            SystemCommon::TuneRequest(m) => m.group(),
        }
    }

    /// Re-homes the message into a fresh buffer of another backend with
    /// the same unit type; the kind is kept.
    pub fn try_rebuffer_into<C: BufferMut<Unit = B::Unit>>(
        self,
    ) -> (r: Result<SystemCommon<C>, Error>)
        requires
            self.wf(),
        ensures
            has_room::<C>(self.size() as nat) ==> r is Ok && r->Ok_0.wf() && r->Ok_0.size()
                == self.size() && r->Ok_0.units() == crate::property::rebuffered::<C>(
                self.units().subrange(0, self.size() as int),
            ),
            !has_room::<C>(self.size() as nat) ==> r == Err::<SystemCommon<C>, Error>(
                Error::BufferOverflow,
            ),
    {
        match self {
            SystemCommon::ActiveSensing(m) => match m.try_rebuffer_into::<C>() {
                Ok(m) => Ok(SystemCommon::ActiveSensing(m)),
                Err(e) => Err(e),
            },
            SystemCommon::Continue(m) => match m.try_rebuffer_into::<C>() {
                Ok(m) => Ok(SystemCommon::Continue(m)),
                Err(e) => Err(e),
            },
            SystemCommon::Reset(m) => match m.try_rebuffer_into::<C>() {
                Ok(m) => Ok(SystemCommon::Reset(m)),
                Err(e) => Err(e),
            },
            SystemCommon::SongPositionPointer(m) => match m.try_rebuffer_into::<C>() {
                Ok(m) => Ok(SystemCommon::SongPositionPointer(m)),
                Err(e) => Err(e),
            },
            SystemCommon::SongSelect(m) => match m.try_rebuffer_into::<C>() {
                Ok(m) => Ok(SystemCommon::SongSelect(m)),
                Err(e) => Err(e),
            },
            SystemCommon::Start(m) => match m.try_rebuffer_into::<C>() {
                Ok(m) => Ok(SystemCommon::Start(m)),
                Err(e) => Err(e),
            },
            SystemCommon::Stop(m) => match m.try_rebuffer_into::<C>() {
                Ok(m) => Ok(SystemCommon::Stop(m)),
                Err(e) => Err(e),
            },
            SystemCommon::TimeCode(m) => match m.try_rebuffer_into::<C>() {
                Ok(m) => Ok(SystemCommon::TimeCode(m)),
                Err(e) => Err(e),
            },
            SystemCommon::TimingClock(m) => match m.try_rebuffer_into::<C>() {
                Ok(m) => Ok(SystemCommon::TimingClock(m)),
                Err(e) => Err(e),
            },
            SystemCommon::TuneRequest(m) => match m.try_rebuffer_into::<C>() {
                Ok(m) => Ok(SystemCommon::TuneRequest(m)),
                Err(e) => Err(e),
            },
        }
    }
}

impl<B: BufferMut<Unit = u32>> SystemCommon<B> {
    /// The units of the conversion of a message into a buffer of `len`
    /// units: a fresh message of the same kind with every field set to
    /// the value `other` holds.
    pub open spec fn spec_from_bytes<A: Buffer<Unit = u8>>(
        other: SystemCommon<A>,
        len: nat,
    ) -> Seq<u32> {
        match other {
            SystemCommon::ActiveSensing(inner) => active_sensing::spec_with_fields::<u32>(
                len,
                inner.spec_group(),
            ),
            SystemCommon::Continue(inner) => cont::spec_with_fields::<u32>(len, inner.spec_group()),
            SystemCommon::Reset(inner) => reset::spec_with_fields::<u32>(len, inner.spec_group()),
            SystemCommon::SongPositionPointer(
                inner
            ) => song_position_pointer::spec_with_fields::<u32>(
                len,
                inner.spec_group(),
                inner.spec_position(),
            ),
            SystemCommon::SongSelect(inner) => song_select::spec_with_fields::<u32>(
                len,
                inner.spec_group(),
                inner.spec_song(),
            ),
            SystemCommon::Start(inner) => start::spec_with_fields::<u32>(len, inner.spec_group()),
            SystemCommon::Stop(inner) => stop::spec_with_fields::<u32>(len, inner.spec_group()),
            SystemCommon::TimeCode(inner) => time_code::spec_with_fields::<u32>(
                len,
                inner.spec_group(),
                inner.spec_time_code(),
            ),
            SystemCommon::TimingClock(inner) => timing_clock::spec_with_fields::<u32>(
                len,
                inner.spec_group(),
            ),
            SystemCommon::TuneRequest(inner) => tune_request::spec_with_fields::<u32>(
                len,
                inner.spec_group(),
            ),
        }
    }

    /// Converts the byte stream form of a message into this form; the kind
    /// is kept and every field is encoded anew.
    pub fn try_from_bytes<A: Buffer<Unit = u8>>(other: SystemCommon<A>) -> (r: Result<Self, Error>)
        requires
            other.wf(),
        ensures
            r is Ok ==> r->Ok_0.wf(),
            r is Err ==> r == Err::<Self, Error>(Error::BufferOverflow),
            match other {
                SystemCommon::ActiveSensing(m) => r is Ok <==> has_room::<B>(
                    min_size::<u32>(active_sensing::sizes()) as nat
                ),
                SystemCommon::Continue(m) => r is Ok <==> has_room::<B>(
                    min_size::<u32>(cont::sizes()) as nat
                ),
                SystemCommon::Reset(m) => r is Ok <==> has_room::<B>(
                    min_size::<u32>(reset::sizes()) as nat
                ),
                SystemCommon::SongPositionPointer(m) => r is Ok <==> has_room::<B>(
                    min_size::<u32>(song_position_pointer::sizes()) as nat
                ),
                SystemCommon::SongSelect(m) => r is Ok <==> has_room::<B>(
                    min_size::<u32>(song_select::sizes()) as nat
                ),
                SystemCommon::Start(m) => r is Ok <==> has_room::<B>(
                    min_size::<u32>(start::sizes()) as nat
                ),
                SystemCommon::Stop(m) => r is Ok <==> has_room::<B>(
                    min_size::<u32>(stop::sizes()) as nat
                ),
                SystemCommon::TimeCode(m) => r is Ok <==> has_room::<B>(
                    min_size::<u32>(time_code::sizes()) as nat
                ),
                SystemCommon::TimingClock(m) => r is Ok <==> has_room::<B>(
                    min_size::<u32>(timing_clock::sizes()) as nat
                ),
                SystemCommon::TuneRequest(m) => r is Ok <==> has_room::<B>(
                    min_size::<u32>(tune_request::sizes()) as nat
                ),
            },
            match other {
                SystemCommon::ActiveSensing(_) => r is Ok ==> r->Ok_0 is ActiveSensing,
                SystemCommon::Continue(_) => r is Ok ==> r->Ok_0 is Continue,
                SystemCommon::Reset(_) => r is Ok ==> r->Ok_0 is Reset,
                SystemCommon::SongPositionPointer(_) => r is Ok ==> r->Ok_0 is SongPositionPointer,
                SystemCommon::SongSelect(_) => r is Ok ==> r->Ok_0 is SongSelect,
                SystemCommon::Start(_) => r is Ok ==> r->Ok_0 is Start,
                SystemCommon::Stop(_) => r is Ok ==> r->Ok_0 is Stop,
                SystemCommon::TimeCode(_) => r is Ok ==> r->Ok_0 is TimeCode,
                SystemCommon::TimingClock(_) => r is Ok ==> r->Ok_0 is TimingClock,
                SystemCommon::TuneRequest(_) => r is Ok ==> r->Ok_0 is TuneRequest,
            },
            r is Ok ==> r->Ok_0.units() == Self::spec_from_bytes(other, r->Ok_0.units().len()),
    {
        match other {
            SystemCommon::ActiveSensing(m) => match ActiveSensing::try_from_bytes(m) {
                Ok(m) => Ok(SystemCommon::ActiveSensing(m)),
                Err(e) => Err(e),
            },
            SystemCommon::Continue(m) => match Continue::try_from_bytes(m) {
                Ok(m) => Ok(SystemCommon::Continue(m)),
                Err(e) => Err(e),
            },
            SystemCommon::Reset(m) => match Reset::try_from_bytes(m) {
                Ok(m) => Ok(SystemCommon::Reset(m)),
                Err(e) => Err(e),
            },
            SystemCommon::SongPositionPointer(m) => match SongPositionPointer::try_from_bytes(m) {
                Ok(m) => Ok(SystemCommon::SongPositionPointer(m)),
                Err(e) => Err(e),
            },
            SystemCommon::SongSelect(m) => match SongSelect::try_from_bytes(m) {
                Ok(m) => Ok(SystemCommon::SongSelect(m)),
                Err(e) => Err(e),
            },
            SystemCommon::Start(m) => match Start::try_from_bytes(m) {
                Ok(m) => Ok(SystemCommon::Start(m)),
                Err(e) => Err(e),
            },
            SystemCommon::Stop(m) => match Stop::try_from_bytes(m) {
                Ok(m) => Ok(SystemCommon::Stop(m)),
                Err(e) => Err(e),
            },
            SystemCommon::TimeCode(m) => match TimeCode::try_from_bytes(m) {
                Ok(m) => Ok(SystemCommon::TimeCode(m)),
                Err(e) => Err(e),
            },
            SystemCommon::TimingClock(m) => match TimingClock::try_from_bytes(m) {
                Ok(m) => Ok(SystemCommon::TimingClock(m)),
                Err(e) => Err(e),
            },
            SystemCommon::TuneRequest(m) => match TuneRequest::try_from_bytes(m) {
                Ok(m) => Ok(SystemCommon::TuneRequest(m)),
                Err(e) => Err(e),
            },
        }
    }
}

impl<B: BufferMut<Unit = u8>> SystemCommon<B> {
    /// The units of the conversion of a message into a buffer of `len`
    /// units: a fresh message of the same kind with every field set to
    /// the value `other` holds.
    pub open spec fn spec_from_ump<A: Buffer<Unit = u32>>(
        other: SystemCommon<A>,
        len: nat,
    ) -> Seq<u8> {
        match other {
            SystemCommon::ActiveSensing(inner) => active_sensing::spec_with_fields::<u8>(
                len,
                inner.spec_group(),
            ),
            SystemCommon::Continue(inner) => cont::spec_with_fields::<u8>(len, inner.spec_group()),
            SystemCommon::Reset(inner) => reset::spec_with_fields::<u8>(len, inner.spec_group()),
            SystemCommon::SongPositionPointer(
                inner
            ) => song_position_pointer::spec_with_fields::<u8>(
                len,
                inner.spec_group(),
                inner.spec_position(),
            ),
            SystemCommon::SongSelect(inner) => song_select::spec_with_fields::<u8>(
                len,
                inner.spec_group(),
                inner.spec_song(),
            ),
            SystemCommon::Start(inner) => start::spec_with_fields::<u8>(len, inner.spec_group()),
            SystemCommon::Stop(inner) => stop::spec_with_fields::<u8>(len, inner.spec_group()),
            SystemCommon::TimeCode(inner) => time_code::spec_with_fields::<u8>(
                len,
                inner.spec_group(),
                inner.spec_time_code(),
            ),
            SystemCommon::TimingClock(inner) => timing_clock::spec_with_fields::<u8>(
                len,
                inner.spec_group(),
            ),
            SystemCommon::TuneRequest(inner) => tune_request::spec_with_fields::<u8>(
                len,
                inner.spec_group(),
            ),
        }
    }

    /// Converts the packet form of a message into this form; the kind
    /// is kept and every field is encoded anew.
    pub fn try_from_ump<A: Buffer<Unit = u32>>(other: SystemCommon<A>) -> (r: Result<Self, Error>)
        requires
            other.wf(),
        ensures
            r is Ok ==> r->Ok_0.wf(),
            r is Err ==> r == Err::<Self, Error>(Error::BufferOverflow),
            match other {
                SystemCommon::ActiveSensing(m) => r is Ok <==> has_room::<B>(
                    min_size::<u8>(active_sensing::sizes()) as nat
                ),
                SystemCommon::Continue(m) => r is Ok <==> has_room::<B>(
                    min_size::<u8>(cont::sizes()) as nat
                ),
                SystemCommon::Reset(m) => r is Ok <==> has_room::<B>(
                    min_size::<u8>(reset::sizes()) as nat
                ),
                SystemCommon::SongPositionPointer(m) => r is Ok <==> has_room::<B>(
                    min_size::<u8>(song_position_pointer::sizes()) as nat
                ),
                SystemCommon::SongSelect(m) => r is Ok <==> has_room::<B>(
                    min_size::<u8>(song_select::sizes()) as nat
                ),
                SystemCommon::Start(m) => r is Ok <==> has_room::<B>(
                    min_size::<u8>(start::sizes()) as nat
                ),
                SystemCommon::Stop(m) => r is Ok <==> has_room::<B>(
                    min_size::<u8>(stop::sizes()) as nat
                ),
                SystemCommon::TimeCode(m) => r is Ok <==> has_room::<B>(
                    min_size::<u8>(time_code::sizes()) as nat
                ),
                SystemCommon::TimingClock(m) => r is Ok <==> has_room::<B>(
                    min_size::<u8>(timing_clock::sizes()) as nat
                ),
                SystemCommon::TuneRequest(m) => r is Ok <==> has_room::<B>(
                    min_size::<u8>(tune_request::sizes()) as nat
                ),
            },
            match other {
                SystemCommon::ActiveSensing(_) => r is Ok ==> r->Ok_0 is ActiveSensing,
                SystemCommon::Continue(_) => r is Ok ==> r->Ok_0 is Continue,
                SystemCommon::Reset(_) => r is Ok ==> r->Ok_0 is Reset,
                SystemCommon::SongPositionPointer(_) => r is Ok ==> r->Ok_0 is SongPositionPointer,
                SystemCommon::SongSelect(_) => r is Ok ==> r->Ok_0 is SongSelect,
                SystemCommon::Start(_) => r is Ok ==> r->Ok_0 is Start,
                SystemCommon::Stop(_) => r is Ok ==> r->Ok_0 is Stop,
                SystemCommon::TimeCode(_) => r is Ok ==> r->Ok_0 is TimeCode,
                SystemCommon::TimingClock(_) => r is Ok ==> r->Ok_0 is TimingClock,
                SystemCommon::TuneRequest(_) => r is Ok ==> r->Ok_0 is TuneRequest,
            },
            r is Ok ==> r->Ok_0.units() == Self::spec_from_ump(other, r->Ok_0.units().len()),
    {
        match other {
            SystemCommon::ActiveSensing(m) => match ActiveSensing::try_from_ump(m) {
                Ok(m) => Ok(SystemCommon::ActiveSensing(m)),
                Err(e) => Err(e),
            },
            SystemCommon::Continue(m) => match Continue::try_from_ump(m) {
                Ok(m) => Ok(SystemCommon::Continue(m)),
                Err(e) => Err(e),
            },
            SystemCommon::Reset(m) => match Reset::try_from_ump(m) {
                Ok(m) => Ok(SystemCommon::Reset(m)),
                Err(e) => Err(e),
            },
            SystemCommon::SongPositionPointer(m) => match SongPositionPointer::try_from_ump(m) {
                Ok(m) => Ok(SystemCommon::SongPositionPointer(m)),
                Err(e) => Err(e),
            },
            SystemCommon::SongSelect(m) => match SongSelect::try_from_ump(m) {
                Ok(m) => Ok(SystemCommon::SongSelect(m)),
                Err(e) => Err(e),
            },
            SystemCommon::Start(m) => match Start::try_from_ump(m) {
                Ok(m) => Ok(SystemCommon::Start(m)),
                Err(e) => Err(e),
            },
            SystemCommon::Stop(m) => match Stop::try_from_ump(m) {
                Ok(m) => Ok(SystemCommon::Stop(m)),
                Err(e) => Err(e),
            },
            SystemCommon::TimeCode(m) => match TimeCode::try_from_ump(m) {
                Ok(m) => Ok(SystemCommon::TimeCode(m)),
                Err(e) => Err(e),
            },
            SystemCommon::TimingClock(m) => match TimingClock::try_from_ump(m) {
                Ok(m) => Ok(SystemCommon::TimingClock(m)),
                Err(e) => Err(e),
            },
            SystemCommon::TuneRequest(m) => match TuneRequest::try_from_ump(m) {
                Ok(m) => Ok(SystemCommon::TuneRequest(m)),
                Err(e) => Err(e),
            },
        }
    }
}

impl<B: Buffer> From<ActiveSensing<B>> for SystemCommon<B> {
    fn from(value: ActiveSensing<B>) -> (r: Self) {
        SystemCommon::ActiveSensing(value)
    }
}

impl<B: Buffer> FromSpecImpl<ActiveSensing<B>> for SystemCommon<B> {
    open spec fn obeys_from_spec() -> bool {
        true
    }

    open spec fn from_spec(value: ActiveSensing<B>) -> Self {
        SystemCommon::ActiveSensing(value)
    }
}

impl<B: Buffer> From<Continue<B>> for SystemCommon<B> {
    fn from(value: Continue<B>) -> (r: Self) {
        SystemCommon::Continue(value)
    }
}

impl<B: Buffer> FromSpecImpl<Continue<B>> for SystemCommon<B> {
    open spec fn obeys_from_spec() -> bool {
        true
    }

    open spec fn from_spec(value: Continue<B>) -> Self {
        SystemCommon::Continue(value)
    }
}

impl<B: Buffer> From<Reset<B>> for SystemCommon<B> {
    fn from(value: Reset<B>) -> (r: Self) {
        SystemCommon::Reset(value)
    }
}

impl<B: Buffer> FromSpecImpl<Reset<B>> for SystemCommon<B> {
    open spec fn obeys_from_spec() -> bool {
        true
    }

    open spec fn from_spec(value: Reset<B>) -> Self {
        SystemCommon::Reset(value)
    }
}

impl<B: Buffer> From<SongPositionPointer<B>> for SystemCommon<B> {
    fn from(value: SongPositionPointer<B>) -> (r: Self) {
        SystemCommon::SongPositionPointer(value)
    }
}

impl<B: Buffer> FromSpecImpl<SongPositionPointer<B>> for SystemCommon<B> {
    open spec fn obeys_from_spec() -> bool {
        true
    }

    open spec fn from_spec(value: SongPositionPointer<B>) -> Self {
        SystemCommon::SongPositionPointer(value)
    }
}

impl<B: Buffer> From<SongSelect<B>> for SystemCommon<B> {
    fn from(value: SongSelect<B>) -> (r: Self) {
        SystemCommon::SongSelect(value)
    }
}

impl<B: Buffer> FromSpecImpl<SongSelect<B>> for SystemCommon<B> {
    open spec fn obeys_from_spec() -> bool {
        true
    }

    open spec fn from_spec(value: SongSelect<B>) -> Self {
        SystemCommon::SongSelect(value)
    }
}

impl<B: Buffer> From<Start<B>> for SystemCommon<B> {
    fn from(value: Start<B>) -> (r: Self) {
        SystemCommon::Start(value)
    }
}

impl<B: Buffer> FromSpecImpl<Start<B>> for SystemCommon<B> {
    open spec fn obeys_from_spec() -> bool {
        true
    }

    open spec fn from_spec(value: Start<B>) -> Self {
        SystemCommon::Start(value)
    }
}

impl<B: Buffer> From<Stop<B>> for SystemCommon<B> {
    fn from(value: Stop<B>) -> (r: Self) {
        SystemCommon::Stop(value)
    }
}

impl<B: Buffer> FromSpecImpl<Stop<B>> for SystemCommon<B> {
    open spec fn obeys_from_spec() -> bool {
        true
    }

    open spec fn from_spec(value: Stop<B>) -> Self {
        SystemCommon::Stop(value)
    }
}

impl<B: Buffer> From<TimeCode<B>> for SystemCommon<B> {
    fn from(value: TimeCode<B>) -> (r: Self) {
        SystemCommon::TimeCode(value)
    }
}

impl<B: Buffer> FromSpecImpl<TimeCode<B>> for SystemCommon<B> {
    open spec fn obeys_from_spec() -> bool {
        true
    }

    open spec fn from_spec(value: TimeCode<B>) -> Self {
        SystemCommon::TimeCode(value)
    }
}

impl<B: Buffer> From<TimingClock<B>> for SystemCommon<B> {
    fn from(value: TimingClock<B>) -> (r: Self) {
        SystemCommon::TimingClock(value)
    }
}

impl<B: Buffer> FromSpecImpl<TimingClock<B>> for SystemCommon<B> {
    open spec fn obeys_from_spec() -> bool {
        true
    }

    open spec fn from_spec(value: TimingClock<B>) -> Self {
        SystemCommon::TimingClock(value)
    }
}

impl<B: Buffer> From<TuneRequest<B>> for SystemCommon<B> {
    fn from(value: TuneRequest<B>) -> (r: Self) {
        SystemCommon::TuneRequest(value)
    }
}

impl<B: Buffer> FromSpecImpl<TuneRequest<B>> for SystemCommon<B> {
    open spec fn obeys_from_spec() -> bool {
        true
    }

    open spec fn from_spec(value: TuneRequest<B>) -> Self {
        SystemCommon::TuneRequest(value)
    }
}

/// Routing is by discriminant alone: a buffer that parses lands in the
/// variant whose status its discriminant holds, as a valid message of
/// that kind; a discriminant that names no kind never parses.
pub proof fn lemma_routing<B: Buffer>(buffer: B)
    ensures
        match SystemCommon::<B>::spec_try_from(buffer) {
            Ok(message) => message.wf() && message.units() == buffer.units() && is_defined(
                spec_status(buffer.units()),
            ) && match message {
                SystemCommon::ActiveSensing(_) => spec_status(
                    buffer.units()
                ) == active_sensing::STATUS,
                SystemCommon::Continue(_) => spec_status(buffer.units()) == cont::STATUS,
                SystemCommon::Reset(_) => spec_status(buffer.units()) == reset::STATUS,
                SystemCommon::SongPositionPointer(_) => spec_status(
                    buffer.units()
                ) == song_position_pointer::STATUS,
                SystemCommon::SongSelect(_) => spec_status(buffer.units()) == song_select::STATUS,
                SystemCommon::Start(_) => spec_status(buffer.units()) == start::STATUS,
                SystemCommon::Stop(_) => spec_status(buffer.units()) == stop::STATUS,
                SystemCommon::TimeCode(_) => spec_status(buffer.units()) == time_code::STATUS,
                SystemCommon::TimingClock(_) => spec_status(buffer.units()) == timing_clock::STATUS,
                SystemCommon::TuneRequest(_) => spec_status(buffer.units()) == tune_request::STATUS,
            },
            Err(e) => e is InvalidData,
        },
        buffer.units().len() >= 1 && !is_defined(spec_status(buffer.units()))
            ==> SystemCommon::<B>::spec_try_from(buffer) == Err::<SystemCommon<B>, Error>(
            Error::InvalidData(ERR_UNKNOWN_SYSTEM_COMMON_STATUS),
        ),
{
}

/// The status byte as a property of a system message: a field whose value
/// the message kind fixes. A builder writes it; a caller cannot set it.
pub struct SystemCommonStatus<const STATUS: u8>;

impl<const STATUS: u8> SystemCommonStatus<STATUS> {
    /// The verdict on the status byte of a unit sequence.
    pub open spec fn spec_validate<U: Unit>(units: Seq<U>) -> Result<(), Error> {
        if spec_status(units) != STATUS {
            Err(Error::InvalidData(ERR_INCORRECT_STATUS))
        } else {
            Ok(())
        }
    }

    /// The property holds no value of its own.
    pub fn read<U: Unit>(_units: &[U]) -> (value: ())
        ensures
            value == (),
    {
    }

    /// Looks at the status byte and nothing else.
    pub fn validate<U: Unit>(units: &[U]) -> (r: Result<(), Error>)
        requires
            units@.len() > 0,
        ensures
            r == Self::spec_validate(units@),
    {
        if status(units) != STATUS {
            Err(Error::InvalidData(ERR_INCORRECT_STATUS))
        } else {
            Ok(())
        }
    }

    /// Sets the status byte to the value the kind fixes and leaves every
    /// other bit alone.
    pub fn write<U: Unit>(units: &mut [U])
        requires
            old(units)@.len() > 0,
        ensures
            final(units)@ == spec_write(old(units)@, status_octet(), STATUS as u32),
            Self::spec_validate(final(units)@) is Ok,
    {
        proof {
            crate::bit_ops::lemma_low_mask_bound(8);
            crate::bit_ops::lemma_mask_identity(STATUS as u32, 8);
            crate::schema::lemma_read_after_write(units@, status_octet(), STATUS as u32);
        }
        write_field(units, &status_octet_schema(), STATUS as u32);
    }

    /// There is nothing to set.
    pub fn default() -> (value: ())
        ensures
            value == (),
    {
    }
}


} // verus!
