//! The system common messages in their ownership-qualified forms, the union of
//! them, and the builder that starts any of them.

use vstd::prelude::*;
use vstd::std_specs::convert::{FromSpec, FromSpecImpl};
use active_sensing::ActiveSensingBuilder;
use cont::ContinueBuilder;
use crate::buffer::{Buffer, MessageData};
use crate::common_properties::{status_octet, status_octet_schema};
use crate::error::{ERR_SLICE_TOO_SHORT, ERR_UNKNOWN_SYSTEM_COMMON_STATUS, Error};
use crate::property::{owned_words, rebuffered, spec_read_u14, write_front};
use crate::schema::{read_field, spec_read};
use crate::system_common::active_sensing::ActiveSensing;
use crate::system_common::cont::Continue;
use crate::system_common::reset::Reset;
use crate::system_common::song_position_pointer::SongPositionPointer;
use crate::system_common::song_select::SongSelect;
use crate::system_common::start::Start;
use crate::system_common::stop::Stop;
use crate::system_common::time_code::TimeCode;
use crate::system_common::timing_clock::TimingClock;
use crate::system_common::tune_request::TuneRequest;
use reset::ResetBuilder;
use song_position_pointer::SongPositionPointerBuilder;
use song_select::SongSelectBuilder;
use start::StartBuilder;
use stop::StopBuilder;
use time_code::TimeCodeBuilder;
use timing_clock::TimingClockBuilder;
use tune_request::TuneRequestBuilder;

pub mod active_sensing;
pub mod cont;
pub mod reset;
pub mod song_position_pointer;
pub mod song_select;
pub mod start;
pub mod stop;
pub mod time_code;
pub mod timing_clock;
pub mod tune_request;

verus! {

/// Any system common message, borrowed or owned.
#[derive(Clone, Debug, PartialEq, Eq)]
#[non_exhaustive]
pub enum SystemCommonMessage<'a> {
    ActiveSensing(ActiveSensing<MessageData<'a>>),
    Continue(Continue<MessageData<'a>>),
    Reset(Reset<MessageData<'a>>),
    SongPositionPointer(SongPositionPointer<MessageData<'a>>),
    SongSelect(SongSelect<MessageData<'a>>),
    Start(Start<MessageData<'a>>),
    Stop(Stop<MessageData<'a>>),
    TimeCode(TimeCode<MessageData<'a>>),
    TimingClock(TimingClock<MessageData<'a>>),
    TuneRequest(TuneRequest<MessageData<'a>>),
}

/// Any system common message over borrowed words.
#[derive(Clone, Debug, PartialEq, Eq)]
#[non_exhaustive]
pub enum SystemCommonBorrowed<'a> {
    ActiveSensing(ActiveSensing<&'a [u32]>),
    Continue(Continue<&'a [u32]>),
    Reset(Reset<&'a [u32]>),
    SongPositionPointer(SongPositionPointer<&'a [u32]>),
    SongSelect(SongSelect<&'a [u32]>),
    Start(Start<&'a [u32]>),
    Stop(Stop<&'a [u32]>),
    TimeCode(TimeCode<&'a [u32]>),
    TimingClock(TimingClock<&'a [u32]>),
    TuneRequest(TuneRequest<&'a [u32]>),
}

/// Any system common message that owns its words.
#[derive(Clone, Debug, PartialEq, Eq)]
#[non_exhaustive]
pub enum SystemCommonOwned {
    ActiveSensing(ActiveSensing<[u32; 4]>),
    Continue(Continue<[u32; 4]>),
    Reset(Reset<[u32; 4]>),
    SongPositionPointer(SongPositionPointer<[u32; 4]>),
    SongSelect(SongSelect<[u32; 4]>),
    Start(Start<[u32; 4]>),
    Stop(Stop<[u32; 4]>),
    TimeCode(TimeCode<[u32; 4]>),
    TimingClock(TimingClock<[u32; 4]>),
    TuneRequest(TuneRequest<[u32; 4]>),
}

/// The starting point for building any system common message; `M` is the type the
/// finished message is handed out as.
pub struct SystemCommonBuilder<M>(pub core::marker::PhantomData<M>);

impl<M> SystemCommonBuilder<M> where
    M: From<ActiveSensing<[u32; 4]>>
        + From<Continue<[u32; 4]>>
        + From<Reset<[u32; 4]>>
        + From<SongPositionPointer<[u32; 4]>>
        + From<SongSelect<[u32; 4]>>
        + From<Start<[u32; 4]>>
        + From<Stop<[u32; 4]>>
        + From<TimeCode<[u32; 4]>>
        + From<TimingClock<[u32; 4]>>
        + From<TuneRequest<[u32; 4]>>,
 {
    /// The builder holds nothing: it only fixes the type of the result.
    pub fn new() -> (builder: Self)
        ensures
            builder == SystemCommonBuilder::<M>(core::marker::PhantomData),
    {
        SystemCommonBuilder(core::marker::PhantomData)
    }

    pub fn active_sensing(self) -> (builder: ActiveSensingBuilder<M>)
        ensures
            builder.wf()
                && builder.state() == Ok::<Seq<u32>, Error>(
                    crate::system_common::active_sensing::spec_new::<u32>(4)
                ),
    {
        ActiveSensingBuilder::new()
    }

    pub fn cont(self) -> (builder: ContinueBuilder<M>)
        ensures
            builder.wf()
                && builder.state() == Ok::<Seq<u32>, Error>(
                    crate::system_common::cont::spec_new::<u32>(4)
                ),
    {
        ContinueBuilder::new()
    }

    pub fn reset(self) -> (builder: ResetBuilder<M>)
        ensures
            builder.wf()
                && builder.state() == Ok::<Seq<u32>, Error>(
                    crate::system_common::reset::spec_new::<u32>(4)
                ),
    {
        ResetBuilder::new()
    }

    pub fn song_position_pointer(self) -> (builder: SongPositionPointerBuilder<M>)
        ensures
            builder.wf()
                && builder.state() == Ok::<Seq<u32>, Error>(
                    crate::system_common::song_position_pointer::spec_new::<u32>(4)
                ),
    {
        SongPositionPointerBuilder::new()
    }

    pub fn song_select(self) -> (builder: SongSelectBuilder<M>)
        ensures
            builder.wf()
                && builder.state() == Ok::<Seq<u32>, Error>(
                    crate::system_common::song_select::spec_new::<u32>(4)
                ),
    {
        SongSelectBuilder::new()
    }

    pub fn start(self) -> (builder: StartBuilder<M>)
        ensures
            builder.wf()
                && builder.state() == Ok::<Seq<u32>, Error>(
                    crate::system_common::start::spec_new::<u32>(4)
                ),
    {
        StartBuilder::new()
    }

    pub fn stop(self) -> (builder: StopBuilder<M>)
        ensures
            builder.wf()
                && builder.state() == Ok::<Seq<u32>, Error>(
                    crate::system_common::stop::spec_new::<u32>(4)
                ),
    {
        StopBuilder::new()
    }

    pub fn time_code(self) -> (builder: TimeCodeBuilder<M>)
        ensures
            builder.wf()
                && builder.state() == Ok::<Seq<u32>, Error>(
                    crate::system_common::time_code::spec_new::<u32>(4)
                ),
    {
        TimeCodeBuilder::new()
    }

    pub fn timing_clock(self) -> (builder: TimingClockBuilder<M>)
        ensures
            builder.wf()
                && builder.state() == Ok::<Seq<u32>, Error>(
                    crate::system_common::timing_clock::spec_new::<u32>(4)
                ),
    {
        TimingClockBuilder::new()
    }

    pub fn tune_request(self) -> (builder: TuneRequestBuilder<M>)
        ensures
            builder.wf()
                && builder.state() == Ok::<Seq<u32>, Error>(
                    crate::system_common::tune_request::spec_new::<u32>(4)
                ),
    {
        TuneRequestBuilder::new()
    }
}

impl<M> Default for SystemCommonBuilder<M> where
    M: From<ActiveSensing<[u32; 4]>>
        + From<Continue<[u32; 4]>>
        + From<Reset<[u32; 4]>>
        + From<SongPositionPointer<[u32; 4]>>
        + From<SongSelect<[u32; 4]>>
        + From<Start<[u32; 4]>>
        + From<Stop<[u32; 4]>>
        + From<TimeCode<[u32; 4]>>
        + From<TimingClock<[u32; 4]>>
        + From<TuneRequest<[u32; 4]>>,
 {
    fn default() -> (builder: Self)
        ensures
            builder == SystemCommonBuilder::<M>(core::marker::PhantomData),
    {
        SystemCommonBuilder(core::marker::PhantomData)
    }
}

impl SystemCommonOwned {
    /// The starting point for building a message of this type.
    pub fn builder() -> (builder: SystemCommonBuilder<Self>)
        ensures
            builder == SystemCommonBuilder::<Self>(core::marker::PhantomData),
    {
        SystemCommonBuilder::new()
    }
}

impl<'a> SystemCommonMessage<'a> {
    /// The starting point for building a message of this type.
    pub fn builder() -> (builder: SystemCommonBuilder<Self>)
        ensures
            builder == SystemCommonBuilder::<Self>(core::marker::PhantomData),
    {
        SystemCommonBuilder::new()
    }
}

/// The field that tells the system common messages apart.
pub open spec fn spec_status(units: Seq<u32>) -> u32 {
    spec_read(units, status_octet())
}

/// Reads the discriminant, and nothing else, from the first word.
pub fn status(units: &[u32]) -> (value: u8)
    requires
        units@.len() > 0,
    ensures
        value == spec_status(units@),
{
    let raw = read_field(units, &status_octet_schema());
    proof {
        crate::bit_ops::lemma_low_mask_bound(0);
    }
    raw as u8
}

/// Whether a discriminant value names a member of the union.
pub open spec fn is_defined(status: u32) -> bool {
    status == crate::system_common::active_sensing::STATUS
    || status == crate::system_common::cont::STATUS
    || status == crate::system_common::reset::STATUS
    || status == crate::system_common::song_position_pointer::STATUS
    || status == crate::system_common::song_select::STATUS
    || status == crate::system_common::start::STATUS
    || status == crate::system_common::stop::STATUS
    || status == crate::system_common::time_code::STATUS
    || status == crate::system_common::timing_clock::STATUS
    || status == crate::system_common::tune_request::STATUS
}

/// The verdict on a word sequence: that of the member its discriminant
/// names. A discriminant that names none is `InvalidData`, as is an
/// empty sequence.
pub open spec fn spec_validate(units: Seq<u32>) -> Result<(), Error> {
    if units.len() < 1 {
        Err(Error::InvalidData(ERR_SLICE_TOO_SHORT))
    } else if spec_status(units) == crate::system_common::active_sensing::STATUS {
        crate::system_common::active_sensing::spec_validate::<u32>(units)
    } else if spec_status(units) == crate::system_common::cont::STATUS {
        crate::system_common::cont::spec_validate::<u32>(units)
    } else if spec_status(units) == crate::system_common::reset::STATUS {
        crate::system_common::reset::spec_validate::<u32>(units)
    } else if spec_status(units) == crate::system_common::song_position_pointer::STATUS {
        crate::system_common::song_position_pointer::spec_validate::<u32>(units)
    } else if spec_status(units) == crate::system_common::song_select::STATUS {
        crate::system_common::song_select::spec_validate::<u32>(units)
    } else if spec_status(units) == crate::system_common::start::STATUS {
        crate::system_common::start::spec_validate::<u32>(units)
    } else if spec_status(units) == crate::system_common::stop::STATUS {
        crate::system_common::stop::spec_validate::<u32>(units)
    } else if spec_status(units) == crate::system_common::time_code::STATUS {
        crate::system_common::time_code::spec_validate::<u32>(units)
    } else if spec_status(units) == crate::system_common::timing_clock::STATUS {
        crate::system_common::timing_clock::spec_validate::<u32>(units)
    } else if spec_status(units) == crate::system_common::tune_request::STATUS {
        crate::system_common::tune_request::spec_validate::<u32>(units)
    } else {
        Err(Error::InvalidData(ERR_UNKNOWN_SYSTEM_COMMON_STATUS))
    }
}

/// Reads the discriminant and runs the validation of the member it names.
pub fn validate_data(buffer: &[u32]) -> (r: Result<(), Error>)
    ensures
        r == spec_validate(buffer@),
{
    if buffer.len() < 1 {
        return Err(Error::InvalidData(ERR_SLICE_TOO_SHORT));
    }
    let found = status(buffer);
    if found == crate::system_common::active_sensing::STATUS {
        crate::system_common::active_sensing::validate::<u32>(buffer)
    } else if found == crate::system_common::cont::STATUS {
        crate::system_common::cont::validate::<u32>(buffer)
    } else if found == crate::system_common::reset::STATUS {
        crate::system_common::reset::validate::<u32>(buffer)
    } else if found == crate::system_common::song_position_pointer::STATUS {
        crate::system_common::song_position_pointer::validate::<u32>(buffer)
    } else if found == crate::system_common::song_select::STATUS {
        crate::system_common::song_select::validate::<u32>(buffer)
    } else if found == crate::system_common::start::STATUS {
        crate::system_common::start::validate::<u32>(buffer)
    } else if found == crate::system_common::stop::STATUS {
        crate::system_common::stop::validate::<u32>(buffer)
    } else if found == crate::system_common::time_code::STATUS {
        crate::system_common::time_code::validate::<u32>(buffer)
    } else if found == crate::system_common::timing_clock::STATUS {
        crate::system_common::timing_clock::validate::<u32>(buffer)
    } else if found == crate::system_common::tune_request::STATUS {
        crate::system_common::tune_request::validate::<u32>(buffer)
    } else {
        Err(Error::InvalidData(ERR_UNKNOWN_SYSTEM_COMMON_STATUS))
    }
}

impl<'a> SystemCommonMessage<'a> {
    /// The words of the underlying buffer.
    pub open spec fn units(&self) -> Seq<u32> {
        match self {
            SystemCommonMessage::ActiveSensing(m) => m.0.units(),
            SystemCommonMessage::Continue(m) => m.0.units(),
            SystemCommonMessage::Reset(m) => m.0.units(),
            SystemCommonMessage::SongPositionPointer(m) => m.0.units(),
            SystemCommonMessage::SongSelect(m) => m.0.units(),
            SystemCommonMessage::Start(m) => m.0.units(),
            SystemCommonMessage::Stop(m) => m.0.units(),
            SystemCommonMessage::TimeCode(m) => m.0.units(),
            SystemCommonMessage::TimingClock(m) => m.0.units(),
            SystemCommonMessage::TuneRequest(m) => m.0.units(),
        }
    }

    /// The message inside is a valid message of its kind.
    pub open spec fn wf(&self) -> bool {
        match self {
            SystemCommonMessage::ActiveSensing(m) => m.wf(),
            SystemCommonMessage::Continue(m) => m.wf(),
            SystemCommonMessage::Reset(m) => m.wf(),
            SystemCommonMessage::SongPositionPointer(m) => m.wf(),
            SystemCommonMessage::SongSelect(m) => m.wf(),
            SystemCommonMessage::Start(m) => m.wf(),
            SystemCommonMessage::Stop(m) => m.wf(),
            SystemCommonMessage::TimeCode(m) => m.wf(),
            SystemCommonMessage::TimingClock(m) => m.wf(),
            SystemCommonMessage::TuneRequest(m) => m.wf(),
        }
    }

    /// The discriminant of the member inside.
    pub open spec fn code(&self) -> u32 {
        match self {
            SystemCommonMessage::ActiveSensing(
                _
            ) => crate::system_common::active_sensing::STATUS as u32,
            SystemCommonMessage::Continue(_) => crate::system_common::cont::STATUS as u32,
            SystemCommonMessage::Reset(_) => crate::system_common::reset::STATUS as u32,
            SystemCommonMessage::SongPositionPointer(
                _
            ) => crate::system_common::song_position_pointer::STATUS as u32,
            SystemCommonMessage::SongSelect(_) => crate::system_common::song_select::STATUS as u32,
            SystemCommonMessage::Start(_) => crate::system_common::start::STATUS as u32,
            SystemCommonMessage::Stop(_) => crate::system_common::stop::STATUS as u32,
            SystemCommonMessage::TimeCode(_) => crate::system_common::time_code::STATUS as u32,
            SystemCommonMessage::TimingClock(
                _
            ) => crate::system_common::timing_clock::STATUS as u32,
            SystemCommonMessage::TuneRequest(
                _
            ) => crate::system_common::tune_request::STATUS as u32,
        }
    }

    /// The words the message occupies.
    pub open spec fn spec_data(&self) -> Seq<u32> {
        match self {
            SystemCommonMessage::ActiveSensing(m) => m.0.units().subrange(0, 1),
            SystemCommonMessage::Continue(m) => m.0.units().subrange(0, 1),
            SystemCommonMessage::Reset(m) => m.0.units().subrange(0, 1),
            SystemCommonMessage::SongPositionPointer(m) => m.0.units().subrange(0, 1),
            SystemCommonMessage::SongSelect(m) => m.0.units().subrange(0, 1),
            SystemCommonMessage::Start(m) => m.0.units().subrange(0, 1),
            SystemCommonMessage::Stop(m) => m.0.units().subrange(0, 1),
            SystemCommonMessage::TimeCode(m) => m.0.units().subrange(0, 1),
            SystemCommonMessage::TimingClock(m) => m.0.units().subrange(0, 1),
            SystemCommonMessage::TuneRequest(m) => m.0.units().subrange(0, 1),
        }
    }

    /// The words of the owned copy of the message.
    pub open spec fn spec_owned(&self) -> Seq<u32> {
        match self {
            SystemCommonMessage::ActiveSensing(m) => owned_words(m.0, 1),
            SystemCommonMessage::Continue(m) => owned_words(m.0, 1),
            SystemCommonMessage::Reset(m) => owned_words(m.0, 1),
            SystemCommonMessage::SongPositionPointer(m) => owned_words(m.0, 1),
            SystemCommonMessage::SongSelect(m) => owned_words(m.0, 1),
            SystemCommonMessage::Start(m) => owned_words(m.0, 1),
            SystemCommonMessage::Stop(m) => owned_words(m.0, 1),
            SystemCommonMessage::TimeCode(m) => owned_words(m.0, 1),
            SystemCommonMessage::TimingClock(m) => owned_words(m.0, 1),
            SystemCommonMessage::TuneRequest(m) => owned_words(m.0, 1),
        }
    }

    /// The message a validated slice is taken as: the member its
    /// discriminant names, over that slice.
    pub open spec fn spec_from_data(buffer: &'a [u32]) -> Self {
        if spec_status(buffer@) == crate::system_common::active_sensing::STATUS {
            SystemCommonMessage::ActiveSensing(
                ActiveSensing(MessageData::Borrowed(ActiveSensing(buffer).0))
            )
        } else if spec_status(buffer@) == crate::system_common::cont::STATUS {
            SystemCommonMessage::Continue(Continue(MessageData::Borrowed(Continue(buffer).0)))
        } else if spec_status(buffer@) == crate::system_common::reset::STATUS {
            SystemCommonMessage::Reset(Reset(MessageData::Borrowed(Reset(buffer).0)))
        } else if spec_status(buffer@) == crate::system_common::song_position_pointer::STATUS {
            SystemCommonMessage::SongPositionPointer(
                SongPositionPointer(MessageData::Borrowed(SongPositionPointer(buffer).0))
            )
        } else if spec_status(buffer@) == crate::system_common::song_select::STATUS {
            SystemCommonMessage::SongSelect(SongSelect(MessageData::Borrowed(SongSelect(buffer).0)))
        } else if spec_status(buffer@) == crate::system_common::start::STATUS {
            SystemCommonMessage::Start(Start(MessageData::Borrowed(Start(buffer).0)))
        } else if spec_status(buffer@) == crate::system_common::stop::STATUS {
            SystemCommonMessage::Stop(Stop(MessageData::Borrowed(Stop(buffer).0)))
        } else if spec_status(buffer@) == crate::system_common::time_code::STATUS {
            SystemCommonMessage::TimeCode(TimeCode(MessageData::Borrowed(TimeCode(buffer).0)))
        } else if spec_status(buffer@) == crate::system_common::timing_clock::STATUS {
            SystemCommonMessage::TimingClock(
                TimingClock(MessageData::Borrowed(TimingClock(buffer).0))
            )
        } else {
            SystemCommonMessage::TuneRequest(
                TuneRequest(MessageData::Borrowed(TuneRequest(buffer).0))
            )
        }
    }

    /// Validates that a slice holds a message of the union.
    pub fn validate_data(buffer: &'a [u32]) -> (r: Result<(), Error>)
        ensures
            r == spec_validate(buffer@),
    {
        validate_data(buffer)
    }

    /// Takes a validated slice as the member its discriminant names.
    pub fn from_data_unchecked(buffer: &'a [u32]) -> (message: Self)
        requires
            spec_validate(buffer@) is Ok,
        ensures
            message == Self::spec_from_data(buffer),
            message.wf(),
            message.units() == buffer@,
            message.code() == spec_status(buffer@),
    {
        SystemCommonMessage::from(SystemCommonBorrowed::from_data_unchecked(buffer))
    }

    /// Parses a slice: the member its discriminant names if the slice
    /// validates as that member, else the first failure.
    pub fn from_data(buffer: &'a [u32]) -> (r: Result<Self, Error>)
        ensures
            match spec_validate(buffer@) {
                Ok(()) => r == Ok::<Self, Error>(Self::spec_from_data(buffer)),
                Err(e) => r == Err::<Self, Error>(e),
            },
    {
        match validate_data(buffer) {
            Ok(()) => Ok(Self::from_data_unchecked(buffer)),
            Err(e) => Err(e),
        }
    }

    /// The words the message occupies.
    pub fn data(&self) -> (data: &[u32])
        requires
            self.wf(),
        ensures
            data@ == self.spec_data(),
    {
        match self {
            SystemCommonMessage::ActiveSensing(m) => m.data(),
            SystemCommonMessage::Continue(m) => m.data(),
            SystemCommonMessage::Reset(m) => m.data(),
            SystemCommonMessage::SongPositionPointer(m) => m.data(),
            SystemCommonMessage::SongSelect(m) => m.data(),
            SystemCommonMessage::Start(m) => m.data(),
            SystemCommonMessage::Stop(m) => m.data(),
            SystemCommonMessage::TimeCode(m) => m.data(),
            SystemCommonMessage::TimingClock(m) => m.data(),
            SystemCommonMessage::TuneRequest(m) => m.data(),
        }
    }

    /// The message with its words owned; the member is kept.
    pub fn into_owned(self) -> (owned: SystemCommonOwned)
        requires
            self.wf(),
        ensures
            owned.wf(),
            owned.code() == self.code(),
            owned.units() == self.spec_owned(),
    {
        match self {
            SystemCommonMessage::ActiveSensing(m) => SystemCommonOwned::ActiveSensing(
                m.into_owned()
            ),
            SystemCommonMessage::Continue(m) => SystemCommonOwned::Continue(m.into_owned()),
            SystemCommonMessage::Reset(m) => SystemCommonOwned::Reset(m.into_owned()),
            SystemCommonMessage::SongPositionPointer(m) => SystemCommonOwned::SongPositionPointer(
                m.into_owned()
            ),
            SystemCommonMessage::SongSelect(m) => SystemCommonOwned::SongSelect(m.into_owned()),
            SystemCommonMessage::Start(m) => SystemCommonOwned::Start(m.into_owned()),
            SystemCommonMessage::Stop(m) => SystemCommonOwned::Stop(m.into_owned()),
            SystemCommonMessage::TimeCode(m) => SystemCommonOwned::TimeCode(m.into_owned()),
            SystemCommonMessage::TimingClock(m) => SystemCommonOwned::TimingClock(m.into_owned()),
            SystemCommonMessage::TuneRequest(m) => SystemCommonOwned::TuneRequest(m.into_owned()),
        }
    }
}

impl<'a> SystemCommonBorrowed<'a> {
    /// The words of the underlying buffer.
    pub open spec fn units(&self) -> Seq<u32> {
        match self {
            SystemCommonBorrowed::ActiveSensing(m) => m.0.units(),
            SystemCommonBorrowed::Continue(m) => m.0.units(),
            SystemCommonBorrowed::Reset(m) => m.0.units(),
            SystemCommonBorrowed::SongPositionPointer(m) => m.0.units(),
            SystemCommonBorrowed::SongSelect(m) => m.0.units(),
            SystemCommonBorrowed::Start(m) => m.0.units(),
            SystemCommonBorrowed::Stop(m) => m.0.units(),
            SystemCommonBorrowed::TimeCode(m) => m.0.units(),
            SystemCommonBorrowed::TimingClock(m) => m.0.units(),
            SystemCommonBorrowed::TuneRequest(m) => m.0.units(),
        }
    }

    /// The message inside is a valid message of its kind.
    pub open spec fn wf(&self) -> bool {
        match self {
            SystemCommonBorrowed::ActiveSensing(m) => m.wf(),
            SystemCommonBorrowed::Continue(m) => m.wf(),
            SystemCommonBorrowed::Reset(m) => m.wf(),
            SystemCommonBorrowed::SongPositionPointer(m) => m.wf(),
            SystemCommonBorrowed::SongSelect(m) => m.wf(),
            SystemCommonBorrowed::Start(m) => m.wf(),
            SystemCommonBorrowed::Stop(m) => m.wf(),
            SystemCommonBorrowed::TimeCode(m) => m.wf(),
            SystemCommonBorrowed::TimingClock(m) => m.wf(),
            SystemCommonBorrowed::TuneRequest(m) => m.wf(),
        }
    }

    /// The discriminant of the member inside.
    pub open spec fn code(&self) -> u32 {
        match self {
            SystemCommonBorrowed::ActiveSensing(
                _
            ) => crate::system_common::active_sensing::STATUS as u32,
            SystemCommonBorrowed::Continue(_) => crate::system_common::cont::STATUS as u32,
            SystemCommonBorrowed::Reset(_) => crate::system_common::reset::STATUS as u32,
            SystemCommonBorrowed::SongPositionPointer(
                _
            ) => crate::system_common::song_position_pointer::STATUS as u32,
            SystemCommonBorrowed::SongSelect(_) => crate::system_common::song_select::STATUS as u32,
            SystemCommonBorrowed::Start(_) => crate::system_common::start::STATUS as u32,
            SystemCommonBorrowed::Stop(_) => crate::system_common::stop::STATUS as u32,
            SystemCommonBorrowed::TimeCode(_) => crate::system_common::time_code::STATUS as u32,
            SystemCommonBorrowed::TimingClock(
                _
            ) => crate::system_common::timing_clock::STATUS as u32,
            SystemCommonBorrowed::TuneRequest(
                _
            ) => crate::system_common::tune_request::STATUS as u32,
        }
    }

    /// The words the message occupies.
    pub open spec fn spec_data(&self) -> Seq<u32> {
        match self {
            SystemCommonBorrowed::ActiveSensing(m) => m.0.units().subrange(0, 1),
            SystemCommonBorrowed::Continue(m) => m.0.units().subrange(0, 1),
            SystemCommonBorrowed::Reset(m) => m.0.units().subrange(0, 1),
            SystemCommonBorrowed::SongPositionPointer(m) => m.0.units().subrange(0, 1),
            SystemCommonBorrowed::SongSelect(m) => m.0.units().subrange(0, 1),
            SystemCommonBorrowed::Start(m) => m.0.units().subrange(0, 1),
            SystemCommonBorrowed::Stop(m) => m.0.units().subrange(0, 1),
            SystemCommonBorrowed::TimeCode(m) => m.0.units().subrange(0, 1),
            SystemCommonBorrowed::TimingClock(m) => m.0.units().subrange(0, 1),
            SystemCommonBorrowed::TuneRequest(m) => m.0.units().subrange(0, 1),
        }
    }

    /// The words of the owned copy of the message.
    pub open spec fn spec_owned(&self) -> Seq<u32> {
        match self {
            SystemCommonBorrowed::ActiveSensing(m) => rebuffered::<[u32; 4]>(
                m.0.units().subrange(0, 1)
            ),
            SystemCommonBorrowed::Continue(m) => rebuffered::<[u32; 4]>(m.0.units().subrange(0, 1)),
            SystemCommonBorrowed::Reset(m) => rebuffered::<[u32; 4]>(m.0.units().subrange(0, 1)),
            SystemCommonBorrowed::SongPositionPointer(m) => rebuffered::<[u32; 4]>(
                m.0.units().subrange(0, 1)
            ),
            SystemCommonBorrowed::SongSelect(m) => rebuffered::<[u32; 4]>(
                m.0.units().subrange(0, 1)
            ),
            SystemCommonBorrowed::Start(m) => rebuffered::<[u32; 4]>(m.0.units().subrange(0, 1)),
            SystemCommonBorrowed::Stop(m) => rebuffered::<[u32; 4]>(m.0.units().subrange(0, 1)),
            SystemCommonBorrowed::TimeCode(m) => rebuffered::<[u32; 4]>(m.0.units().subrange(0, 1)),
            SystemCommonBorrowed::TimingClock(m) => rebuffered::<[u32; 4]>(
                m.0.units().subrange(0, 1)
            ),
            SystemCommonBorrowed::TuneRequest(m) => rebuffered::<[u32; 4]>(
                m.0.units().subrange(0, 1)
            ),
        }
    }

    /// The message a validated slice is taken as: the member its
    /// discriminant names, over that slice.
    pub open spec fn spec_from_data(buffer: &'a [u32]) -> Self {
        if spec_status(buffer@) == crate::system_common::active_sensing::STATUS {
            SystemCommonBorrowed::ActiveSensing(ActiveSensing(buffer))
        } else if spec_status(buffer@) == crate::system_common::cont::STATUS {
            SystemCommonBorrowed::Continue(Continue(buffer))
        } else if spec_status(buffer@) == crate::system_common::reset::STATUS {
            SystemCommonBorrowed::Reset(Reset(buffer))
        } else if spec_status(buffer@) == crate::system_common::song_position_pointer::STATUS {
            SystemCommonBorrowed::SongPositionPointer(SongPositionPointer(buffer))
        } else if spec_status(buffer@) == crate::system_common::song_select::STATUS {
            SystemCommonBorrowed::SongSelect(SongSelect(buffer))
        } else if spec_status(buffer@) == crate::system_common::start::STATUS {
            SystemCommonBorrowed::Start(Start(buffer))
        } else if spec_status(buffer@) == crate::system_common::stop::STATUS {
            SystemCommonBorrowed::Stop(Stop(buffer))
        } else if spec_status(buffer@) == crate::system_common::time_code::STATUS {
            SystemCommonBorrowed::TimeCode(TimeCode(buffer))
        } else if spec_status(buffer@) == crate::system_common::timing_clock::STATUS {
            SystemCommonBorrowed::TimingClock(TimingClock(buffer))
        } else {
            SystemCommonBorrowed::TuneRequest(TuneRequest(buffer))
        }
    }

    /// Validates that a slice holds a message of the union.
    pub fn validate_data(buffer: &'a [u32]) -> (r: Result<(), Error>)
        ensures
            r == spec_validate(buffer@),
    {
        validate_data(buffer)
    }

    /// Takes a validated slice as the member its discriminant names.
    pub fn from_data_unchecked(buffer: &'a [u32]) -> (message: Self)
        requires
            spec_validate(buffer@) is Ok,
        ensures
            message == Self::spec_from_data(buffer),
            message.wf(),
            message.units() == buffer@,
            message.code() == spec_status(buffer@),
    {
        let found = status(buffer);
        if found == crate::system_common::active_sensing::STATUS {
            SystemCommonBorrowed::ActiveSensing(ActiveSensing(buffer))
        } else if found == crate::system_common::cont::STATUS {
            SystemCommonBorrowed::Continue(Continue(buffer))
        } else if found == crate::system_common::reset::STATUS {
            SystemCommonBorrowed::Reset(Reset(buffer))
        } else if found == crate::system_common::song_position_pointer::STATUS {
            SystemCommonBorrowed::SongPositionPointer(SongPositionPointer(buffer))
        } else if found == crate::system_common::song_select::STATUS {
            SystemCommonBorrowed::SongSelect(SongSelect(buffer))
        } else if found == crate::system_common::start::STATUS {
            SystemCommonBorrowed::Start(Start(buffer))
        } else if found == crate::system_common::stop::STATUS {
            SystemCommonBorrowed::Stop(Stop(buffer))
        } else if found == crate::system_common::time_code::STATUS {
            SystemCommonBorrowed::TimeCode(TimeCode(buffer))
        } else if found == crate::system_common::timing_clock::STATUS {
            SystemCommonBorrowed::TimingClock(TimingClock(buffer))
        } else {
            SystemCommonBorrowed::TuneRequest(TuneRequest(buffer))
        }
    }

    /// Parses a slice: the member its discriminant names if the slice
    /// validates as that member, else the first failure.
    pub fn from_data(buffer: &'a [u32]) -> (r: Result<Self, Error>)
        ensures
            match spec_validate(buffer@) {
                Ok(()) => r == Ok::<Self, Error>(Self::spec_from_data(buffer)),
                Err(e) => r == Err::<Self, Error>(e),
            },
    {
        match validate_data(buffer) {
            Ok(()) => Ok(Self::from_data_unchecked(buffer)),
            Err(e) => Err(e),
        }
    }

    /// The words the message occupies.
    pub fn data(&self) -> (data: &[u32])
        requires
            self.wf(),
        ensures
            data@ == self.spec_data(),
    {
        match self {
            SystemCommonBorrowed::ActiveSensing(m) => m.data(),
            SystemCommonBorrowed::Continue(m) => m.data(),
            SystemCommonBorrowed::Reset(m) => m.data(),
            SystemCommonBorrowed::SongPositionPointer(m) => m.data(),
            SystemCommonBorrowed::SongSelect(m) => m.data(),
            SystemCommonBorrowed::Start(m) => m.data(),
            SystemCommonBorrowed::Stop(m) => m.data(),
            SystemCommonBorrowed::TimeCode(m) => m.data(),
            SystemCommonBorrowed::TimingClock(m) => m.data(),
            SystemCommonBorrowed::TuneRequest(m) => m.data(),
        }
    }

    /// The message with its words owned; the member is kept.
    pub fn into_owned(self) -> (owned: SystemCommonOwned)
        requires
            self.wf(),
        ensures
            owned.wf(),
            owned.code() == self.code(),
            owned.units() == self.spec_owned(),
    {
        match self {
            SystemCommonBorrowed::ActiveSensing(m) => SystemCommonOwned::ActiveSensing(
                m.rebuffer_into::<[u32; 4]>()
            ),
            SystemCommonBorrowed::Continue(m) => SystemCommonOwned::Continue(
                m.rebuffer_into::<[u32; 4]>()
            ),
            SystemCommonBorrowed::Reset(m) => SystemCommonOwned::Reset(
                m.rebuffer_into::<[u32; 4]>()
            ),
            SystemCommonBorrowed::SongPositionPointer(m) => SystemCommonOwned::SongPositionPointer(
                m.rebuffer_into::<[u32; 4]>()
            ),
            SystemCommonBorrowed::SongSelect(m) => SystemCommonOwned::SongSelect(
                m.rebuffer_into::<[u32; 4]>()
            ),
            SystemCommonBorrowed::Start(m) => SystemCommonOwned::Start(
                m.rebuffer_into::<[u32; 4]>()
            ),
            SystemCommonBorrowed::Stop(m) => SystemCommonOwned::Stop(m.rebuffer_into::<[u32; 4]>()),
            SystemCommonBorrowed::TimeCode(m) => SystemCommonOwned::TimeCode(
                m.rebuffer_into::<[u32; 4]>()
            ),
            SystemCommonBorrowed::TimingClock(m) => SystemCommonOwned::TimingClock(
                m.rebuffer_into::<[u32; 4]>()
            ),
            SystemCommonBorrowed::TuneRequest(m) => SystemCommonOwned::TuneRequest(
                m.rebuffer_into::<[u32; 4]>()
            ),
        }
    }
}

impl SystemCommonOwned {
    /// The words of the underlying buffer.
    pub open spec fn units(&self) -> Seq<u32> {
        match self {
            SystemCommonOwned::ActiveSensing(m) => m.0.units(),
            SystemCommonOwned::Continue(m) => m.0.units(),
            SystemCommonOwned::Reset(m) => m.0.units(),
            SystemCommonOwned::SongPositionPointer(m) => m.0.units(),
            SystemCommonOwned::SongSelect(m) => m.0.units(),
            SystemCommonOwned::Start(m) => m.0.units(),
            SystemCommonOwned::Stop(m) => m.0.units(),
            SystemCommonOwned::TimeCode(m) => m.0.units(),
            SystemCommonOwned::TimingClock(m) => m.0.units(),
            SystemCommonOwned::TuneRequest(m) => m.0.units(),
        }
    }

    /// The message inside is a valid message of its kind.
    pub open spec fn wf(&self) -> bool {
        match self {
            SystemCommonOwned::ActiveSensing(m) => m.wf(),
            SystemCommonOwned::Continue(m) => m.wf(),
            SystemCommonOwned::Reset(m) => m.wf(),
            SystemCommonOwned::SongPositionPointer(m) => m.wf(),
            SystemCommonOwned::SongSelect(m) => m.wf(),
            SystemCommonOwned::Start(m) => m.wf(),
            SystemCommonOwned::Stop(m) => m.wf(),
            SystemCommonOwned::TimeCode(m) => m.wf(),
            SystemCommonOwned::TimingClock(m) => m.wf(),
            SystemCommonOwned::TuneRequest(m) => m.wf(),
        }
    }

    /// The discriminant of the member inside.
    pub open spec fn code(&self) -> u32 {
        match self {
            SystemCommonOwned::ActiveSensing(
                _
            ) => crate::system_common::active_sensing::STATUS as u32,
            SystemCommonOwned::Continue(_) => crate::system_common::cont::STATUS as u32,
            SystemCommonOwned::Reset(_) => crate::system_common::reset::STATUS as u32,
            SystemCommonOwned::SongPositionPointer(
                _
            ) => crate::system_common::song_position_pointer::STATUS as u32,
            SystemCommonOwned::SongSelect(_) => crate::system_common::song_select::STATUS as u32,
            SystemCommonOwned::Start(_) => crate::system_common::start::STATUS as u32,
            SystemCommonOwned::Stop(_) => crate::system_common::stop::STATUS as u32,
            SystemCommonOwned::TimeCode(_) => crate::system_common::time_code::STATUS as u32,
            SystemCommonOwned::TimingClock(_) => crate::system_common::timing_clock::STATUS as u32,
            SystemCommonOwned::TuneRequest(_) => crate::system_common::tune_request::STATUS as u32,
        }
    }

    /// The words the message occupies.
    pub open spec fn spec_data(&self) -> Seq<u32> {
        match self {
            SystemCommonOwned::ActiveSensing(m) => m.0.units().subrange(0, 1),
            SystemCommonOwned::Continue(m) => m.0.units().subrange(0, 1),
            SystemCommonOwned::Reset(m) => m.0.units().subrange(0, 1),
            SystemCommonOwned::SongPositionPointer(m) => m.0.units().subrange(0, 1),
            SystemCommonOwned::SongSelect(m) => m.0.units().subrange(0, 1),
            SystemCommonOwned::Start(m) => m.0.units().subrange(0, 1),
            SystemCommonOwned::Stop(m) => m.0.units().subrange(0, 1),
            SystemCommonOwned::TimeCode(m) => m.0.units().subrange(0, 1),
            SystemCommonOwned::TimingClock(m) => m.0.units().subrange(0, 1),
            SystemCommonOwned::TuneRequest(m) => m.0.units().subrange(0, 1),
        }
    }

    /// The words the message occupies.
    pub fn data(&self) -> (data: &[u32])
        requires
            self.wf(),
        ensures
            data@ == self.spec_data(),
    {
        match self {
            SystemCommonOwned::ActiveSensing(m) => m.data(),
            SystemCommonOwned::Continue(m) => m.data(),
            SystemCommonOwned::Reset(m) => m.data(),
            SystemCommonOwned::SongPositionPointer(m) => m.data(),
            SystemCommonOwned::SongSelect(m) => m.data(),
            SystemCommonOwned::Start(m) => m.data(),
            SystemCommonOwned::Stop(m) => m.data(),
            SystemCommonOwned::TimeCode(m) => m.data(),
            SystemCommonOwned::TimingClock(m) => m.data(),
            SystemCommonOwned::TuneRequest(m) => m.data(),
        }
    }
}

/// Routing is by discriminant alone: a sequence that validates holds a
/// discriminant that names a member, and a sequence whose discriminant
/// names none never validates.
pub proof fn lemma_routing(units: Seq<u32>)
    ensures
        spec_validate(units) is Ok ==> units.len() >= 1 && is_defined(spec_status(units)),
        units.len() >= 1 && !is_defined(spec_status(units)) ==> spec_validate(units) == Err::<
            (),
            Error,
        >(Error::InvalidData(ERR_UNKNOWN_SYSTEM_COMMON_STATUS)),
        units.len() >= 1
            && spec_status(
                units
            ) == crate::system_common::active_sensing::STATUS ==> spec_validate(units)
            == crate::system_common::active_sensing::spec_validate::<u32>(units),
        units.len() >= 1
            && spec_status(units) == crate::system_common::cont::STATUS ==> spec_validate(units)
            == crate::system_common::cont::spec_validate::<u32>(units),
        units.len() >= 1
            && spec_status(units) == crate::system_common::reset::STATUS ==> spec_validate(units)
            == crate::system_common::reset::spec_validate::<u32>(units),
        units.len() >= 1
            && spec_status(
                units
            ) == crate::system_common::song_position_pointer::STATUS ==> spec_validate(units)
            == crate::system_common::song_position_pointer::spec_validate::<u32>(units),
        units.len() >= 1
            && spec_status(
                units
            ) == crate::system_common::song_select::STATUS ==> spec_validate(units)
            == crate::system_common::song_select::spec_validate::<u32>(units),
        units.len() >= 1
            && spec_status(units) == crate::system_common::start::STATUS ==> spec_validate(units)
            == crate::system_common::start::spec_validate::<u32>(units),
        units.len() >= 1
            && spec_status(units) == crate::system_common::stop::STATUS ==> spec_validate(units)
            == crate::system_common::stop::spec_validate::<u32>(units),
        units.len() >= 1
            && spec_status(
                units
            ) == crate::system_common::time_code::STATUS ==> spec_validate(units)
            == crate::system_common::time_code::spec_validate::<u32>(units),
        units.len() >= 1
            && spec_status(
                units
            ) == crate::system_common::timing_clock::STATUS ==> spec_validate(units)
            == crate::system_common::timing_clock::spec_validate::<u32>(units),
        units.len() >= 1
            && spec_status(
                units
            ) == crate::system_common::tune_request::STATUS ==> spec_validate(units)
            == crate::system_common::tune_request::spec_validate::<u32>(units),
{
}

impl<'a> SystemCommonMessage<'a> {
    /// The message that a borrowed one becomes: the same member, still borrowed.
    pub open spec fn spec_from_borrowed(value: SystemCommonBorrowed<'a>) -> Self {
        match value {
            SystemCommonBorrowed::ActiveSensing(m) => SystemCommonMessage::ActiveSensing(
                ActiveSensing(MessageData::Borrowed(m.0))
            ),
            SystemCommonBorrowed::Continue(m) => SystemCommonMessage::Continue(
                Continue(MessageData::Borrowed(m.0))
            ),
            SystemCommonBorrowed::Reset(m) => SystemCommonMessage::Reset(
                Reset(MessageData::Borrowed(m.0))
            ),
            SystemCommonBorrowed::SongPositionPointer(
                m
            ) => SystemCommonMessage::SongPositionPointer(
                SongPositionPointer(MessageData::Borrowed(m.0))
            ),
            SystemCommonBorrowed::SongSelect(m) => SystemCommonMessage::SongSelect(
                SongSelect(MessageData::Borrowed(m.0))
            ),
            SystemCommonBorrowed::Start(m) => SystemCommonMessage::Start(
                Start(MessageData::Borrowed(m.0))
            ),
            SystemCommonBorrowed::Stop(m) => SystemCommonMessage::Stop(
                Stop(MessageData::Borrowed(m.0))
            ),
            SystemCommonBorrowed::TimeCode(m) => SystemCommonMessage::TimeCode(
                TimeCode(MessageData::Borrowed(m.0))
            ),
            SystemCommonBorrowed::TimingClock(m) => SystemCommonMessage::TimingClock(
                TimingClock(MessageData::Borrowed(m.0))
            ),
            SystemCommonBorrowed::TuneRequest(m) => SystemCommonMessage::TuneRequest(
                TuneRequest(MessageData::Borrowed(m.0))
            ),
        }
    }

    /// The message that an owned one becomes: the same member, still owned.
    pub open spec fn spec_from_owned(value: SystemCommonOwned) -> Self {
        match value {
            SystemCommonOwned::ActiveSensing(m) => SystemCommonMessage::ActiveSensing(
                ActiveSensing(MessageData::Owned(m.0))
            ),
            SystemCommonOwned::Continue(m) => SystemCommonMessage::Continue(
                Continue(MessageData::Owned(m.0))
            ),
            SystemCommonOwned::Reset(m) => SystemCommonMessage::Reset(
                Reset(MessageData::Owned(m.0))
            ),
            SystemCommonOwned::SongPositionPointer(m) => SystemCommonMessage::SongPositionPointer(
                SongPositionPointer(MessageData::Owned(m.0))
            ),
            SystemCommonOwned::SongSelect(m) => SystemCommonMessage::SongSelect(
                SongSelect(MessageData::Owned(m.0))
            ),
            SystemCommonOwned::Start(m) => SystemCommonMessage::Start(
                Start(MessageData::Owned(m.0))
            ),
            SystemCommonOwned::Stop(m) => SystemCommonMessage::Stop(Stop(MessageData::Owned(m.0))),
            SystemCommonOwned::TimeCode(m) => SystemCommonMessage::TimeCode(
                TimeCode(MessageData::Owned(m.0))
            ),
            SystemCommonOwned::TimingClock(m) => SystemCommonMessage::TimingClock(
                TimingClock(MessageData::Owned(m.0))
            ),
            SystemCommonOwned::TuneRequest(m) => SystemCommonMessage::TuneRequest(
                TuneRequest(MessageData::Owned(m.0))
            ),
        }
    }
}

/// An owned message taken as a message and made owned again is the
/// message it was: the same member, the same words, as valid as before.
pub proof fn lemma_owned_round_trip(owned: SystemCommonOwned)
    ensures
        SystemCommonMessage::spec_from_owned(owned).spec_owned() == owned.units(),
        SystemCommonMessage::spec_from_owned(owned).units() == owned.units(),
        SystemCommonMessage::spec_from_owned(owned).code() == owned.code(),
        SystemCommonMessage::spec_from_owned(owned).wf() == owned.wf(),
{
}

impl<'a> From<SystemCommonBorrowed<'a>> for SystemCommonMessage<'a> {
    fn from(value: SystemCommonBorrowed<'a>) -> (r: Self) {
        match value {
            SystemCommonBorrowed::ActiveSensing(m) => SystemCommonMessage::ActiveSensing(
                ActiveSensing(MessageData::Borrowed(m.0))
            ),
            SystemCommonBorrowed::Continue(m) => SystemCommonMessage::Continue(
                Continue(MessageData::Borrowed(m.0))
            ),
            SystemCommonBorrowed::Reset(m) => SystemCommonMessage::Reset(
                Reset(MessageData::Borrowed(m.0))
            ),
            SystemCommonBorrowed::SongPositionPointer(
                m
            ) => SystemCommonMessage::SongPositionPointer(
                SongPositionPointer(MessageData::Borrowed(m.0))
            ),
            SystemCommonBorrowed::SongSelect(m) => SystemCommonMessage::SongSelect(
                SongSelect(MessageData::Borrowed(m.0))
            ),
            SystemCommonBorrowed::Start(m) => SystemCommonMessage::Start(
                Start(MessageData::Borrowed(m.0))
            ),
            SystemCommonBorrowed::Stop(m) => SystemCommonMessage::Stop(
                Stop(MessageData::Borrowed(m.0))
            ),
            SystemCommonBorrowed::TimeCode(m) => SystemCommonMessage::TimeCode(
                TimeCode(MessageData::Borrowed(m.0))
            ),
            SystemCommonBorrowed::TimingClock(m) => SystemCommonMessage::TimingClock(
                TimingClock(MessageData::Borrowed(m.0))
            ),
            SystemCommonBorrowed::TuneRequest(m) => SystemCommonMessage::TuneRequest(
                TuneRequest(MessageData::Borrowed(m.0))
            ),
        }
    }
}

impl<'a> FromSpecImpl<SystemCommonBorrowed<'a>> for SystemCommonMessage<'a> {
    open spec fn obeys_from_spec() -> bool {
        true
    }

    open spec fn from_spec(value: SystemCommonBorrowed<'a>) -> Self {
        SystemCommonMessage::spec_from_borrowed(value)
    }
}

impl<'a> From<SystemCommonOwned> for SystemCommonMessage<'a> {
    fn from(value: SystemCommonOwned) -> (r: Self) {
        match value {
            SystemCommonOwned::ActiveSensing(m) => SystemCommonMessage::ActiveSensing(
                ActiveSensing(MessageData::Owned(m.0))
            ),
            SystemCommonOwned::Continue(m) => SystemCommonMessage::Continue(
                Continue(MessageData::Owned(m.0))
            ),
            SystemCommonOwned::Reset(m) => SystemCommonMessage::Reset(
                Reset(MessageData::Owned(m.0))
            ),
            SystemCommonOwned::SongPositionPointer(m) => SystemCommonMessage::SongPositionPointer(
                SongPositionPointer(MessageData::Owned(m.0))
            ),
            SystemCommonOwned::SongSelect(m) => SystemCommonMessage::SongSelect(
                SongSelect(MessageData::Owned(m.0))
            ),
            SystemCommonOwned::Start(m) => SystemCommonMessage::Start(
                Start(MessageData::Owned(m.0))
            ),
            SystemCommonOwned::Stop(m) => SystemCommonMessage::Stop(Stop(MessageData::Owned(m.0))),
            SystemCommonOwned::TimeCode(m) => SystemCommonMessage::TimeCode(
                TimeCode(MessageData::Owned(m.0))
            ),
            SystemCommonOwned::TimingClock(m) => SystemCommonMessage::TimingClock(
                TimingClock(MessageData::Owned(m.0))
            ),
            SystemCommonOwned::TuneRequest(m) => SystemCommonMessage::TuneRequest(
                TuneRequest(MessageData::Owned(m.0))
            ),
        }
    }
}

impl<'a> FromSpecImpl<SystemCommonOwned> for SystemCommonMessage<'a> {
    open spec fn obeys_from_spec() -> bool {
        true
    }

    open spec fn from_spec(value: SystemCommonOwned) -> Self {
        SystemCommonMessage::spec_from_owned(value)
    }
}

impl From<ActiveSensing<[u32; 4]>> for SystemCommonOwned {
    fn from(value: ActiveSensing<[u32; 4]>) -> (r: Self) {
        SystemCommonOwned::ActiveSensing(value)
    }
}

impl FromSpecImpl<ActiveSensing<[u32; 4]>> for SystemCommonOwned {
    open spec fn obeys_from_spec() -> bool {
        true
    }

    open spec fn from_spec(value: ActiveSensing<[u32; 4]>) -> Self {
        SystemCommonOwned::ActiveSensing(value)
    }
}

impl<'a> From<ActiveSensing<[u32; 4]>> for SystemCommonMessage<'a> {
    fn from(value: ActiveSensing<[u32; 4]>) -> (r: Self) {
        SystemCommonMessage::ActiveSensing(ActiveSensing(MessageData::Owned(value.0)))
    }
}

impl<'a> FromSpecImpl<ActiveSensing<[u32; 4]>> for SystemCommonMessage<'a> {
    open spec fn obeys_from_spec() -> bool {
        true
    }

    open spec fn from_spec(value: ActiveSensing<[u32; 4]>) -> Self {
        SystemCommonMessage::ActiveSensing(ActiveSensing(MessageData::Owned(value.0)))
    }
}

impl From<Continue<[u32; 4]>> for SystemCommonOwned {
    fn from(value: Continue<[u32; 4]>) -> (r: Self) {
        SystemCommonOwned::Continue(value)
    }
}

impl FromSpecImpl<Continue<[u32; 4]>> for SystemCommonOwned {
    open spec fn obeys_from_spec() -> bool {
        true
    }

    open spec fn from_spec(value: Continue<[u32; 4]>) -> Self {
        SystemCommonOwned::Continue(value)
    }
}

impl<'a> From<Continue<[u32; 4]>> for SystemCommonMessage<'a> {
    fn from(value: Continue<[u32; 4]>) -> (r: Self) {
        SystemCommonMessage::Continue(Continue(MessageData::Owned(value.0)))
    }
}

impl<'a> FromSpecImpl<Continue<[u32; 4]>> for SystemCommonMessage<'a> {
    open spec fn obeys_from_spec() -> bool {
        true
    }

    open spec fn from_spec(value: Continue<[u32; 4]>) -> Self {
        SystemCommonMessage::Continue(Continue(MessageData::Owned(value.0)))
    }
}

impl From<Reset<[u32; 4]>> for SystemCommonOwned {
    fn from(value: Reset<[u32; 4]>) -> (r: Self) {
        SystemCommonOwned::Reset(value)
    }
}

impl FromSpecImpl<Reset<[u32; 4]>> for SystemCommonOwned {
    open spec fn obeys_from_spec() -> bool {
        true
    }

    open spec fn from_spec(value: Reset<[u32; 4]>) -> Self {
        SystemCommonOwned::Reset(value)
    }
}

impl<'a> From<Reset<[u32; 4]>> for SystemCommonMessage<'a> {
    fn from(value: Reset<[u32; 4]>) -> (r: Self) {
        SystemCommonMessage::Reset(Reset(MessageData::Owned(value.0)))
    }
}

impl<'a> FromSpecImpl<Reset<[u32; 4]>> for SystemCommonMessage<'a> {
    open spec fn obeys_from_spec() -> bool {
        true
    }

    open spec fn from_spec(value: Reset<[u32; 4]>) -> Self {
        SystemCommonMessage::Reset(Reset(MessageData::Owned(value.0)))
    }
}

impl From<SongPositionPointer<[u32; 4]>> for SystemCommonOwned {
    fn from(value: SongPositionPointer<[u32; 4]>) -> (r: Self) {
        SystemCommonOwned::SongPositionPointer(value)
    }
}

impl FromSpecImpl<SongPositionPointer<[u32; 4]>> for SystemCommonOwned {
    open spec fn obeys_from_spec() -> bool {
        true
    }

    open spec fn from_spec(value: SongPositionPointer<[u32; 4]>) -> Self {
        SystemCommonOwned::SongPositionPointer(value)
    }
}

impl<'a> From<SongPositionPointer<[u32; 4]>> for SystemCommonMessage<'a> {
    fn from(value: SongPositionPointer<[u32; 4]>) -> (r: Self) {
        SystemCommonMessage::SongPositionPointer(SongPositionPointer(MessageData::Owned(value.0)))
    }
}

impl<'a> FromSpecImpl<SongPositionPointer<[u32; 4]>> for SystemCommonMessage<'a> {
    open spec fn obeys_from_spec() -> bool {
        true
    }

    open spec fn from_spec(value: SongPositionPointer<[u32; 4]>) -> Self {
        SystemCommonMessage::SongPositionPointer(SongPositionPointer(MessageData::Owned(value.0)))
    }
}

impl From<SongSelect<[u32; 4]>> for SystemCommonOwned {
    fn from(value: SongSelect<[u32; 4]>) -> (r: Self) {
        SystemCommonOwned::SongSelect(value)
    }
}

impl FromSpecImpl<SongSelect<[u32; 4]>> for SystemCommonOwned {
    open spec fn obeys_from_spec() -> bool {
        true
    }

    open spec fn from_spec(value: SongSelect<[u32; 4]>) -> Self {
        SystemCommonOwned::SongSelect(value)
    }
}

impl<'a> From<SongSelect<[u32; 4]>> for SystemCommonMessage<'a> {
    fn from(value: SongSelect<[u32; 4]>) -> (r: Self) {
        SystemCommonMessage::SongSelect(SongSelect(MessageData::Owned(value.0)))
    }
}

impl<'a> FromSpecImpl<SongSelect<[u32; 4]>> for SystemCommonMessage<'a> {
    open spec fn obeys_from_spec() -> bool {
        true
    }

    open spec fn from_spec(value: SongSelect<[u32; 4]>) -> Self {
        SystemCommonMessage::SongSelect(SongSelect(MessageData::Owned(value.0)))
    }
}

impl From<Start<[u32; 4]>> for SystemCommonOwned {
    fn from(value: Start<[u32; 4]>) -> (r: Self) {
        SystemCommonOwned::Start(value)
    }
}

impl FromSpecImpl<Start<[u32; 4]>> for SystemCommonOwned {
    open spec fn obeys_from_spec() -> bool {
        true
    }

    open spec fn from_spec(value: Start<[u32; 4]>) -> Self {
        SystemCommonOwned::Start(value)
    }
}

impl<'a> From<Start<[u32; 4]>> for SystemCommonMessage<'a> {
    fn from(value: Start<[u32; 4]>) -> (r: Self) {
        SystemCommonMessage::Start(Start(MessageData::Owned(value.0)))
    }
}

impl<'a> FromSpecImpl<Start<[u32; 4]>> for SystemCommonMessage<'a> {
    open spec fn obeys_from_spec() -> bool {
        true
    }

    open spec fn from_spec(value: Start<[u32; 4]>) -> Self {
        SystemCommonMessage::Start(Start(MessageData::Owned(value.0)))
    }
}

impl From<Stop<[u32; 4]>> for SystemCommonOwned {
    fn from(value: Stop<[u32; 4]>) -> (r: Self) {
        SystemCommonOwned::Stop(value)
    }
}

impl FromSpecImpl<Stop<[u32; 4]>> for SystemCommonOwned {
    open spec fn obeys_from_spec() -> bool {
        true
    }

    open spec fn from_spec(value: Stop<[u32; 4]>) -> Self {
        SystemCommonOwned::Stop(value)
    }
}

impl<'a> From<Stop<[u32; 4]>> for SystemCommonMessage<'a> {
    fn from(value: Stop<[u32; 4]>) -> (r: Self) {
        SystemCommonMessage::Stop(Stop(MessageData::Owned(value.0)))
    }
}

impl<'a> FromSpecImpl<Stop<[u32; 4]>> for SystemCommonMessage<'a> {
    open spec fn obeys_from_spec() -> bool {
        true
    }

    open spec fn from_spec(value: Stop<[u32; 4]>) -> Self {
        SystemCommonMessage::Stop(Stop(MessageData::Owned(value.0)))
    }
}

impl From<TimeCode<[u32; 4]>> for SystemCommonOwned {
    fn from(value: TimeCode<[u32; 4]>) -> (r: Self) {
        SystemCommonOwned::TimeCode(value)
    }
}

impl FromSpecImpl<TimeCode<[u32; 4]>> for SystemCommonOwned {
    open spec fn obeys_from_spec() -> bool {
        true
    }

    open spec fn from_spec(value: TimeCode<[u32; 4]>) -> Self {
        SystemCommonOwned::TimeCode(value)
    }
}

impl<'a> From<TimeCode<[u32; 4]>> for SystemCommonMessage<'a> {
    fn from(value: TimeCode<[u32; 4]>) -> (r: Self) {
        SystemCommonMessage::TimeCode(TimeCode(MessageData::Owned(value.0)))
    }
}

impl<'a> FromSpecImpl<TimeCode<[u32; 4]>> for SystemCommonMessage<'a> {
    open spec fn obeys_from_spec() -> bool {
        true
    }

    open spec fn from_spec(value: TimeCode<[u32; 4]>) -> Self {
        SystemCommonMessage::TimeCode(TimeCode(MessageData::Owned(value.0)))
    }
}

impl From<TimingClock<[u32; 4]>> for SystemCommonOwned {
    fn from(value: TimingClock<[u32; 4]>) -> (r: Self) {
        SystemCommonOwned::TimingClock(value)
    }
}

impl FromSpecImpl<TimingClock<[u32; 4]>> for SystemCommonOwned {
    open spec fn obeys_from_spec() -> bool {
        true
    }

    open spec fn from_spec(value: TimingClock<[u32; 4]>) -> Self {
        SystemCommonOwned::TimingClock(value)
    }
}

impl<'a> From<TimingClock<[u32; 4]>> for SystemCommonMessage<'a> {
    fn from(value: TimingClock<[u32; 4]>) -> (r: Self) {
        SystemCommonMessage::TimingClock(TimingClock(MessageData::Owned(value.0)))
    }
}

impl<'a> FromSpecImpl<TimingClock<[u32; 4]>> for SystemCommonMessage<'a> {
    open spec fn obeys_from_spec() -> bool {
        true
    }

    open spec fn from_spec(value: TimingClock<[u32; 4]>) -> Self {
        SystemCommonMessage::TimingClock(TimingClock(MessageData::Owned(value.0)))
    }
}

impl From<TuneRequest<[u32; 4]>> for SystemCommonOwned {
    fn from(value: TuneRequest<[u32; 4]>) -> (r: Self) {
        SystemCommonOwned::TuneRequest(value)
    }
}

impl FromSpecImpl<TuneRequest<[u32; 4]>> for SystemCommonOwned {
    open spec fn obeys_from_spec() -> bool {
        true
    }

    open spec fn from_spec(value: TuneRequest<[u32; 4]>) -> Self {
        SystemCommonOwned::TuneRequest(value)
    }
}

impl<'a> From<TuneRequest<[u32; 4]>> for SystemCommonMessage<'a> {
    fn from(value: TuneRequest<[u32; 4]>) -> (r: Self) {
        SystemCommonMessage::TuneRequest(TuneRequest(MessageData::Owned(value.0)))
    }
}

impl<'a> FromSpecImpl<TuneRequest<[u32; 4]>> for SystemCommonMessage<'a> {
    open spec fn obeys_from_spec() -> bool {
        true
    }

    open spec fn from_spec(value: TuneRequest<[u32; 4]>) -> Self {
        SystemCommonMessage::TuneRequest(TuneRequest(MessageData::Owned(value.0)))
    }
}

/// The discriminant of the family in its byte stream form.
pub open spec fn spec_byte_status(bytes: Seq<u8>) -> u32 {
    spec_read(bytes, status_octet())
}

/// Reads the discriminant, and nothing else, from the first byte.
pub fn byte_status(bytes: &[u8]) -> (value: u8)
    requires
        bytes@.len() > 0,
    ensures
        value == spec_byte_status(bytes@),
{
    let raw = read_field(bytes, &status_octet_schema());
    proof {
        crate::bit_ops::lemma_low_mask_bound(0);
    }
    raw as u8
}

/// The verdict on a byte sequence: that of the member its status names.
pub open spec fn spec_validate_bytes(bytes: Seq<u8>) -> Result<(), Error> {
    if bytes.len() < 1 {
        Err(Error::InvalidData(ERR_SLICE_TOO_SHORT))
    } else if spec_byte_status(bytes) == crate::system_common::active_sensing::STATUS {
        crate::system_common::active_sensing::spec_validate::<u8>(bytes)
    } else if spec_byte_status(bytes) == crate::system_common::cont::STATUS {
        crate::system_common::cont::spec_validate::<u8>(bytes)
    } else if spec_byte_status(bytes) == crate::system_common::reset::STATUS {
        crate::system_common::reset::spec_validate::<u8>(bytes)
    } else if spec_byte_status(bytes) == crate::system_common::song_position_pointer::STATUS {
        crate::system_common::song_position_pointer::spec_validate::<u8>(bytes)
    } else if spec_byte_status(bytes) == crate::system_common::song_select::STATUS {
        crate::system_common::song_select::spec_validate::<u8>(bytes)
    } else if spec_byte_status(bytes) == crate::system_common::start::STATUS {
        crate::system_common::start::spec_validate::<u8>(bytes)
    } else if spec_byte_status(bytes) == crate::system_common::stop::STATUS {
        crate::system_common::stop::spec_validate::<u8>(bytes)
    } else if spec_byte_status(bytes) == crate::system_common::time_code::STATUS {
        crate::system_common::time_code::spec_validate::<u8>(bytes)
    } else if spec_byte_status(bytes) == crate::system_common::timing_clock::STATUS {
        crate::system_common::timing_clock::spec_validate::<u8>(bytes)
    } else if spec_byte_status(bytes) == crate::system_common::tune_request::STATUS {
        crate::system_common::tune_request::spec_validate::<u8>(bytes)
    } else {
        Err(Error::InvalidData(ERR_UNKNOWN_SYSTEM_COMMON_STATUS))
    }
}

/// The packet a valid byte sequence converts to: a fresh packet of the
/// same kind with every field set to the value the bytes hold.
pub open spec fn spec_from_bytes(bytes: Seq<u8>) -> Seq<u32> {
    if spec_byte_status(bytes) == crate::system_common::active_sensing::STATUS {
        crate::system_common::active_sensing::spec_with_fields::<u32>(
            4,
            spec_read(bytes, crate::common_properties::group()),
        )
    } else if spec_byte_status(bytes) == crate::system_common::cont::STATUS {
        crate::system_common::cont::spec_with_fields::<u32>(
            4,
            spec_read(bytes, crate::common_properties::group()),
        )
    } else if spec_byte_status(bytes) == crate::system_common::reset::STATUS {
        crate::system_common::reset::spec_with_fields::<u32>(
            4,
            spec_read(bytes, crate::common_properties::group()),
        )
    } else if spec_byte_status(bytes) == crate::system_common::song_position_pointer::STATUS {
        crate::system_common::song_position_pointer::spec_with_fields::<u32>(
            4,
            spec_read(bytes, crate::common_properties::group()),
            spec_read_u14(
                bytes,
                crate::system_common::song_position_pointer::position_low(),
                crate::system_common::song_position_pointer::position_high(),
            ),
        )
    } else if spec_byte_status(bytes) == crate::system_common::song_select::STATUS {
        crate::system_common::song_select::spec_with_fields::<u32>(
            4,
            spec_read(bytes, crate::common_properties::group()),
            spec_read(bytes, crate::system_common::song_select::song()),
        )
    } else if spec_byte_status(bytes) == crate::system_common::start::STATUS {
        crate::system_common::start::spec_with_fields::<u32>(
            4,
            spec_read(bytes, crate::common_properties::group()),
        )
    } else if spec_byte_status(bytes) == crate::system_common::stop::STATUS {
        crate::system_common::stop::spec_with_fields::<u32>(
            4,
            spec_read(bytes, crate::common_properties::group()),
        )
    } else if spec_byte_status(bytes) == crate::system_common::time_code::STATUS {
        crate::system_common::time_code::spec_with_fields::<u32>(
            4,
            spec_read(bytes, crate::common_properties::group()),
            spec_read(bytes, crate::system_common::time_code::time_code()),
        )
    } else if spec_byte_status(bytes) == crate::system_common::timing_clock::STATUS {
        crate::system_common::timing_clock::spec_with_fields::<u32>(
            4,
            spec_read(bytes, crate::common_properties::group()),
        )
    } else {
        crate::system_common::tune_request::spec_with_fields::<u32>(
            4,
            spec_read(bytes, crate::common_properties::group()),
        )
    }
}

/// Reads the status byte and runs the validation of the member it names.
pub fn validate_byte_data(buffer: &[u8]) -> (r: Result<(), Error>)
    ensures
        r == spec_validate_bytes(buffer@),
{
    if buffer.len() < 1 {
        return Err(Error::InvalidData(ERR_SLICE_TOO_SHORT));
    }
    let found = byte_status(buffer);
    if found == crate::system_common::active_sensing::STATUS {
        crate::system_common::active_sensing::validate::<u8>(buffer)
    } else if found == crate::system_common::cont::STATUS {
        crate::system_common::cont::validate::<u8>(buffer)
    } else if found == crate::system_common::reset::STATUS {
        crate::system_common::reset::validate::<u8>(buffer)
    } else if found == crate::system_common::song_position_pointer::STATUS {
        crate::system_common::song_position_pointer::validate::<u8>(buffer)
    } else if found == crate::system_common::song_select::STATUS {
        crate::system_common::song_select::validate::<u8>(buffer)
    } else if found == crate::system_common::start::STATUS {
        crate::system_common::start::validate::<u8>(buffer)
    } else if found == crate::system_common::stop::STATUS {
        crate::system_common::stop::validate::<u8>(buffer)
    } else if found == crate::system_common::time_code::STATUS {
        crate::system_common::time_code::validate::<u8>(buffer)
    } else if found == crate::system_common::timing_clock::STATUS {
        crate::system_common::timing_clock::validate::<u8>(buffer)
    } else if found == crate::system_common::tune_request::STATUS {
        crate::system_common::tune_request::validate::<u8>(buffer)
    } else {
        Err(Error::InvalidData(ERR_UNKNOWN_SYSTEM_COMMON_STATUS))
    }
}

impl SystemCommonOwned {
    /// Converts validated bytes into an owned packet of the same kind.
    pub fn from_byte_data_unchecked(buffer: &[u8]) -> (message: Self)
        requires
            spec_validate_bytes(buffer@) is Ok,
        ensures
            message.wf(),
            message.code() == spec_byte_status(buffer@),
            message.units() == spec_from_bytes(buffer@),
    {
        let found = byte_status(buffer);
        if found == crate::system_common::active_sensing::STATUS {
            SystemCommonOwned::ActiveSensing(
                ActiveSensing::<[u32; 4]>::from_bytes(ActiveSensing(buffer))
            )
        } else if found == crate::system_common::cont::STATUS {
            SystemCommonOwned::Continue(Continue::<[u32; 4]>::from_bytes(Continue(buffer)))
        } else if found == crate::system_common::reset::STATUS {
            SystemCommonOwned::Reset(Reset::<[u32; 4]>::from_bytes(Reset(buffer)))
        } else if found == crate::system_common::song_position_pointer::STATUS {
            SystemCommonOwned::SongPositionPointer(
                SongPositionPointer::<[u32; 4]>::from_bytes(SongPositionPointer(buffer))
            )
        } else if found == crate::system_common::song_select::STATUS {
            SystemCommonOwned::SongSelect(SongSelect::<[u32; 4]>::from_bytes(SongSelect(buffer)))
        } else if found == crate::system_common::start::STATUS {
            SystemCommonOwned::Start(Start::<[u32; 4]>::from_bytes(Start(buffer)))
        } else if found == crate::system_common::stop::STATUS {
            SystemCommonOwned::Stop(Stop::<[u32; 4]>::from_bytes(Stop(buffer)))
        } else if found == crate::system_common::time_code::STATUS {
            SystemCommonOwned::TimeCode(TimeCode::<[u32; 4]>::from_bytes(TimeCode(buffer)))
        } else if found == crate::system_common::timing_clock::STATUS {
            SystemCommonOwned::TimingClock(TimingClock::<[u32; 4]>::from_bytes(TimingClock(buffer)))
        } else {
            SystemCommonOwned::TuneRequest(TuneRequest::<[u32; 4]>::from_bytes(TuneRequest(buffer)))
        }
    }

    /// Parses bytes and converts them into an owned packet.
    pub fn from_byte_data(buffer: &[u8]) -> (r: Result<Self, Error>)
        ensures
            match spec_validate_bytes(buffer@) {
                Ok(()) => r is Ok && r->Ok_0.wf() && r->Ok_0.code() == spec_byte_status(buffer@)
                    && r->Ok_0.units() == spec_from_bytes(buffer@),
                Err(e) => r == Err::<Self, Error>(e),
            },
    {
        match validate_byte_data(buffer) {
            Ok(()) => Ok(Self::from_byte_data_unchecked(buffer)),
            Err(e) => Err(e),
        }
    }
}

impl<'a> SystemCommonMessage<'a> {
    /// The byte stream form of the message: a fresh byte message of the
    /// same kind with every field set to the value the packet holds,
    /// cut to the bytes the kind occupies.
    pub open spec fn spec_bytes(&self) -> Seq<u8> {
        match self {
            SystemCommonMessage::ActiveSensing(
                m
            ) => crate::system_common::active_sensing::spec_with_fields::<u8>(
                3,
                spec_read(m.0.units(), crate::common_properties::group()),
            ).subrange(0, 1),
            SystemCommonMessage::Continue(m) => crate::system_common::cont::spec_with_fields::<u8>(
                3,
                spec_read(m.0.units(), crate::common_properties::group()),
            ).subrange(0, 1),
            SystemCommonMessage::Reset(m) => crate::system_common::reset::spec_with_fields::<u8>(
                3,
                spec_read(m.0.units(), crate::common_properties::group()),
            ).subrange(0, 1),
            SystemCommonMessage::SongPositionPointer(
                m
            ) => crate::system_common::song_position_pointer::spec_with_fields::<u8>(
                3,
                spec_read(m.0.units(), crate::common_properties::group()),
                spec_read_u14(
                    m.0.units(),
                    crate::system_common::song_position_pointer::position_low(),
                    crate::system_common::song_position_pointer::position_high(),
                ),
            ).subrange(0, 3),
            SystemCommonMessage::SongSelect(
                m
            ) => crate::system_common::song_select::spec_with_fields::<u8>(
                3,
                spec_read(m.0.units(), crate::common_properties::group()),
                spec_read(m.0.units(), crate::system_common::song_select::song()),
            ).subrange(0, 2),
            SystemCommonMessage::Start(m) => crate::system_common::start::spec_with_fields::<u8>(
                3,
                spec_read(m.0.units(), crate::common_properties::group()),
            ).subrange(0, 1),
            SystemCommonMessage::Stop(m) => crate::system_common::stop::spec_with_fields::<u8>(
                3,
                spec_read(m.0.units(), crate::common_properties::group()),
            ).subrange(0, 1),
            SystemCommonMessage::TimeCode(
                m
            ) => crate::system_common::time_code::spec_with_fields::<u8>(
                3,
                spec_read(m.0.units(), crate::common_properties::group()),
                spec_read(m.0.units(), crate::system_common::time_code::time_code()),
            ).subrange(0, 2),
            SystemCommonMessage::TimingClock(
                m
            ) => crate::system_common::timing_clock::spec_with_fields::<u8>(
                3,
                spec_read(m.0.units(), crate::common_properties::group()),
            ).subrange(0, 1),
            SystemCommonMessage::TuneRequest(
                m
            ) => crate::system_common::tune_request::spec_with_fields::<u8>(
                3,
                spec_read(m.0.units(), crate::common_properties::group()),
            ).subrange(0, 1),
        }
    }

    /// Writes the byte stream form of the message over the front of
    /// `buffer` and hands the written bytes back. Fails with
    /// `BufferOverflow`, leaving the buffer as it was, exactly when the
    /// buffer is too short.
    pub fn try_write_byte_data<'b>(&self, buffer: &'b mut [u8]) -> (r: Result<&'b mut [u8], Error>)
        requires
            self.wf(),
        ensures
            old(buffer)@.len() < self.spec_bytes().len() ==> r is Err && r->Err_0
                == Error::BufferOverflow && final(buffer)@ == old(buffer)@,
            old(buffer)@.len() >= self.spec_bytes().len() ==> r is Ok && r->Ok_0@
                == self.spec_bytes() && final(buffer)@ == final(r->Ok_0)@ + old(buffer)@.subrange(
                self.spec_bytes().len() as int,
                old(buffer)@.len() as int,
            ),
    {
        let bytes: [u8; 3] = match self {
            SystemCommonMessage::ActiveSensing(m) => ActiveSensing::<[u8; 3]>::from_ump(
                ActiveSensing(Buffer::as_slice(&m.0))
            ).0,
            SystemCommonMessage::Continue(m) => Continue::<[u8; 3]>::from_ump(
                Continue(Buffer::as_slice(&m.0))
            ).0,
            SystemCommonMessage::Reset(m) => Reset::<[u8; 3]>::from_ump(
                Reset(Buffer::as_slice(&m.0))
            ).0,
            SystemCommonMessage::SongPositionPointer(m) => SongPositionPointer::<[u8; 3]>::from_ump(
                SongPositionPointer(Buffer::as_slice(&m.0))
            ).0,
            SystemCommonMessage::SongSelect(m) => SongSelect::<[u8; 3]>::from_ump(
                SongSelect(Buffer::as_slice(&m.0))
            ).0,
            SystemCommonMessage::Start(m) => Start::<[u8; 3]>::from_ump(
                Start(Buffer::as_slice(&m.0))
            ).0,
            SystemCommonMessage::Stop(m) => Stop::<[u8; 3]>::from_ump(
                Stop(Buffer::as_slice(&m.0))
            ).0,
            SystemCommonMessage::TimeCode(m) => TimeCode::<[u8; 3]>::from_ump(
                TimeCode(Buffer::as_slice(&m.0))
            ).0,
            SystemCommonMessage::TimingClock(m) => TimingClock::<[u8; 3]>::from_ump(
                TimingClock(Buffer::as_slice(&m.0))
            ).0,
            SystemCommonMessage::TuneRequest(m) => TuneRequest::<[u8; 3]>::from_ump(
                TuneRequest(Buffer::as_slice(&m.0))
            ).0,
        };
        let size: usize = match self {
            SystemCommonMessage::ActiveSensing(_) => 1,
            SystemCommonMessage::Continue(_) => 1,
            SystemCommonMessage::Reset(_) => 1,
            SystemCommonMessage::SongPositionPointer(_) => 3,
            SystemCommonMessage::SongSelect(_) => 2,
            SystemCommonMessage::Start(_) => 1,
            SystemCommonMessage::Stop(_) => 1,
            SystemCommonMessage::TimeCode(_) => 2,
            SystemCommonMessage::TimingClock(_) => 1,
            SystemCommonMessage::TuneRequest(_) => 1,
        };
        write_front(buffer, vstd::slice::slice_subrange(bytes.as_slice(), 0, size))
    }
}

impl<'a> SystemCommonBorrowed<'a> {
    /// The byte stream form of the message: a fresh byte message of the
    /// same kind with every field set to the value the packet holds,
    /// cut to the bytes the kind occupies.
    pub open spec fn spec_bytes(&self) -> Seq<u8> {
        match self {
            SystemCommonBorrowed::ActiveSensing(
                m
            ) => crate::system_common::active_sensing::spec_with_fields::<u8>(
                3,
                spec_read(m.0.units(), crate::common_properties::group()),
            ).subrange(0, 1),
            SystemCommonBorrowed::Continue(m) => crate::system_common::cont::spec_with_fields::<u8>(
                3,
                spec_read(m.0.units(), crate::common_properties::group()),
            ).subrange(0, 1),
            SystemCommonBorrowed::Reset(m) => crate::system_common::reset::spec_with_fields::<u8>(
                3,
                spec_read(m.0.units(), crate::common_properties::group()),
            ).subrange(0, 1),
            SystemCommonBorrowed::SongPositionPointer(
                m
            ) => crate::system_common::song_position_pointer::spec_with_fields::<u8>(
                3,
                spec_read(m.0.units(), crate::common_properties::group()),
                spec_read_u14(
                    m.0.units(),
                    crate::system_common::song_position_pointer::position_low(),
                    crate::system_common::song_position_pointer::position_high(),
                ),
            ).subrange(0, 3),
            SystemCommonBorrowed::SongSelect(
                m
            ) => crate::system_common::song_select::spec_with_fields::<u8>(
                3,
                spec_read(m.0.units(), crate::common_properties::group()),
                spec_read(m.0.units(), crate::system_common::song_select::song()),
            ).subrange(0, 2),
            SystemCommonBorrowed::Start(m) => crate::system_common::start::spec_with_fields::<u8>(
                3,
                spec_read(m.0.units(), crate::common_properties::group()),
            ).subrange(0, 1),
            SystemCommonBorrowed::Stop(m) => crate::system_common::stop::spec_with_fields::<u8>(
                3,
                spec_read(m.0.units(), crate::common_properties::group()),
            ).subrange(0, 1),
            SystemCommonBorrowed::TimeCode(
                m
            ) => crate::system_common::time_code::spec_with_fields::<u8>(
                3,
                spec_read(m.0.units(), crate::common_properties::group()),
                spec_read(m.0.units(), crate::system_common::time_code::time_code()),
            ).subrange(0, 2),
            SystemCommonBorrowed::TimingClock(
                m
            ) => crate::system_common::timing_clock::spec_with_fields::<u8>(
                3,
                spec_read(m.0.units(), crate::common_properties::group()),
            ).subrange(0, 1),
            SystemCommonBorrowed::TuneRequest(
                m
            ) => crate::system_common::tune_request::spec_with_fields::<u8>(
                3,
                spec_read(m.0.units(), crate::common_properties::group()),
            ).subrange(0, 1),
        }
    }

    /// Writes the byte stream form of the message over the front of
    /// `buffer` and hands the written bytes back. Fails with
    /// `BufferOverflow`, leaving the buffer as it was, exactly when the
    /// buffer is too short.
    pub fn try_write_byte_data<'b>(&self, buffer: &'b mut [u8]) -> (r: Result<&'b mut [u8], Error>)
        requires
            self.wf(),
        ensures
            old(buffer)@.len() < self.spec_bytes().len() ==> r is Err && r->Err_0
                == Error::BufferOverflow && final(buffer)@ == old(buffer)@,
            old(buffer)@.len() >= self.spec_bytes().len() ==> r is Ok && r->Ok_0@
                == self.spec_bytes() && final(buffer)@ == final(r->Ok_0)@ + old(buffer)@.subrange(
                self.spec_bytes().len() as int,
                old(buffer)@.len() as int,
            ),
    {
        let bytes: [u8; 3] = match self {
            SystemCommonBorrowed::ActiveSensing(m) => ActiveSensing::<[u8; 3]>::from_ump(
                ActiveSensing(Buffer::as_slice(&m.0))
            ).0,
            SystemCommonBorrowed::Continue(m) => Continue::<[u8; 3]>::from_ump(
                Continue(Buffer::as_slice(&m.0))
            ).0,
            SystemCommonBorrowed::Reset(m) => Reset::<[u8; 3]>::from_ump(
                Reset(Buffer::as_slice(&m.0))
            ).0,
            SystemCommonBorrowed::SongPositionPointer(
                m
            ) => SongPositionPointer::<[u8; 3]>::from_ump(
                SongPositionPointer(Buffer::as_slice(&m.0))
            ).0,
            SystemCommonBorrowed::SongSelect(m) => SongSelect::<[u8; 3]>::from_ump(
                SongSelect(Buffer::as_slice(&m.0))
            ).0,
            SystemCommonBorrowed::Start(m) => Start::<[u8; 3]>::from_ump(
                Start(Buffer::as_slice(&m.0))
            ).0,
            SystemCommonBorrowed::Stop(m) => Stop::<[u8; 3]>::from_ump(
                Stop(Buffer::as_slice(&m.0))
            ).0,
            SystemCommonBorrowed::TimeCode(m) => TimeCode::<[u8; 3]>::from_ump(
                TimeCode(Buffer::as_slice(&m.0))
            ).0,
            SystemCommonBorrowed::TimingClock(m) => TimingClock::<[u8; 3]>::from_ump(
                TimingClock(Buffer::as_slice(&m.0))
            ).0,
            SystemCommonBorrowed::TuneRequest(m) => TuneRequest::<[u8; 3]>::from_ump(
                TuneRequest(Buffer::as_slice(&m.0))
            ).0,
        };
        let size: usize = match self {
            SystemCommonBorrowed::ActiveSensing(_) => 1,
            SystemCommonBorrowed::Continue(_) => 1,
            SystemCommonBorrowed::Reset(_) => 1,
            SystemCommonBorrowed::SongPositionPointer(_) => 3,
            SystemCommonBorrowed::SongSelect(_) => 2,
            SystemCommonBorrowed::Start(_) => 1,
            SystemCommonBorrowed::Stop(_) => 1,
            SystemCommonBorrowed::TimeCode(_) => 2,
            SystemCommonBorrowed::TimingClock(_) => 1,
            SystemCommonBorrowed::TuneRequest(_) => 1,
        };
        write_front(buffer, vstd::slice::slice_subrange(bytes.as_slice(), 0, size))
    }
}

impl SystemCommonOwned {
    /// The byte stream form of the message: a fresh byte message of the
    /// same kind with every field set to the value the packet holds,
    /// cut to the bytes the kind occupies.
    pub open spec fn spec_bytes(&self) -> Seq<u8> {
        match self {
            SystemCommonOwned::ActiveSensing(
                m
            ) => crate::system_common::active_sensing::spec_with_fields::<u8>(
                3,
                spec_read(m.0.units(), crate::common_properties::group()),
            ).subrange(0, 1),
            SystemCommonOwned::Continue(m) => crate::system_common::cont::spec_with_fields::<u8>(
                3,
                spec_read(m.0.units(), crate::common_properties::group()),
            ).subrange(0, 1),
            SystemCommonOwned::Reset(m) => crate::system_common::reset::spec_with_fields::<u8>(
                3,
                spec_read(m.0.units(), crate::common_properties::group()),
            ).subrange(0, 1),
            SystemCommonOwned::SongPositionPointer(
                m
            ) => crate::system_common::song_position_pointer::spec_with_fields::<u8>(
                3,
                spec_read(m.0.units(), crate::common_properties::group()),
                spec_read_u14(
                    m.0.units(),
                    crate::system_common::song_position_pointer::position_low(),
                    crate::system_common::song_position_pointer::position_high(),
                ),
            ).subrange(0, 3),
            SystemCommonOwned::SongSelect(
                m
            ) => crate::system_common::song_select::spec_with_fields::<u8>(
                3,
                spec_read(m.0.units(), crate::common_properties::group()),
                spec_read(m.0.units(), crate::system_common::song_select::song()),
            ).subrange(0, 2),
            SystemCommonOwned::Start(m) => crate::system_common::start::spec_with_fields::<u8>(
                3,
                spec_read(m.0.units(), crate::common_properties::group()),
            ).subrange(0, 1),
            SystemCommonOwned::Stop(m) => crate::system_common::stop::spec_with_fields::<u8>(
                3,
                spec_read(m.0.units(), crate::common_properties::group()),
            ).subrange(0, 1),
            SystemCommonOwned::TimeCode(
                m
            ) => crate::system_common::time_code::spec_with_fields::<u8>(
                3,
                spec_read(m.0.units(), crate::common_properties::group()),
                spec_read(m.0.units(), crate::system_common::time_code::time_code()),
            ).subrange(0, 2),
            SystemCommonOwned::TimingClock(
                m
            ) => crate::system_common::timing_clock::spec_with_fields::<u8>(
                3,
                spec_read(m.0.units(), crate::common_properties::group()),
            ).subrange(0, 1),
            SystemCommonOwned::TuneRequest(
                m
            ) => crate::system_common::tune_request::spec_with_fields::<u8>(
                3,
                spec_read(m.0.units(), crate::common_properties::group()),
            ).subrange(0, 1),
        }
    }

    /// Writes the byte stream form of the message over the front of
    /// `buffer` and hands the written bytes back. Fails with
    /// `BufferOverflow`, leaving the buffer as it was, exactly when the
    /// buffer is too short.
    pub fn try_write_byte_data<'b>(&self, buffer: &'b mut [u8]) -> (r: Result<&'b mut [u8], Error>)
        requires
            self.wf(),
        ensures
            old(buffer)@.len() < self.spec_bytes().len() ==> r is Err && r->Err_0
                == Error::BufferOverflow && final(buffer)@ == old(buffer)@,
            old(buffer)@.len() >= self.spec_bytes().len() ==> r is Ok && r->Ok_0@
                == self.spec_bytes() && final(buffer)@ == final(r->Ok_0)@ + old(buffer)@.subrange(
                self.spec_bytes().len() as int,
                old(buffer)@.len() as int,
            ),
    {
        let bytes: [u8; 3] = match self {
            SystemCommonOwned::ActiveSensing(m) => ActiveSensing::<[u8; 3]>::from_ump(
                ActiveSensing(Buffer::as_slice(&m.0))
            ).0,
            SystemCommonOwned::Continue(m) => Continue::<[u8; 3]>::from_ump(
                Continue(Buffer::as_slice(&m.0))
            ).0,
            SystemCommonOwned::Reset(m) => Reset::<[u8; 3]>::from_ump(
                Reset(Buffer::as_slice(&m.0))
            ).0,
            SystemCommonOwned::SongPositionPointer(m) => SongPositionPointer::<[u8; 3]>::from_ump(
                SongPositionPointer(Buffer::as_slice(&m.0))
            ).0,
            SystemCommonOwned::SongSelect(m) => SongSelect::<[u8; 3]>::from_ump(
                SongSelect(Buffer::as_slice(&m.0))
            ).0,
            SystemCommonOwned::Start(m) => Start::<[u8; 3]>::from_ump(
                Start(Buffer::as_slice(&m.0))
            ).0,
            SystemCommonOwned::Stop(m) => Stop::<[u8; 3]>::from_ump(Stop(Buffer::as_slice(&m.0))).0,
            SystemCommonOwned::TimeCode(m) => TimeCode::<[u8; 3]>::from_ump(
                TimeCode(Buffer::as_slice(&m.0))
            ).0,
            SystemCommonOwned::TimingClock(m) => TimingClock::<[u8; 3]>::from_ump(
                TimingClock(Buffer::as_slice(&m.0))
            ).0,
            SystemCommonOwned::TuneRequest(m) => TuneRequest::<[u8; 3]>::from_ump(
                TuneRequest(Buffer::as_slice(&m.0))
            ).0,
        };
        let size: usize = match self {
            SystemCommonOwned::ActiveSensing(_) => 1,
            SystemCommonOwned::Continue(_) => 1,
            SystemCommonOwned::Reset(_) => 1,
            SystemCommonOwned::SongPositionPointer(_) => 3,
            SystemCommonOwned::SongSelect(_) => 2,
            SystemCommonOwned::Start(_) => 1,
            SystemCommonOwned::Stop(_) => 1,
            SystemCommonOwned::TimeCode(_) => 2,
            SystemCommonOwned::TimingClock(_) => 1,
            SystemCommonOwned::TuneRequest(_) => 1,
        };
        write_front(buffer, vstd::slice::slice_subrange(bytes.as_slice(), 0, size))
    }
}

} // verus!
