//! The ownership-qualified forms of the pitch bend message, and its builder.

use vstd::prelude::*;
use vstd::std_specs::convert::{FromSpec, FromSpecImpl};
use crate::buffer::{Buffer, MessageData};
use crate::channel_voice1::pitch_bend::{bend_high, bend_low, spec_new, spec_validate, PitchBend};
use crate::common_properties::{channel, group};
use crate::error::Error;
use crate::numeric_types::{U14, U4};
use crate::property::{rebuffered, spec_write_u14};
use crate::schema::spec_write;

verus! {

/// The message as a view of borrowed words.
pub type PitchBendBorrowed<'a> = PitchBend<&'a [u32]>;

/// The message as the owner of a packet of its own.
pub type PitchBendOwned = PitchBend<[u32; 4]>;

/// The message, borrowed or owned.
pub type PitchBendMessage<'a> = PitchBend<MessageData<'a>>;

impl<'a> From<PitchBend<&'a [u32]>> for PitchBend<MessageData<'a>> {
    fn from(value: PitchBend<&'a [u32]>) -> (r: Self) {
        PitchBend(MessageData::Borrowed(value.0))
    }
}

impl<'a> FromSpecImpl<PitchBend<&'a [u32]>> for PitchBend<MessageData<'a>> {
    open spec fn obeys_from_spec() -> bool {
        true
    }

    open spec fn from_spec(value: PitchBend<&'a [u32]>) -> Self {
        PitchBend(MessageData::Borrowed(value.0))
    }
}

impl<'a> From<PitchBend<[u32; 4]>> for PitchBend<MessageData<'a>> {
    fn from(value: PitchBend<[u32; 4]>) -> (r: Self) {
        PitchBend(MessageData::Owned(value.0))
    }
}

impl<'a> FromSpecImpl<PitchBend<[u32; 4]>> for PitchBend<MessageData<'a>> {
    open spec fn obeys_from_spec() -> bool {
        true
    }

    open spec fn from_spec(value: PitchBend<[u32; 4]>) -> Self {
        PitchBend(MessageData::Owned(value.0))
    }
}

impl<'a> PitchBend<&'a [u32]> {
    /// Parses a slice: the message over it if it validates, else the first
    /// rule that fails.
    pub fn from_data(buffer: &'a [u32]) -> (r: Result<Self, Error>)
        ensures
            match spec_validate::<u32>(buffer@) {
                Ok(()) => r == Ok::<Self, Error>(PitchBend(buffer)),
                Err(e) => r == Err::<Self, Error>(e),
            },
    {
        PitchBend::try_from(buffer)
    }

    /// The message in a packet of its own: the words it occupies, then
    /// zeros.
    pub fn into_owned(self) -> (owned: PitchBend<[u32; 4]>)
        requires
            self.wf(),
        ensures
            owned.wf(),
            owned.0@ == rebuffered::<[u32; 4]>(
                self.0.units().subrange(0, 1),
            ),
    {
        self.rebuffer_into::<[u32; 4]>()
    }
}

impl<'a> PitchBend<MessageData<'a>> {
    /// Starts a message that will own its packet.
    pub fn builder() -> (builder: PitchBendBuilder<Self>)
        ensures
            builder.wf(),
            builder.state() == Ok::<Seq<u32>, Error>(spec_new::<u32>(4)),
    {
        PitchBendBuilder::new()
    }

    /// Parses a slice: the message over it if it validates, else the first
    /// rule that fails.
    pub fn from_data(buffer: &'a [u32]) -> (r: Result<Self, Error>)
        ensures
            match spec_validate::<u32>(buffer@) {
                Ok(()) => r == Ok::<Self, Error>(PitchBend(MessageData::Borrowed(buffer))),
                Err(e) => r == Err::<Self, Error>(e),
            },
    {
        PitchBend::try_from(MessageData::Borrowed(buffer))
    }
}

/// A message under construction in a packet of its own, or the error that
/// stopped its construction. Once an error is held every setter leaves
/// the builder as it is, and `build` reports that error. `M` is the type
/// the finished message is handed out as.
pub struct PitchBendBuilder<M: From<PitchBend<[u32; 4]>>>(
    pub Result<PitchBend<[u32; 4]>, Error>,
    pub core::marker::PhantomData<M>,
);

impl<M: From<PitchBend<[u32; 4]>>> PitchBendBuilder<M> {
    /// The words written so far, or the error held.
    pub open spec fn state(&self) -> Result<Seq<u32>, Error> {
        match self.0 {
            Ok(message) => Ok(message.0@),
            Err(e) => Err(e),
        }
    }

    /// Whatever is under construction is a valid message.
    pub open spec fn wf(&self) -> bool {
        self.0 is Ok ==> self.0->Ok_0.wf()
    }

    /// A builder that holds a fresh message.
    pub fn new() -> (builder: Self)
        ensures
            builder.wf(),
            builder.state() == Ok::<Seq<u32>, Error>(spec_new::<u32>(4)),
    {
        proof {
            assert(rebuffered::<[u32; 4]>(crate::buffer::zeros::<u32>(1)).len() == 4);
        }
        PitchBendBuilder(PitchBend::<[u32; 4]>::try_new(), core::marker::PhantomData)
    }

    pub fn group(&mut self, value: U4) -> (ret: &mut Self)
        requires
            old(self).wf(),
        ensures
            ret.wf(),
            match old(self).state() {
                Ok(units) => ret.state() == Ok::<Seq<u32>, Error>(
                    spec_write(units, group(), value@),
                ),
                Err(e) => ret.state() == Err::<Seq<u32>, Error>(e),
            },
            *final(self) == *final(ret),
    {
        match &mut self.0 {
            Ok(message) => {
                message.set_group(value);
            },
            Err(_) => {},
        }
        self
    }

    pub fn channel(&mut self, value: U4) -> (ret: &mut Self)
        requires
            old(self).wf(),
        ensures
            ret.wf(),
            match old(self).state() {
                Ok(units) => ret.state() == Ok::<Seq<u32>, Error>(
                    spec_write(units, channel(), value@),
                ),
                Err(e) => ret.state() == Err::<Seq<u32>, Error>(e),
            },
            *final(self) == *final(ret),
    {
        match &mut self.0 {
            Ok(message) => {
                message.set_channel(value);
            },
            Err(_) => {},
        }
        self
    }

    pub fn bend(&mut self, value: U14) -> (ret: &mut Self)
        requires
            old(self).wf(),
        ensures
            ret.wf(),
            match old(self).state() {
                Ok(units) => ret.state() == Ok::<Seq<u32>, Error>(
                    spec_write_u14(units, bend_low(), bend_high(), value@),
                ),
                Err(e) => ret.state() == Err::<Seq<u32>, Error>(e),
            },
            *final(self) == *final(ret),
    {
        match &mut self.0 {
            Ok(message) => {
                message.set_bend(value);
            },
            Err(_) => {},
        }
        self
    }

    /// The finished message, or the error that stopped its construction.
    pub fn build(&self) -> (r: Result<M, Error>)
        requires
            self.wf(),
        ensures
            match self.0 {
                Ok(message) => r is Ok && (M::obeys_from_spec() ==> r->Ok_0 == M::from_spec(
                    message,
                )),
                Err(e) => r == Err::<M, Error>(e),
            },
    {
        match &self.0 {
            Ok(message) => Ok(M::from(PitchBend(message.0))),
            Err(e) => Err(*e),
        }
    }
}

impl<M: From<PitchBend<[u32; 4]>>> Default for PitchBendBuilder<M> {
    fn default() -> (builder: Self)
        ensures
            builder.wf(),
            builder.state() == Ok::<Seq<u32>, Error>(spec_new::<u32>(4)),
    {
        PitchBendBuilder::new()
    }
}

} // verus!
