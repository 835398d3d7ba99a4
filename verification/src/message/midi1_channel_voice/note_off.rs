//! The ownership-qualified forms of the note off message, and its builder.

use vstd::prelude::*;
use vstd::std_specs::convert::{FromSpec, FromSpecImpl};
use crate::buffer::{Buffer, MessageData};
use crate::channel_voice1::note_off::{note, spec_new, spec_validate, velocity, NoteOff};
use crate::common_properties::{channel, group};
use crate::error::Error;
use crate::numeric_types::{U4, U7};
use crate::property::rebuffered;
use crate::schema::spec_write;

verus! {

/// The message as a view of borrowed words.
pub type NoteOffBorrowed<'a> = NoteOff<&'a [u32]>;

/// The message as the owner of a packet of its own.
pub type NoteOffOwned = NoteOff<[u32; 4]>;

/// The message, borrowed or owned.
pub type NoteOffMessage<'a> = NoteOff<MessageData<'a>>;

impl<'a> From<NoteOff<&'a [u32]>> for NoteOff<MessageData<'a>> {
    fn from(value: NoteOff<&'a [u32]>) -> (r: Self) {
        NoteOff(MessageData::Borrowed(value.0))
    }
}

impl<'a> FromSpecImpl<NoteOff<&'a [u32]>> for NoteOff<MessageData<'a>> {
    open spec fn obeys_from_spec() -> bool {
        true
    }

    open spec fn from_spec(value: NoteOff<&'a [u32]>) -> Self {
        NoteOff(MessageData::Borrowed(value.0))
    }
}

impl<'a> From<NoteOff<[u32; 4]>> for NoteOff<MessageData<'a>> {
    fn from(value: NoteOff<[u32; 4]>) -> (r: Self) {
        NoteOff(MessageData::Owned(value.0))
    }
}

impl<'a> FromSpecImpl<NoteOff<[u32; 4]>> for NoteOff<MessageData<'a>> {
    open spec fn obeys_from_spec() -> bool {
        true
    }

    open spec fn from_spec(value: NoteOff<[u32; 4]>) -> Self {
        NoteOff(MessageData::Owned(value.0))
    }
}

impl<'a> NoteOff<&'a [u32]> {
    /// Parses a slice: the message over it if it validates, else the first
    /// rule that fails.
    pub fn from_data(buffer: &'a [u32]) -> (r: Result<Self, Error>)
        ensures
            match spec_validate::<u32>(buffer@) {
                Ok(()) => r == Ok::<Self, Error>(NoteOff(buffer)),
                Err(e) => r == Err::<Self, Error>(e),
            },
    {
        NoteOff::try_from(buffer)
    }

    /// The message in a packet of its own: the words it occupies, then
    /// zeros.
    pub fn into_owned(self) -> (owned: NoteOff<[u32; 4]>)
        requires
            self.wf(),
        ensures
            owned.wf(),
            owned.0@ == rebuffered::<[u32; 4]>(
                self.0.units().subrange(0, 1),
            ),
    {
        self.rebuffer_into::<[u32; 4]>()
    }
}

impl<'a> NoteOff<MessageData<'a>> {
    /// Starts a message that will own its packet.
    pub fn builder() -> (builder: NoteOffBuilder<Self>)
        ensures
            builder.wf(),
            builder.state() == Ok::<Seq<u32>, Error>(spec_new::<u32>(4)),
    {
        NoteOffBuilder::new()
    }

    /// Parses a slice: the message over it if it validates, else the first
    /// rule that fails.
    pub fn from_data(buffer: &'a [u32]) -> (r: Result<Self, Error>)
        ensures
            match spec_validate::<u32>(buffer@) {
                Ok(()) => r == Ok::<Self, Error>(NoteOff(MessageData::Borrowed(buffer))),
                Err(e) => r == Err::<Self, Error>(e),
            },
    {
        NoteOff::try_from(MessageData::Borrowed(buffer))
    }
}

/// A message under construction in a packet of its own, or the error that
/// stopped its construction. Once an error is held every setter leaves
/// the builder as it is, and `build` reports that error. `M` is the type
/// the finished message is handed out as.
pub struct NoteOffBuilder<M: From<NoteOff<[u32; 4]>>>(
    pub Result<NoteOff<[u32; 4]>, Error>,
    pub core::marker::PhantomData<M>,
);

impl<M: From<NoteOff<[u32; 4]>>> NoteOffBuilder<M> {
    /// The words written so far, or the error held.
    pub open spec fn state(&self) -> Result<Seq<u32>, Error> {
        match self.0 {
            Ok(message) => Ok(message.0@),
            Err(e) => Err(e),
        }
    }

    /// Whatever is under construction is a valid message.
    pub open spec fn wf(&self) -> bool {
        self.0 is Ok ==> self.0->Ok_0.wf()
    }

    /// A builder that holds a fresh message.
    pub fn new() -> (builder: Self)
        ensures
            builder.wf(),
            builder.state() == Ok::<Seq<u32>, Error>(spec_new::<u32>(4)),
    {
        proof {
            assert(rebuffered::<[u32; 4]>(crate::buffer::zeros::<u32>(1)).len() == 4);
        }
        NoteOffBuilder(NoteOff::<[u32; 4]>::try_new(), core::marker::PhantomData)
    }

    pub fn group(&mut self, value: U4) -> (ret: &mut Self)
        requires
            old(self).wf(),
        ensures
            ret.wf(),
            match old(self).state() {
                Ok(units) => ret.state() == Ok::<Seq<u32>, Error>(
                    spec_write(units, group(), value@),
                ),
                Err(e) => ret.state() == Err::<Seq<u32>, Error>(e),
            },
            *final(self) == *final(ret),
    {
        match &mut self.0 {
            Ok(message) => {
                message.set_group(value);
            },
            Err(_) => {},
        }
        self
    }

    pub fn channel(&mut self, value: U4) -> (ret: &mut Self)
        requires
            old(self).wf(),
        ensures
            ret.wf(),
            match old(self).state() {
                Ok(units) => ret.state() == Ok::<Seq<u32>, Error>(
                    spec_write(units, channel(), value@),
                ),
                Err(e) => ret.state() == Err::<Seq<u32>, Error>(e),
            },
            *final(self) == *final(ret),
    {
        match &mut self.0 {
            Ok(message) => {
                message.set_channel(value);
            },
            Err(_) => {},
        }
        self
    }

    pub fn note(&mut self, value: U7) -> (ret: &mut Self)
        requires
            old(self).wf(),
        ensures
            ret.wf(),
            match old(self).state() {
                Ok(units) => ret.state() == Ok::<Seq<u32>, Error>(
                    spec_write(units, note(), value@),
                ),
                Err(e) => ret.state() == Err::<Seq<u32>, Error>(e),
            },
            *final(self) == *final(ret),
    {
        match &mut self.0 {
            Ok(message) => {
                message.set_note(value);
            },
            Err(_) => {},
        }
        self
    }

    pub fn velocity(&mut self, value: U7) -> (ret: &mut Self)
        requires
            old(self).wf(),
        ensures
            ret.wf(),
            match old(self).state() {
                Ok(units) => ret.state() == Ok::<Seq<u32>, Error>(
                    spec_write(units, velocity(), value@),
                ),
                Err(e) => ret.state() == Err::<Seq<u32>, Error>(e),
            },
            *final(self) == *final(ret),
    {
        match &mut self.0 {
            Ok(message) => {
                message.set_velocity(value);
            },
            Err(_) => {},
        }
        self
    }

    /// The finished message, or the error that stopped its construction.
    pub fn build(&self) -> (r: Result<M, Error>)
        requires
            self.wf(),
        ensures
            match self.0 {
                Ok(message) => r is Ok && (M::obeys_from_spec() ==> r->Ok_0 == M::from_spec(
                    message,
                )),
                Err(e) => r == Err::<M, Error>(e),
            },
    {
        match &self.0 {
            Ok(message) => Ok(M::from(NoteOff(message.0))),
            Err(e) => Err(*e),
        }
    }
}

impl<M: From<NoteOff<[u32; 4]>>> Default for NoteOffBuilder<M> {
    fn default() -> (builder: Self)
        ensures
            builder.wf(),
            builder.state() == Ok::<Seq<u32>, Error>(spec_new::<u32>(4)),
    {
        NoteOffBuilder::new()
    }
}

} // verus!
