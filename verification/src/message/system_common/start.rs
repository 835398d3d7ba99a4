//! The ownership-qualified forms of the start message, and its builder.

use vstd::prelude::*;
use vstd::std_specs::convert::{FromSpec, FromSpecImpl};
use crate::buffer::{Buffer, MessageData};
use crate::common_properties::group;
use crate::error::Error;
use crate::numeric_types::U4;
use crate::property::rebuffered;
use crate::schema::spec_write;
use crate::system_common::start::{spec_new, spec_validate, Start};

verus! {

/// The message as a view of borrowed words.
pub type StartBorrowed<'a> = Start<&'a [u32]>;

/// The message as the owner of a packet of its own.
pub type StartOwned = Start<[u32; 4]>;

/// The message, borrowed or owned.
pub type StartMessage<'a> = Start<MessageData<'a>>;

impl<'a> From<Start<&'a [u32]>> for Start<MessageData<'a>> {
    fn from(value: Start<&'a [u32]>) -> (r: Self) {
        Start(MessageData::Borrowed(value.0))
    }
}

impl<'a> FromSpecImpl<Start<&'a [u32]>> for Start<MessageData<'a>> {
    open spec fn obeys_from_spec() -> bool {
        true
    }

    open spec fn from_spec(value: Start<&'a [u32]>) -> Self {
        Start(MessageData::Borrowed(value.0))
    }
}

impl<'a> From<Start<[u32; 4]>> for Start<MessageData<'a>> {
    fn from(value: Start<[u32; 4]>) -> (r: Self) {
        Start(MessageData::Owned(value.0))
    }
}

impl<'a> FromSpecImpl<Start<[u32; 4]>> for Start<MessageData<'a>> {
    open spec fn obeys_from_spec() -> bool {
        true
    }

    open spec fn from_spec(value: Start<[u32; 4]>) -> Self {
        Start(MessageData::Owned(value.0))
    }
}

impl<'a> Start<&'a [u32]> {
    /// Parses a slice: the message over it if it validates, else the first
    /// rule that fails.
    pub fn from_data(buffer: &'a [u32]) -> (r: Result<Self, Error>)
        ensures
            match spec_validate::<u32>(buffer@) {
                Ok(()) => r == Ok::<Self, Error>(Start(buffer)),
                Err(e) => r == Err::<Self, Error>(e),
            },
    {
        Start::try_from(buffer)
    }

    /// The message in a packet of its own: the words it occupies, then
    /// zeros.
    pub fn into_owned(self) -> (owned: Start<[u32; 4]>)
        requires
            self.wf(),
        ensures
            owned.wf(),
            owned.0@ == rebuffered::<[u32; 4]>(
                self.0.units().subrange(0, 1),
            ),
    {
        self.rebuffer_into::<[u32; 4]>()
    }
}

impl<'a> Start<MessageData<'a>> {
    /// Starts a message that will own its packet.
    pub fn builder() -> (builder: StartBuilder<Self>)
        ensures
            builder.wf(),
            builder.state() == Ok::<Seq<u32>, Error>(spec_new::<u32>(4)),
    {
        StartBuilder::new()
    }

    /// Parses a slice: the message over it if it validates, else the first
    /// rule that fails.
    pub fn from_data(buffer: &'a [u32]) -> (r: Result<Self, Error>)
        ensures
            match spec_validate::<u32>(buffer@) {
                Ok(()) => r == Ok::<Self, Error>(Start(MessageData::Borrowed(buffer))),
                Err(e) => r == Err::<Self, Error>(e),
            },
    {
        Start::try_from(MessageData::Borrowed(buffer))
    }
}

/// A message under construction in a packet of its own, or the error that
/// stopped its construction. Once an error is held every setter leaves
/// the builder as it is, and `build` reports that error. `M` is the type
/// the finished message is handed out as.
pub struct StartBuilder<M: From<Start<[u32; 4]>>>(
    pub Result<Start<[u32; 4]>, Error>,
    pub core::marker::PhantomData<M>,
);

impl<M: From<Start<[u32; 4]>>> StartBuilder<M> {
    /// The words written so far, or the error held.
    pub open spec fn state(&self) -> Result<Seq<u32>, Error> {
        match self.0 {
            Ok(message) => Ok(message.0@),
            Err(e) => Err(e),
        }
    }

    /// Whatever is under construction is a valid message.
    pub open spec fn wf(&self) -> bool {
        self.0 is Ok ==> self.0->Ok_0.wf()
    }

    /// A builder that holds a fresh message.
    pub fn new() -> (builder: Self)
        ensures
            builder.wf(),
            builder.state() == Ok::<Seq<u32>, Error>(spec_new::<u32>(4)),
    {
        proof {
            assert(rebuffered::<[u32; 4]>(crate::buffer::zeros::<u32>(1)).len() == 4);
        }
        StartBuilder(Start::<[u32; 4]>::try_new(), core::marker::PhantomData)
    }

    pub fn group(&mut self, value: U4) -> (ret: &mut Self)
        requires
            old(self).wf(),
        ensures
            ret.wf(),
            match old(self).state() {
                Ok(units) => ret.state() == Ok::<Seq<u32>, Error>(
                    spec_write(units, group(), value@),
                ),
                Err(e) => ret.state() == Err::<Seq<u32>, Error>(e),
            },
            *final(self) == *final(ret),
    {
        match &mut self.0 {
            Ok(message) => {
                message.set_group(value);
            },
            Err(_) => {},
        }
        self
    }

    /// The finished message, or the error that stopped its construction.
    pub fn build(&self) -> (r: Result<M, Error>)
        requires
            self.wf(),
        ensures
            match self.0 {
                Ok(message) => r is Ok && (M::obeys_from_spec() ==> r->Ok_0 == M::from_spec(
                    message,
                )),
                Err(e) => r == Err::<M, Error>(e),
            },
    {
        match &self.0 {
            Ok(message) => Ok(M::from(Start(message.0))),
            Err(e) => Err(*e),
        }
    }
}

impl<M: From<Start<[u32; 4]>>> Default for StartBuilder<M> {
    fn default() -> (builder: Self)
        ensures
            builder.wf(),
            builder.state() == Ok::<Seq<u32>, Error>(spec_new::<u32>(4)),
    {
        StartBuilder::new()
    }
}

} // verus!
