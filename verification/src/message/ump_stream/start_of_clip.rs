//! The ownership-qualified forms of the start of clip message, and its builder.

use vstd::prelude::*;
use vstd::std_specs::convert::{FromSpec, FromSpecImpl};
use crate::buffer::{Buffer, MessageData};
use crate::error::Error;
use crate::property::rebuffered;
use crate::ump_stream::start_of_clip::{spec_new, spec_validate, StartOfClip};

verus! {

/// The message as a view of borrowed words.
pub type StartOfClipBorrowed<'a> = StartOfClip<&'a [u32]>;

/// The message as the owner of a packet of its own.
pub type StartOfClipOwned = StartOfClip<[u32; 4]>;

/// The message, borrowed or owned.
pub type StartOfClipMessage<'a> = StartOfClip<MessageData<'a>>;

impl<'a> From<StartOfClip<&'a [u32]>> for StartOfClip<MessageData<'a>> {
    fn from(value: StartOfClip<&'a [u32]>) -> (r: Self) {
        StartOfClip(MessageData::Borrowed(value.0))
    }
}

impl<'a> FromSpecImpl<StartOfClip<&'a [u32]>> for StartOfClip<MessageData<'a>> {
    open spec fn obeys_from_spec() -> bool {
        true
    }

    open spec fn from_spec(value: StartOfClip<&'a [u32]>) -> Self {
        StartOfClip(MessageData::Borrowed(value.0))
    }
}

impl<'a> From<StartOfClip<[u32; 4]>> for StartOfClip<MessageData<'a>> {
    fn from(value: StartOfClip<[u32; 4]>) -> (r: Self) {
        StartOfClip(MessageData::Owned(value.0))
    }
}

impl<'a> FromSpecImpl<StartOfClip<[u32; 4]>> for StartOfClip<MessageData<'a>> {
    open spec fn obeys_from_spec() -> bool {
        true
    }

    open spec fn from_spec(value: StartOfClip<[u32; 4]>) -> Self {
        StartOfClip(MessageData::Owned(value.0))
    }
}

impl<'a> StartOfClip<&'a [u32]> {
    /// Parses a slice: the message over it if it validates, else the first
    /// rule that fails.
    pub fn from_data(buffer: &'a [u32]) -> (r: Result<Self, Error>)
        ensures
            match spec_validate::<u32>(buffer@) {
                Ok(()) => r == Ok::<Self, Error>(StartOfClip(buffer)),
                Err(e) => r == Err::<Self, Error>(e),
            },
    {
        StartOfClip::try_from(buffer)
    }

    /// The message in a packet of its own: the words it occupies, then
    /// zeros.
    pub fn into_owned(self) -> (owned: StartOfClip<[u32; 4]>)
        requires
            self.wf(),
        ensures
            owned.wf(),
            owned.0@ == rebuffered::<[u32; 4]>(
                self.0.units().subrange(0, 1),
            ),
    {
        self.rebuffer_into::<[u32; 4]>()
    }
}

impl<'a> StartOfClip<MessageData<'a>> {
    /// Starts a message that will own its packet.
    pub fn builder() -> (builder: StartOfClipBuilder<Self>)
        ensures
            builder.wf(),
            builder.state() == Ok::<Seq<u32>, Error>(spec_new::<u32>(4)),
    {
        StartOfClipBuilder::new()
    }

    /// Parses a slice: the message over it if it validates, else the first
    /// rule that fails.
    pub fn from_data(buffer: &'a [u32]) -> (r: Result<Self, Error>)
        ensures
            match spec_validate::<u32>(buffer@) {
                Ok(()) => r == Ok::<Self, Error>(StartOfClip(MessageData::Borrowed(buffer))),
                Err(e) => r == Err::<Self, Error>(e),
            },
    {
        StartOfClip::try_from(MessageData::Borrowed(buffer))
    }
}

/// A message under construction in a packet of its own, or the error that
/// stopped its construction. Once an error is held every setter leaves
/// the builder as it is, and `build` reports that error. `M` is the type
/// the finished message is handed out as.
pub struct StartOfClipBuilder<M: From<StartOfClip<[u32; 4]>>>(
    pub Result<StartOfClip<[u32; 4]>, Error>,
    pub core::marker::PhantomData<M>,
);

impl<M: From<StartOfClip<[u32; 4]>>> StartOfClipBuilder<M> {
    /// The words written so far, or the error held.
    pub open spec fn state(&self) -> Result<Seq<u32>, Error> {
        match self.0 {
            Ok(message) => Ok(message.0@),
            Err(e) => Err(e),
        }
    }

    /// Whatever is under construction is a valid message.
    pub open spec fn wf(&self) -> bool {
        self.0 is Ok ==> self.0->Ok_0.wf()
    }

    /// A builder that holds a fresh message.
    pub fn new() -> (builder: Self)
        ensures
            builder.wf(),
            builder.state() == Ok::<Seq<u32>, Error>(spec_new::<u32>(4)),
    {
        proof {
            assert(rebuffered::<[u32; 4]>(crate::buffer::zeros::<u32>(1)).len() == 4);
        }
        StartOfClipBuilder(StartOfClip::<[u32; 4]>::try_new(), core::marker::PhantomData)
    }

    /// The finished message, or the error that stopped its construction.
    pub fn build(&self) -> (r: Result<M, Error>)
        requires
            self.wf(),
        ensures
            match self.0 {
                Ok(message) => r is Ok && (M::obeys_from_spec() ==> r->Ok_0 == M::from_spec(
                    message,
                )),
                Err(e) => r == Err::<M, Error>(e),
            },
    {
        match &self.0 {
            Ok(message) => Ok(M::from(StartOfClip(message.0))),
            Err(e) => Err(*e),
        }
    }
}

impl<M: From<StartOfClip<[u32; 4]>>> Default for StartOfClipBuilder<M> {
    fn default() -> (builder: Self)
        ensures
            builder.wf(),
            builder.state() == Ok::<Seq<u32>, Error>(spec_new::<u32>(4)),
    {
        StartOfClipBuilder::new()
    }
}

} // verus!
