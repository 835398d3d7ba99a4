//! The ownership-qualified forms of the end of clip message, and its builder.

use vstd::prelude::*;
use vstd::std_specs::convert::{FromSpec, FromSpecImpl};
use crate::buffer::{Buffer, MessageData};
use crate::error::Error;
use crate::property::rebuffered;
use crate::ump_stream::end_of_clip::{spec_new, spec_validate, EndOfClip};

verus! {

/// The message as a view of borrowed words.
pub type EndOfClipBorrowed<'a> = EndOfClip<&'a [u32]>;

/// The message as the owner of a packet of its own.
pub type EndOfClipOwned = EndOfClip<[u32; 4]>;

/// The message, borrowed or owned.
pub type EndOfClipMessage<'a> = EndOfClip<MessageData<'a>>;

impl<'a> From<EndOfClip<&'a [u32]>> for EndOfClip<MessageData<'a>> {
    fn from(value: EndOfClip<&'a [u32]>) -> (r: Self) {
        EndOfClip(MessageData::Borrowed(value.0))
    }
}

impl<'a> FromSpecImpl<EndOfClip<&'a [u32]>> for EndOfClip<MessageData<'a>> {
    open spec fn obeys_from_spec() -> bool {
        true
    }

    open spec fn from_spec(value: EndOfClip<&'a [u32]>) -> Self {
        EndOfClip(MessageData::Borrowed(value.0))
    }
}

impl<'a> From<EndOfClip<[u32; 4]>> for EndOfClip<MessageData<'a>> {
    fn from(value: EndOfClip<[u32; 4]>) -> (r: Self) {
        EndOfClip(MessageData::Owned(value.0))
    }
}

impl<'a> FromSpecImpl<EndOfClip<[u32; 4]>> for EndOfClip<MessageData<'a>> {
    open spec fn obeys_from_spec() -> bool {
        true
    }

    open spec fn from_spec(value: EndOfClip<[u32; 4]>) -> Self {
        EndOfClip(MessageData::Owned(value.0))
    }
}

impl<'a> EndOfClip<&'a [u32]> {
    /// Parses a slice: the message over it if it validates, else the first
    /// rule that fails.
    pub fn from_data(buffer: &'a [u32]) -> (r: Result<Self, Error>)
        ensures
            match spec_validate::<u32>(buffer@) {
                Ok(()) => r == Ok::<Self, Error>(EndOfClip(buffer)),
                Err(e) => r == Err::<Self, Error>(e),
            },
    {
        EndOfClip::try_from(buffer)
    }

    /// The message in a packet of its own: the words it occupies, then
    /// zeros.
    pub fn into_owned(self) -> (owned: EndOfClip<[u32; 4]>)
        requires
            self.wf(),
        ensures
            owned.wf(),
            owned.0@ == rebuffered::<[u32; 4]>(
                self.0.units().subrange(0, 1),
            ),
    {
        self.rebuffer_into::<[u32; 4]>()
    }
}

impl<'a> EndOfClip<MessageData<'a>> {
    /// Starts a message that will own its packet.
    pub fn builder() -> (builder: EndOfClipBuilder<Self>)
        ensures
            builder.wf(),
            builder.state() == Ok::<Seq<u32>, Error>(spec_new::<u32>(4)),
    {
        EndOfClipBuilder::new()
    }

    /// Parses a slice: the message over it if it validates, else the first
    /// rule that fails.
    pub fn from_data(buffer: &'a [u32]) -> (r: Result<Self, Error>)
        ensures
            match spec_validate::<u32>(buffer@) {
                Ok(()) => r == Ok::<Self, Error>(EndOfClip(MessageData::Borrowed(buffer))),
                Err(e) => r == Err::<Self, Error>(e),
            },
    {
        EndOfClip::try_from(MessageData::Borrowed(buffer))
    }
}

/// A message under construction in a packet of its own, or the error that
/// stopped its construction. Once an error is held every setter leaves
/// the builder as it is, and `build` reports that error. `M` is the type
/// the finished message is handed out as.
pub struct EndOfClipBuilder<M: From<EndOfClip<[u32; 4]>>>(
    pub Result<EndOfClip<[u32; 4]>, Error>,
    pub core::marker::PhantomData<M>,
);

impl<M: From<EndOfClip<[u32; 4]>>> EndOfClipBuilder<M> {
    /// The words written so far, or the error held.
    pub open spec fn state(&self) -> Result<Seq<u32>, Error> {
        match self.0 {
            Ok(message) => Ok(message.0@),
            Err(e) => Err(e),
        }
    }

    /// Whatever is under construction is a valid message.
    pub open spec fn wf(&self) -> bool {
        self.0 is Ok ==> self.0->Ok_0.wf()
    }

    /// A builder that holds a fresh message.
    pub fn new() -> (builder: Self)
        ensures
            builder.wf(),
            builder.state() == Ok::<Seq<u32>, Error>(spec_new::<u32>(4)),
    {
        proof {
            assert(rebuffered::<[u32; 4]>(crate::buffer::zeros::<u32>(1)).len() == 4);
        }
        EndOfClipBuilder(EndOfClip::<[u32; 4]>::try_new(), core::marker::PhantomData)
    }

    /// The finished message, or the error that stopped its construction.
    pub fn build(&self) -> (r: Result<M, Error>)
        requires
            self.wf(),
        ensures
            match self.0 {
                Ok(message) => r is Ok && (M::obeys_from_spec() ==> r->Ok_0 == M::from_spec(
                    message,
                )),
                Err(e) => r == Err::<M, Error>(e),
            },
    {
        match &self.0 {
            Ok(message) => Ok(M::from(EndOfClip(message.0))),
            Err(e) => Err(*e),
        }
    }
}

impl<M: From<EndOfClip<[u32; 4]>>> Default for EndOfClipBuilder<M> {
    fn default() -> (builder: Self)
        ensures
            builder.wf(),
            builder.state() == Ok::<Seq<u32>, Error>(spec_new::<u32>(4)),
    {
        EndOfClipBuilder::new()
    }
}

} // verus!
