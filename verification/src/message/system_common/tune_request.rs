//! The ownership-qualified forms of the tune request message, and its builder.

use vstd::prelude::*;
use vstd::std_specs::convert::{FromSpec, FromSpecImpl};
use crate::buffer::{Buffer, MessageData};
use crate::common_properties::group;
use crate::error::Error;
use crate::numeric_types::U4;
use crate::property::rebuffered;
use crate::schema::spec_write;
use crate::system_common::tune_request::{spec_new, spec_validate, TuneRequest};

verus! {

/// The message as a view of borrowed words.
pub type TuneRequestBorrowed<'a> = TuneRequest<&'a [u32]>;

/// The message as the owner of a packet of its own.
pub type TuneRequestOwned = TuneRequest<[u32; 4]>;

/// The message, borrowed or owned.
pub type TuneRequestMessage<'a> = TuneRequest<MessageData<'a>>;

impl<'a> From<TuneRequest<&'a [u32]>> for TuneRequest<MessageData<'a>> {
    fn from(value: TuneRequest<&'a [u32]>) -> (r: Self) {
        TuneRequest(MessageData::Borrowed(value.0))
    }
}

impl<'a> FromSpecImpl<TuneRequest<&'a [u32]>> for TuneRequest<MessageData<'a>> {
    open spec fn obeys_from_spec() -> bool {
        true
    }

    open spec fn from_spec(value: TuneRequest<&'a [u32]>) -> Self {
        TuneRequest(MessageData::Borrowed(value.0))
    }
}

impl<'a> From<TuneRequest<[u32; 4]>> for TuneRequest<MessageData<'a>> {
    fn from(value: TuneRequest<[u32; 4]>) -> (r: Self) {
        TuneRequest(MessageData::Owned(value.0))
    }
}

impl<'a> FromSpecImpl<TuneRequest<[u32; 4]>> for TuneRequest<MessageData<'a>> {
    open spec fn obeys_from_spec() -> bool {
        true
    }

    open spec fn from_spec(value: TuneRequest<[u32; 4]>) -> Self {
        TuneRequest(MessageData::Owned(value.0))
    }
}

impl<'a> TuneRequest<&'a [u32]> {
    /// Parses a slice: the message over it if it validates, else the first
    /// rule that fails.
    pub fn from_data(buffer: &'a [u32]) -> (r: Result<Self, Error>)
        ensures
            match spec_validate::<u32>(buffer@) {
                Ok(()) => r == Ok::<Self, Error>(TuneRequest(buffer)),
                Err(e) => r == Err::<Self, Error>(e),
            },
    {
        TuneRequest::try_from(buffer)
    }

    /// The message in a packet of its own: the words it occupies, then
    /// zeros.
    pub fn into_owned(self) -> (owned: TuneRequest<[u32; 4]>)
        requires
            self.wf(),
        ensures
            owned.wf(),
            owned.0@ == rebuffered::<[u32; 4]>(
                self.0.units().subrange(0, 1),
            ),
    {
        self.rebuffer_into::<[u32; 4]>()
    }
}

impl<'a> TuneRequest<MessageData<'a>> {
    /// Starts a message that will own its packet.
    pub fn builder() -> (builder: TuneRequestBuilder<Self>)
        ensures
            builder.wf(),
            builder.state() == Ok::<Seq<u32>, Error>(spec_new::<u32>(4)),
    {
        TuneRequestBuilder::new()
    }

    /// Parses a slice: the message over it if it validates, else the first
    /// rule that fails.
    pub fn from_data(buffer: &'a [u32]) -> (r: Result<Self, Error>)
        ensures
            match spec_validate::<u32>(buffer@) {
                Ok(()) => r == Ok::<Self, Error>(TuneRequest(MessageData::Borrowed(buffer))),
                Err(e) => r == Err::<Self, Error>(e),
            },
    {
        TuneRequest::try_from(MessageData::Borrowed(buffer))
    }
}

/// A message under construction in a packet of its own, or the error that
/// stopped its construction. Once an error is held every setter leaves
/// the builder as it is, and `build` reports that error. `M` is the type
/// the finished message is handed out as.
pub struct TuneRequestBuilder<M: From<TuneRequest<[u32; 4]>>>(
    pub Result<TuneRequest<[u32; 4]>, Error>,
    pub core::marker::PhantomData<M>,
);

impl<M: From<TuneRequest<[u32; 4]>>> TuneRequestBuilder<M> {
    /// The words written so far, or the error held.
    pub open spec fn state(&self) -> Result<Seq<u32>, Error> {
        match self.0 {
            Ok(message) => Ok(message.0@),
            Err(e) => Err(e),
        }
    }

    /// Whatever is under construction is a valid message.
    pub open spec fn wf(&self) -> bool {
        self.0 is Ok ==> self.0->Ok_0.wf()
    }

    /// A builder that holds a fresh message.
    pub fn new() -> (builder: Self)
        ensures
            builder.wf(),
            builder.state() == Ok::<Seq<u32>, Error>(spec_new::<u32>(4)),
    {
        proof {
            assert(rebuffered::<[u32; 4]>(crate::buffer::zeros::<u32>(1)).len() == 4);
        }
        TuneRequestBuilder(TuneRequest::<[u32; 4]>::try_new(), core::marker::PhantomData)
    }

    pub fn group(&mut self, value: U4) -> (ret: &mut Self)
        requires
            old(self).wf(),
        ensures
            ret.wf(),
            match old(self).state() {
                Ok(units) => ret.state() == Ok::<Seq<u32>, Error>(
                    spec_write(units, group(), value@),
                ),
                Err(e) => ret.state() == Err::<Seq<u32>, Error>(e),
            },
            *final(self) == *final(ret),
    {
        match &mut self.0 {
            Ok(message) => {
                message.set_group(value);
            },
            Err(_) => {},
        }
        self
    }

    /// The finished message, or the error that stopped its construction.
    pub fn build(&self) -> (r: Result<M, Error>)
        requires
            self.wf(),
        ensures
            match self.0 {
                Ok(message) => r is Ok && (M::obeys_from_spec() ==> r->Ok_0 == M::from_spec(
                    message,
                )),
                Err(e) => r == Err::<M, Error>(e),
            },
    {
        match &self.0 {
            Ok(message) => Ok(M::from(TuneRequest(message.0))),
            Err(e) => Err(*e),
        }
    }
}

impl<M: From<TuneRequest<[u32; 4]>>> Default for TuneRequestBuilder<M> {
    fn default() -> (builder: Self)
        ensures
            builder.wf(),
            builder.state() == Ok::<Seq<u32>, Error>(spec_new::<u32>(4)),
    {
        TuneRequestBuilder::new()
    }
}

} // verus!
