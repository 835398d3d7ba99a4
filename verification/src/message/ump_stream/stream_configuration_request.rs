//! The ownership-qualified forms of the stream configuration request message, and its builder.

use vstd::prelude::*;
use vstd::std_specs::convert::{FromSpec, FromSpecImpl};
use crate::buffer::{Buffer, MessageData};
use crate::error::Error;
use crate::property::{bool_bits, rebuffered};
use crate::schema::spec_write;
use crate::ump_stream::stream_configuration_request::{
    protocol, receive_jr_timestamps, send_jr_timestamps, spec_new, spec_validate,
    StreamConfigurationRequest,
};

verus! {

/// The message as a view of borrowed words.
pub type StreamConfigurationRequestBorrowed<'a> = StreamConfigurationRequest<&'a [u32]>;

/// The message as the owner of a packet of its own.
pub type StreamConfigurationRequestOwned = StreamConfigurationRequest<[u32; 4]>;

/// The message, borrowed or owned.
pub type StreamConfigurationRequestMessage<'a> = StreamConfigurationRequest<MessageData<'a>>;

impl<'a> From<StreamConfigurationRequest<&'a [u32]>>
    for StreamConfigurationRequest<MessageData<'a>> {
    fn from(value: StreamConfigurationRequest<&'a [u32]>) -> (r: Self) {
        StreamConfigurationRequest(MessageData::Borrowed(value.0))
    }
}

impl<'a> FromSpecImpl<StreamConfigurationRequest<&'a [u32]>>
    for StreamConfigurationRequest<MessageData<'a>> {
    open spec fn obeys_from_spec() -> bool {
        true
    }

    open spec fn from_spec(value: StreamConfigurationRequest<&'a [u32]>) -> Self {
        StreamConfigurationRequest(MessageData::Borrowed(value.0))
    }
}

impl<'a> From<StreamConfigurationRequest<[u32; 4]>>
    for StreamConfigurationRequest<MessageData<'a>> {
    fn from(value: StreamConfigurationRequest<[u32; 4]>) -> (r: Self) {
        StreamConfigurationRequest(MessageData::Owned(value.0))
    }
}

impl<'a> FromSpecImpl<StreamConfigurationRequest<[u32; 4]>>
    for StreamConfigurationRequest<MessageData<'a>> {
    open spec fn obeys_from_spec() -> bool {
        true
    }

    open spec fn from_spec(value: StreamConfigurationRequest<[u32; 4]>) -> Self {
        StreamConfigurationRequest(MessageData::Owned(value.0))
    }
}

impl<'a> StreamConfigurationRequest<&'a [u32]> {
    /// Parses a slice: the message over it if it validates, else the first
    /// rule that fails.
    pub fn from_data(buffer: &'a [u32]) -> (r: Result<Self, Error>)
        ensures
            match spec_validate::<u32>(buffer@) {
                Ok(()) => r == Ok::<Self, Error>(StreamConfigurationRequest(buffer)),
                Err(e) => r == Err::<Self, Error>(e),
            },
    {
        StreamConfigurationRequest::try_from(buffer)
    }

    /// The message in a packet of its own: the words it occupies, then
    /// zeros.
    pub fn into_owned(self) -> (owned: StreamConfigurationRequest<[u32; 4]>)
        requires
            self.wf(),
        ensures
            owned.wf(),
            owned.0@ == rebuffered::<[u32; 4]>(
                self.0.units().subrange(0, 1),
            ),
    {
        self.rebuffer_into::<[u32; 4]>()
    }
}

impl<'a> StreamConfigurationRequest<MessageData<'a>> {
    /// Starts a message that will own its packet.
    pub fn builder() -> (builder: StreamConfigurationRequestBuilder<Self>)
        ensures
            builder.wf(),
            builder.state() == Ok::<Seq<u32>, Error>(spec_new::<u32>(4)),
    {
        StreamConfigurationRequestBuilder::new()
    }

    /// Parses a slice: the message over it if it validates, else the first
    /// rule that fails.
    pub fn from_data(buffer: &'a [u32]) -> (r: Result<Self, Error>)
        ensures
            match spec_validate::<u32>(buffer@) {
                Ok(()) => r == Ok::<Self, Error>(
                    StreamConfigurationRequest(MessageData::Borrowed(buffer))
                ),
                Err(e) => r == Err::<Self, Error>(e),
            },
    {
        StreamConfigurationRequest::try_from(MessageData::Borrowed(buffer))
    }
}

/// A message under construction in a packet of its own, or the error that
/// stopped its construction. Once an error is held every setter leaves
/// the builder as it is, and `build` reports that error. `M` is the type
/// the finished message is handed out as.
pub struct StreamConfigurationRequestBuilder<M: From<StreamConfigurationRequest<[u32; 4]>>>(
    pub Result<StreamConfigurationRequest<[u32; 4]>, Error>,
    pub core::marker::PhantomData<M>,
);

impl<M: From<StreamConfigurationRequest<[u32; 4]>>> StreamConfigurationRequestBuilder<M> {
    /// The words written so far, or the error held.
    pub open spec fn state(&self) -> Result<Seq<u32>, Error> {
        match self.0 {
            Ok(message) => Ok(message.0@),
            Err(e) => Err(e),
        }
    }

    /// Whatever is under construction is a valid message.
    pub open spec fn wf(&self) -> bool {
        self.0 is Ok ==> self.0->Ok_0.wf()
    }

    /// A builder that holds a fresh message.
    pub fn new() -> (builder: Self)
        ensures
            builder.wf(),
            builder.state() == Ok::<Seq<u32>, Error>(spec_new::<u32>(4)),
    {
        proof {
            assert(rebuffered::<[u32; 4]>(crate::buffer::zeros::<u32>(1)).len() == 4);
        }
        StreamConfigurationRequestBuilder(
            StreamConfigurationRequest::<[u32; 4]>::try_new(),
            core::marker::PhantomData,
        )
    }

    pub fn protocol(&mut self, value: u8) -> (ret: &mut Self)
        requires
            old(self).wf(),
        ensures
            ret.wf(),
            match old(self).state() {
                Ok(units) => ret.state() == Ok::<Seq<u32>, Error>(
                    spec_write(units, protocol(), value as u32),
                ),
                Err(e) => ret.state() == Err::<Seq<u32>, Error>(e),
            },
            *final(self) == *final(ret),
    {
        match &mut self.0 {
            Ok(message) => {
                message.set_protocol(value);
            },
            Err(_) => {},
        }
        self
    }

    pub fn receive_jr_timestamps(&mut self, value: bool) -> (ret: &mut Self)
        requires
            old(self).wf(),
        ensures
            ret.wf(),
            match old(self).state() {
                Ok(units) => ret.state() == Ok::<Seq<u32>, Error>(
                    spec_write(units, receive_jr_timestamps(), bool_bits(value)),
                ),
                Err(e) => ret.state() == Err::<Seq<u32>, Error>(e),
            },
            *final(self) == *final(ret),
    {
        match &mut self.0 {
            Ok(message) => {
                message.set_receive_jr_timestamps(value);
            },
            Err(_) => {},
        }
        self
    }

    pub fn send_jr_timestamps(&mut self, value: bool) -> (ret: &mut Self)
        requires
            old(self).wf(),
        ensures
            ret.wf(),
            match old(self).state() {
                Ok(units) => ret.state() == Ok::<Seq<u32>, Error>(
                    spec_write(units, send_jr_timestamps(), bool_bits(value)),
                ),
                Err(e) => ret.state() == Err::<Seq<u32>, Error>(e),
            },
            *final(self) == *final(ret),
    {
        match &mut self.0 {
            Ok(message) => {
                message.set_send_jr_timestamps(value);
            },
            Err(_) => {},
        }
        self
    }

    /// The finished message, or the error that stopped its construction.
    pub fn build(&self) -> (r: Result<M, Error>)
        requires
            self.wf(),
        ensures
            match self.0 {
                Ok(message) => r is Ok && (M::obeys_from_spec() ==> r->Ok_0 == M::from_spec(
                    message,
                )),
                Err(e) => r == Err::<M, Error>(e),
            },
    {
        match &self.0 {
            Ok(message) => Ok(M::from(StreamConfigurationRequest(message.0))),
            Err(e) => Err(*e),
        }
    }
}

impl<M: From<StreamConfigurationRequest<[u32; 4]>>> Default
    for StreamConfigurationRequestBuilder<M> {
    fn default() -> (builder: Self)
        ensures
            builder.wf(),
            builder.state() == Ok::<Seq<u32>, Error>(spec_new::<u32>(4)),
    {
        StreamConfigurationRequestBuilder::new()
    }
}

} // verus!
