//! System exclusive messages with eight-bit payload bytes: a payload of any
//! length, carried in as many packets as it takes.

use vstd::prelude::*;
use vstd::std_specs::convert::{FromSpec, FromSpecImpl};
use crate::error::Error;
use crate::numeric_types::U4;
use crate::segmentation::{
    bytes_of, encode, get_byte, lemma_encode_then_decode, lemma_encoded_header, spec_encode_words,
    spec_payload, spec_validate_group, validate_group, Format, Header, PayloadIterator,
};

verus! {

/// The message-type nibble of these packets.
pub const UMP_MESSAGE_TYPE: u8 = 0x5;

/// The group every packet of a valid message holds.
pub open spec fn spec_group(units: Seq<u32>) -> int {
    (bytes_of(units)[0] % 16) as int
}

/// The stream id every packet of a valid message holds.
pub open spec fn spec_stream_id(units: Seq<u32>) -> int {
    bytes_of(units)[2] as int
}

/// What a header must hold to be the header of a system exclusive message.
pub open spec fn is_header(h: Header) -> bool {
    h.wf() && h.format == Format::Sysex8
}

/// The verdict on a word sequence as a system exclusive message.
pub open spec fn spec_validate(units: Seq<u32>) -> Result<(), Error> {
    spec_validate_group(units, Format::Sysex8)
}

/// Validates a word sequence as a system exclusive message.
pub fn validate_data(buffer: &[u32]) -> (r: Result<(), Error>)
    ensures
        r == spec_validate(buffer@),
{
    validate_group(buffer, Format::Sysex8)
}

fn read_group(data: &[u32]) -> (value: U4)
    requires
        data@.len() >= 1,
    ensures
        value@ == spec_group(data@),
{
    U4::new(get_byte(data, 0) % 16)
}

fn read_stream_id(data: &[u32]) -> (value: u8)
    requires
        data@.len() >= 1,
    ensures
        value == spec_stream_id(data@),
{
    get_byte(data, 2)
}

/// A system exclusive message in a borrowed word slice.
#[derive(Debug, Clone, PartialEq, Eq)]
pub struct Sysex8Borrowed<'a>(pub &'a [u32]);

/// A system exclusive message that owns its words.
#[derive(Debug, Clone, PartialEq, Eq)]
pub struct Sysex8Owned(pub Vec<u32>);

/// A system exclusive message, borrowed or owned.
#[derive(Debug, Clone, PartialEq, Eq)]
pub enum Sysex8Message<'a> {
    Borrowed(Sysex8Borrowed<'a>),
    Owned(Sysex8Owned),
}

impl<'a> Sysex8Borrowed<'a> {
    /// The words of the message.
    pub open spec fn units(&self) -> Seq<u32> {
        self.0@
    }

    /// The words hold a valid message.
    pub open spec fn wf(&self) -> bool {
        spec_validate(self.units()) is Ok
    }

    /// The words the message occupies: all of them.
    pub open spec fn spec_data(&self) -> Seq<u32> {
        self.units()
    }

    /// The words of the owned copy of the message.
    pub open spec fn spec_owned(&self) -> Seq<u32> {
        self.units()
    }

    /// The message a slice is taken as.
    pub open spec fn spec_from_data(buffer: &'a [u32]) -> Self {
        Sysex8Borrowed(buffer)
    }

    pub fn data(&self) -> (data: &[u32])
        ensures
            data@ == self.units(),
    {
        self.0
    }

    pub fn group(&self) -> (value: U4)
        requires
            self.wf(),
        ensures
            value@ == spec_group(self.units()),
    {
        read_group(self.data())
    }

    pub fn stream_id(&self) -> (value: u8)
        requires
            self.wf(),
        ensures
            value == spec_stream_id(self.units()),
    {
        read_stream_id(self.data())
    }

    /// A walk over the payload bytes.
    pub fn payload(&self) -> (walk: PayloadIterator<'_>)
        requires
            self.wf(),
        ensures
            walk.wf(),
            walk.remaining() == spec_payload(self.units(), Format::Sysex8),
    {
        PayloadIterator::new(self.data(), Format::Sysex8)
    }
}

impl Sysex8Owned {
    /// The words of the message.
    pub open spec fn units(&self) -> Seq<u32> {
        self.0@
    }

    /// The words hold a valid message.
    pub open spec fn wf(&self) -> bool {
        spec_validate(self.units()) is Ok
    }

    /// The words the message occupies: all of them.
    pub open spec fn spec_data(&self) -> Seq<u32> {
        self.units()
    }

    pub fn data(&self) -> (data: &[u32])
        ensures
            data@ == self.units(),
    {
        self.0.as_slice()
    }

    pub fn group(&self) -> (value: U4)
        requires
            self.wf(),
        ensures
            value@ == spec_group(self.units()),
    {
        read_group(self.data())
    }

    pub fn stream_id(&self) -> (value: u8)
        requires
            self.wf(),
        ensures
            value == spec_stream_id(self.units()),
    {
        read_stream_id(self.data())
    }

    /// A walk over the payload bytes.
    pub fn payload(&self) -> (walk: PayloadIterator<'_>)
        requires
            self.wf(),
        ensures
            walk.wf(),
            walk.remaining() == spec_payload(self.units(), Format::Sysex8),
    {
        PayloadIterator::new(self.data(), Format::Sysex8)
    }
}

impl<'a> Sysex8Message<'a> {
    /// The words of the message.
    pub open spec fn units(&self) -> Seq<u32> {
        match self {
            Sysex8Message::Borrowed(m) => m.0@,
            Sysex8Message::Owned(m) => m.0@,
        }
    }

    /// The words hold a valid message.
    pub open spec fn wf(&self) -> bool {
        spec_validate(self.units()) is Ok
    }

    /// The words the message occupies: all of them.
    pub open spec fn spec_data(&self) -> Seq<u32> {
        self.units()
    }

    /// The words of the owned copy of the message.
    pub open spec fn spec_owned(&self) -> Seq<u32> {
        self.units()
    }

    pub fn data(&self) -> (data: &[u32])
        ensures
            data@ == self.units(),
    {
        match self {
            Sysex8Message::Borrowed(m) => m.0,
            Sysex8Message::Owned(m) => m.0.as_slice(),
        }
    }

    pub fn group(&self) -> (value: U4)
        requires
            self.wf(),
        ensures
            value@ == spec_group(self.units()),
    {
        read_group(self.data())
    }

    pub fn stream_id(&self) -> (value: u8)
        requires
            self.wf(),
        ensures
            value == spec_stream_id(self.units()),
    {
        read_stream_id(self.data())
    }

    /// A walk over the payload bytes.
    pub fn payload(&self) -> (walk: PayloadIterator<'_>)
        requires
            self.wf(),
        ensures
            walk.wf(),
            walk.remaining() == spec_payload(self.units(), Format::Sysex8),
    {
        PayloadIterator::new(self.data(), Format::Sysex8)
    }
}

impl<'a> From<Sysex8Borrowed<'a>> for Sysex8Message<'a> {
    fn from(value: Sysex8Borrowed<'a>) -> (r: Self) {
        Sysex8Message::Borrowed(value)
    }
}

impl<'a> FromSpecImpl<Sysex8Borrowed<'a>> for Sysex8Message<'a> {
    open spec fn obeys_from_spec() -> bool {
        true
    }

    open spec fn from_spec(value: Sysex8Borrowed<'a>) -> Self {
        Sysex8Message::Borrowed(value)
    }
}

impl<'a> From<Sysex8Owned> for Sysex8Message<'a> {
    fn from(value: Sysex8Owned) -> (r: Self) {
        Sysex8Message::Owned(value)
    }
}

impl<'a> FromSpecImpl<Sysex8Owned> for Sysex8Message<'a> {
    open spec fn obeys_from_spec() -> bool {
        true
    }

    open spec fn from_spec(value: Sysex8Owned) -> Self {
        Sysex8Message::Owned(value)
    }
}

impl<'a> Sysex8Borrowed<'a> {
    /// Takes a slice as a message without looking at it.
    pub fn from_data_unchecked(buffer: &'a [u32]) -> (message: Self)
        ensures
            message == Sysex8Borrowed(buffer),
    {
        Sysex8Borrowed(buffer)
    }

    /// Validates that a slice holds a system exclusive message.
    pub fn validate_data(buffer: &'a [u32]) -> (r: Result<(), Error>)
        ensures
            r == spec_validate(buffer@),
    {
        validate_data(buffer)
    }

    /// Parses a slice: the message over it if it validates, else the first
    /// failure.
    pub fn from_data(buffer: &'a [u32]) -> (r: Result<Self, Error>)
        ensures
            match spec_validate(buffer@) {
                Ok(()) => r == Ok::<Self, Error>(Sysex8Borrowed(buffer)),
                Err(e) => r == Err::<Self, Error>(e),
            },
    {
        match validate_data(buffer) {
            Ok(()) => Ok(Sysex8Borrowed(buffer)),
            Err(e) => Err(e),
        }
    }

    /// The message with its words owned.
    pub fn into_owned(self) -> (owned: Sysex8Owned)
        ensures
            owned.0@ == self.units(),
    {
        Sysex8Owned(vstd::slice::slice_to_vec(self.0))
    }
}

impl<'a> Sysex8Message<'a> {
    /// Starts a message that will own its words.
    pub fn builder() -> (builder: Sysex8Builder<Self>)
        ensures
            builder.wf(),
            builder.header == default_header(),
            builder.payload@ == Seq::<u8>::empty(),
    {
        Sysex8Builder::new()
    }

    /// Takes a slice as a message without looking at it.
    pub fn from_data_unchecked(buffer: &'a [u32]) -> (message: Self)
        ensures
            message == Sysex8Message::Borrowed(Sysex8Borrowed(buffer)),
    {
        Sysex8Message::Borrowed(Sysex8Borrowed(buffer))
    }

    /// Validates that a slice holds a system exclusive message.
    pub fn validate_data(buffer: &'a [u32]) -> (r: Result<(), Error>)
        ensures
            r == spec_validate(buffer@),
    {
        validate_data(buffer)
    }

    /// Parses a slice: the message over it if it validates, else the first
    /// failure.
    pub fn from_data(buffer: &'a [u32]) -> (r: Result<Self, Error>)
        ensures
            match spec_validate(buffer@) {
                Ok(()) => r == Ok::<Self, Error>(Sysex8Message::Borrowed(Sysex8Borrowed(buffer))),
                Err(e) => r == Err::<Self, Error>(e),
            },
    {
        match validate_data(buffer) {
            Ok(()) => Ok(Sysex8Message::Borrowed(Sysex8Borrowed(buffer))),
            Err(e) => Err(e),
        }
    }

    /// The message with its words owned.
    pub fn into_owned(self) -> (owned: Sysex8Owned)
        ensures
            owned.0@ == self.units(),
    {
        match self {
            Sysex8Message::Owned(m) => m,
            Sysex8Message::Borrowed(m) => m.into_owned(),
        }
    }
}

/// The header of a message that nothing has been set in.
pub open spec fn default_header() -> Header {
    Header { format: Format::Sysex8, group: 0, status: 0, detail: 0 }
}

/// Builds a system exclusive message in a vector of its own: the fields
/// every packet repeats and the payload to split.
/// `M` is the type the finished message is handed out as.
pub struct Sysex8Builder<M: From<Sysex8Owned>> {
    pub header: Header,
    pub payload: Vec<u8>,
    pub marker: core::marker::PhantomData<M>,
}

impl<M: From<Sysex8Owned>> Sysex8Builder<M> {
    /// The builder holds a header of this kind.
    pub open spec fn wf(&self) -> bool {
        is_header(self.header)
    }

    /// A builder for a message with every field at its default and an
    /// empty payload.
    pub fn new() -> (builder: Self)
        ensures
            builder.wf(),
            builder.header == default_header(),
            builder.payload@ == Seq::<u8>::empty(),
    {
        Sysex8Builder {
            header: Header { format: Format::Sysex8, group: 0, status: 0, detail: 0 },
            payload: Vec::new(),
            marker: core::marker::PhantomData,
        }
    }

    pub fn group(&mut self, value: U4) -> (ret: &mut Self)
        requires
            old(self).wf(),
        ensures
            ret.wf(),
            ret.payload == old(self).payload,
            ret.header == (Header { group: value@ as u8, ..old(self).header }),
            *final(self) == *final(ret),
    {
        self.header.group = value.value();
        self
    }

    pub fn stream_id(&mut self, value: u8) -> (ret: &mut Self)
        requires
            old(self).wf(),
        ensures
            ret.wf(),
            ret.payload == old(self).payload,
            ret.header == (Header { detail: value, ..old(self).header }),
            *final(self) == *final(ret),
    {
        self.header.detail = value;
        self
    }

    /// Sets the payload.
    pub fn payload(&mut self, data: &[u8]) -> (ret: &mut Self)
        requires
            old(self).wf(),
        ensures
            ret.wf(),
            ret.header == old(self).header,
            ret.payload@ == data@,
            *final(self) == *final(ret),
    {
        self.payload = vstd::slice::slice_to_vec(data);
        self
    }

    /// The finished message: the packets that carry the payload, owned.
    pub fn build(&self) -> (r: Result<M, Error>)
        requires
            self.wf(),
        ensures
            r is Ok,
            M::obeys_from_spec() ==> exists|owned: Sysex8Owned|
                owned.0@ == spec_encode_words(self.header, self.payload@) && r->Ok_0
                    == #[trigger] M::from_spec(owned),
    {
        let owned = Sysex8Owned(encode(&self.header, self.payload.as_slice()));
        Ok(M::from(owned))
    }
}

impl<M: From<Sysex8Owned>> Default for Sysex8Builder<M> {
    fn default() -> (builder: Self)
        ensures
            builder.wf(),
            builder.header == default_header(),
            builder.payload@ == Seq::<u8>::empty(),
    {
        Sysex8Builder::new()
    }
}

/// A message survives being built and read back: the packets that carry
/// a payload under a header of this kind validate, hold the fields of the
/// header, and hold the payload.
pub proof fn lemma_payload_round_trip(h: Header, payload: Seq<u8>)
    requires
        is_header(h),
    ensures
        spec_validate(spec_encode_words(h, payload)) is Ok,
        spec_payload(spec_encode_words(h, payload), Format::Sysex8) == payload,
        spec_group(spec_encode_words(h, payload)) == h.group,
        spec_stream_id(spec_encode_words(h, payload)) == h.detail,
{
    let units = spec_encode_words(h, payload);
    lemma_encode_then_decode(h, payload, units);
    lemma_encoded_header(h, payload);
    let role = crate::segmentation::role_of(
        0,
        crate::segmentation::packet_count(payload.len(), h.format.capacity()),
    );
    let chunk = crate::segmentation::chunk_len(payload.len(), h.format.capacity(), 0);
    assert(role.code() <= 3);
    assert(bytes_of(units)[0] == crate::segmentation::header_byte(h, role, chunk, 0));
    assert(bytes_of(units)[1] == crate::segmentation::header_byte(h, role, chunk, 1));
    assert(bytes_of(units)[2] == crate::segmentation::header_byte(h, role, chunk, 2));
}

} // verus!
