//! The function block name notification: the name of one function block,
//! carried as UTF-8 in as many stream packets as it takes.

use vstd::prelude::*;
use vstd::std_specs::convert::{FromSpec, FromSpecImpl};
use vstd::string::StringSliceAdditionalSpecFns;
use crate::error::{ERR_INCORRECT_STATUS, Error};
use crate::message::ump_stream::endpoint_name::{
    lemma_text_round_trip, read_text, spec_text, spec_text_bytes, NameBytesIterator,
};
use crate::segmentation::{
    bytes_of, encode, get_byte, lemma_encoded_header, spec_encode_words, spec_validate_group,
    validate_group, Format, Header,
};

verus! {

pub const STATUS: u16 = 0x12;

/// The function block every packet of a valid message holds.
pub open spec fn spec_function_block(units: Seq<u32>) -> int {
    bytes_of(units)[2] as int
}

/// What a header must hold to be the header of a function block name message.
pub open spec fn is_header(h: Header) -> bool {
    h.wf() && h.format == Format::UmpStreamBlock && h.status == STATUS
}

/// The verdict on a word sequence as a function block name message.
pub open spec fn spec_validate(units: Seq<u32>) -> Result<(), Error> {
    match spec_validate_group(units, Format::UmpStreamBlock) {
        Err(e) => Err(e),
        Ok(()) => if (bytes_of(units)[0] as int % 4) * 256 + bytes_of(units)[1] as int != STATUS {
            Err(Error::InvalidData(ERR_INCORRECT_STATUS))
        } else {
            Ok(())
        },
    }
}

/// Validates a word sequence as a function block name message.
pub fn validate_data(buffer: &[u32]) -> (r: Result<(), Error>)
    ensures
        r == spec_validate(buffer@),
{
    match validate_group(buffer, Format::UmpStreamBlock) {
        Err(e) => Err(e),
        Ok(()) => {
            if (get_byte(buffer, 0) % 4) as u16 * 256 + get_byte(buffer, 1) as u16 != STATUS {
                return Err(Error::InvalidData(ERR_INCORRECT_STATUS));
            }
            Ok(())
        },
    }
}

fn read_function_block(data: &[u32]) -> (value: u8)
    requires
        data@.len() >= 1,
    ensures
        value == spec_function_block(data@),
{
    get_byte(data, 2)
}

/// A function block name message in a borrowed word slice.
#[derive(Debug, Clone, PartialEq, Eq)]
pub struct FunctionBlockNameBorrowed<'a>(pub &'a [u32]);

/// A function block name message that owns its words.
#[derive(Debug, Clone, PartialEq, Eq)]
pub struct FunctionBlockNameOwned(pub Vec<u32>);

/// A function block name message, borrowed or owned.
#[derive(Debug, Clone, PartialEq, Eq)]
pub enum FunctionBlockNameMessage<'a> {
    Borrowed(FunctionBlockNameBorrowed<'a>),
    Owned(FunctionBlockNameOwned),
}

impl<'a> FunctionBlockNameBorrowed<'a> {
    /// The words of the message.
    pub open spec fn units(&self) -> Seq<u32> {
        self.0@
    }

    /// The words hold a valid message.
    pub open spec fn wf(&self) -> bool {
        spec_validate(self.units()) is Ok
    }

    /// The words the message occupies: all of them.
    pub open spec fn spec_data(&self) -> Seq<u32> {
        self.units()
    }

    /// The words of the owned copy of the message.
    pub open spec fn spec_owned(&self) -> Seq<u32> {
        self.units()
    }

    /// The message a slice is taken as.
    pub open spec fn spec_from_data(buffer: &'a [u32]) -> Self {
        FunctionBlockNameBorrowed(buffer)
    }

    pub fn data(&self) -> (data: &[u32])
        ensures
            data@ == self.units(),
    {
        self.0
    }

    pub fn function_block(&self) -> (value: u8)
        requires
            self.wf(),
        ensures
            value == spec_function_block(self.units()),
    {
        read_function_block(self.data())
    }

    /// The name as text.
    pub fn name(&self) -> (r: Result<String, Error>)
        requires
            self.wf(),
        ensures
            match spec_text(spec_text_bytes(self.units(), Format::UmpStreamBlock)) {
                Ok(text) => r is Ok && r->Ok_0@ == text,
                Err(e) => r == Err::<String, Error>(e),
            },
    {
        read_text(self.data(), Format::UmpStreamBlock)
    }

    /// A walk over the bytes of the name.
    pub fn name_bytes(&self) -> (walk: NameBytesIterator<'_>)
        requires
            self.wf(),
        ensures
            walk.wf(),
            walk.remaining() == spec_text_bytes(self.units(), Format::UmpStreamBlock),
    {
        NameBytesIterator::new(self.data(), Format::UmpStreamBlock)
    }
}

impl FunctionBlockNameOwned {
    /// The words of the message.
    pub open spec fn units(&self) -> Seq<u32> {
        self.0@
    }

    /// The words hold a valid message.
    pub open spec fn wf(&self) -> bool {
        spec_validate(self.units()) is Ok
    }

    /// The words the message occupies: all of them.
    pub open spec fn spec_data(&self) -> Seq<u32> {
        self.units()
    }

    pub fn data(&self) -> (data: &[u32])
        ensures
            data@ == self.units(),
    {
        self.0.as_slice()
    }

    pub fn function_block(&self) -> (value: u8)
        requires
            self.wf(),
        ensures
            value == spec_function_block(self.units()),
    {
        read_function_block(self.data())
    }

    /// The name as text.
    pub fn name(&self) -> (r: Result<String, Error>)
        requires
            self.wf(),
        ensures
            match spec_text(spec_text_bytes(self.units(), Format::UmpStreamBlock)) {
                Ok(text) => r is Ok && r->Ok_0@ == text,
                Err(e) => r == Err::<String, Error>(e),
            },
    {
        read_text(self.data(), Format::UmpStreamBlock)
    }

    /// A walk over the bytes of the name.
    pub fn name_bytes(&self) -> (walk: NameBytesIterator<'_>)
        requires
            self.wf(),
        ensures
            walk.wf(),
            walk.remaining() == spec_text_bytes(self.units(), Format::UmpStreamBlock),
    {
        NameBytesIterator::new(self.data(), Format::UmpStreamBlock)
    }
}

impl<'a> FunctionBlockNameMessage<'a> {
    /// The words of the message.
    pub open spec fn units(&self) -> Seq<u32> {
        match self {
            FunctionBlockNameMessage::Borrowed(m) => m.0@,
            FunctionBlockNameMessage::Owned(m) => m.0@,
        }
    }

    /// The words hold a valid message.
    pub open spec fn wf(&self) -> bool {
        spec_validate(self.units()) is Ok
    }

    /// The words the message occupies: all of them.
    pub open spec fn spec_data(&self) -> Seq<u32> {
        self.units()
    }

    /// The words of the owned copy of the message.
    pub open spec fn spec_owned(&self) -> Seq<u32> {
        self.units()
    }

    pub fn data(&self) -> (data: &[u32])
        ensures
            data@ == self.units(),
    {
        match self {
            FunctionBlockNameMessage::Borrowed(m) => m.0,
            FunctionBlockNameMessage::Owned(m) => m.0.as_slice(),
        }
    }

    pub fn function_block(&self) -> (value: u8)
        requires
            self.wf(),
        ensures
            value == spec_function_block(self.units()),
    {
        read_function_block(self.data())
    }

    /// The name as text.
    pub fn name(&self) -> (r: Result<String, Error>)
        requires
            self.wf(),
        ensures
            match spec_text(spec_text_bytes(self.units(), Format::UmpStreamBlock)) {
                Ok(text) => r is Ok && r->Ok_0@ == text,
                Err(e) => r == Err::<String, Error>(e),
            },
    {
        read_text(self.data(), Format::UmpStreamBlock)
    }

    /// A walk over the bytes of the name.
    pub fn name_bytes(&self) -> (walk: NameBytesIterator<'_>)
        requires
            self.wf(),
        ensures
            walk.wf(),
            walk.remaining() == spec_text_bytes(self.units(), Format::UmpStreamBlock),
    {
        NameBytesIterator::new(self.data(), Format::UmpStreamBlock)
    }
}

impl<'a> From<FunctionBlockNameBorrowed<'a>> for FunctionBlockNameMessage<'a> {
    fn from(value: FunctionBlockNameBorrowed<'a>) -> (r: Self) {
        FunctionBlockNameMessage::Borrowed(value)
    }
}

impl<'a> FromSpecImpl<FunctionBlockNameBorrowed<'a>> for FunctionBlockNameMessage<'a> {
    open spec fn obeys_from_spec() -> bool {
        true
    }

    open spec fn from_spec(value: FunctionBlockNameBorrowed<'a>) -> Self {
        FunctionBlockNameMessage::Borrowed(value)
    }
}

impl<'a> From<FunctionBlockNameOwned> for FunctionBlockNameMessage<'a> {
    fn from(value: FunctionBlockNameOwned) -> (r: Self) {
        FunctionBlockNameMessage::Owned(value)
    }
}

impl<'a> FromSpecImpl<FunctionBlockNameOwned> for FunctionBlockNameMessage<'a> {
    open spec fn obeys_from_spec() -> bool {
        true
    }

    open spec fn from_spec(value: FunctionBlockNameOwned) -> Self {
        FunctionBlockNameMessage::Owned(value)
    }
}

impl<'a> FunctionBlockNameBorrowed<'a> {
    /// Takes a slice as a message without looking at it.
    pub fn from_data_unchecked(buffer: &'a [u32]) -> (message: Self)
        ensures
            message == FunctionBlockNameBorrowed(buffer),
    {
        FunctionBlockNameBorrowed(buffer)
    }

    /// Validates that a slice holds a function block name message.
    pub fn validate_data(buffer: &'a [u32]) -> (r: Result<(), Error>)
        ensures
            r == spec_validate(buffer@),
    {
        validate_data(buffer)
    }

    /// Parses a slice: the message over it if it validates, else the first
    /// failure.
    pub fn from_data(buffer: &'a [u32]) -> (r: Result<Self, Error>)
        ensures
            match spec_validate(buffer@) {
                Ok(()) => r == Ok::<Self, Error>(FunctionBlockNameBorrowed(buffer)),
                Err(e) => r == Err::<Self, Error>(e),
            },
    {
        match validate_data(buffer) {
            Ok(()) => Ok(FunctionBlockNameBorrowed(buffer)),
            Err(e) => Err(e),
        }
    }

    /// The message with its words owned.
    pub fn into_owned(self) -> (owned: FunctionBlockNameOwned)
        ensures
            owned.0@ == self.units(),
    {
        FunctionBlockNameOwned(vstd::slice::slice_to_vec(self.0))
    }
}

impl<'a> FunctionBlockNameMessage<'a> {
    /// Starts a message that will own its words.
    pub fn builder() -> (builder: FunctionBlockNameBuilder<Self>)
        ensures
            builder.wf(),
            builder.header == default_header(),
            builder.payload@ == Seq::<u8>::empty(),
    {
        FunctionBlockNameBuilder::new()
    }

    /// Takes a slice as a message without looking at it.
    pub fn from_data_unchecked(buffer: &'a [u32]) -> (message: Self)
        ensures
            message == FunctionBlockNameMessage::Borrowed(FunctionBlockNameBorrowed(buffer)),
    {
        FunctionBlockNameMessage::Borrowed(FunctionBlockNameBorrowed(buffer))
    }

    /// Validates that a slice holds a function block name message.
    pub fn validate_data(buffer: &'a [u32]) -> (r: Result<(), Error>)
        ensures
            r == spec_validate(buffer@),
    {
        validate_data(buffer)
    }

    /// Parses a slice: the message over it if it validates, else the first
    /// failure.
    pub fn from_data(buffer: &'a [u32]) -> (r: Result<Self, Error>)
        ensures
            match spec_validate(buffer@) {
                Ok(()) => r == Ok::<Self, Error>(
                    FunctionBlockNameMessage::Borrowed(FunctionBlockNameBorrowed(buffer))
                ),
                Err(e) => r == Err::<Self, Error>(e),
            },
    {
        match validate_data(buffer) {
            Ok(()) => Ok(FunctionBlockNameMessage::Borrowed(FunctionBlockNameBorrowed(buffer))),
            Err(e) => Err(e),
        }
    }

    /// The message with its words owned.
    pub fn into_owned(self) -> (owned: FunctionBlockNameOwned)
        ensures
            owned.0@ == self.units(),
    {
        match self {
            FunctionBlockNameMessage::Owned(m) => m,
            FunctionBlockNameMessage::Borrowed(m) => m.into_owned(),
        }
    }
}

/// The header of a message that nothing has been set in.
pub open spec fn default_header() -> Header {
    Header { format: Format::UmpStreamBlock, group: 0, status: STATUS, detail: 0 }
}

/// Builds a function block name message in a vector of its own: the fields
/// every packet repeats and the payload to split.
/// `M` is the type the finished message is handed out as.
pub struct FunctionBlockNameBuilder<M: From<FunctionBlockNameOwned>> {
    pub header: Header,
    pub payload: Vec<u8>,
    pub marker: core::marker::PhantomData<M>,
}

impl<M: From<FunctionBlockNameOwned>> FunctionBlockNameBuilder<M> {
    /// The builder holds a header of this kind.
    pub open spec fn wf(&self) -> bool {
        is_header(self.header)
    }

    /// A builder for a message with every field at its default and an
    /// empty payload.
    pub fn new() -> (builder: Self)
        ensures
            builder.wf(),
            builder.header == default_header(),
            builder.payload@ == Seq::<u8>::empty(),
    {
        FunctionBlockNameBuilder {
            header: Header { format: Format::UmpStreamBlock, group: 0, status: STATUS, detail: 0 },
            payload: Vec::new(),
            marker: core::marker::PhantomData,
        }
    }

    pub fn function_block(&mut self, value: u8) -> (ret: &mut Self)
        requires
            old(self).wf(),
        ensures
            ret.wf(),
            ret.payload == old(self).payload,
            ret.header == (Header { detail: value, ..old(self).header }),
            *final(self) == *final(ret),
    {
        self.header.detail = value;
        self
    }

    /// Sets the name.
    pub fn name(&mut self, name_str: &str) -> (ret: &mut Self)
        requires
            old(self).wf(),
        ensures
            ret.wf(),
            ret.header == old(self).header,
            ret.payload@ == name_str.spec_bytes(),
            *final(self) == *final(ret),
    {
        let data = name_str.as_bytes();
        self.payload = vstd::slice::slice_to_vec(data);
        self
    }

    /// The finished message: the packets that carry the payload, owned.
    pub fn build(&self) -> (r: Result<M, Error>)
        requires
            self.wf(),
        ensures
            r is Ok,
            M::obeys_from_spec() ==> exists|owned: FunctionBlockNameOwned|
                owned.0@ == spec_encode_words(self.header, self.payload@) && r->Ok_0
                    == #[trigger] M::from_spec(owned),
    {
        let owned = FunctionBlockNameOwned(encode(&self.header, self.payload.as_slice()));
        Ok(M::from(owned))
    }
}

impl<M: From<FunctionBlockNameOwned>> Default for FunctionBlockNameBuilder<M> {
    fn default() -> (builder: Self)
        ensures
            builder.wf(),
            builder.header == default_header(),
            builder.payload@ == Seq::<u8>::empty(),
    {
        FunctionBlockNameBuilder::new()
    }
}

/// A message survives being built and read back: the packets that carry
/// a payload under a header of this kind validate, hold the fields of the
/// header, and hold the text. The text must hold no zero byte, since
/// zero bytes are read as padding.
pub proof fn lemma_payload_round_trip(h: Header, payload: Seq<u8>)
    requires
        is_header(h),
        forall|k: int| 0 <= k < payload.len() ==> payload[k] != 0,
    ensures
        spec_validate(spec_encode_words(h, payload)) is Ok,
        spec_text_bytes(spec_encode_words(h, payload), Format::UmpStreamBlock) == payload,
        spec_function_block(spec_encode_words(h, payload)) == h.detail,
{
    let units = spec_encode_words(h, payload);
    lemma_text_round_trip(h, payload);
    lemma_encoded_header(h, payload);
    let role = crate::segmentation::role_of(
        0,
        crate::segmentation::packet_count(payload.len(), h.format.capacity()),
    );
    let chunk = crate::segmentation::chunk_len(payload.len(), h.format.capacity(), 0);
    assert(role.code() <= 3);
    assert(bytes_of(units)[0] == crate::segmentation::header_byte(h, role, chunk, 0));
    assert(bytes_of(units)[1] == crate::segmentation::header_byte(h, role, chunk, 1));
    assert(bytes_of(units)[2] == crate::segmentation::header_byte(h, role, chunk, 2));
}

} // verus!
