//! The composer name message: text of any length, carried as UTF-8 in as
//! many flex data packets as it takes.

use vstd::prelude::*;
use vstd::std_specs::convert::{FromSpec, FromSpecImpl};
use vstd::string::StringSliceAdditionalSpecFns;
use crate::error::{ERR_FLEX_ADDRESS, ERR_INCORRECT_STATUS, Error};
use crate::message::ump_stream::endpoint_name::{
    lemma_text_round_trip, read_text, spec_text, spec_text_bytes, NameBytesIterator,
};
use crate::numeric_types::U4;
use crate::segmentation::{
    bytes_of, encode, get_byte, lemma_encoded_header, spec_encode_words, spec_validate_group,
    validate_group, Format, Header,
};

verus! {

/// The status bank and the status, as one number.
pub const CODE: u16 = 0x0105;

/// The group every packet of a valid message holds.
pub open spec fn spec_group(units: Seq<u32>) -> int {
    (bytes_of(units)[0] % 16) as int
}

/// The address bits every packet of a valid message holds: zero when the
/// message is addressed to a channel, one when to the whole group.
pub open spec fn spec_address(units: Seq<u32>) -> int {
    (bytes_of(units)[1] as int % 64) / 16
}

/// The channel nibble every packet of a valid message holds.
pub open spec fn spec_channel(units: Seq<u32>) -> int {
    bytes_of(units)[1] as int % 16
}

/// What a header must hold to be the header of a composer name message.
pub open spec fn is_header(h: Header) -> bool {
    h.wf() && h.format == Format::FlexData && h.status == CODE && h.detail < 0x20
}

/// The verdict on a word sequence as a composer name message.
pub open spec fn spec_validate(units: Seq<u32>) -> Result<(), Error> {
    match spec_validate_group(units, Format::FlexData) {
        Err(e) => Err(e),
        Ok(()) => if bytes_of(units)[2] as int * 256 + bytes_of(units)[3] as int != CODE {
            Err(Error::InvalidData(ERR_INCORRECT_STATUS))
        } else if spec_address(units) > 1 {
            Err(Error::InvalidData(ERR_FLEX_ADDRESS))
        } else {
            Ok(())
        },
    }
}

/// Validates a word sequence as a composer name message.
pub fn validate_data(buffer: &[u32]) -> (r: Result<(), Error>)
    ensures
        r == spec_validate(buffer@),
{
    match validate_group(buffer, Format::FlexData) {
        Err(e) => Err(e),
        Ok(()) => {
            if get_byte(buffer, 2) as u16 * 256 + get_byte(buffer, 3) as u16 != CODE {
                return Err(Error::InvalidData(ERR_INCORRECT_STATUS));
            }
            if (get_byte(buffer, 1) % 64) / 16 > 1 {
                return Err(Error::InvalidData(ERR_FLEX_ADDRESS));
            }
            Ok(())
        },
    }
}

fn read_group(data: &[u32]) -> (value: U4)
    requires
        data@.len() >= 1,
    ensures
        value@ == spec_group(data@),
{
    U4::new(get_byte(data, 0) % 16)
}

fn read_channel(data: &[u32]) -> (value: Option<U4>)
    requires
        data@.len() >= 1,
    ensures
        match value {
            Some(channel) => spec_address(data@) == 0 && channel@ == spec_channel(data@),
            None => spec_address(data@) != 0,
        },
{
    let bits = get_byte(data, 1) % 64;
    if bits / 16 == 0 {
        Some(U4::new(bits % 16))
    } else {
        None
    }
}

/// A composer name message in a borrowed word slice.
#[derive(Debug, Clone, PartialEq, Eq)]
pub struct ComposerNameBorrowed<'a>(pub &'a [u32]);

/// A composer name message that owns its words.
#[derive(Debug, Clone, PartialEq, Eq)]
pub struct ComposerNameOwned(pub Vec<u32>);

/// A composer name message, borrowed or owned.
#[derive(Debug, Clone, PartialEq, Eq)]
pub enum ComposerNameMessage<'a> {
    Borrowed(ComposerNameBorrowed<'a>),
    Owned(ComposerNameOwned),
}

impl<'a> ComposerNameBorrowed<'a> {
    /// The words of the message.
    pub open spec fn units(&self) -> Seq<u32> {
        self.0@
    }

    /// The words hold a valid message.
    pub open spec fn wf(&self) -> bool {
        spec_validate(self.units()) is Ok
    }

    /// The words the message occupies: all of them.
    pub open spec fn spec_data(&self) -> Seq<u32> {
        self.units()
    }

    /// The words of the owned copy of the message.
    pub open spec fn spec_owned(&self) -> Seq<u32> {
        self.units()
    }

    /// The message a slice is taken as.
    pub open spec fn spec_from_data(buffer: &'a [u32]) -> Self {
        ComposerNameBorrowed(buffer)
    }

    pub fn data(&self) -> (data: &[u32])
        ensures
            data@ == self.units(),
    {
        self.0
    }

    pub fn group(&self) -> (value: U4)
        requires
            self.wf(),
        ensures
            value@ == spec_group(self.units()),
    {
        read_group(self.data())
    }

    /// The channel the message is addressed to, or `None` if it is
    /// addressed to the whole group.
    pub fn optional_channel(&self) -> (value: Option<U4>)
        requires
            self.wf(),
        ensures
            match value {
                Some(channel) => spec_address(self.units()) == 0 && channel@ == spec_channel(
                    self.units(),
                ),
                None => spec_address(self.units()) == 1,
            },
    {
        read_channel(self.data())
    }

    /// The text as text.
    pub fn text(&self) -> (r: Result<String, Error>)
        requires
            self.wf(),
        ensures
            match spec_text(spec_text_bytes(self.units(), Format::FlexData)) {
                Ok(text) => r is Ok && r->Ok_0@ == text,
                Err(e) => r == Err::<String, Error>(e),
            },
    {
        read_text(self.data(), Format::FlexData)
    }

    /// A walk over the bytes of the text.
    pub fn text_bytes(&self) -> (walk: NameBytesIterator<'_>)
        requires
            self.wf(),
        ensures
            walk.wf(),
            walk.remaining() == spec_text_bytes(self.units(), Format::FlexData),
    {
        NameBytesIterator::new(self.data(), Format::FlexData)
    }
}

impl ComposerNameOwned {
    /// The words of the message.
    pub open spec fn units(&self) -> Seq<u32> {
        self.0@
    }

    /// The words hold a valid message.
    pub open spec fn wf(&self) -> bool {
        spec_validate(self.units()) is Ok
    }

    /// The words the message occupies: all of them.
    pub open spec fn spec_data(&self) -> Seq<u32> {
        self.units()
    }

    pub fn data(&self) -> (data: &[u32])
        ensures
            data@ == self.units(),
    {
        self.0.as_slice()
    }

    pub fn group(&self) -> (value: U4)
        requires
            self.wf(),
        ensures
            value@ == spec_group(self.units()),
    {
        read_group(self.data())
    }

    /// The channel the message is addressed to, or `None` if it is
    /// addressed to the whole group.
    pub fn optional_channel(&self) -> (value: Option<U4>)
        requires
            self.wf(),
        ensures
            match value {
                Some(channel) => spec_address(self.units()) == 0 && channel@ == spec_channel(
                    self.units(),
                ),
                None => spec_address(self.units()) == 1,
            },
    {
        read_channel(self.data())
    }

    /// The text as text.
    pub fn text(&self) -> (r: Result<String, Error>)
        requires
            self.wf(),
        ensures
            match spec_text(spec_text_bytes(self.units(), Format::FlexData)) {
                Ok(text) => r is Ok && r->Ok_0@ == text,
                Err(e) => r == Err::<String, Error>(e),
            },
    {
        read_text(self.data(), Format::FlexData)
    }

    /// A walk over the bytes of the text.
    pub fn text_bytes(&self) -> (walk: NameBytesIterator<'_>)
        requires
            self.wf(),
        ensures
            walk.wf(),
            walk.remaining() == spec_text_bytes(self.units(), Format::FlexData),
    {
        NameBytesIterator::new(self.data(), Format::FlexData)
    }
}

impl<'a> ComposerNameMessage<'a> {
    /// The words of the message.
    pub open spec fn units(&self) -> Seq<u32> {
        match self {
            ComposerNameMessage::Borrowed(m) => m.0@,
            ComposerNameMessage::Owned(m) => m.0@,
        }
    }

    /// The words hold a valid message.
    pub open spec fn wf(&self) -> bool {
        spec_validate(self.units()) is Ok
    }

    /// The words the message occupies: all of them.
    pub open spec fn spec_data(&self) -> Seq<u32> {
        self.units()
    }

    /// The words of the owned copy of the message.
    pub open spec fn spec_owned(&self) -> Seq<u32> {
        self.units()
    }

    pub fn data(&self) -> (data: &[u32])
        ensures
            data@ == self.units(),
    {
        match self {
            ComposerNameMessage::Borrowed(m) => m.0,
            ComposerNameMessage::Owned(m) => m.0.as_slice(),
        }
    }

    pub fn group(&self) -> (value: U4)
        requires
            self.wf(),
        ensures
            value@ == spec_group(self.units()),
    {
        read_group(self.data())
    }

    /// The channel the message is addressed to, or `None` if it is
    /// addressed to the whole group.
    pub fn optional_channel(&self) -> (value: Option<U4>)
        requires
            self.wf(),
        ensures
            match value {
                Some(channel) => spec_address(self.units()) == 0 && channel@ == spec_channel(
                    self.units(),
                ),
                None => spec_address(self.units()) == 1,
            },
    {
        read_channel(self.data())
    }

    /// The text as text.
    pub fn text(&self) -> (r: Result<String, Error>)
        requires
            self.wf(),
        ensures
            match spec_text(spec_text_bytes(self.units(), Format::FlexData)) {
                Ok(text) => r is Ok && r->Ok_0@ == text,
                Err(e) => r == Err::<String, Error>(e),
            },
    {
        read_text(self.data(), Format::FlexData)
    }

    /// A walk over the bytes of the text.
    pub fn text_bytes(&self) -> (walk: NameBytesIterator<'_>)
        requires
            self.wf(),
        ensures
            walk.wf(),
            walk.remaining() == spec_text_bytes(self.units(), Format::FlexData),
    {
        NameBytesIterator::new(self.data(), Format::FlexData)
    }
}

impl<'a> From<ComposerNameBorrowed<'a>> for ComposerNameMessage<'a> {
    fn from(value: ComposerNameBorrowed<'a>) -> (r: Self) {
        ComposerNameMessage::Borrowed(value)
    }
}

impl<'a> FromSpecImpl<ComposerNameBorrowed<'a>> for ComposerNameMessage<'a> {
    open spec fn obeys_from_spec() -> bool {
        true
    }

    open spec fn from_spec(value: ComposerNameBorrowed<'a>) -> Self {
        ComposerNameMessage::Borrowed(value)
    }
}

impl<'a> From<ComposerNameOwned> for ComposerNameMessage<'a> {
    fn from(value: ComposerNameOwned) -> (r: Self) {
        ComposerNameMessage::Owned(value)
    }
}

impl<'a> FromSpecImpl<ComposerNameOwned> for ComposerNameMessage<'a> {
    open spec fn obeys_from_spec() -> bool {
        true
    }

    open spec fn from_spec(value: ComposerNameOwned) -> Self {
        ComposerNameMessage::Owned(value)
    }
}

impl<'a> ComposerNameBorrowed<'a> {
    /// Takes a slice as a message without looking at it.
    pub fn from_data_unchecked(buffer: &'a [u32]) -> (message: Self)
        ensures
            message == ComposerNameBorrowed(buffer),
    {
        ComposerNameBorrowed(buffer)
    }

    /// Validates that a slice holds a composer name message.
    pub fn validate_data(buffer: &'a [u32]) -> (r: Result<(), Error>)
        ensures
            r == spec_validate(buffer@),
    {
        validate_data(buffer)
    }

    /// Parses a slice: the message over it if it validates, else the first
    /// failure.
    pub fn from_data(buffer: &'a [u32]) -> (r: Result<Self, Error>)
        ensures
            match spec_validate(buffer@) {
                Ok(()) => r == Ok::<Self, Error>(ComposerNameBorrowed(buffer)),
                Err(e) => r == Err::<Self, Error>(e),
            },
    {
        match validate_data(buffer) {
            Ok(()) => Ok(ComposerNameBorrowed(buffer)),
            Err(e) => Err(e),
        }
    }

    /// The message with its words owned.
    pub fn into_owned(self) -> (owned: ComposerNameOwned)
        ensures
            owned.0@ == self.units(),
    {
        ComposerNameOwned(vstd::slice::slice_to_vec(self.0))
    }
}

impl<'a> ComposerNameMessage<'a> {
    /// Starts a message that will own its words.
    pub fn builder() -> (builder: ComposerNameBuilder<Self>)
        ensures
            builder.wf(),
            builder.header == default_header(),
            builder.payload@ == Seq::<u8>::empty(),
    {
        ComposerNameBuilder::new()
    }

    /// Takes a slice as a message without looking at it.
    pub fn from_data_unchecked(buffer: &'a [u32]) -> (message: Self)
        ensures
            message == ComposerNameMessage::Borrowed(ComposerNameBorrowed(buffer)),
    {
        ComposerNameMessage::Borrowed(ComposerNameBorrowed(buffer))
    }

    /// Validates that a slice holds a composer name message.
    pub fn validate_data(buffer: &'a [u32]) -> (r: Result<(), Error>)
        ensures
            r == spec_validate(buffer@),
    {
        validate_data(buffer)
    }

    /// Parses a slice: the message over it if it validates, else the first
    /// failure.
    pub fn from_data(buffer: &'a [u32]) -> (r: Result<Self, Error>)
        ensures
            match spec_validate(buffer@) {
                Ok(()) => r == Ok::<Self, Error>(
                    ComposerNameMessage::Borrowed(ComposerNameBorrowed(buffer))
                ),
                Err(e) => r == Err::<Self, Error>(e),
            },
    {
        match validate_data(buffer) {
            Ok(()) => Ok(ComposerNameMessage::Borrowed(ComposerNameBorrowed(buffer))),
            Err(e) => Err(e),
        }
    }

    /// The message with its words owned.
    pub fn into_owned(self) -> (owned: ComposerNameOwned)
        ensures
            owned.0@ == self.units(),
    {
        match self {
            ComposerNameMessage::Owned(m) => m,
            ComposerNameMessage::Borrowed(m) => m.into_owned(),
        }
    }
}

/// The header of a message that nothing has been set in.
pub open spec fn default_header() -> Header {
    Header { format: Format::FlexData, group: 0, status: CODE, detail: 0x10 }
}

/// Builds a composer name message in a vector of its own: the fields
/// every packet repeats and the payload to split.
/// `M` is the type the finished message is handed out as.
pub struct ComposerNameBuilder<M: From<ComposerNameOwned>> {
    pub header: Header,
    pub payload: Vec<u8>,
    pub marker: core::marker::PhantomData<M>,
}

impl<M: From<ComposerNameOwned>> ComposerNameBuilder<M> {
    /// The builder holds a header of this kind.
    pub open spec fn wf(&self) -> bool {
        is_header(self.header)
    }

    /// A builder for a message with every field at its default and an
    /// empty payload.
    pub fn new() -> (builder: Self)
        ensures
            builder.wf(),
            builder.header == default_header(),
            builder.payload@ == Seq::<u8>::empty(),
    {
        ComposerNameBuilder {
            header: Header { format: Format::FlexData, group: 0, status: CODE, detail: 0x10 },
            payload: Vec::new(),
            marker: core::marker::PhantomData,
        }
    }

    pub fn group(&mut self, value: U4) -> (ret: &mut Self)
        requires
            old(self).wf(),
        ensures
            ret.wf(),
            ret.payload == old(self).payload,
            ret.header == (Header { group: value@ as u8, ..old(self).header }),
            *final(self) == *final(ret),
    {
        self.header.group = value.value();
        self
    }

    /// Addresses the message to a channel, or with `None` to the whole
    /// group.
    pub fn optional_channel(&mut self, value: Option<U4>) -> (ret: &mut Self)
        requires
            old(self).wf(),
        ensures
            ret.wf(),
            ret.payload == old(self).payload,
            ret.header == (Header {
                detail: match value {
                    Some(channel) => channel@ as u8,
                    None => 0x10u8,
                },
                ..old(self).header
            }),
            *final(self) == *final(ret),
    {
        self.header.detail = match value {
            Some(channel) => channel.value(),
            None => 0x10,
        };
        self
    }

    /// Sets the text.
    pub fn text(&mut self, text_str: &str) -> (ret: &mut Self)
        requires
            old(self).wf(),
        ensures
            ret.wf(),
            ret.header == old(self).header,
            ret.payload@ == text_str.spec_bytes(),
            *final(self) == *final(ret),
    {
        let data = text_str.as_bytes();
        self.payload = vstd::slice::slice_to_vec(data);
        self
    }

    /// The finished message: the packets that carry the payload, owned.
    pub fn build(&self) -> (r: Result<M, Error>)
        requires
            self.wf(),
        ensures
            r is Ok,
            M::obeys_from_spec() ==> exists|owned: ComposerNameOwned|
                owned.0@ == spec_encode_words(self.header, self.payload@) && r->Ok_0
                    == #[trigger] M::from_spec(owned),
    {
        let owned = ComposerNameOwned(encode(&self.header, self.payload.as_slice()));
        Ok(M::from(owned))
    }
}

impl<M: From<ComposerNameOwned>> Default for ComposerNameBuilder<M> {
    fn default() -> (builder: Self)
        ensures
            builder.wf(),
            builder.header == default_header(),
            builder.payload@ == Seq::<u8>::empty(),
    {
        ComposerNameBuilder::new()
    }
}

/// A message survives being built and read back: the packets that carry
/// a payload under a header of this kind validate, hold the fields of the
/// header, and hold the text. The text must hold no zero byte, since
/// zero bytes are read as padding.
pub proof fn lemma_payload_round_trip(h: Header, payload: Seq<u8>)
    requires
        is_header(h),
        forall|k: int| 0 <= k < payload.len() ==> payload[k] != 0,
    ensures
        spec_validate(spec_encode_words(h, payload)) is Ok,
        spec_text_bytes(spec_encode_words(h, payload), Format::FlexData) == payload,
        spec_group(spec_encode_words(h, payload)) == h.group,
        spec_address(spec_encode_words(h, payload)) == h.detail / 16,
        spec_channel(spec_encode_words(h, payload)) == h.detail % 16,
{
    let units = spec_encode_words(h, payload);
    lemma_text_round_trip(h, payload);
    lemma_encoded_header(h, payload);
    let role = crate::segmentation::role_of(
        0,
        crate::segmentation::packet_count(payload.len(), h.format.capacity()),
    );
    let chunk = crate::segmentation::chunk_len(payload.len(), h.format.capacity(), 0);
    assert(role.code() <= 3);
    assert(bytes_of(units)[0] == crate::segmentation::header_byte(h, role, chunk, 0));
    assert(bytes_of(units)[1] == crate::segmentation::header_byte(h, role, chunk, 1));
    assert(bytes_of(units)[2] == crate::segmentation::header_byte(h, role, chunk, 2));
    assert(bytes_of(units)[3] == crate::segmentation::header_byte(h, role, chunk, 3));
}

} // verus!
