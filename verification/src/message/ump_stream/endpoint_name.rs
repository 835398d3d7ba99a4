//! The endpoint name notification: a name of any length, carried as UTF-8
//! in as many stream packets as it takes.

use vstd::prelude::*;
use vstd::std_specs::convert::{FromSpec, FromSpecImpl};
use vstd::string::StringSliceAdditionalSpecFns;
use vstd::utf8::{decode_utf8, valid_utf8};
use crate::bit_ops::extract;
use crate::error::{ERR_INCORRECT_STATUS, ERR_NAME_NOT_UTF8, Error};
use crate::numeric_types::U10;
use crate::segmentation::{
    bytes_of, encode, encode_into, encoded_len, get_byte, identity_of, packet_count, role_of,
    spec_encode_words, spec_payload, spec_validate_group, validate_group, Format, Header,
    PayloadIterator,
};

verus! {

pub const STATUS: u16 = 0x3;

/// What every packet of an endpoint name message starts with.
pub open spec fn header() -> Header {
    Header { format: Format::UmpStream, group: 0, status: STATUS, detail: 0 }
}

fn name_header() -> (h: Header)
    ensures
        h == header(),
        h.wf(),
{
    Header { format: Format::UmpStream, group: 0, status: STATUS, detail: 0 }
}

/// The status a stream packet sequence holds in its first packet.
pub open spec fn spec_status(units: Seq<u32>) -> int {
    identity_of(bytes_of(units), Format::UmpStream, 0)
}

/// The verdict on a word sequence as an endpoint name message: it must be
/// a well-formed sequence of stream packets, and their status must be the
/// endpoint name status.
pub open spec fn spec_validate(units: Seq<u32>) -> Result<(), Error> {
    match spec_validate_group(units, Format::UmpStream) {
        Err(e) => Err(e),
        Ok(()) => if spec_status(units) != STATUS {
            Err(Error::InvalidData(ERR_INCORRECT_STATUS))
        } else {
            Ok(())
        },
    }
}

/// The test that tells the bytes of a name from padding.
pub open spec fn is_name_byte() -> spec_fn(u8) -> bool {
    |byte: u8| byte != 0
}

/// The bytes of the text a valid message of a format with fixed chunks
/// carries: its payload without the zero bytes that pad it.
pub open spec fn spec_text_bytes(units: Seq<u32>, format: Format) -> Seq<u8> {
    spec_payload(units, format).filter(is_name_byte())
}

/// The bytes of the name a valid message carries.
pub open spec fn spec_name_bytes(units: Seq<u32>) -> Seq<u8> {
    spec_text_bytes(units, Format::UmpStream)
}

/// The words that carry a name.
pub open spec fn spec_encode_name(name: Seq<u8>) -> Seq<u32> {
    spec_encode_words(header(), name)
}

/// Reads the ten-bit status of the first packet.
pub fn status_from_buffer(buffer: &[u32]) -> (status: U10)
    requires
        buffer@.len() >= 1,
    ensures
        status@ == spec_status(buffer@),
{
    let h0 = get_byte(buffer, 0);
    let h1 = get_byte(buffer, 1);
    U10::new((h0 % 4) as u16 * 256 + h1 as u16)
}

/// Validates a word sequence as an endpoint name message.
pub fn validate_data(buffer: &[u32]) -> (r: Result<(), Error>)
    ensures
        r == spec_validate(buffer@),
{
    match validate_group(buffer, Format::UmpStream) {
        Err(e) => Err(e),
        Ok(()) => {
            if status_from_buffer(buffer).value() != STATUS {
                Err(Error::InvalidData(ERR_INCORRECT_STATUS))
            } else {
                Ok(())
            }
        },
    }
}

/// The error of `String::from_utf8` of the standard library. Nothing is
/// said of what it holds; it is turned into `InvalidData` as soon as it is
/// met.
#[verifier::external_type_specification]
#[verifier::external_body]
pub struct ExFromUtf8Error(std::string::FromUtf8Error);

/// `String::from_utf8` of the standard library. The contract says what its
/// documentation says: the conversion succeeds exactly on well-formed
/// UTF-8, and the string then holds the characters those bytes encode.
#[verifier::external_body]
fn string_from_utf8(bytes: Vec<u8>) -> (r: Result<String, std::string::FromUtf8Error>)
    ensures
        r is Ok <==> valid_utf8(bytes@),
        r is Ok ==> r->Ok_0@ == decode_utf8(bytes@),
{
    String::from_utf8(bytes)
}

/// A forward-only walk over the bytes of a name. Zero bytes, which only
/// ever pad a packet, are passed over.
pub struct NameBytesIterator<'a>(PayloadIterator<'a>);

impl<'a> NameBytesIterator<'a> {
    pub closed spec fn wf(&self) -> bool {
        self.0.wf()
    }

    /// The bytes of the name not yet handed out.
    pub closed spec fn remaining(&self) -> Seq<u8> {
        self.0.remaining().filter(is_name_byte())
    }

    /// Starts a walk at the first byte of the text that a valid message of
    /// the given format carries.
    pub fn new(data: &'a [u32], format: Format) -> (walk: Self)
        requires
            spec_validate_group(data@, format) is Ok,
        ensures
            walk.wf(),
            walk.remaining() == spec_text_bytes(data@, format),
    {
        NameBytesIterator(PayloadIterator::new(data, format))
    }

    /// The next byte of the name, or `None` at its end.
    pub fn next(&mut self) -> (r: Option<u8>)
        requires
            old(self).wf(),
        ensures
            final(self).wf(),
            match r {
                Some(byte) => byte != 0 && old(self).remaining() == seq![byte]
                    + final(self).remaining(),
                None => old(self).remaining().len() == 0 && final(self).remaining().len() == 0,
            },
    {
        let ghost keep = is_name_byte();
        loop
            invariant
                self.wf(),
                keep == is_name_byte(),
                self.0.remaining().filter(keep) == old(self).0.remaining().filter(keep),
            decreases self.0.remaining().len(),
        {
            let ghost before = self.0.remaining();
            match self.0.next() {
                None => {
                    proof {
                        assert(before =~= Seq::<u8>::empty());
                        assert(self.0.remaining() =~= Seq::<u8>::empty());
                    }
                    return None;
                },
                Some(byte) => {
                    proof {
                        let rest = self.0.remaining();
                        Seq::<u8>::filter_distributes_over_add(seq![byte], rest, keep);
                        reveal_with_fuel(Seq::filter, 2);
                        assert(seq![byte].drop_last() =~= Seq::<u8>::empty());
                        assert(seq![byte].filter(keep) =~= if byte != 0 {
                            seq![byte]
                        } else {
                            Seq::<u8>::empty()
                        });
                        assert(Seq::<u8>::empty() + rest.filter(keep) =~= rest.filter(keep));
                    }
                    if byte != 0 {
                        return Some(byte);
                    }
                },
            }
        }
    }
}

/// Collects the bytes of the text that a valid message of the given format
/// carries.
pub fn collect_text_bytes(data: &[u32], format: Format) -> (bytes: Vec<u8>)
    requires
        spec_validate_group(data@, format) is Ok,
    ensures
        bytes@ == spec_text_bytes(data@, format),
{
    let mut walk = NameBytesIterator::new(data, format);
    let mut bytes: Vec<u8> = Vec::new();
    loop
        invariant
            walk.wf(),
            bytes@ + walk.remaining() == spec_text_bytes(data@, format),
        decreases walk.remaining().len(),
    {
        match walk.next() {
            None => {
                proof {
                    assert(bytes@ + walk.remaining() =~= bytes@);
                }
                return bytes;
            },
            Some(byte) => {
                let ghost before = bytes@;
                bytes.push(byte);
                proof {
                    assert(bytes@ + walk.remaining() =~= before + (seq![byte] + walk.remaining()));
                }
            },
        }
    }
}

/// Filtering keeps a sequence whose every element passes, and empties one
/// whose every element fails.
proof fn lemma_filter_all_or_none(bytes: Seq<u8>, keep: spec_fn(u8) -> bool)
    ensures
        (forall|i: int| 0 <= i < bytes.len() ==> keep(bytes[i])) ==> bytes.filter(keep) == bytes,
        (forall|i: int| 0 <= i < bytes.len() ==> !keep(bytes[i])) ==> bytes.filter(keep).len() == 0,
    decreases bytes.len(),
{
    reveal(Seq::filter);
    if bytes.len() > 0 {
        lemma_filter_all_or_none(bytes.drop_last(), keep);
        if forall|i: int| 0 <= i < bytes.len() ==> keep(bytes[i]) {
            assert(bytes.drop_last().push(bytes.last()) =~= bytes);
        }
    }
}

/// What reading bytes as text yields: the text they encode, or
/// `InvalidData` if they are not UTF-8.
pub open spec fn spec_text(bytes: Seq<u8>) -> Result<Seq<char>, Error> {
    if valid_utf8(bytes) {
        Ok(decode_utf8(bytes))
    } else {
        Err(Error::InvalidData(ERR_NAME_NOT_UTF8))
    }
}

/// What reading the name of a valid message yields.
pub open spec fn spec_name(units: Seq<u32>) -> Result<Seq<char>, Error> {
    spec_text(spec_name_bytes(units))
}

/// Reads the text that a valid message of the given format carries.
pub fn read_text(data: &[u32], format: Format) -> (r: Result<String, Error>)
    requires
        spec_validate_group(data@, format) is Ok,
    ensures
        match spec_text(spec_text_bytes(data@, format)) {
            Ok(text) => r is Ok && r->Ok_0@ == text,
            Err(e) => r == Err::<String, Error>(e),
        },
{
    name_from_conversion(string_from_utf8(collect_text_bytes(data, format)))
}

/// Text survives being split into packets and read back, provided it
/// holds no zero byte, since zero bytes are read as padding.
pub proof fn lemma_text_round_trip(header: Header, text: Seq<u8>)
    requires
        header.wf(),
        header.format.fixed_chunks(),
        forall|i: int| 0 <= i < text.len() ==> text[i] != 0,
    ensures
        spec_validate_group(spec_encode_words(header, text), header.format) is Ok,
        spec_text_bytes(spec_encode_words(header, text), header.format) == text,
{
    let units = spec_encode_words(header, text);
    crate::segmentation::lemma_encode_then_decode(header, text, units);
    let capacity = header.format.capacity();
    let padding = Seq::new(
        (crate::segmentation::packet_count(text.len(), capacity) * capacity - text.len()) as nat,
        |i: int| 0u8,
    );
    assert(crate::segmentation::padded(header.format, text) == text + padding);
    Seq::<u8>::filter_distributes_over_add(text, padding, is_name_byte());
    lemma_filter_all_or_none(text, is_name_byte());
    lemma_filter_all_or_none(padding, is_name_byte());
    assert(text + padding.filter(is_name_byte()) =~= text);
}

/// A name survives being built into a message and read back: the packets
/// that carry it validate as an endpoint name message, and the name bytes
/// found in them are the bytes of the name. The name must hold no zero
/// byte, since zero bytes are read as padding.
pub proof fn lemma_name_round_trip(name: Seq<u8>)
    requires
        forall|i: int| 0 <= i < name.len() ==> name[i] != 0,
    ensures
        spec_validate(spec_encode_name(name)) is Ok,
        spec_name_bytes(spec_encode_name(name)) == name,
{
    lemma_text_round_trip(header(), name);
    crate::segmentation::lemma_encoded_packet(header(), name, 0);
    crate::segmentation::lemma_encoded_words(header(), name);
}

/// The number of words that carry a name of one byte or more: four for
/// every fourteen bytes of the name, rounded up.
pub proof fn lemma_name_length(name: Seq<u8>)
    requires
        name.len() >= 1,
    ensures
        packet_count(name.len(), 14) == (name.len() + 13) / 14,
        spec_encode_name(name).len() == 4 * packet_count(name.len(), 14),
        packet_count(name.len(), 14) == 1 <==> name.len() <= 14,
{
    let h = header();
    let count = packet_count(name.len(), 14);
    crate::segmentation::lemma_encoded_words(h, name);
    crate::segmentation::lemma_segmentation(name.len(), 14);
    assert(h.format == Format::UmpStream);
    assert(h.format.packet_bytes() == 16);
    assert(h.format.capacity() == 14);
    assert(encoded_len(h.format, name.len()) == count * 16);
    assert(4 * spec_encode_words(h, name).len() == count * 16);
}

/// The two header bytes of an endpoint name packet of a given role.
proof fn lemma_name_header_values(role: crate::segmentation::Role, chunk: nat)
    ensures
        crate::segmentation::header_byte(header(), role, chunk, 0) == 0xF0 + 4 * role.code(),
        crate::segmentation::header_byte(header(), role, chunk, 1) == STATUS,
{
    assert(role.code() <= 3);
}

/// The first two bytes of every packet that carries a name: the stream
/// type with the role under it, and the endpoint name status.
#[verifier::rlimit(30)]
proof fn lemma_name_header_bytes(name: Seq<u8>, packet: nat)
    requires
        packet < packet_count(name.len(), 14),
    ensures
        4 * packet + 4 <= spec_encode_name(name).len(),
        bytes_of(spec_encode_name(name))[16 * packet as int] == 0xF0 + 4 * role_of(
            packet,
            packet_count(name.len(), 14),
        ).code(),
        bytes_of(spec_encode_name(name))[16 * packet as int + 1] == STATUS,
{
    let h = header();
    let role = role_of(packet, packet_count(name.len(), 14));
    let chunk = crate::segmentation::chunk_len(name.len(), 14, packet);
    assert(h.format.packet_bytes() == 16 && h.format.capacity() == 14 && h.format.packet_words()
        == 4 && h.format.header_bytes() == 2);
    crate::segmentation::lemma_encoded_packet_bytes(h, name, packet);
    crate::segmentation::lemma_encoded_packet_header(h, name, packet, 0);
    crate::segmentation::lemma_encoded_packet_header(h, name, packet, 1);
    lemma_name_header_values(role, chunk);
}

/// The payload bytes of every packet that carries a name: the bytes of the
/// name in order, then zeros.
proof fn lemma_name_payload_bytes(name: Seq<u8>, packet: nat)
    requires
        packet < packet_count(name.len(), 14),
    ensures
        forall|k: int|
            0 <= k < 14 ==> #[trigger] bytes_of(spec_encode_name(name))[16 * packet as int + 2 + k]
                == (if 14 * packet as int + k < name.len() {
                name[14 * packet as int + k]
            } else {
                0u8
            }),
{
    let h = header();
    let bytes = bytes_of(spec_encode_words(h, name));
    assert(h.format.packet_bytes() == 16 && h.format.capacity() == 14 && h.format.packet_words()
        == 4 && h.format.header_bytes() == 2);
    crate::segmentation::lemma_encoded_packet_bytes(h, name, packet);
    assert forall|k: int| 0 <= k < 14 implies #[trigger] bytes[16 * packet as int + 2 + k] == (
    if 14 * packet as int + k < name.len() {
        name[14 * packet as int + k]
    } else {
        0u8
    }) by {
        let offset = (2 + k) as nat;
        assert(bytes[(packet * 16 + offset) as int] == crate::segmentation::encoded_packet_byte(
            h,
            name,
            packet,
            offset,
        ));
    }
}

/// A word whose two upper octets are those of an endpoint name header
/// holds the stream type, the endpoint name status and the role.
proof fn lemma_name_header_word(word: u32, code: u8)
    requires
        code <= 3,
        extract(word, 24, 8) == 0xF0 + 4 * code,
        extract(word, 16, 8) == STATUS,
    ensures
        extract(word, 28, 4) == 0xF,
        extract(word, 16, 10) == STATUS,
        extract(word, 26, 2) == code,
{
    crate::bit_ops::lemma_upper_half_fields(word);
}

/// The splitting law at the built message. The first word of every packet
/// that carries a name holds the stream type, the endpoint name status,
/// and the role of the packet: complete if the name fits one packet, else
/// start, continue or end by position. The bytes of the name follow in
/// order, and the bytes left over in the last packet are zero.
pub proof fn lemma_name_packets(name: Seq<u8>, packet: nat)
    requires
        packet < packet_count(name.len(), 14),
    ensures
        ({
            let words = spec_encode_name(name);
            let count = packet_count(name.len(), 14);
            let p = packet as int;
            &&& 4 * p + 4 <= words.len()
            &&& extract(words[4 * p], 28, 4) == 0xF
            &&& extract(words[4 * p], 16, 10) == STATUS
            &&& extract(words[4 * p], 26, 2) == role_of(packet, count).code()
            &&& forall|k: int|
                0 <= k < 14 ==> #[trigger] bytes_of(words)[16 * p + 2 + k] == (if 14 * p + k
                    < name.len() {
                    name[14 * p + k]
                } else {
                    0u8
                })
        }),
{
    let words = spec_encode_name(name);
    let p = packet as int;
    let role = role_of(packet, packet_count(name.len(), 14));
    lemma_name_header_bytes(name, packet);
    lemma_name_payload_bytes(name, packet);
    crate::segmentation::lemma_upper_octets(words, 4 * p);
    lemma_name_header_word(words[4 * p], role.code());
}

/// Decides what `name` returns from what the UTF-8 conversion said.
pub fn name_from_conversion(converted: Result<String, std::string::FromUtf8Error>) -> (r: Result<
    String,
    Error,
>)
    ensures
        match converted {
            Ok(text) => r == Ok::<String, Error>(text),
            Err(_) => r == Err::<String, Error>(Error::InvalidData(ERR_NAME_NOT_UTF8)),
        },
{
    match converted {
        Ok(text) => Ok(text),
        Err(_) => Err(Error::InvalidData(ERR_NAME_NOT_UTF8)),
    }
}

/// Read access to an endpoint name message, whatever owns its words.
pub trait EndpointName {
    /// The words of the message.
    spec fn units(&self) -> Seq<u32>;

    fn data(&self) -> (data: &[u32])
        ensures
            data@ == self.units(),
    ;

    /// The name as text.
    fn name(&self) -> (r: Result<String, Error>)
        requires
            spec_validate(self.units()) is Ok,
        ensures
            match spec_name(self.units()) {
                Ok(text) => r is Ok && r->Ok_0@ == text,
                Err(e) => r == Err::<String, Error>(e),
            },
    {
        read_text(self.data(), Format::UmpStream)
    }

    /// A walk over the bytes of the name.
    fn name_bytes(&self) -> (walk: NameBytesIterator<'_>)
        requires
            spec_validate(self.units()) is Ok,
        ensures
            walk.wf(),
            walk.remaining() == spec_name_bytes(self.units()),
    {
        NameBytesIterator::new(self.data(), Format::UmpStream)
    }
}

/// An endpoint name message in a borrowed word slice.
#[derive(Debug, Clone, PartialEq, Eq)]
pub struct EndpointNameBorrowed<'a>(pub &'a [u32]);

/// An endpoint name message that owns its words.
#[derive(Debug, Clone, PartialEq, Eq)]
pub struct EndpointNameOwned(pub Vec<u32>);

/// An endpoint name message, borrowed or owned.
#[derive(Debug, Clone, PartialEq, Eq)]
pub enum EndpointNameMessage<'a> {
    Borrowed(EndpointNameBorrowed<'a>),
    Owned(EndpointNameOwned),
}

impl<'a> EndpointName for EndpointNameBorrowed<'a> {
    open spec fn units(&self) -> Seq<u32> {
        self.0@
    }

    fn data(&self) -> (data: &[u32]) {
        self.0
    }
}

impl EndpointName for EndpointNameOwned {
    open spec fn units(&self) -> Seq<u32> {
        self.0@
    }

    fn data(&self) -> (data: &[u32]) {
        self.0.as_slice()
    }
}

impl<'a> EndpointName for EndpointNameMessage<'a> {
    open spec fn units(&self) -> Seq<u32> {
        match self {
            EndpointNameMessage::Borrowed(m) => m.0@,
            EndpointNameMessage::Owned(m) => m.0@,
        }
    }

    fn data(&self) -> (data: &[u32]) {
        match self {
            EndpointNameMessage::Owned(m) => m.data(),
            EndpointNameMessage::Borrowed(m) => m.data(),
        }
    }
}

impl<'a> From<EndpointNameBorrowed<'a>> for EndpointNameMessage<'a> {
    fn from(value: EndpointNameBorrowed<'a>) -> (r: Self) {
        EndpointNameMessage::Borrowed(value)
    }
}

impl<'a> FromSpecImpl<EndpointNameBorrowed<'a>>
    for EndpointNameMessage<'a> {
    open spec fn obeys_from_spec() -> bool {
        true
    }

    open spec fn from_spec(value: EndpointNameBorrowed<'a>) -> Self {
        EndpointNameMessage::Borrowed(value)
    }
}

impl<'a> From<EndpointNameOwned> for EndpointNameMessage<'a> {
    fn from(value: EndpointNameOwned) -> (r: Self) {
        EndpointNameMessage::Owned(value)
    }
}

impl<'a> FromSpecImpl<EndpointNameOwned> for EndpointNameMessage<'a> {
    open spec fn obeys_from_spec() -> bool {
        true
    }

    open spec fn from_spec(value: EndpointNameOwned) -> Self {
        EndpointNameMessage::Owned(value)
    }
}

impl EndpointNameOwned {
    /// The words hold a valid message.
    pub open spec fn wf(&self) -> bool {
        spec_validate(self.0@) is Ok
    }

    /// The words the message occupies: all of them.
    pub open spec fn spec_data(&self) -> Seq<u32> {
        self.0@
    }
}

impl<'a> EndpointNameBorrowed<'a> {
    /// The words hold a valid message.
    pub open spec fn wf(&self) -> bool {
        spec_validate(self.0@) is Ok
    }

    /// The words the message occupies: all of them.
    pub open spec fn spec_data(&self) -> Seq<u32> {
        self.0@
    }

    /// The words of the owned copy of the message.
    pub open spec fn spec_owned(&self) -> Seq<u32> {
        self.0@
    }

    /// The message a slice is taken as.
    pub open spec fn spec_from_data(buffer: &'a [u32]) -> Self {
        EndpointNameBorrowed(buffer)
    }

    /// Starts a message in the caller's buffer.
    pub fn builder(buffer: &'a mut [u32]) -> (builder: EndpointNameBorrowedBuilder<'a>)
        ensures
            builder.state() == EndpointNameBorrowedBuilder::after_name(
                old(buffer)@,
                Seq::<u8>::empty(),
            ),
            builder.wf(),
            builder.0 is Ok ==> final(buffer)@ == final(builder.0->Ok_0)@,
            builder.0 is Err ==> final(buffer)@ == old(buffer)@,
    {
        EndpointNameBorrowedBuilder::new(buffer)
    }

    /// Takes a slice as a message without looking at it.
    pub fn from_data_unchecked(buffer: &'a [u32]) -> (message: Self)
        ensures
            message == EndpointNameBorrowed(buffer),
    {
        EndpointNameBorrowed(buffer)
    }

    /// Validates that a slice holds an endpoint name message.
    pub fn validate_data(buffer: &'a [u32]) -> (r: Result<(), Error>)
        ensures
            r == spec_validate(buffer@),
    {
        validate_data(buffer)
    }

    /// Parses a slice: the message over it if it validates, else the first
    /// failure.
    pub fn from_data(buffer: &'a [u32]) -> (r: Result<Self, Error>)
        ensures
            match spec_validate(buffer@) {
                Ok(()) => r == Ok::<Self, Error>(EndpointNameBorrowed(buffer)),
                Err(e) => r == Err::<Self, Error>(e),
            },
    {
        match validate_data(buffer) {
            Ok(()) => Ok(EndpointNameBorrowed(buffer)),
            Err(e) => Err(e),
        }
    }

    /// A copy of the message that owns its words.
    pub fn into_owned(self) -> (owned: EndpointNameOwned)
        ensures
            owned.0@ == self.0@,
    {
        EndpointNameOwned(vstd::slice::slice_to_vec(self.0))
    }
}

impl<'a> EndpointNameMessage<'a> {
    /// The words hold a valid message.
    pub open spec fn wf(&self) -> bool {
        spec_validate(self.units()) is Ok
    }

    /// The words the message occupies: all of them.
    pub open spec fn spec_data(&self) -> Seq<u32> {
        self.units()
    }

    /// The words of the owned copy of the message.
    pub open spec fn spec_owned(&self) -> Seq<u32> {
        self.units()
    }

    /// Starts a message that will own its words.
    pub fn builder() -> (builder: EndpointNameBuilder<Self>)
        ensures
            builder.state() == Ok::<Seq<u32>, Error>(spec_encode_name(Seq::<u8>::empty())),
    {
        EndpointNameBuilder::new()
    }

    /// Takes a slice as a message without looking at it.
    pub fn from_data_unchecked(buffer: &'a [u32]) -> (message: Self)
        ensures
            message == EndpointNameMessage::Borrowed(EndpointNameBorrowed(buffer)),
    {
        EndpointNameMessage::Borrowed(EndpointNameBorrowed::from_data_unchecked(buffer))
    }

    /// Validates that a slice holds an endpoint name message.
    pub fn validate_data(buffer: &'a [u32]) -> (r: Result<(), Error>)
        ensures
            r == spec_validate(buffer@),
    {
        EndpointNameBorrowed::validate_data(buffer)
    }

    /// Parses a slice: a borrowed message over it if it validates, else
    /// the first failure.
    pub fn from_data(buffer: &'a [u32]) -> (r: Result<Self, Error>)
        ensures
            match spec_validate(buffer@) {
                Ok(()) => r == Ok::<Self, Error>(
                    EndpointNameMessage::Borrowed(EndpointNameBorrowed(buffer)),
                ),
                Err(e) => r == Err::<Self, Error>(e),
            },
    {
        match validate_data(buffer) {
            Ok(()) => Ok(EndpointNameMessage::Borrowed(EndpointNameBorrowed(buffer))),
            Err(e) => Err(e),
        }
    }

    /// The message with its words owned: an owned one as it is, a borrowed
    /// one copied.
    pub fn into_owned(self) -> (owned: EndpointNameOwned)
        ensures
            owned.0@ == self.units(),
    {
        match self {
            EndpointNameMessage::Owned(m) => m,
            EndpointNameMessage::Borrowed(m) => m.into_owned(),
        }
    }
}

/// Builds an endpoint name message in a vector of its own. `M` is the
/// type the finished message is handed out as.
pub struct EndpointNameBuilder<M: From<EndpointNameOwned>>(
    pub Result<Vec<u32>, Error>,
    pub core::marker::PhantomData<M>,
);

impl<M: From<EndpointNameOwned>> EndpointNameBuilder<M> {
    /// The packets built so far, or the error held.
    pub open spec fn state(&self) -> Result<Seq<u32>, Error> {
        match self.0 {
            Ok(buffer) => Ok(buffer@),
            Err(e) => Err(e),
        }
    }

    /// A builder that holds the message with the empty name.
    pub fn new() -> (builder: Self)
        ensures
            builder.state() == Ok::<Seq<u32>, Error>(spec_encode_name(Seq::<u8>::empty())),
    {
        let empty: [u8; 0] = [];
        proof {
            assert(empty@ =~= Seq::<u8>::empty());
        }
        EndpointNameBuilder(Ok(encode(&name_header(), empty.as_slice())), core::marker::PhantomData)
    }

    /// The finished message, or the error held. The message owns a copy
    /// of the packets built.
    pub fn build(&self) -> (r: Result<M, Error>)
        ensures
            match self.0 {
                Ok(buffer) => r is Ok && (M::obeys_from_spec() ==> exists|owned: EndpointNameOwned|
                    owned.0@ == buffer@ && r->Ok_0 == #[trigger] M::from_spec(owned)),
                Err(e) => r == Err::<M, Error>(e),
            },
    {
        match &self.0 {
            Ok(buffer) => {
                let owned = EndpointNameOwned(vstd::slice::slice_to_vec(buffer.as_slice()));
                Ok(M::from(owned))
            },
            Err(e) => Err(*e),
        }
    }

    /// Sets the name. An error already held is kept.
    pub fn name(&mut self, name_str: &str) -> (ret: &mut Self)
        ensures
            match old(self).state() {
                Ok(_) => ret.state() == Ok::<Seq<u32>, Error>(
                    spec_encode_name(name_str.spec_bytes()),
                ),
                Err(e) => ret.state() == Err::<Seq<u32>, Error>(e),
            },
            *final(self) == *final(ret),
    {
        let bytes = name_str.as_bytes();
        if self.0.is_ok() {
            self.0 = Ok(encode(&name_header(), bytes));
        }
        self
    }
}

impl<M: From<EndpointNameOwned>> Default for EndpointNameBuilder<M> {
    fn default() -> (builder: Self)
        ensures
            builder.state() == Ok::<Seq<u32>, Error>(spec_encode_name(Seq::<u8>::empty())),
    {
        EndpointNameBuilder::new()
    }
}

/// Builds an endpoint name message in a caller-owned buffer: the packets
/// written over its front and their length in words, or the error held.
pub struct EndpointNameBorrowedBuilder<'a>(pub Result<&'a mut [u32], Error>, pub usize);

impl<'a> EndpointNameBorrowedBuilder<'a> {
    /// The whole buffer and the number of its words the message takes, or
    /// the error held.
    pub open spec fn state(&self) -> Result<(Seq<u32>, nat), Error> {
        match self.0 {
            Ok(buffer) => Ok((buffer@, self.1 as nat)),
            Err(e) => Err(e),
        }
    }

    /// The packets lie inside the buffer.
    pub open spec fn wf(&self) -> bool {
        self.state() is Ok ==> self.state()->Ok_0.1 <= self.state()->Ok_0.0.len()
    }

    /// The state after a name is written over a buffer: `BufferOverflow`
    /// if the packets do not fit, else the packets of the name followed by
    /// what the buffer held behind them, and the length of the packets.
    pub open spec fn after_name(units: Seq<u32>, name: Seq<u8>) -> Result<(Seq<u32>, nat), Error> {
        if encoded_len(Format::UmpStream, name.len()) > 4 * units.len() {
            Err(Error::BufferOverflow)
        } else {
            let words = spec_encode_name(name).len();
            Ok((spec_encode_name(name) + units.subrange(words as int, units.len() as int), words))
        }
    }

    pub fn new(buffer: &'a mut [u32]) -> (builder: Self)
        ensures
            builder.state() == Self::after_name(old(buffer)@, Seq::<u8>::empty()),
            builder.wf(),
            builder.0 is Ok ==> final(buffer)@ == final(builder.0->Ok_0)@,
            builder.0 is Err ==> final(buffer)@ == old(buffer)@,
    {
        let empty: [u8; 0] = [];
        proof {
            assert(empty@ =~= Seq::<u8>::empty());
            crate::segmentation::lemma_encoded_words(header(), Seq::<u8>::empty());
        }
        match encode_into(buffer, &name_header(), empty.as_slice()) {
            Ok(words) => EndpointNameBorrowedBuilder(Ok(buffer), words),
            Err(e) => EndpointNameBorrowedBuilder(Err(e), 0),
        }
    }

    /// Sets the name. An error already held is kept; a name whose packets
    /// do not fit the buffer becomes `BufferOverflow`.
    pub fn name(self, name_str: &str) -> (ret: Self)
        requires
            self.wf(),
        ensures
            match self.state() {
                Ok((units, _)) => ret.state() == Self::after_name(units, name_str.spec_bytes()),
                Err(e) => ret.state() == Err::<(Seq<u32>, nat), Error>(e),
            },
            ret.wf(),
            self.0 is Ok && ret.0 is Ok ==> final(self.0->Ok_0)@ == final(ret.0->Ok_0)@,
            self.0 is Ok && ret.0 is Err ==> final(self.0->Ok_0)@ == self.0->Ok_0@,
    {
        let bytes = name_str.as_bytes();
        match self.0 {
            Err(e) => EndpointNameBorrowedBuilder(Err(e), 0),
            Ok(buffer) => {
                proof {
                    crate::segmentation::lemma_encoded_words(header(), bytes@);
                }
                match encode_into(buffer, &name_header(), bytes) {
                    Ok(words) => EndpointNameBorrowedBuilder(Ok(buffer), words),
                    Err(e) => EndpointNameBorrowedBuilder(Err(e), 0),
                }
            },
        }
    }

    /// The finished message: a view of the packets written, or the error
    /// held.
    pub fn build(self) -> (r: Result<EndpointNameBorrowed<'a>, Error>)
        requires
            self.wf(),
        ensures
            match self.state() {
                Ok((units, words)) => r is Ok && r->Ok_0.0@ == units.subrange(0, words as int)
                    && final(self.0->Ok_0)@ == units,
                Err(e) => r == Err::<EndpointNameBorrowed<'a>, Error>(e),
            },
    {
        match self.0 {
            Ok(buffer) => {
                let whole: &'a [u32] = buffer;
                Ok(EndpointNameBorrowed(vstd::slice::slice_subrange(whole, 0, self.1)))
            },
            Err(e) => Err(e),
        }
    }
}

} // verus!
