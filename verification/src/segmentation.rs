//! Splitting a payload of any length across the fixed-size packets the
//! wire format prescribes, and the byte-wise view of a packet sequence that
//! the split is stated over.

use vstd::prelude::*;
use crate::bit_ops::{
    extract, insert, lemma_extract_insert_other, lemma_extract_insert_same, lemma_low_mask_bound,
    lemma_mask_identity, octet, octet_shift, set_octet, spec_octet,
};
use crate::error::{
    ERR_DATA_BYTE, ERR_INCONSISTENT_PACKETS, ERR_INCORRECT_UMP_MESSAGE_TYPE,
    ERR_INVALID_PACKET_SIZE, ERR_SLICE_TOO_SHORT, Error,
};

verus! {

/// The byte numbered `i` of a word sequence: words are taken in order and
/// each word most significant octet first.
pub open spec fn byte_at(units: Seq<u32>, i: int) -> u8 {
    spec_octet(units[i / 4], (i % 4) as usize) as u8
}

/// A word sequence as the bytes it is made of.
pub open spec fn bytes_of(units: Seq<u32>) -> Seq<u8> {
    Seq::new(4 * units.len(), |i: int| byte_at(units, i))
}

pub fn get_byte(units: &[u32], i: usize) -> (byte: u8)
    requires
        i < 4 * units@.len(),
    ensures
        byte == bytes_of(units@)[i as int],
{
    octet(units[i / 4], i % 4)
}

/// Sets one byte of a word sequence and leaves every other byte alone.
pub fn set_byte(units: &mut [u32], i: usize, byte: u8)
    requires
        i < 4 * old(units)@.len(),
    ensures
        final(units)@.len() == old(units)@.len(),
        bytes_of(final(units)@) == bytes_of(old(units)@).update(i as int, byte),
        forall|w: int|
            0 <= w < old(units)@.len() && w != i as int / 4 ==> final(units)@[w] == old(units)@[w],
{
    let mut word = units[i / 4];
    set_octet(&mut word, i % 4, byte);
    units[i / 4] = word;
    proof {
        lemma_byte_written(old(units)@, i as int, byte);
    }
}

/// The bytes of a word sequence after one octet of one word is replaced.
pub proof fn lemma_byte_written(units: Seq<u32>, i: int, byte: u8)
    requires
        0 <= i < 4 * units.len(),
    ensures
        bytes_of(
            units.update(
                i / 4,
                insert(units[i / 4], octet_shift((i % 4) as usize), 8, byte as u32),
            ),
        ) == bytes_of(units).update(i, byte),
{
    let w = i / 4;
    let k = (i % 4) as usize;
    let word = units[w];
    let written = insert(word, octet_shift(k), 8, byte as u32);
    let after = units.update(w, written);
    lemma_low_mask_bound(8);
    lemma_mask_identity(byte as u32, 8);
    lemma_extract_insert_same(word, octet_shift(k), 8, byte as u32);
    assert forall|j: int| 0 <= j < 4 * units.len() implies #[trigger] bytes_of(after)[j]
        == bytes_of(units).update(i, byte)[j] by {
        if j / 4 == w && j != i {
            lemma_extract_insert_other(
                word,
                octet_shift(k),
                8,
                byte as u32,
                octet_shift((j % 4) as usize),
                8,
            );
        }
    }
    assert(bytes_of(after) =~= bytes_of(units).update(i, byte));
}

/// The first two bytes of a word are its two upper octets.
pub proof fn lemma_upper_octets(units: Seq<u32>, word: int)
    requires
        0 <= word < units.len(),
    ensures
        bytes_of(units)[4 * word] == extract(units[word], 24, 8),
        bytes_of(units)[4 * word + 1] == extract(units[word], 16, 8),
{
    lemma_low_mask_bound(8);
    crate::bit_ops::lemma_extract_bound(units[word], 24, 8);
    crate::bit_ops::lemma_extract_bound(units[word], 16, 8);
    assert(bytes_of(units)[4 * word] == byte_at(units, 4 * word));
    assert(bytes_of(units)[4 * word + 1] == byte_at(units, 4 * word + 1));
}

/// The word made of four octets, most significant first.
pub open spec fn pack(b0: u8, b1: u8, b2: u8, b3: u8) -> u32 {
    ((b0 as u32) << 24) | ((b1 as u32) << 16) | ((b2 as u32) << 8) | (b3 as u32)
}

/// The words that a byte sequence of whole words is made into.
pub open spec fn words_of(bytes: Seq<u8>) -> Seq<u32> {
    Seq::new(
        (bytes.len() / 4) as nat,
        |w: int| pack(bytes[4 * w], bytes[4 * w + 1], bytes[4 * w + 2], bytes[4 * w + 3]),
    )
}

proof fn lemma_pack_octets(b0: u8, b1: u8, b2: u8, b3: u8)
    by (bit_vector)
    ensures
        extract(pack(b0, b1, b2, b3), 24, 8) == b0,
        extract(pack(b0, b1, b2, b3), 16, 8) == b1,
        extract(pack(b0, b1, b2, b3), 8, 8) == b2,
        extract(pack(b0, b1, b2, b3), 0, 8) == b3,
{
}

proof fn lemma_unpack(word: u32)
    by (bit_vector)
    ensures
        pack(
            extract(word, 24, 8) as u8,
            extract(word, 16, 8) as u8,
            extract(word, 8, 8) as u8,
            extract(word, 0, 8) as u8,
        ) == word,
{
}

/// A word sequence is the words of its bytes.
pub proof fn lemma_words_of_bytes(units: Seq<u32>)
    ensures
        words_of(bytes_of(units)) == units,
{
    assert forall|w: int| 0 <= w < units.len() implies #[trigger] words_of(bytes_of(units))[w]
        == units[w] by {
        lemma_unpack(units[w]);
        assert(bytes_of(units)[4 * w] == byte_at(units, 4 * w));
        assert(bytes_of(units)[4 * w + 1] == byte_at(units, 4 * w + 1));
        assert(bytes_of(units)[4 * w + 2] == byte_at(units, 4 * w + 2));
        assert(bytes_of(units)[4 * w + 3] == byte_at(units, 4 * w + 3));
    }
    assert(words_of(bytes_of(units)) =~= units);
}

/// A byte sequence of whole words is the bytes of its words.
pub proof fn lemma_bytes_of_words(bytes: Seq<u8>)
    requires
        bytes.len() % 4 == 0,
    ensures
        bytes_of(words_of(bytes)) == bytes,
{
    let words = words_of(bytes);
    assert forall|i: int| 0 <= i < bytes.len() implies #[trigger] bytes_of(words)[i]
        == bytes[i] by {
        let w = i / 4;
        lemma_pack_octets(bytes[4 * w], bytes[4 * w + 1], bytes[4 * w + 2], bytes[4 * w + 3]);
    }
    assert(bytes_of(words) =~= bytes);
}

/// The part a packet plays in carrying a payload.
#[derive(Clone, Copy, Debug, PartialEq, Eq, Structural)]
pub enum Role {
    /// The whole payload in one packet.
    Complete,
    /// The first of several packets.
    Start,
    /// A packet between the first and the last.
    Continue,
    /// The last of several packets.
    End,
}

impl Role {
    /// The number the role is written as on the wire.
    pub open spec fn code(self) -> u8 {
        match self {
            Role::Complete => 0,
            Role::Start => 1,
            Role::Continue => 2,
            Role::End => 3,
        }
    }

    pub fn to_code(self) -> (code: u8)
        ensures
            code == self.code(),
    {
        match self {
            Role::Complete => 0,
            Role::Start => 1,
            Role::Continue => 2,
            Role::End => 3,
        }
    }
}

/// The number of packets a payload of `len` bytes is split into when each
/// packet carries at most `capacity` bytes. An empty payload still takes
/// one packet.
pub open spec fn packet_count(len: nat, capacity: nat) -> nat {
    if len == 0 {
        1
    } else {
        ((len + capacity - 1) / capacity as int) as nat
    }
}

/// The role of the packet numbered `index` among `count` packets.
pub open spec fn role_of(index: nat, count: nat) -> Role {
    if count <= 1 {
        Role::Complete
    } else if index == 0 {
        Role::Start
    } else if index + 1 == count {
        Role::End
    } else {
        Role::Continue
    }
}

/// The number of payload bytes the packet numbered `index` carries.
pub open spec fn chunk_len(len: nat, capacity: nat, index: nat) -> nat {
    if len <= index * capacity {
        0
    } else if len - index * capacity >= capacity {
        capacity
    } else {
        (len - index * capacity) as nat
    }
}

pub fn count_packets(len: usize, capacity: usize) -> (count: usize)
    requires
        0 < capacity <= 16,
    ensures
        count == packet_count(len as nat, capacity as nat),
        count >= 1,
        count <= len + 1,
{
    if len == 0 {
        1
    } else {
        let whole = len / capacity;
        let rest = len % capacity;
        proof {
            lemma_packet_count(len as nat, capacity as nat);
            vstd::arithmetic::div_mod::lemma_fundamental_div_mod(len as int, capacity as int);
            assert(capacity * whole == whole * capacity) by (nonlinear_arith);
            if rest == 0 {
                vstd::arithmetic::div_mod::lemma_fundamental_div_mod_converse(
                    len + capacity - 1,
                    capacity as int,
                    whole as int,
                    capacity - 1,
                );
            } else {
                assert((whole + 1) * capacity == whole * capacity + capacity) by (nonlinear_arith);
                vstd::arithmetic::div_mod::lemma_fundamental_div_mod_converse(
                    len + capacity - 1,
                    capacity as int,
                    whole + 1,
                    rest - 1,
                );
                assert(2 * whole <= whole * capacity) by (nonlinear_arith)
                    requires
                        capacity >= 2,
                        whole >= 0,
                ;
            }
        }
        if rest == 0 {
            whole
        } else {
            whole + 1
        }
    }
}

pub fn packet_role(index: usize, count: usize) -> (role: Role)
    requires
        index < count,
    ensures
        role == role_of(index as nat, count as nat),
{
    if count <= 1 {
        Role::Complete
    } else if index == 0 {
        Role::Start
    } else if index + 1 == count {
        Role::End
    } else {
        Role::Continue
    }
}

pub fn packet_chunk(len: usize, capacity: usize, index: usize) -> (chunk: usize)
    requires
        0 < capacity <= 16,
    ensures
        chunk == chunk_len(len as nat, capacity as nat, index as nat),
        chunk <= capacity,
{
    match index.checked_mul(capacity) {
        None => 0,
        Some(start) => {
            if len <= start {
                0
            } else if len - start >= capacity {
                capacity
            } else {
                len - start
            }
        },
    }
}

/// The packet count is the payload length divided by the capacity,
/// rounded up: the packets before the last are full and the last is not
/// empty.
pub proof fn lemma_packet_count(len: nat, capacity: nat)
    requires
        len > 0,
        capacity > 0,
    ensures
        packet_count(len, capacity) >= 1,
        (packet_count(len, capacity) - 1) * capacity < len,
        len <= packet_count(len, capacity) * capacity,
        packet_count(len, capacity) <= len,
{
    let x = (len + capacity - 1) as int;
    let d = capacity as int;
    let n = x / d;
    let r = x % d;
    vstd::arithmetic::div_mod::lemma_fundamental_div_mod(x, d);
    vstd::arithmetic::div_mod::lemma_mod_bound(x, d);
    assert(x == d * n + r);
    assert(d * n == n * d) by (nonlinear_arith);
    assert((n - 1) * d == n * d - d) by (nonlinear_arith);
    if n <= 0 {
        assert(d * n <= 0) by (nonlinear_arith)
            requires
                d > 0,
                n <= 0,
        ;
    }
    assert(n >= 1);
    assert(n - 1 <= (n - 1) * d) by (nonlinear_arith)
        requires
            n - 1 >= 0,
            d >= 1,
    ;
}

/// A payload splits into the packet count of packets such that: a payload
/// that fits one packet travels in a single complete packet; a longer one
/// in exactly one start packet, then continue packets only, then exactly
/// one end packet. Every packet but the last is full, the last is not
/// empty, and the chunks add up to the payload.
pub proof fn lemma_segmentation(len: nat, capacity: nat)
    requires
        len > 0,
        capacity > 0,
    ensures
        packet_count(len, capacity) * capacity >= len,
        (packet_count(len, capacity) - 1) * capacity < len,
        len <= capacity <==> packet_count(len, capacity) == 1,
        packet_count(len, capacity) == 1 ==> role_of(0, 1) == Role::Complete,
        packet_count(len, capacity) > 1 ==> {
            let count = packet_count(len, capacity);
            &&& role_of(0, count) == Role::Start
            &&& role_of((count - 1) as nat, count) == Role::End
            &&& forall|i: nat| 0 < i < count - 1 ==> #[trigger] role_of(i, count) == Role::Continue
            &&& forall|i: nat|
                i < count ==> (#[trigger] role_of(i, count) == Role::Start <==> i == 0)
            &&& forall|i: nat|
                i < count ==> (#[trigger] role_of(i, count) == Role::End <==> i == count - 1)
        },
        forall|i: nat|
            i + 1 < packet_count(len, capacity) ==> #[trigger] chunk_len(len, capacity, i)
                == capacity,
        chunk_len(len, capacity, (packet_count(len, capacity) - 1) as nat) == len - (packet_count(
            len,
            capacity,
        ) - 1) * capacity,
        chunk_len(len, capacity, (packet_count(len, capacity) - 1) as nat) > 0,
{
    lemma_packet_count(len, capacity);
    let count = packet_count(len, capacity);
    assert((count - 1) * capacity + capacity == count * capacity) by (nonlinear_arith);
    if count == 1 {
        assert(count * capacity == capacity) by (nonlinear_arith)
            requires
                count == 1,
        ;
    }
    if len <= capacity {
        if count > 1 {
            assert((count - 1) * capacity >= capacity) by (nonlinear_arith)
                requires
                    count >= 2,
                    capacity > 0,
            ;
        }
    }
    assert forall|i: nat| i + 1 < count implies #[trigger] chunk_len(len, capacity, i)
        == capacity by {
        assert((i + 1) * capacity <= (count - 1) * capacity) by (nonlinear_arith)
            requires
                i + 1 <= count - 1,
                capacity > 0,
        ;
        assert((i + 1) * capacity == i * capacity + capacity) by (nonlinear_arith);
    }
}

/// The packet formats that carry a payload in segments.
#[derive(Clone, Copy, Debug, PartialEq, Eq, Structural)]
pub enum Format {
    /// Stream messages that carry text: four words a packet, fourteen
    /// payload bytes each.
    UmpStream,
    /// Stream messages that carry text about one function block: four words
    /// a packet, thirteen payload bytes each after the block number.
    UmpStreamBlock,
    /// Flex data messages that carry text: four words a packet, twelve
    /// payload bytes each after the header word.
    FlexData,
    /// Seven-bit system exclusive: two words a packet, six payload bytes
    /// each.
    Sysex7,
    /// Eight-bit system exclusive: four words a packet, thirteen payload
    /// bytes each after the stream id.
    Sysex8,
}

impl Format {
    /// The number of bytes in one packet.
    pub open spec fn packet_bytes(self) -> nat {
        match self {
            Format::UmpStream => 16,
            Format::UmpStreamBlock => 16,
            Format::FlexData => 16,
            Format::Sysex7 => 8,
            Format::Sysex8 => 16,
        }
    }

    /// The number of words in one packet.
    pub open spec fn packet_words(self) -> nat {
        match self {
            Format::Sysex7 => 2,
            _ => 4,
        }
    }

    /// The number of leading bytes of each packet that are not payload.
    pub open spec fn header_bytes(self) -> nat {
        match self {
            Format::UmpStream => 2,
            Format::UmpStreamBlock => 3,
            Format::FlexData => 4,
            Format::Sysex7 => 2,
            Format::Sysex8 => 3,
        }
    }

    /// The number of payload bytes one packet can carry.
    pub open spec fn capacity(self) -> nat {
        (self.packet_bytes() - self.header_bytes()) as nat
    }

    /// Whether every packet of the format is full: such packets hold no
    /// size, and a payload that ends early is padded with zeros.
    pub open spec fn fixed_chunks(self) -> bool {
        self is UmpStream || self is UmpStreamBlock || self is FlexData
    }

    /// The message-type nibble of the format's packets.
    pub open spec fn type_code(self) -> u8 {
        match self {
            Format::UmpStream => 0xF,
            Format::UmpStreamBlock => 0xF,
            Format::FlexData => 0xD,
            Format::Sysex7 => 0x3,
            Format::Sysex8 => 0x5,
        }
    }

    pub fn packet_len(self) -> (len: usize)
        ensures
            len == self.packet_bytes(),
    {
        match self {
            Format::UmpStream => 16,
            Format::UmpStreamBlock => 16,
            Format::FlexData => 16,
            Format::Sysex7 => 8,
            Format::Sysex8 => 16,
        }
    }

    pub fn packet_word_len(self) -> (len: usize)
        ensures
            len == self.packet_words(),
            4 * len == self.packet_bytes(),
    {
        match self {
            Format::Sysex7 => 2,
            _ => 4,
        }
    }

    pub fn header_len(self) -> (len: usize)
        ensures
            len == self.header_bytes(),
    {
        match self {
            Format::UmpStream => 2,
            Format::UmpStreamBlock => 3,
            Format::FlexData => 4,
            Format::Sysex7 => 2,
            Format::Sysex8 => 3,
        }
    }

    pub fn payload_capacity(self) -> (len: usize)
        ensures
            len == self.capacity(),
            0 < len <= 14,
    {
        match self {
            Format::UmpStream => 14,
            Format::UmpStreamBlock => 13,
            Format::FlexData => 12,
            Format::Sysex7 => 6,
            Format::Sysex8 => 13,
        }
    }

    pub fn message_type(self) -> (code: u8)
        ensures
            code == self.type_code(),
    {
        match self {
            Format::UmpStream => 0xF,
            Format::UmpStreamBlock => 0xF,
            Format::FlexData => 0xD,
            Format::Sysex7 => 0x3,
            Format::Sysex8 => 0x5,
        }
    }
}

/// What every packet of one segmented message repeats. A format uses the
/// fields it has a place for: stream messages the ten-bit status, flex
/// data the group and the sixteen bits of status bank and status, system
/// exclusive the group. The detail is the function block of a stream
/// message about one, the address and channel bits of a flex data message,
/// and the stream id of an eight-bit system exclusive.
#[derive(Clone, Copy, Debug, PartialEq, Eq, Structural)]
pub struct Header {
    pub format: Format,
    pub group: u8,
    pub status: u16,
    pub detail: u8,
}

impl Header {
    /// Every field fits the place its format gives it.
    pub open spec fn wf(self) -> bool {
        &&& self.group <= 0xF
        &&& self.format is UmpStream || self.format is UmpStreamBlock ==> self.status <= 0x3FF
        &&& self.format is FlexData ==> self.detail <= 0x3F
    }
}

/// One byte of a packet's header.
pub open spec fn header_byte(header: Header, role: Role, chunk: nat, offset: nat) -> u8 {
    match header.format {
        Format::UmpStream | Format::UmpStreamBlock => if offset == 0 {
            (0xF0 + role.code() * 4 + header.status / 256) as u8
        } else if offset == 1 {
            (header.status % 256) as u8
        } else {
            header.detail
        },
        Format::FlexData => if offset == 0 {
            (0xD0 + header.group) as u8
        } else if offset == 1 {
            (role.code() * 64 + header.detail) as u8
        } else if offset == 2 {
            (header.status / 256) as u8
        } else {
            (header.status % 256) as u8
        },
        Format::Sysex7 => if offset == 0 {
            (0x30 + header.group) as u8
        } else {
            (role.code() * 16 + chunk) as u8
        },
        Format::Sysex8 => if offset == 0 {
            (0x50 + header.group) as u8
        } else if offset == 1 {
            (role.code() * 16 + chunk + 1) as u8
        } else {
            header.detail
        },
    }
}

/// The byte numbered `i` of the packets that carry `payload`: header bytes
/// first in every packet, then that packet's share of the payload, then
/// zeros where the payload has run out.
pub open spec fn encoded_byte(header: Header, payload: Seq<u8>, i: int) -> u8 {
    let format = header.format;
    let packet = (i / format.packet_bytes() as int) as nat;
    let offset = (i % format.packet_bytes() as int) as nat;
    let count = packet_count(payload.len(), format.capacity());
    if offset < format.header_bytes() {
        header_byte(
            header,
            role_of(packet, count),
            chunk_len(payload.len(), format.capacity(), packet),
            offset,
        )
    } else {
        let k = packet * format.capacity() + offset - format.header_bytes();
        if k < payload.len() {
            payload[k]
        } else {
            0
        }
    }
}

/// The number of bytes the packets that carry a payload of `len` bytes
/// take up.
pub open spec fn encoded_len(format: Format, len: nat) -> nat {
    packet_count(len, format.capacity()) * format.packet_bytes()
}

/// The packets that carry `payload`, as bytes.
pub open spec fn spec_encode(header: Header, payload: Seq<u8>) -> Seq<u8> {
    Seq::new(
        encoded_len(header.format, payload.len()),
        |i: int| encoded_byte(header, payload, i),
    )
}

/// The packets that carry `payload`, as words.
pub open spec fn spec_encode_words(header: Header, payload: Seq<u8>) -> Seq<u32> {
    words_of(spec_encode(header, payload))
}

/// The byte form and the word form of an encoding say the same.
pub proof fn lemma_encoded_words(header: Header, payload: Seq<u8>)
    ensures
        bytes_of(spec_encode_words(header, payload)) == spec_encode(header, payload),
        4 * spec_encode_words(header, payload).len() == encoded_len(
            header.format,
            payload.len(),
        ),
{
    let count = packet_count(payload.len(), header.format.capacity());
    assert((count * header.format.packet_bytes()) % 4 == 0) by (nonlinear_arith)
        requires
            header.format.packet_bytes() == 16 || header.format.packet_bytes() == 8,
    ;
    lemma_bytes_of_words(spec_encode(header, payload));
}

fn header_byte_at(header: &Header, role: Role, chunk: usize, offset: usize) -> (byte: u8)
    requires
        header.wf(),
        chunk <= header.format.capacity(),
        offset < header.format.header_bytes(),
    ensures
        byte == header_byte(*header, role, chunk as nat, offset as nat),
{
    let code = role.to_code();
    match header.format {
        Format::UmpStream | Format::UmpStreamBlock => if offset == 0 {
            0xF0 + code * 4 + (header.status / 256) as u8
        } else if offset == 1 {
            (header.status % 256) as u8
        } else {
            header.detail
        },
        Format::FlexData => if offset == 0 {
            0xD0 + header.group
        } else if offset == 1 {
            code * 64 + header.detail
        } else if offset == 2 {
            (header.status / 256) as u8
        } else {
            (header.status % 256) as u8
        },
        Format::Sysex7 => if offset == 0 {
            0x30 + header.group
        } else {
            code * 16 + chunk as u8
        },
        Format::Sysex8 => if offset == 0 {
            0x50 + header.group
        } else if offset == 1 {
            code * 16 + chunk as u8 + 1
        } else {
            header.detail
        },
    }
}

fn encoded_byte_in(
    header: &Header,
    payload: &[u8],
    packet: usize,
    offset: usize,
    count: usize,
) -> (byte:
    u8)
    requires
        header.wf(),
        count == packet_count(payload@.len(), header.format.capacity()),
        packet < count,
        offset < header.format.packet_bytes(),
    ensures
        byte == encoded_packet_byte(*header, payload@, packet as nat, offset as nat),
{
    let format = header.format;
    let capacity = format.payload_capacity();
    let head = format.header_len();
    let len = payload.len();
    if offset < head {
        let chunk = packet_chunk(len, capacity, packet);
        header_byte_at(header, packet_role(packet, count), chunk, offset)
    } else {
        proof {
            if len > 0 {
                lemma_packet_count(len as nat, capacity as nat);
            } else {
                assert(count == 1);
            }
            assert(packet * capacity <= (count - 1) * capacity) by (nonlinear_arith)
                requires
                    0 <= packet <= count - 1,
                    capacity >= 0,
            ;
            assert((count - 1) * capacity <= len) by (nonlinear_arith)
                requires
                    len > 0 ==> (count - 1) * capacity < len,
                    len == 0 ==> count == 1,
                    len >= 0,
            ;
        }
        let base = packet * capacity;
        let rest = offset - head;
        if base <= len && rest < len - base {
            payload[base + rest]
        } else {
            0
        }
    }
}

/// The word made of four octets, most significant first.
fn pack_word(b0: u8, b1: u8, b2: u8, b3: u8) -> (word: u32)
    ensures
        word == pack(b0, b1, b2, b3),
{
    ((b0 as u32) << 24) | ((b1 as u32) << 16) | ((b2 as u32) << 8) | (b3 as u32)
}

/// The bytes of a word sequence after one word is replaced by four octets.
proof fn lemma_word_written(units: Seq<u32>, word: int, b0: u8, b1: u8, b2: u8, b3: u8)
    requires
        0 <= word < units.len(),
    ensures
        ({
            let after = units.update(word, pack(b0, b1, b2, b3));
            &&& bytes_of(after)[4 * word] == b0
            &&& bytes_of(after)[4 * word + 1] == b1
            &&& bytes_of(after)[4 * word + 2] == b2
            &&& bytes_of(after)[4 * word + 3] == b3
            &&& forall|j: int|
                0 <= j < 4 * units.len() && j / 4 != word ==> #[trigger] bytes_of(after)[j]
                    == bytes_of(units)[j]
        }),
{
    lemma_pack_octets(b0, b1, b2, b3);
    let after = units.update(word, pack(b0, b1, b2, b3));
    assert(bytes_of(after)[4 * word] == byte_at(after, 4 * word));
    assert(bytes_of(after)[4 * word + 1] == byte_at(after, 4 * word + 1));
    assert(bytes_of(after)[4 * word + 2] == byte_at(after, 4 * word + 2));
    assert(bytes_of(after)[4 * word + 3] == byte_at(after, 4 * word + 3));
}

/// A byte of an encoding by packet and offset is the byte by position.
proof fn lemma_packet_position(header: Header, payload: Seq<u8>, packet: nat, offset: nat)
    requires
        offset < header.format.packet_bytes(),
    ensures
        encoded_byte(header, payload, (packet * header.format.packet_bytes() + offset) as int)
            == encoded_packet_byte(header, payload, packet, offset),
{
    lemma_index(packet, offset, header.format.packet_bytes());
}

/// The packet that a word of an encoding lies in, and its place there.
proof fn lemma_word_place(word: nat, per: nat, count: nat)
    requires
        per > 0,
        word < count * per,
    ensures
        word / per < count,
        word % per < per,
        (word / per) * (4 * per) + 4 * (word % per) == 4 * word,
{
    let packet = word / per;
    let inner = word % per;
    vstd::arithmetic::div_mod::lemma_fundamental_div_mod(word as int, per as int);
    assert(per * packet == packet * per) by (nonlinear_arith);
    assert(packet < count) by (nonlinear_arith)
        requires
            packet * per + inner == word,
            word < count * per,
            0 <= inner,
            per > 0,
    ;
    assert(packet * (4 * per) == 4 * (packet * per)) by (nonlinear_arith);
}

/// Writing the four bytes that an encoding holds at a word extends the
/// front of a buffer that agrees with the encoding by that word.
proof fn lemma_word_encoded(
    units: Seq<u32>,
    header: Header,
    payload: Seq<u8>,
    word: nat,
    b0: u8,
    b1: u8,
    b2: u8,
    b3: u8,
)
    requires
        word < units.len(),
        forall|j: int|
            0 <= j < 4 * word ==> #[trigger] bytes_of(units)[j] == encoded_byte(header, payload, j),
        ({
            let per = header.format.packet_words();
            let packet = word / per;
            let offset = 4 * (word % per);
            &&& b0 == encoded_packet_byte(header, payload, packet, offset)
            &&& b1 == encoded_packet_byte(header, payload, packet, offset + 1)
            &&& b2 == encoded_packet_byte(header, payload, packet, offset + 2)
            &&& b3 == encoded_packet_byte(header, payload, packet, offset + 3)
        }),
    ensures
        forall|j: int|
            0 <= j < 4 * (word + 1) ==> #[trigger] bytes_of(
                units.update(word as int, pack(b0, b1, b2, b3)),
            )[j] == encoded_byte(header, payload, j),
{
    let per = header.format.packet_words();
    let packet = word / per;
    let offset = 4 * (word % per);
    let after = units.update(word as int, pack(b0, b1, b2, b3));
    lemma_word_place(word, per, word / per + 1);
    lemma_word_written(units, word as int, b0, b1, b2, b3);
    lemma_packet_position(header, payload, packet, offset);
    lemma_packet_position(header, payload, packet, offset + 1);
    lemma_packet_position(header, payload, packet, offset + 2);
    lemma_packet_position(header, payload, packet, offset + 3);
    assert forall|j: int| 0 <= j < 4 * (word + 1) implies #[trigger] bytes_of(after)[j]
        == encoded_byte(header, payload, j) by {
        if j / 4 != word {
            assert(bytes_of(units)[j] == encoded_byte(header, payload, j));
        }
    }
}

/// The number of words of an encoding fits the machine, whatever the
/// length of the payload.
proof fn lemma_encoded_words_fit(format: Format, len: usize)
    ensures
        packet_count(len as nat, format.capacity()) * format.packet_words() <= usize::MAX,
{
    let capacity = format.capacity();
    let count = packet_count(len as nat, capacity);
    let per = format.packet_words();
    if len == 0 {
    } else {
        lemma_packet_count(len as nat, capacity);
        assert(6 * (count - 1) <= (count - 1) * capacity) by (nonlinear_arith)
            requires
                capacity >= 6,
                count >= 1,
        ;
        assert(count * per <= 4 * count) by (nonlinear_arith)
            requires
                per <= 4,
                count >= 0,
        ;
    }
}

/// The bytes of the front of a word sequence are the front of its bytes.
pub proof fn lemma_bytes_of_front(units: Seq<u32>, words: nat)
    requires
        words <= units.len(),
    ensures
        bytes_of(units.subrange(0, words as int)) == bytes_of(units).subrange(0, 4 * words as int),
{
    let front = units.subrange(0, words as int);
    assert forall|j: int| 0 <= j < 4 * words implies #[trigger] bytes_of(front)[j] == bytes_of(
        units,
    )[j] by {
        assert(0 <= j / 4 < words);
        assert(front[j / 4] == units[j / 4]);
    }
    assert(bytes_of(front) =~= bytes_of(units).subrange(0, 4 * words as int));
}

proof fn lemma_encoded_front(
    after: Seq<u32>,
    before: Seq<u32>,
    header: Header,
    payload: Seq<u8>,
    words: nat,
)
    requires
        words <= after.len(),
        after.len() == before.len(),
        4 * words == encoded_len(header.format, payload.len()),
        forall|j: int|
            0 <= j < 4 * words ==> #[trigger] bytes_of(after)[j] == encoded_byte(
                header,
                payload,
                j,
            ),
        forall|w: int| words <= w < after.len() ==> after[w] == before[w],
    ensures
        after == spec_encode_words(header, payload) + before.subrange(
            words as int,
            before.len() as int,
        ),
{
    let front = after.subrange(0, words as int);
    lemma_bytes_of_front(after, words);
    assert(bytes_of(after).subrange(0, 4 * words as int) =~= spec_encode(header, payload));
    lemma_words_of_bytes(front);
    assert(after =~= front + before.subrange(words as int, before.len() as int));
}

/// Writes the packets that carry `payload` over the front of `buffer` and
/// says how many words they take. Fails with `BufferOverflow`, leaving the
/// buffer as it was, exactly when the buffer is too short for them. Words
/// behind the packets are not touched.
pub fn encode_into(buffer: &mut [u32], header: &Header, payload: &[u8]) -> (r: Result<usize, Error>)
    requires
        header.wf(),
    ensures
        encoded_len(header.format, payload@.len()) > 4 * old(buffer)@.len() ==> r == Err::<
            usize,
            Error,
        >(Error::BufferOverflow) && final(buffer)@ == old(buffer)@,
        encoded_len(header.format, payload@.len()) <= 4 * old(buffer)@.len() ==> {
            &&& r is Ok
            &&& 4 * r->Ok_0 == encoded_len(header.format, payload@.len())
            &&& final(buffer)@.len() == old(buffer)@.len()
            &&& final(buffer)@ == spec_encode_words(*header, payload@) + old(buffer)@.subrange(
                r->Ok_0 as int,
                old(buffer)@.len() as int,
            )
        },
{
    let format = header.format;
    let per = format.packet_word_len();
    let count = count_packets(payload.len(), format.payload_capacity());
    proof {
        lemma_encoded_words_fit(format, payload.len());
        assert(count * format.packet_bytes() == 4 * (count * per)) by (nonlinear_arith)
            requires
                format.packet_bytes() == 4 * per,
        ;
    }
    let words = count * per;
    if words > buffer.len() {
        return Err(Error::BufferOverflow);
    }
    let mut word: usize = 0;
    while word < words
        invariant
            word <= words,
            words == count * per,
            per == format.packet_words(),
            format == header.format,
            header.wf(),
            words <= buffer@.len(),
            buffer@.len() == old(buffer)@.len(),
            count == packet_count(payload@.len(), format.capacity()),
            forall|j: int|
                0 <= j < 4 * word ==> #[trigger] bytes_of(buffer@)[j] == encoded_byte(
                    *header,
                    payload@,
                    j,
                ),
            forall|w: int| word <= w < buffer@.len() ==> buffer@[w] == old(buffer)@[w],
        decreases words - word,
    {
        let packet = word / per;
        let inner = word % per;
        proof {
            lemma_word_place(word as nat, per as nat, count as nat);
        }
        let b0 = encoded_byte_in(header, payload, packet, 4 * inner, count);
        let b1 = encoded_byte_in(header, payload, packet, 4 * inner + 1, count);
        let b2 = encoded_byte_in(header, payload, packet, 4 * inner + 2, count);
        let b3 = encoded_byte_in(header, payload, packet, 4 * inner + 3, count);
        let ghost before = buffer@;
        buffer[word] = pack_word(b0, b1, b2, b3);
        proof {
            lemma_word_encoded(before, *header, payload@, word as nat, b0, b1, b2, b3);
        }
        word += 1;
    }
    proof {
        lemma_encoded_front(buffer@, old(buffer)@, *header, payload@, words as nat);
    }
    Ok(words)
}

/// The packets that carry `payload`, in a vector of their own.
pub fn encode(header: &Header, payload: &[u8]) -> (packets: Vec<u32>)
    requires
        header.wf(),
    ensures
        packets@ == spec_encode_words(*header, payload@),
{
    let format = header.format;
    let per = format.packet_word_len();
    let count = count_packets(payload.len(), format.payload_capacity());
    proof {
        lemma_encoded_words_fit(format, payload.len());
        assert(count * format.packet_bytes() == 4 * (count * per)) by (nonlinear_arith)
            requires
                format.packet_bytes() == 4 * per,
        ;
    }
    let words = count * per;
    let mut packets: Vec<u32> = Vec::new();
    while packets.len() < words
        invariant
            packets@.len() <= words,
        decreases words - packets@.len(),
    {
        packets.push(0);
    }
    match encode_into(packets.as_mut_slice(), header, payload) {
        Ok(words) => {
            proof {
                assert(packets@ =~= spec_encode_words(*header, payload@));
            }
        },
        Err(_) => {
            proof {
                assert(false);
            }
        },
    }
    packets
}

/// The role code that the first two bytes of a packet hold.
pub open spec fn role_code_from(format: Format, h0: u8, h1: u8) -> int {
    match format {
        Format::UmpStream | Format::UmpStreamBlock => (h0 as int % 16) / 4,
        Format::FlexData => h1 as int / 64,
        _ => h1 as int / 16,
    }
}

/// The number of payload bytes a packet says it carries, from the second
/// byte of its header. Packets of a format with fixed chunks are always
/// full.
pub open spec fn chunk_from(format: Format, h1: u8) -> int {
    match format {
        Format::Sysex7 => h1 as int % 16,
        Format::Sysex8 => h1 as int % 16 - 1,
        _ => format.capacity() as int,
    }
}

/// What must be the same in every packet of one message, from the header
/// bytes of a packet: every header field but the role and the size.
pub open spec fn identity_from(format: Format, h0: u8, h1: u8, h2: u8, h3: u8) -> int {
    match format {
        Format::UmpStream => (h0 as int % 4) * 256 + h1 as int,
        Format::UmpStreamBlock => ((h0 as int % 4) * 256 + h1 as int) * 256 + h2 as int,
        Format::FlexData => (((h0 as int % 16) * 64 + h1 as int % 64) * 256 + h2 as int) * 256
            + h3 as int,
        Format::Sysex7 => h0 as int % 16,
        Format::Sysex8 => (h0 as int % 16) * 256 + h2 as int,
    }
}

/// The role code a packet holds.
pub open spec fn role_code_of(bytes: Seq<u8>, format: Format, packet: nat) -> int {
    let start = (packet * format.packet_bytes()) as int;
    role_code_from(format, bytes[start], bytes[start + 1])
}

/// The number of payload bytes a packet says it carries.
pub open spec fn chunk_of(bytes: Seq<u8>, format: Format, packet: nat) -> int {
    let start = (packet * format.packet_bytes()) as int;
    chunk_from(format, bytes[start + 1])
}

/// What must be the same in every packet of one message.
pub open spec fn identity_of(bytes: Seq<u8>, format: Format, packet: nat) -> int {
    let start = (packet * format.packet_bytes()) as int;
    identity_from(format, bytes[start], bytes[start + 1], bytes[start + 2], bytes[start + 3])
}

/// The payload bytes of a seven-bit packet all have their top bit clear.
pub open spec fn data_ok(bytes: Seq<u8>, format: Format, packet: nat) -> bool {
    format is Sysex7 ==> forall|k: int|
        0 <= k < chunk_of(bytes, format, packet) ==> #[trigger] bytes[packet
            * format.packet_bytes() + format.header_bytes() + k] < 128
}

/// The verdict on one packet among `count`: its type, its role for its
/// position, its size, its agreement with the first packet, its data.
pub open spec fn packet_verdict(bytes: Seq<u8>, format: Format, packet: nat, count: nat) -> Result<
    (),
    Error,
> {
    let start = (packet * format.packet_bytes()) as int;
    if bytes[start] / 16 != format.type_code() {
        Err(Error::InvalidData(ERR_INCORRECT_UMP_MESSAGE_TYPE))
    } else if role_code_of(bytes, format, packet) != role_of(packet, count).code() {
        Err(Error::InvalidData(ERR_INCONSISTENT_PACKETS))
    } else if !(0 <= chunk_of(bytes, format, packet) <= format.capacity()) {
        Err(Error::InvalidData(ERR_INVALID_PACKET_SIZE))
    } else if identity_of(bytes, format, packet) != identity_of(bytes, format, 0) {
        Err(Error::InvalidData(ERR_INCONSISTENT_PACKETS))
    } else if !data_ok(bytes, format, packet) {
        Err(Error::InvalidData(ERR_DATA_BYTE))
    } else {
        Ok(())
    }
}

/// The verdict on the packets numbered `from` and up: that of the first
/// packet that fails, or `Ok`.
pub open spec fn first_failure(bytes: Seq<u8>, format: Format, count: nat, from: nat) -> Result<
    (),
    Error,
>
    decreases count - from,
{
    if from >= count {
        Ok(())
    } else {
        match packet_verdict(bytes, format, from, count) {
            Err(e) => Err(e),
            Ok(()) => first_failure(bytes, format, count, from + 1),
        }
    }
}

/// The number of whole packets in a word sequence.
pub open spec fn packets_in(units: Seq<u32>, format: Format) -> nat {
    ((4 * units.len()) as int / format.packet_bytes() as int) as nat
}

/// The verdict on a word sequence as a segmented message: it must be one
/// or more whole packets, and every packet must pass, the first failure
/// being the one reported.
pub open spec fn spec_validate_group(units: Seq<u32>, format: Format) -> Result<(), Error> {
    if units.len() == 0 || (4 * units.len()) as int % (format.packet_bytes() as int) != 0 {
        Err(Error::InvalidData(ERR_SLICE_TOO_SHORT))
    } else {
        first_failure(bytes_of(units), format, packets_in(units, format), 0)
    }
}

/// A sequence that validates has every packet pass.
pub proof fn lemma_all_packets_pass(bytes: Seq<u8>, format: Format, count: nat, from: nat)
    requires
        first_failure(bytes, format, count, from) is Ok,
    ensures
        forall|p: nat| from <= p < count ==> #[trigger] packet_verdict(
            bytes,
            format,
            p,
            count,
        ) is Ok,
    decreases count - from,
{
    if from < count {
        lemma_all_packets_pass(bytes, format, count, from + 1);
    }
}

/// Counting packets in words and counting them in bytes come to the same.
proof fn lemma_packet_words(len: nat, format: Format)
    ensures
        (4 * len) as int % (format.packet_bytes() as int) == 0 <==> len % format.packet_words()
            == 0,
        (4 * len) as int / (format.packet_bytes() as int) == len / format.packet_words(),
        len % format.packet_words() == 0 ==> 4 * len == (len / format.packet_words())
            * format.packet_bytes(),
{
    match format {
        Format::Sysex7 => {
            assert((4 * len) as int % 8 == 0 <==> len % 2 == 0);
            assert((4 * len) as int / 8 == len / 2);
        },
        _ => {
            assert((4 * len) as int % 16 == 0 <==> len % 4 == 0);
            assert((4 * len) as int / 16 == len / 4);
        },
    }
}

/// The byte at `offset` of the packet numbered `packet`.
fn packet_byte(units: &[u32], format: Format, packet: usize, offset: usize) -> (byte: u8)
    requires
        packet * format.packet_bytes() + format.packet_bytes() <= 4 * units@.len(),
        offset < format.packet_bytes(),
    ensures
        byte == bytes_of(units@)[packet * format.packet_bytes() + offset],
{
    let ghost size = format.packet_bytes();
    let len = units.len();
    match format {
        Format::Sysex7 => {
            assert(packet * 2 + 2 <= len && packet * size == packet * 8) by (nonlinear_arith)
                requires
                    packet * size + size <= 4 * len,
                    size == 8,
            ;
            octet(units[packet * 2 + offset / 4], offset % 4)
        },
        _ => {
            assert(packet * 4 + 4 <= len && packet * size == packet * 16) by (nonlinear_arith)
                requires
                    packet * size + size <= 4 * len,
                    size == 16,
            ;
            octet(units[packet * 4 + offset / 4], offset % 4)
        },
    }
}

fn validate_packet_at(units: &[u32], format: Format, packet: usize, count: usize) -> (r: Result<
    (),
    Error,
>)
    requires
        packet < count,
        4 * units@.len() == count * format.packet_bytes(),
    ensures
        r == packet_verdict(bytes_of(units@), format, packet as nat, count as nat),
{
    let ghost bytes = bytes_of(units@);
    let ghost size = format.packet_bytes();
    let ghost start = packet * size;
    proof {
        lemma_packet_inside(packet as nat, count as nat, size);
        lemma_packet_inside(0, count as nat, size);
    }
    let h0 = packet_byte(units, format, packet, 0);
    let h1 = packet_byte(units, format, packet, 1);
    let first0 = packet_byte(units, format, 0, 0);
    let first1 = packet_byte(units, format, 0, 1);
    if h0 / 16 != format.message_type() {
        return Err(Error::InvalidData(ERR_INCORRECT_UMP_MESSAGE_TYPE));
    }
    let role = packet_role(packet, count).to_code();
    let found_role = match format {
        Format::UmpStream | Format::UmpStreamBlock => (h0 % 16) / 4,
        Format::FlexData => h1 / 64,
        _ => h1 / 16,
    };
    if found_role != role {
        return Err(Error::InvalidData(ERR_INCONSISTENT_PACKETS));
    }
    let h2 = packet_byte(units, format, packet, 2);
    let h3 = packet_byte(units, format, packet, 3);
    let first2 = packet_byte(units, format, 0, 2);
    let first3 = packet_byte(units, format, 0, 3);
    match format {
        Format::UmpStream => {
            if h0 % 4 != first0 % 4 || h1 != first1 {
                return Err(Error::InvalidData(ERR_INCONSISTENT_PACKETS));
            }
            Ok(())
        },
        Format::UmpStreamBlock => {
            if h0 % 4 != first0 % 4 || h1 != first1 || h2 != first2 {
                return Err(Error::InvalidData(ERR_INCONSISTENT_PACKETS));
            }
            Ok(())
        },
        Format::FlexData => {
            if h0 % 16 != first0 % 16 || h1 % 64 != first1 % 64 || h2 != first2 || h3 != first3 {
                return Err(Error::InvalidData(ERR_INCONSISTENT_PACKETS));
            }
            Ok(())
        },
        Format::Sysex7 => {
            let chunk = (h1 % 16) as usize;
            if chunk > 6 {
                return Err(Error::InvalidData(ERR_INVALID_PACKET_SIZE));
            }
            if h0 % 16 != first0 % 16 {
                return Err(Error::InvalidData(ERR_INCONSISTENT_PACKETS));
            }
            let mut k: usize = 0;
            while k < chunk
                invariant
                    k <= chunk <= 6,
                    start + 8 <= 4 * units@.len(),
                    start == packet * format.packet_bytes(),
                    format is Sysex7,
                    bytes == bytes_of(units@),
                    chunk == chunk_of(bytes, format, packet as nat),
                    packet_verdict(bytes, format, packet as nat, count as nat) == (if data_ok(
                        bytes,
                        format,
                        packet as nat,
                    ) {
                        Ok::<(), Error>(())
                    } else {
                        Err::<(), Error>(Error::InvalidData(ERR_DATA_BYTE))
                    }),
                    forall|j: int| 0 <= j < k ==> #[trigger] bytes[start + 2 + j] < 128,
                decreases chunk - k,
            {
                if packet_byte(units, format, packet, 2 + k) >= 128 {
                    proof {
                        let witness = k as int;
                        assert(bytes[packet as nat * format.packet_bytes() + format.header_bytes()
                            + witness] >= 128);
                    }
                    return Err(Error::InvalidData(ERR_DATA_BYTE));
                }
                k += 1;
            }
            Ok(())
        },
        Format::Sysex8 => {
            let size_code = h1 % 16;
            if size_code < 1 || size_code > 14 {
                return Err(Error::InvalidData(ERR_INVALID_PACKET_SIZE));
            }
            if h0 % 16 != first0 % 16 || h2 != first2 {
                return Err(Error::InvalidData(ERR_INCONSISTENT_PACKETS));
            }
            Ok(())
        },
    }
}

/// Validates a word sequence as a segmented message of the given format.
pub fn validate_group(units: &[u32], format: Format) -> (r: Result<(), Error>)
    ensures
        r == spec_validate_group(units@, format),
{
    let words = format.packet_word_len();
    proof {
        lemma_packet_words(units@.len(), format);
    }
    if units.len() == 0 || units.len() % words != 0 {
        return Err(Error::InvalidData(ERR_SLICE_TOO_SHORT));
    }
    let count = units.len() / words;
    let ghost bytes = bytes_of(units@);
    let mut packet: usize = 0;
    while packet < count
        invariant
            packet <= count,
            4 * units@.len() == count * format.packet_bytes(),
            bytes == bytes_of(units@),
            spec_validate_group(units@, format) == first_failure(bytes, format, count as nat, 0),
            first_failure(bytes, format, count as nat, 0) == first_failure(
                bytes,
                format,
                count as nat,
                packet as nat,
            ),
        decreases count - packet,
    {
        match validate_packet_at(units, format, packet, count) {
            Err(e) => {
                assert(first_failure(bytes, format, count as nat, packet as nat) == Err::<
                    (),
                    Error,
                >(e));
                return Err(e);
            },
            Ok(()) => {
                assert(first_failure(bytes, format, count as nat, packet as nat) == first_failure(
                    bytes,
                    format,
                    count as nat,
                    (packet + 1) as nat,
                ));
            },
        }
        packet += 1;
    }
    Ok(())
}

/// The payload from byte `offset` of packet `packet` to the end of the
/// message: what is left of that packet's chunk, then every later chunk.
pub open spec fn tail(bytes: Seq<u8>, format: Format, count: nat, packet: nat, offset: nat) -> Seq<
    u8,
>
    decreases count - packet,
{
    if packet >= count {
        Seq::empty()
    } else {
        let start = (packet * format.packet_bytes() + format.header_bytes()) as int;
        bytes.subrange(start + offset, start + chunk_of(bytes, format, packet)) + tail(
            bytes,
            format,
            count,
            packet + 1,
            0,
        )
    }
}

/// The payload a valid segmented message carries. For formats with fixed
/// chunks this includes the zero bytes that pad the last packet.
pub open spec fn spec_payload(units: Seq<u32>, format: Format) -> Seq<u8> {
    tail(bytes_of(units), format, packets_in(units, format), 0, 0)
}

/// A forward-only walk over the payload of a segmented message. It holds
/// a position and nothing else; a fresh walk can be started from the same
/// words at any time.
pub struct PayloadIterator<'a> {
    units: &'a [u32],
    format: Format,
    packet: usize,
    offset: usize,
}

impl<'a> PayloadIterator<'a> {
    /// The words walked over.
    pub closed spec fn units(&self) -> Seq<u32> {
        self.units@
    }

    pub closed spec fn format(&self) -> Format {
        self.format
    }

    /// The walk is over a valid message and its position lies inside it.
    pub closed spec fn wf(&self) -> bool {
        let count = packets_in(self.units@, self.format);
        &&& spec_validate_group(self.units@, self.format) is Ok
        &&& self.packet <= count
        &&& self.packet < count ==> self.offset <= chunk_of(
            bytes_of(self.units@),
            self.format,
            self.packet as nat,
        )
        &&& self.packet == count ==> self.offset == 0
    }

    /// The payload bytes not yet handed out.
    pub closed spec fn remaining(&self) -> Seq<u8> {
        tail(
            bytes_of(self.units@),
            self.format,
            packets_in(self.units@, self.format),
            self.packet as nat,
            self.offset as nat,
        )
    }

    /// Starts a walk at the first payload byte.
    pub fn new(units: &'a [u32], format: Format) -> (walk: Self)
        requires
            spec_validate_group(units@, format) is Ok,
        ensures
            walk.wf(),
            walk.units() == units@,
            walk.format() == format,
            walk.remaining() == spec_payload(units@, format),
    {
        proof {
            lemma_all_packets_pass(bytes_of(units@), format, packets_in(units@, format), 0);
            assert(packet_verdict(bytes_of(units@), format, 0, packets_in(units@, format)) is Ok);
        }
        PayloadIterator { units, format, packet: 0, offset: 0 }
    }

    /// The next payload byte, or `None` once the payload is exhausted.
    pub fn next(&mut self) -> (r: Option<u8>)
        requires
            old(self).wf(),
        ensures
            final(self).wf(),
            final(self).units() == old(self).units(),
            final(self).format() == old(self).format(),
            match r {
                Some(byte) => old(self).remaining() == seq![byte] + final(self).remaining(),
                None => old(self).remaining().len() == 0 && final(self).remaining().len() == 0,
            },
    {
        let size = self.format.packet_len();
        let header = self.format.header_len();
        let count = self.units.len() / self.format.packet_word_len();
        let ghost bytes = bytes_of(self.units@);
        let ghost format = self.format;
        proof {
            lemma_packet_words(self.units@.len(), format);
            lemma_whole_packets(self.units@, format);
            lemma_all_packets_pass(bytes, format, count as nat, 0);
        }
        while self.packet < count
            invariant
                self.wf(),
                self.units == old(self).units,
                self.format == old(self).format,
                format == self.format,
                bytes == bytes_of(self.units@),
                size == format.packet_bytes(),
                header == format.header_bytes(),
                count == packets_in(self.units@, format),
                4 * self.units@.len() == count * size,
                self.remaining() == old(self).remaining(),
                forall|p: nat| p < count ==> #[trigger] packet_verdict(
                    bytes,
                    format,
                    p,
                    count as nat,
                ) is Ok,
            decreases count - self.packet,
        {
            let chunk = chunk_at(self.units, self.format, self.packet, count);
            if self.offset < chunk {
                proof {
                    lemma_packet_inside(self.packet as nat, count as nat, size as nat);
                }
                let byte = packet_byte(self.units, self.format, self.packet, header + self.offset);
                proof {
                    lemma_tail_step(
                        bytes,
                        format,
                        count as nat,
                        self.packet as nat,
                        self.offset as nat,
                    );
                }
                self.offset = self.offset + 1;
                return Some(byte);
            }
            proof {
                lemma_packet_inside(self.packet as nat, count as nat, size as nat);
                lemma_tail_skip(bytes, format, count as nat, self.packet as nat);
                if self.packet + 1 < count {
                    assert(
                        packet_verdict(bytes, format, (self.packet + 1) as nat, count as nat) is Ok
                    );
                }
            }
            self.packet = self.packet + 1;
            self.offset = 0;
        }
        None
    }
}

/// A sequence of whole packets is as long as its packets together.
proof fn lemma_whole_packets(units: Seq<u32>, format: Format)
    requires
        spec_validate_group(units, format) is Ok,
    ensures
        4 * units.len() == packets_in(units, format) * format.packet_bytes(),
        packets_in(units, format) == (4 * units.len()) as int / format.packet_bytes() as int,
{
    let size = format.packet_bytes() as int;
    let count = (4 * units.len()) as int / size;
    vstd::arithmetic::div_mod::lemma_fundamental_div_mod((4 * units.len()) as int, size);
    assert(size * count == count * size) by (nonlinear_arith);
}

/// A packet of a sequence lies inside the sequence.
proof fn lemma_packet_inside(packet: nat, count: nat, size: nat)
    requires
        packet < count,
    ensures
        packet * size + size <= count * size,
{
    assert(packet * size + size <= count * size) by (nonlinear_arith)
        requires
            packet < count,
    ;
}

/// The number of payload bytes a packet of a valid message carries.
fn chunk_at(units: &[u32], format: Format, packet: usize, count: usize) -> (chunk: usize)
    requires
        packet < count,
        4 * units@.len() == count * format.packet_bytes(),
        packet_verdict(bytes_of(units@), format, packet as nat, count as nat) is Ok,
    ensures
        chunk == chunk_of(bytes_of(units@), format, packet as nat),
        chunk <= format.capacity(),
{
    proof {
        lemma_packet_inside(packet as nat, count as nat, format.packet_bytes());
    }
    match format {
        Format::Sysex7 => (packet_byte(units, format, packet, 1) % 16) as usize,
        Format::Sysex8 => (packet_byte(units, format, packet, 1) % 16 - 1) as usize,
        _ => format.payload_capacity(),
    }
}

/// The payload from a byte inside a chunk on is that byte, then the
/// payload from the next byte on.
proof fn lemma_tail_step(bytes: Seq<u8>, format: Format, count: nat, packet: nat, offset: nat)
    requires
        packet < count,
        offset < chunk_of(bytes, format, packet) <= format.capacity(),
        packet * format.packet_bytes() + format.packet_bytes() <= bytes.len(),
    ensures
        tail(bytes, format, count, packet, offset) == seq![
            bytes[(packet * format.packet_bytes() + format.header_bytes() + offset) as int],
        ] + tail(bytes, format, count, packet, offset + 1),
{
    let start = (packet * format.packet_bytes() + format.header_bytes()) as int;
    let to = start + chunk_of(bytes, format, packet);
    let rest = tail(bytes, format, count, packet + 1, 0);
    let byte = bytes[start + offset];
    assert(bytes.subrange(start + offset, to) =~= seq![byte] + bytes.subrange(
        start + offset + 1,
        to,
    ));
    assert((seq![byte] + bytes.subrange(start + offset + 1, to)) + rest =~= seq![byte] + (
    bytes.subrange(start + offset + 1, to) + rest));
}

/// The payload from the end of a chunk on is the payload from the start of
/// the next packet on.
proof fn lemma_tail_skip(bytes: Seq<u8>, format: Format, count: nat, packet: nat)
    requires
        packet < count,
        0 <= chunk_of(bytes, format, packet) <= format.capacity(),
        packet * format.packet_bytes() + format.packet_bytes() <= bytes.len(),
    ensures
        tail(bytes, format, count, packet, chunk_of(bytes, format, packet) as nat) == tail(
            bytes,
            format,
            count,
            packet + 1,
            0,
        ),
{
    let start = (packet * format.packet_bytes() + format.header_bytes()) as int;
    let to = start + chunk_of(bytes, format, packet);
    let rest = tail(bytes, format, count, packet + 1, 0);
    assert(bytes.subrange(to, to) =~= Seq::<u8>::empty());
    assert(Seq::<u8>::empty() + rest =~= rest);
}

/// Collects the payload of a valid segmented message.
pub fn payload(units: &[u32], format: Format) -> (bytes: Vec<u8>)
    requires
        spec_validate_group(units@, format) is Ok,
    ensures
        bytes@ == spec_payload(units@, format),
{
    let mut walk = PayloadIterator::new(units, format);
    let mut bytes: Vec<u8> = Vec::new();
    loop
        invariant
            walk.wf(),
            bytes@ + walk.remaining() == spec_payload(units@, format),
        decreases walk.remaining().len(),
    {
        match walk.next() {
            None => {
                proof {
                    assert(bytes@ + walk.remaining() =~= bytes@);
                }
                return bytes;
            },
            Some(byte) => {
                let ghost before = bytes@;
                bytes.push(byte);
                proof {
                    assert(bytes@ + walk.remaining() =~= before + (seq![byte] + walk.remaining()));
                }
            },
        }
    }
}

/// What decoding yields for an encoded payload: the payload itself, and
/// for formats with fixed chunks also the zero bytes that fill the last
/// packet.
pub open spec fn padded(format: Format, payload: Seq<u8>) -> Seq<u8> {
    if format.fixed_chunks() {
        payload + Seq::new(
            (packet_count(payload.len(), format.capacity()) * format.capacity()
                - payload.len()) as nat,
            |i: int| 0u8,
        )
    } else {
        payload
    }
}

proof fn lemma_index(packet: nat, offset: nat, size: nat)
    requires
        offset < size,
    ensures
        (packet * size + offset) as int / size as int == packet,
        (packet * size + offset) as int % size as int == offset,
{
    vstd::arithmetic::div_mod::lemma_fundamental_div_mod_converse(
        (packet * size + offset) as int,
        size as int,
        packet as int,
        offset as int,
    );
}

/// The number of payload bytes decoding finds in a packet of an encoded
/// message.
pub open spec fn decoded_chunk(format: Format, len: nat, packet: nat) -> nat {
    if format.fixed_chunks() {
        format.capacity()
    } else {
        chunk_len(len, format.capacity(), packet)
    }
}

/// One byte of an encoded packet, by packet number and offset.
pub open spec fn encoded_packet_byte(
    header: Header,
    payload: Seq<u8>,
    packet: nat,
    offset: nat,
) -> u8 {
    let format = header.format;
    if offset < format.header_bytes() {
        header_byte(
            header,
            role_of(packet, packet_count(payload.len(), format.capacity())),
            chunk_len(payload.len(), format.capacity(), packet),
            offset,
        )
    } else {
        let k = packet * format.capacity() + offset - format.header_bytes();
        if k < payload.len() {
            payload[k]
        } else {
            0
        }
    }
}

proof fn lemma_encoded_bytes(header: Header, payload: Seq<u8>, packet: nat)
    requires
        packet < packet_count(payload.len(), header.format.capacity()),
    ensures
        packet * header.format.packet_bytes() + header.format.packet_bytes() <= spec_encode(
            header,
            payload,
        ).len(),
        forall|offset: nat|
            offset < header.format.packet_bytes() ==> spec_encode(header, payload)[(packet
                * header.format.packet_bytes() + offset) as int] == #[trigger] encoded_packet_byte(
                header,
                payload,
                packet,
                offset,
            ),
{
    let size = header.format.packet_bytes();
    let count = packet_count(payload.len(), header.format.capacity());
    assert(packet * size + size <= count * size) by (nonlinear_arith)
        requires
            packet < count,
    ;
    assert forall|offset: nat| offset < size implies spec_encode(header, payload)[(packet * size
        + offset) as int] == #[trigger] encoded_packet_byte(header, payload, packet, offset) by {
        lemma_index(packet, offset, size);
    }
}

/// What the packets of a message with the given header agree on.
pub open spec fn header_identity(header: Header) -> int {
    match header.format {
        Format::UmpStream => header.status as int,
        Format::UmpStreamBlock => header.status * 256 + header.detail,
        Format::FlexData => ((header.group * 64 + header.detail) * 256 + header.status / 256)
            * 256 + header.status % 256,
        Format::Sysex7 => header.group as int,
        Format::Sysex8 => header.group * 256 + header.detail,
    }
}

/// The fields read back from a packet header are the ones it was made of.
/// `b2` and `b3` are the third and fourth byte of the packet, which belong
/// to the header only where the header is that long.
proof fn lemma_header_fields(header: Header, role: Role, chunk: nat, b2: u8, b3: u8)
    requires
        header.wf(),
        chunk <= header.format.capacity(),
        header.format.header_bytes() > 2 ==> b2 == header_byte(header, role, chunk, 2),
        header.format.header_bytes() > 3 ==> b3 == header_byte(header, role, chunk, 3),
    ensures
        ({
            let format = header.format;
            let h0 = header_byte(header, role, chunk, 0);
            let h1 = header_byte(header, role, chunk, 1);
            &&& h0 / 16 == format.type_code()
            &&& role_code_from(format, h0, h1) == role.code()
            &&& chunk_from(format, h1) == (if format.fixed_chunks() {
                format.capacity() as int
            } else {
                chunk as int
            })
            &&& identity_from(format, h0, h1, b2, b3) == header_identity(header)
        }),
{
    assert(role.code() <= 3);
}

/// What each packet of an encoding holds: the type of its format, the
/// role its position calls for, the size of its share of the payload, the
/// fields that all packets repeat, and its share of the payload itself.
pub proof fn lemma_encoded_packet(header: Header, payload: Seq<u8>, packet: nat)
    requires
        packet < packet_count(payload.len(), header.format.capacity()),
        header.wf(),
        header.format is Sysex7 ==> forall|k: int| 0 <= k < payload.len() ==> payload[k] < 128,
    ensures
        ({
            let format = header.format;
            let bytes = spec_encode(header, payload);
            let count = packet_count(payload.len(), format.capacity());
            let start = packet * format.packet_bytes() + format.header_bytes();
            &&& packet * format.packet_bytes() + format.packet_bytes() <= bytes.len()
            &&& bytes[(packet * format.packet_bytes()) as int] / 16 == format.type_code()
            &&& role_code_of(bytes, format, packet) == role_of(packet, count).code()
            &&& chunk_of(bytes, format, packet) == decoded_chunk(format, payload.len(), packet)
            &&& identity_of(bytes, format, packet) == header_identity(header)
            &&& data_ok(bytes, format, packet)
            &&& forall|k: int|
                0 <= k < format.capacity() ==> #[trigger] bytes[start + k] == (if packet
                    * format.capacity() + k < payload.len() {
                    payload[packet * format.capacity() + k]
                } else {
                    0u8
                })
        }),
{
    let format = header.format;
    let size = format.packet_bytes();
    let head = format.header_bytes();
    let capacity = format.capacity();
    let bytes = spec_encode(header, payload);
    let count = packet_count(payload.len(), capacity);
    let first = (packet * size) as int;
    let start = first + head;
    lemma_encoded_bytes(header, payload, packet);
    let chunk = chunk_len(payload.len(), capacity, packet);
    let role = role_of(packet, count);
    assert(bytes[(packet * size + 0nat) as int] == encoded_packet_byte(header, payload, packet, 0));
    assert(bytes[(packet * size + 1nat) as int] == encoded_packet_byte(header, payload, packet, 1));
    assert(bytes[(packet * size + 2nat) as int] == encoded_packet_byte(header, payload, packet, 2));
    assert(bytes[(packet * size + 3nat) as int] == encoded_packet_byte(header, payload, packet, 3));
    lemma_header_fields(header, role, chunk, bytes[first + 2], bytes[first + 3]);
    assert forall|k: int| 0 <= k < capacity implies #[trigger] bytes[start + k] == (if packet
        * capacity + k < payload.len() {
        payload[packet * capacity + k]
    } else {
        0u8
    }) by {
        let offset = (head + k) as nat;
        assert(bytes[(packet * size + offset) as int] == encoded_packet_byte(
            header,
            payload,
            packet,
            offset,
        ));
    }
    if format is Sysex7 {
        assert forall|k: int| 0 <= k < chunk_of(
            bytes,
            format,
            packet,
        ) implies #[trigger] bytes[packet
            * format.packet_bytes() + format.header_bytes() + k] < 128 by {
            assert(bytes[start + k] == payload[packet * capacity + k]);
        }
    }
}

/// The header of every packet of an encoding holds the bytes it was made
/// of, and the payload bytes of the packet follow it in order, with zeros
/// where the payload has run out.
pub proof fn lemma_encoded_packet_bytes(header: Header, payload: Seq<u8>, packet: nat)
    requires
        packet < packet_count(payload.len(), header.format.capacity()),
    ensures
        (packet + 1) * header.format.packet_words() <= spec_encode_words(header, payload).len(),
        forall|offset: nat|
            offset < header.format.packet_bytes() ==> bytes_of(
                spec_encode_words(header, payload),
            )[(packet * header.format.packet_bytes() + offset) as int]
                == #[trigger] encoded_packet_byte(header, payload, packet, offset),
{
    let size = header.format.packet_bytes();
    let words = header.format.packet_words();
    let count = packet_count(payload.len(), header.format.capacity());
    lemma_encoded_words(header, payload);
    lemma_encoded_bytes(header, payload, packet);
    assert(size == 4 * words);
    assert((packet + 1) * words <= count * words) by (nonlinear_arith)
        requires
            packet + 1 <= count,
    ;
    assert(4 * (count * words) == count * size) by (nonlinear_arith)
        requires
            size == 4 * words,
    ;
}

/// The header of every packet of an encoding holds the bytes it was made
/// of.
pub proof fn lemma_encoded_packet_header(
    header: Header,
    payload: Seq<u8>,
    packet: nat,
    offset: nat,
)
    requires
        packet < packet_count(payload.len(), header.format.capacity()),
        offset < header.format.header_bytes(),
    ensures
        bytes_of(spec_encode_words(header, payload))[(packet * header.format.packet_bytes()
            + offset) as int] == header_byte(
            header,
            role_of(packet, packet_count(payload.len(), header.format.capacity())),
            chunk_len(payload.len(), header.format.capacity(), packet),
            offset,
        ),
{
    lemma_encoded_packet_bytes(header, payload, packet);
    assert(bytes_of(spec_encode_words(header, payload))[(packet * header.format.packet_bytes()
        + offset) as int] == encoded_packet_byte(header, payload, packet, offset));
}

/// The header of the first packet of an encoding holds the bytes it was
/// made of.
pub proof fn lemma_encoded_header(header: Header, payload: Seq<u8>)
    ensures
        spec_encode_words(header, payload).len() >= 2,
        forall|offset: nat|
            offset < header.format.header_bytes() ==> bytes_of(
                spec_encode_words(header, payload),
            )[offset as int] == #[trigger] header_byte(
                header,
                role_of(0, packet_count(payload.len(), header.format.capacity())),
                chunk_len(payload.len(), header.format.capacity(), 0),
                offset,
            ),
{
    let capacity = header.format.capacity();
    if payload.len() > 0 {
        lemma_packet_count(payload.len(), capacity);
    }
    lemma_encoded_words(header, payload);
    lemma_encoded_bytes(header, payload, 0);
    let count = packet_count(payload.len(), capacity);
    assert(count * header.format.packet_bytes() >= 8) by (nonlinear_arith)
        requires
            count >= 1,
            header.format.packet_bytes() >= 8,
    ;
    assert forall|offset: nat| offset < header.format.header_bytes() implies bytes_of(
        spec_encode_words(header, payload),
    )[offset as int] == #[trigger] header_byte(
        header,
        role_of(0, count),
        chunk_len(payload.len(), capacity, 0),
        offset,
    ) by {
        assert(spec_encode(header, payload)[(0 * header.format.packet_bytes() + offset) as int]
            == encoded_packet_byte(header, payload, 0, offset));
    }
}

proof fn lemma_encoded_verdict(header: Header, payload: Seq<u8>, packet: nat)
    requires
        packet < packet_count(payload.len(), header.format.capacity()),
        header.wf(),
        header.format is Sysex7 ==> forall|k: int| 0 <= k < payload.len() ==> payload[k] < 128,
    ensures
        packet_verdict(
            spec_encode(header, payload),
            header.format,
            packet,
            packet_count(payload.len(), header.format.capacity()),
        ) is Ok,
{
    lemma_encoded_packet(header, payload, packet);
    lemma_encoded_packet(header, payload, 0);
}

proof fn lemma_first_failure_ok(bytes: Seq<u8>, format: Format, count: nat, from: nat)
    requires
        forall|p: nat| p < count ==> #[trigger] packet_verdict(bytes, format, p, count) is Ok,
    ensures
        first_failure(bytes, format, count, from) is Ok,
    decreases count - from,
{
    if from < count {
        lemma_first_failure_ok(bytes, format, count, from + 1);
    }
}

/// The place in the decoded payload where the chunk of a packet starts.
pub open spec fn decoded_start(format: Format, len: nat, packet: nat) -> nat {
    if format.fixed_chunks() || packet * format.capacity() <= len {
        packet * format.capacity()
    } else {
        len
    }
}

/// The share of the decoded payload that one packet of an encoding holds.
#[verifier::rlimit(40)]
proof fn lemma_encoded_chunk(header: Header, payload: Seq<u8>, packet: nat)
    requires
        packet < packet_count(payload.len(), header.format.capacity()),
        header.wf(),
        header.format is Sysex7 ==> forall|k: int| 0 <= k < payload.len() ==> payload[k] < 128,
    ensures
        ({
            let format = header.format;
            let bytes = spec_encode(header, payload);
            let decoded = padded(format, payload);
            let here = decoded_start(format, payload.len(), packet) as int;
            let chunk = chunk_of(bytes, format, packet);
            let start = (packet * format.packet_bytes() + format.header_bytes()) as int;
            &&& 0 <= chunk
            &&& here + chunk == decoded_start(format, payload.len(), packet + 1)
            &&& here + chunk <= decoded.len()
            &&& bytes.subrange(start, start + chunk) == decoded.subrange(here, here + chunk)
        }),
{
    let format = header.format;
    let capacity = format.capacity();
    let len = payload.len();
    let count = packet_count(len, capacity);
    let bytes = spec_encode(header, payload);
    let decoded = padded(format, payload);
    let here = decoded_start(format, len, packet) as int;
    let start = (packet * format.packet_bytes() + format.header_bytes()) as int;
    lemma_encoded_packet(header, payload, packet);
    let chunk = decoded_chunk(format, len, packet) as int;
    assert(chunk_of(bytes, format, packet) == chunk);
    if len > 0 {
        lemma_packet_count(len, capacity);
    }
    assert((packet + 1) * capacity == packet * capacity + capacity) by (nonlinear_arith);
    assert((packet + 1) * capacity <= count * capacity) by (nonlinear_arith)
        requires
            packet + 1 <= count,
    ;
    assert(count * capacity >= 0) by (nonlinear_arith)
        requires
            count >= 0,
            capacity >= 0,
    ;
    assert(chunk <= capacity);
    assert(here + chunk <= decoded.len());
    let piece = bytes.subrange(start, start + chunk);
    let want = decoded.subrange(here, here + chunk);
    assert forall|k: int| 0 <= k < chunk implies #[trigger] piece[k] == want[k] by {
        assert(bytes[start + k] == (if packet * capacity + k < len {
            payload[packet * capacity + k]
        } else {
            0u8
        }));
    }
    assert(piece =~= want);
}

proof fn lemma_decoded_end(format: Format, payload: Seq<u8>)
    ensures
        decoded_start(format, payload.len(), packet_count(payload.len(), format.capacity()))
            == padded(format, payload).len(),
{
    let capacity = format.capacity();
    let len = payload.len();
    let count = packet_count(len, capacity);
    if len > 0 {
        lemma_packet_count(len, capacity);
    }
    assert(count * capacity >= len) by (nonlinear_arith)
        requires
            len == 0 || len <= count * capacity,
            count >= 1,
            capacity >= 0,
    ;
}

proof fn lemma_decoded_tail(header: Header, payload: Seq<u8>, packet: nat)
    requires
        packet <= packet_count(payload.len(), header.format.capacity()),
        header.wf(),
        header.format is Sysex7 ==> forall|k: int| 0 <= k < payload.len() ==> payload[k] < 128,
    ensures
        decoded_start(header.format, payload.len(), packet) <= padded(
            header.format,
            payload,
        ).len(),
        tail(
            spec_encode(header, payload),
            header.format,
            packet_count(payload.len(), header.format.capacity()),
            packet,
            0,
        ) == padded(header.format, payload).subrange(
            decoded_start(header.format, payload.len(), packet) as int,
            padded(header.format, payload).len() as int,
        ),
    decreases packet_count(payload.len(), header.format.capacity()) - packet,
{
    let format = header.format;
    let count = packet_count(payload.len(), format.capacity());
    let bytes = spec_encode(header, payload);
    let decoded = padded(format, payload);
    let here = decoded_start(format, payload.len(), packet) as int;
    let end = decoded.len() as int;
    if packet >= count {
        lemma_decoded_end(format, payload);
        assert(decoded.subrange(here, end) =~= Seq::<u8>::empty());
    } else {
        lemma_encoded_chunk(header, payload, packet);
        lemma_decoded_tail(header, payload, packet + 1);
        let chunk = chunk_of(bytes, format, packet);
        assert(decoded.subrange(here, here + chunk) + decoded.subrange(here + chunk, end)
            =~= decoded.subrange(here, end));
    }
}

proof fn lemma_encoded_shape(header: Header, payload: Seq<u8>)
    ensures
        spec_encode_words(header, payload).len() > 0,
        (4 * spec_encode_words(header, payload).len()) as int % (
        header.format.packet_bytes() as int) == 0,
        packets_in(spec_encode_words(header, payload), header.format) == packet_count(
            payload.len(),
            header.format.capacity(),
        ),
{
    let size = header.format.packet_bytes();
    let count = packet_count(payload.len(), header.format.capacity());
    lemma_encoded_words(header, payload);
    if payload.len() > 0 {
        lemma_packet_count(payload.len(), header.format.capacity());
    }
    lemma_index(count, 0, size);
    assert(count * size >= size) by (nonlinear_arith)
        requires
            count >= 1,
    ;
}

proof fn lemma_encoded_valid(header: Header, payload: Seq<u8>)
    requires
        header.wf(),
        header.format is Sysex7 ==> forall|k: int| 0 <= k < payload.len() ==> payload[k] < 128,
    ensures
        spec_validate_group(spec_encode_words(header, payload), header.format) is Ok,
{
    let format = header.format;
    let count = packet_count(payload.len(), format.capacity());
    let bytes = spec_encode(header, payload);
    lemma_encoded_words(header, payload);
    lemma_encoded_shape(header, payload);
    assert forall|p: nat| p < count implies #[trigger] packet_verdict(
        bytes,
        format,
        p,
        count,
    ) is Ok by {
        lemma_encoded_verdict(header, payload, p);
    }
    lemma_first_failure_ok(bytes, format, count, 0);
}

/// Decoding undoes encoding: the packets that carry a payload validate,
/// and the payload found in them is the one that was split, followed for
/// formats with fixed chunks by the padding of the last packet.
pub proof fn lemma_encode_then_decode(header: Header, payload: Seq<u8>, units: Seq<u32>)
    requires
        units == spec_encode_words(header, payload),
        header.wf(),
        header.format is Sysex7 ==> forall|k: int| 0 <= k < payload.len() ==> payload[k] < 128,
    ensures
        spec_validate_group(units, header.format) is Ok,
        packets_in(units, header.format) == packet_count(
            payload.len(),
            header.format.capacity(),
        ),
        spec_payload(units, header.format) == padded(header.format, payload),
{
    lemma_encoded_shape(header, payload);
    lemma_encoded_valid(header, payload);
    lemma_encoded_words(header, payload);
    lemma_decoded_tail(header, payload, 0);
    let decoded = padded(header.format, payload);
    assert(decoded.subrange(0, decoded.len() as int) =~= decoded);
}

} // verus!
