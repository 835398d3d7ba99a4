use midi2::error::{Error, ERR_DATA_BYTE, ERR_INVALID_PACKET_SIZE};
use midi2::message::system_exclusive_7bit::{Sysex7Borrowed, Sysex7Message, Sysex7Owned};
use midi2::message::system_exclusive_8bit::{Sysex8Borrowed, Sysex8Message, Sysex8Owned};
use midi2::numeric_types::{U4, U7};
use midi2::segmentation::{
    count_packets, encode, encode_into, get_byte, packet_chunk, packet_role, payload, set_byte,
    validate_group, Format, Header, PayloadIterator, Role,
};

fn sysex8(len: usize) -> Vec<u32> {
    let data: Vec<u8> = (0..len).map(|i| i as u8).collect();
    let header = Header { format: Format::Sysex8, group: 0xE, status: 0, detail: 0xBE };
    encode(&header, &data)
}

fn roles(words: &[u32], packet_words: usize, shift: u32, mask: u32) -> Vec<u32> {
    words
        .chunks(packet_words)
        .map(|packet| (packet[0] >> shift) & mask)
        .collect()
}

#[test]
fn packet_counts_round_up() {
    assert_eq!(count_packets(0, 13), 1);
    assert_eq!(count_packets(1, 13), 1);
    assert_eq!(count_packets(13, 13), 1);
    assert_eq!(count_packets(14, 13), 2);
    assert_eq!(count_packets(26, 13), 2);
    assert_eq!(count_packets(27, 13), 3);
    assert_eq!(count_packets(50, 13), 4);
    assert_eq!(count_packets(50, 6), 9);
    assert_eq!(count_packets(50, 14), 4);
}

#[test]
fn roles_are_start_continue_end_or_complete() {
    assert_eq!(packet_role(0, 1), Role::Complete);
    assert_eq!(packet_role(0, 2), Role::Start);
    assert_eq!(packet_role(1, 2), Role::End);
    assert_eq!(packet_role(0, 4), Role::Start);
    assert_eq!(packet_role(1, 4), Role::Continue);
    assert_eq!(packet_role(2, 4), Role::Continue);
    assert_eq!(packet_role(3, 4), Role::End);
    assert_eq!(Role::Complete.to_code(), 0);
    assert_eq!(Role::Start.to_code(), 1);
    assert_eq!(Role::Continue.to_code(), 2);
    assert_eq!(Role::End.to_code(), 3);
}

#[test]
fn chunks_fill_every_packet_but_the_last() {
    assert_eq!(packet_chunk(50, 13, 0), 13);
    assert_eq!(packet_chunk(50, 13, 2), 13);
    assert_eq!(packet_chunk(50, 13, 3), 11);
    assert_eq!(packet_chunk(50, 13, 4), 0);
    assert_eq!(packet_chunk(0, 13, 0), 0);
    assert_eq!(packet_chunk(13, 13, 0), 13);
}

#[test]
fn encoded_packets_carry_their_roles() {
    for len in 0..=60 {
        let words = sysex8(len);
        let expected = if len == 0 { 1 } else { (len + 12) / 13 };
        assert_eq!(words.len(), 4 * expected);
        let found = roles(&words, 4, 20, 0xF);
        if expected == 1 {
            assert_eq!(found, vec![0]);
        } else {
            assert_eq!(found[0], 1);
            assert_eq!(found[expected - 1], 3);
            assert!(found[1..expected - 1].iter().all(|role| *role == 2));
        }
        assert_eq!(validate_group(&words, Format::Sysex8), Ok(()));
        let back = payload(&words, Format::Sysex8);
        assert_eq!(back, (0..len).map(|i| i as u8).collect::<Vec<u8>>());
    }
}

#[test]
fn payload_walk_is_restartable() {
    let words = sysex8(20);
    let mut first = PayloadIterator::new(&words, Format::Sysex8);
    assert_eq!(first.next(), Some(0));
    assert_eq!(first.next(), Some(1));
    let mut second = PayloadIterator::new(&words, Format::Sysex8);
    assert_eq!(second.next(), Some(0));
    let mut rest = Vec::new();
    while let Some(byte) = first.next() {
        rest.push(byte);
    }
    assert_eq!(rest, (2..20).collect::<Vec<u8>>());
    assert_eq!(first.next(), None);
    assert_eq!(first.next(), None);
}

#[test]
fn encode_into_respects_the_buffer() {
    let header = Header { format: Format::Sysex7, group: 0x1, status: 0, detail: 0 };
    let mut buffer = [0xFFFF_FFFF_u32; 5];
    assert_eq!(encode_into(&mut buffer, &header, &[1, 2, 3, 4, 5, 6, 7]), Ok(4));
    assert_eq!(
        buffer,
        [0x3116_0102, 0x0304_0506, 0x3131_0700, 0x0000_0000, 0xFFFF_FFFF],
    );
    let mut short = [0xFFFF_FFFF_u32; 3];
    assert_eq!(
        encode_into(&mut short, &header, &[1, 2, 3, 4, 5, 6, 7]),
        Err(Error::BufferOverflow),
    );
    assert_eq!(short, [0xFFFF_FFFF; 3]);
}

#[test]
fn bytes_of_words() {
    let mut words = [0x0102_0304_u32, 0x0506_0708];
    assert_eq!(get_byte(&words, 0), 0x01);
    assert_eq!(get_byte(&words, 3), 0x04);
    assert_eq!(get_byte(&words, 6), 0x07);
    set_byte(&mut words, 5, 0xAB);
    assert_eq!(words, [0x0102_0304, 0x05AB_0708]);
}

#[test]
fn sysex7_validation() {
    assert_eq!(
        Sysex7Borrowed::from_data(&[0x3007_0000, 0x0]),
        Err(Error::InvalidData(ERR_INVALID_PACKET_SIZE)),
    );
    assert_eq!(
        Sysex7Borrowed::from_data(&[0x3002_8000, 0x0]),
        Err(Error::InvalidData(ERR_DATA_BYTE)),
    );
    assert_eq!(
        Sysex7Borrowed::from_data(&[0x3001_0080, 0x0]),
        Ok(Sysex7Borrowed(&[0x3001_0080, 0x0])),
    );
    assert_eq!(
        Sysex7Borrowed::from_data(&[0x3016_0000, 0x0, 0x3136_0000, 0x0]),
        Err(Error::InvalidData("Inconsistent packet sequence")),
    );
    assert_eq!(
        Sysex7Borrowed::from_data(&[0x3016_0000, 0x0, 0x3016_0000, 0x0]),
        Err(Error::InvalidData("Inconsistent packet sequence")),
    );
    assert_eq!(
        Sysex7Borrowed::from_data(&[0x3000_0000]),
        Err(Error::InvalidData("slice too short")),
    );
}

#[test]
fn sysex8_validation() {
    assert_eq!(
        Sysex8Borrowed::from_data(&[0x5000_0000, 0x0, 0x0, 0x0]),
        Err(Error::InvalidData(ERR_INVALID_PACKET_SIZE)),
    );
    assert_eq!(
        Sysex8Borrowed::from_data(&[0x500F_0000, 0x0, 0x0, 0x0]),
        Err(Error::InvalidData(ERR_INVALID_PACKET_SIZE)),
    );
    assert!(Sysex8Borrowed::from_data(&[0x5001_0000, 0x0, 0x0, 0x0]).is_ok());
    assert_eq!(
        Sysex8Borrowed::from_data(&[0x501E_0100, 0, 0, 0, 0x503E_0200, 0, 0, 0]),
        Err(Error::InvalidData("Inconsistent packet sequence")),
    );
}

#[test]
fn sysex_accessors() {
    let words = sysex8(30);
    let message = Sysex8Message::from_data(&words).unwrap();
    assert_eq!(message.group(), U4::new(0xE));
    assert_eq!(message.stream_id(), 0xBE);
    let mut walk = message.payload();
    let mut bytes = Vec::new();
    while let Some(byte) = walk.next() {
        bytes.push(byte);
    }
    assert_eq!(bytes, (0..30).collect::<Vec<u8>>());
    assert_eq!(message.into_owned(), Sysex8Owned(words.clone()));

    let built: Sysex7Owned = Sysex7Message::builder()
        .group(U4::new(0x2))
        .payload(&[U7::new(0x7F), U7::new(0x01)])
        .build()
        .map(Sysex7Message::into_owned)
        .unwrap();
    assert_eq!(built, Sysex7Owned(vec![0x3202_7F01, 0x0]));
    assert_eq!(Sysex7Borrowed::from_data(&built.0).unwrap().group(), U4::new(0x2));
}

#[test]
fn packet_arithmetic_at_the_largest_length() {
    assert_eq!(count_packets(usize::MAX, 1), usize::MAX);
    assert_eq!(count_packets(usize::MAX, 16), usize::MAX / 16 + 1);
    assert_eq!(count_packets(usize::MAX - 5, 6), (usize::MAX - 5) / 6 + usize::from((usize::MAX - 5) % 6 != 0));
    assert_eq!(packet_chunk(usize::MAX, 14, usize::MAX), 0);
    assert_eq!(packet_chunk(usize::MAX, 14, 0), 14);
    assert_eq!(packet_chunk(20, 14, 1), 6);
    assert_eq!(packet_chunk(20, 14, 2), 0);
}

#[test]
fn encode_writes_every_word_of_every_packet() {
    let data: Vec<u8> = (1..=20).collect();
    let header = Header { format: Format::Sysex7, group: 0x3, status: 0, detail: 0 };
    let words = encode(&header, &data);
    assert_eq!(
        words,
        vec![
            0x3316_0102, 0x0304_0506, 0x3326_0708, 0x090A_0B0C, 0x3326_0D0E, 0x0F10_1112,
            0x3332_1314, 0x0000_0000,
        ]
    );
    let mut buffer = [0xFFFF_FFFFu32; 10];
    assert_eq!(encode_into(&mut buffer, &header, &data), Ok(8));
    assert_eq!(&buffer[..8], &words[..]);
    assert_eq!(&buffer[8..], &[0xFFFF_FFFF, 0xFFFF_FFFF]);
    let mut short = [0xFFFF_FFFFu32; 7];
    assert_eq!(encode_into(&mut short, &header, &data), Err(Error::BufferOverflow));
    assert_eq!(short, [0xFFFF_FFFFu32; 7]);
}
