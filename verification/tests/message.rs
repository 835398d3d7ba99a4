use midi2::buffer::MessageData;
use midi2::channel_voice1::key_pressure::KeyPressure;
use midi2::channel_voice1::note_on::NoteOn;
use midi2::error::{
    Error, ERR_NO_BYTE_FORM, ERR_OWNED_NEEDS_ALLOCATION, ERR_SLICE_TOO_SHORT,
    ERR_UNKNOWN_BYTE_STATUS, ERR_UNKNOWN_CHANNEL_VOICE_STATUS, ERR_UNKNOWN_MESSAGE_TYPE,
};
use midi2::message::midi1_channel_voice::{
    Midi1ChannelVoiceBorrowed, Midi1ChannelVoiceMessage, Midi1ChannelVoiceOwned,
};
use midi2::message::system_exclusive_7bit::Sysex7Borrowed;
use midi2::message::system_exclusive_8bit::Sysex8Borrowed;
use midi2::message::utility::{UtilityBorrowed, UtilityBuilder, UtilityOwned};
use midi2::message::{Message, MessageBorrowed, MessageBuilder, MessageOwned};
use midi2::numeric_types::{U4, U7};
use midi2::utility::no_op::NoOp;

const SYSEX8: [u32; 16] = [
    0x5E1E_BE00,
    0x0102_0304,
    0x0506_0708,
    0x090A_0B0C,
    0x5E2E_BE0D,
    0x0E0F_1011,
    0x1213_1415,
    0x1617_1819,
    0x5E2E_BE1A,
    0x1B1C_1D1E,
    0x1F20_2122,
    0x2324_2526,
    0x5E3C_BE27,
    0x2829_2A2B,
    0x2C2D_2E2F,
    0x3031_0000,
];

const SYSEX7: [u32; 18] = [
    0x3E16_0001,
    0x0203_0405,
    0x3E26_0607,
    0x0809_0A0B,
    0x3E26_0C0D,
    0x0E0F_1011,
    0x3E26_1213,
    0x1415_1617,
    0x3E26_1819,
    0x1A1B_1C1D,
    0x3E26_1E1F,
    0x2021_2223,
    0x3E26_2425,
    0x2627_2829,
    0x3E26_2A2B,
    0x2C2D_2E2F,
    0x3E32_3031,
    0x0000_0000,
];

#[test]
fn from_byte_data() {
    assert_eq!(
        Message::from_byte_data(&[0xAB, 0x60, 0x33]),
        Message::builder()
            .midi1_channel_voice()
            .key_pressure()
            .channel(U4::new(0xB))
            .note(U7::new(0x60))
            .pressure(U7::new(0x33))
            .build(),
    );
}

#[test]
fn from_byte_data_yields_the_packet() {
    assert_eq!(
        MessageOwned::from_byte_data(&[0xAB, 0x60, 0x33]),
        Ok(MessageOwned::Midi1ChannelVoice(
            Midi1ChannelVoiceOwned::KeyPressure(KeyPressure([0x20AB_6033, 0x0, 0x0, 0x0]))
        )),
    );
}

#[test]
fn from_byte_data_failures() {
    assert_eq!(
        MessageOwned::from_byte_data(&[]),
        Err(Error::InvalidData(ERR_SLICE_TOO_SHORT)),
    );
    assert_eq!(
        MessageOwned::from_byte_data(&[0x7F, 0x00]),
        Err(Error::InvalidData(ERR_UNKNOWN_BYTE_STATUS)),
    );
    assert_eq!(
        MessageOwned::from_byte_data(&[0xF0, 0x00]),
        Err(Error::InvalidData(ERR_UNKNOWN_BYTE_STATUS)),
    );
    assert_eq!(
        MessageOwned::from_byte_data(&[0xF7]),
        Err(Error::InvalidData(ERR_UNKNOWN_BYTE_STATUS)),
    );
    assert_eq!(
        MessageOwned::from_byte_data(&[0x90, 0x00]),
        Err(Error::InvalidData(ERR_SLICE_TOO_SHORT)),
    );
    assert!(MessageOwned::from_byte_data(&[0xFA]).is_ok());
}

#[test]
fn ump_stream_builder() {
    assert_eq!(
        Message::builder()
            .ump_stream()
            .function_block_name()
            .name("VibratoVanguard: Leading Waves of Euphony🚀🎶🌊")
            .function_block(0x5)
            .build()
            .unwrap()
            .data(),
        &[
            0xF412_0556,
            0x6962_7261,
            0x746F_5661,
            0x6E67_7561,
            0xF812_0572,
            0x643A_204C,
            0x6561_6469,
            0x6E67_2057,
            0xF812_0561,
            0x7665_7320,
            0x6F66_2045,
            0x7570_686F,
            0xF812_056E,
            0x79F0_9F9A,
            0x80F0_9F8E,
            0xB6F0_9F8C,
            0xFC12_058A,
            0x0000_0000,
            0x0000_0000,
            0x0000_0000,
        ],
    );
}

#[test]
fn flex_data_builder() {
    assert_eq!(
        Message::builder()
            .flex_data()
            .composer_name()
            .group(U4::new(0x4))
            .text("Tár")
            .build()
            .unwrap()
            .data(),
        &[0xD410_0105, 0x54C3_A172, 0x0000_0000, 0x0000_0000,],
    );
}

#[test]
fn sysex8_builder() {
    let payload: Vec<u8> = (0..50).collect();
    assert_eq!(
        Message::builder()
            .sysex8()
            .payload(&payload)
            .group(U4::new(0xE))
            .stream_id(0xBE)
            .build()
            .unwrap()
            .data(),
        &SYSEX8,
    );
}

#[test]
fn sysex7_builder() {
    let payload: Vec<U7> = (0..50).map(U7::new).collect();
    assert_eq!(
        Message::builder()
            .sysex7()
            .payload(&payload)
            .group(U4::new(0xE))
            .build()
            .unwrap()
            .data(),
        &SYSEX7,
    );
}

#[test]
fn sysex8_from_data() {
    assert!(Message::from_data(&[
        0x5E1E_BE00,
        0x0102_0304,
        0x0506_0708,
        0x090A_0B0C,
        0x5E2E_BE0D,
        0x0E0F_1011,
        0x1213_1415,
        0x1617_1819,
        0x5E2E_BE1A,
        0x1B1C_1D1E,
        0x1F20_2122,
        0x2324_2526,
        0x5E3C_BE27,
        0x2829_2A2B,
        0x2C2D_2E2F,
        0x3031_0000,
    ])
    .is_ok());
}

#[test]
fn routing_by_message_type() {
    assert_eq!(
        MessageBorrowed::from_data(&SYSEX8),
        Ok(MessageBorrowed::Sysex8(Sysex8Borrowed(&SYSEX8))),
    );
    assert_eq!(
        MessageBorrowed::from_data(&SYSEX7),
        Ok(MessageBorrowed::Sysex7(Sysex7Borrowed(&SYSEX7))),
    );
    assert_eq!(
        MessageBorrowed::from_data(&[0x0000_0000]),
        Ok(MessageBorrowed::Utility(UtilityBorrowed::NoOp(NoOp(&[0x0000_0000][..])))),
    );
    assert_eq!(
        MessageBorrowed::from_data(&[0x2091_4060]),
        Ok(MessageBorrowed::Midi1ChannelVoice(Midi1ChannelVoiceBorrowed::NoteOn(NoteOn(
            &[0x2091_4060][..]
        )))),
    );
    assert_eq!(
        Message::from_data(&[0x2091_4060]),
        Ok(Message::Midi1ChannelVoice(Midi1ChannelVoiceMessage::NoteOn(NoteOn(
            MessageData::Borrowed(&[0x2091_4060])
        )))),
    );
}

#[test]
fn routing_failures() {
    assert_eq!(
        MessageBorrowed::from_data(&[]),
        Err(Error::InvalidData(ERR_SLICE_TOO_SHORT)),
    );
    for undefined in [0x6_u32, 0x7, 0x8, 0x9, 0xA, 0xB, 0xC, 0xE] {
        assert_eq!(
            MessageBorrowed::from_data(&[undefined << 28, 0, 0, 0]),
            Err(Error::InvalidData(ERR_UNKNOWN_MESSAGE_TYPE)),
        );
    }
    assert_eq!(
        MessageBorrowed::from_data(&[0x2000_0000]),
        Err(Error::InvalidData(ERR_UNKNOWN_CHANNEL_VOICE_STATUS)),
    );
    assert_eq!(
        MessageBorrowed::from_data(&[0x5E0E_BE00, 0, 0, 0, 0x5E3C_BE27, 0, 0, 0]),
        Err(Error::InvalidData("Inconsistent packet sequence")),
    );
    assert_eq!(
        MessageBorrowed::validate_data(&[0x0030_0000]),
        Err(Error::InvalidData("Unknown utility message status")),
    );
    assert_eq!(
        MessageBorrowed::validate_data(&[0x1AF2_7D6C]),
        Ok(()),
    );
    assert_eq!(
        MessageBorrowed::validate_data(&[0x1AF0_0000]),
        Err(Error::InvalidData("Unknown system common status")),
    );
}

#[test]
fn try_write_byte_data() {
    let message = Message::from_data(&[0x2FD6_0900]).unwrap();
    let mut buffer = [0xFF_u8; 4];
    assert_eq!(message.try_write_byte_data(&mut buffer), Ok(&mut [0xD6_u8, 0x09][..]));
    assert_eq!(buffer, [0xD6, 0x09, 0xFF, 0xFF]);
    let mut short = [0xFF_u8; 1];
    assert_eq!(message.try_write_byte_data(&mut short), Err(Error::BufferOverflow));
    assert_eq!(short, [0xFF]);
    let sysex = MessageBorrowed::from_data(&SYSEX8).unwrap();
    assert_eq!(
        sysex.try_write_byte_data(&mut buffer),
        Err(Error::InvalidData(ERR_NO_BYTE_FORM)),
    );
    let owned = MessageOwned::from_byte_data(&[0xF2, 0x7D, 0x6C]).unwrap();
    assert_eq!(owned.try_write_byte_data(&mut buffer), Ok(&mut [0xF2_u8, 0x7D, 0x6C][..]));
}

#[test]
fn into_owned_and_try_into_owned() {
    let borrowed = MessageBorrowed::from_data(&[0x2091_4060, 0xFFFF_FFFF]).unwrap();
    let expected = MessageOwned::Midi1ChannelVoice(Midi1ChannelVoiceOwned::NoteOn(NoteOn([
        0x2091_4060,
        0x0,
        0x0,
        0x0,
    ])));
    assert_eq!(borrowed.clone().into_owned(), expected);
    assert_eq!(borrowed.try_into_owned(), Ok(expected));
    let sysex = MessageBorrowed::from_data(&SYSEX8).unwrap();
    assert_eq!(sysex.clone().into_owned().data(), &SYSEX8);
    assert_eq!(
        sysex.try_into_owned(),
        Err(Error::InvalidData(ERR_OWNED_NEEDS_ALLOCATION)),
    );
    let message = Message::from_data(&SYSEX7).unwrap();
    assert_eq!(
        message.try_into_owned(),
        Err(Error::InvalidData(ERR_OWNED_NEEDS_ALLOCATION)),
    );
}

#[test]
fn message_from_borrowed_and_owned() {
    let borrowed = MessageBorrowed::from_data(&[0x2091_4060]).unwrap();
    let owned = borrowed.clone().into_owned();
    assert_eq!(Message::from(borrowed), Message::from_data(&[0x2091_4060]).unwrap());
    assert_eq!(
        Message::from(owned),
        Message::Midi1ChannelVoice(Midi1ChannelVoiceMessage::NoteOn(NoteOn(MessageData::Owned(
            [0x2091_4060, 0x0, 0x0, 0x0]
        )))),
    );
}

#[test]
fn try_into_owned_of_flex_data_needs_allocation() {
    let key = [0xD402_0005_u32, 0xE700_0000, 0x0, 0x0];
    let borrowed = MessageBorrowed::from_data(&key).unwrap();
    assert_eq!(
        borrowed.clone().try_into_owned(),
        Err(Error::InvalidData(ERR_OWNED_NEEDS_ALLOCATION)),
    );
    assert_eq!(borrowed.into_owned().data(), &key);
    let text = [0xD410_0105_u32, 0x54C3_A172, 0x0, 0x0];
    assert_eq!(
        Message::from_data(&text).unwrap().try_into_owned(),
        Err(Error::InvalidData(ERR_OWNED_NEEDS_ALLOCATION)),
    );
    let utility = MessageBorrowed::from_data(&[0x0020_1234]).unwrap();
    assert!(utility.try_into_owned().is_ok());
}

#[test]
fn sysex_builders_start_from_the_default_header() {
    assert_eq!(
        Message::builder().sysex8().payload(&[0x01, 0x02]).build().unwrap().data(),
        &[0x5003_0001, 0x0200_0000, 0x0, 0x0],
    );
    assert_eq!(
        Message::builder().sysex7().build().unwrap().data(),
        &[0x3000_0000, 0x0],
    );
}

#[test]
fn marker_builders_have_a_default() {
    assert_eq!(
        <MessageBuilder<MessageOwned> as Default>::default()
            .utility()
            .no_op()
            .build(),
        MessageOwned::builder().utility().no_op().build(),
    );
    assert_eq!(
        <UtilityBuilder<UtilityOwned> as Default>::default()
            .time_stamp()
            .build(),
        UtilityOwned::builder().time_stamp().build(),
    );
}

#[test]
fn owned_message_round_trip_keeps_every_word() {
    let owned = MessageOwned::Midi1ChannelVoice(Midi1ChannelVoiceOwned::NoteOn(NoteOn([
        0x2091_4060,
        0xFFFF_FFFF,
        0x1234_5678,
        0x0,
    ])));
    assert_eq!(Message::from(owned.clone()).into_owned(), owned);
    assert_eq!(Message::from(owned.clone()).try_into_owned(), Ok(owned));
    let sysex = MessageBorrowed::from_data(&SYSEX8).unwrap().into_owned();
    assert_eq!(Message::from(sysex.clone()).into_owned(), sysex);
}
