use midi2::error::{
    Error, ERR_ATTRIBUTE, ERR_INCORRECT_STATUS, ERR_INCORRECT_UMP_MESSAGE_TYPE,
    ERR_SLICE_TOO_SHORT,
};
use midi2::message::midi1_channel_voice::note::note_off::Message as Midi1NoteOff;
use midi2::message::midi2_channel_voice::attribute::Attribute;
use midi2::message::midi2_channel_voice::note::note_off::Message as Midi2NoteOff;
use midi2::numeric_types::{U4, U7, U9};

#[test]
fn wrong_type() {
    assert_eq!(
        Midi1NoteOff::try_from_ump(&[0x1000_0000]),
        Err(Error::InvalidData(ERR_INCORRECT_UMP_MESSAGE_TYPE)),
    );
}

#[test]
fn wrong_status() {
    assert_eq!(
        Midi1NoteOff::try_from_ump(&[0x2040_0000]),
        Err(Error::InvalidData(ERR_INCORRECT_STATUS)),
    );
}

#[test]
fn deserialize() {
    assert_eq!(
        Midi1NoteOff::try_from_ump(&[0x2A80_3C58]),
        Ok(Midi1NoteOff {
            group: U4::new(0xA),
            channel: U4::new(0),
            note: U7::new(0x3C),
            velocity: U7::new(0x58),
        })
    );
}

#[test]
fn serialize() {
    assert_eq!(
        Midi1NoteOff {
            group: U4::new(0x3),
            channel: U4::new(0xA),
            note: U7::new(0x66),
            velocity: U7::new(0x5A),
        }
        .to_ump(&mut [0x0]),
        &[0x238A_665A],
    );
}

#[test]
fn note_off_wrong_type() {
    assert_eq!(
        Midi2NoteOff::try_from_ump(&[0x1000_0000, 0x0]),
        Err(Error::InvalidData(ERR_INCORRECT_UMP_MESSAGE_TYPE)),
    );
}

#[test]
fn note_off_wrong_status() {
    assert_eq!(
        Midi2NoteOff::try_from_ump(&[0x4040_0000, 0x0]),
        Err(Error::InvalidData(ERR_INCORRECT_STATUS)),
    );
}

#[test]
fn note_off_deserialize() {
    assert_eq!(
        Midi2NoteOff::try_from_ump(&[0x408A_6301, 0xABCD_1234,]),
        Ok(Midi2NoteOff {
            group: U4::new(0x0),
            channel: U4::new(0xA),
            note: U7::new(0x63),
            velocity: 0xABCD,
            attribute: Some(Attribute::ManufacturerSpecific(0x1234)),
        })
    );
}

#[test]
fn note_off_serialize() {
    assert_eq!(
        Midi2NoteOff {
            group: U4::new(0x5),
            channel: U4::new(0x2),
            note: U7::new(0x7B),
            velocity: 0x07A0,
            attribute: None
        }
        .to_ump(&mut [0x0, 0x0]),
        &[0x4582_7B00, 0x07A0_0000],
    );
}

#[test]
fn note_off_too_short() {
    assert_eq!(
        Midi1NoteOff::try_from_ump(&[]),
        Err(Error::InvalidData(ERR_SLICE_TOO_SHORT)),
    );
    assert_eq!(
        Midi2NoteOff::try_from_ump(&[0x4080_0000]),
        Err(Error::InvalidData(ERR_SLICE_TOO_SHORT)),
    );
}

#[test]
fn note_off_unknown_attribute_type() {
    assert_eq!(
        Midi2NoteOff::try_from_ump(&[0x4080_0004, 0x0]),
        Err(Error::InvalidData(ERR_ATTRIBUTE)),
    );
    assert!(Midi2NoteOff::try_from_ump(&[0x4080_0003, 0x0]).is_ok());
}

#[test]
fn note_off_serialize_overwrites_stale_bits() {
    let mut words = [0xFFFF_FFFF, 0xFFFF_FFFF, 0x1234];
    let message = Midi2NoteOff {
        group: U4::new(0x5),
        channel: U4::new(0x2),
        note: U7::new(0x7B),
        velocity: 0x07A0,
        attribute: Some(Attribute::Pitch7_9 { note: U7::new(0x40), pitch_up: U9::new(0x1) }),
    };
    assert_eq!(message.to_ump(&mut words), &[0x4582_7B03, 0x07A0_8001]);
    assert_eq!(words[2], 0x1234);
    assert_eq!(Midi2NoteOff::try_from_ump(&words), Ok(message));
}
