use midi2::error::{Error, ERR_INCORRECT_STATUS, ERR_SLICE_TOO_SHORT};
use midi2::message::midi1_channel_voice::program_change::{
    ProgramChangeBuilder, ProgramChangeMessage,
};
use midi2::numeric_types::{U4, U7};

#[test]
fn program_change_builder() {
    assert_eq!(
        ProgramChangeMessage::builder(&mut [0x0])
            .group(U4::new(0x4))
            .channel(U4::new(0x7))
            .program(U7::new(0x63))
            .build(),
        Ok(ProgramChangeMessage(&[0x24C7_6300])),
    );
}

#[test]
fn program_change_group() {
    assert_eq!(
        ProgramChangeMessage::from_data(&[0x24C7_6300])
            .unwrap()
            .group(),
        U4::new(0x4),
    );
}

#[test]
fn program_change_channel() {
    assert_eq!(
        ProgramChangeMessage::from_data(&[0x24C7_6300])
            .unwrap()
            .channel(),
        U4::new(0x7),
    );
}

#[test]
fn program() {
    assert_eq!(
        ProgramChangeMessage::from_data(&[0x24C7_6300])
            .unwrap()
            .program(),
        U7::new(0x63),
    );
}

#[test]
fn program_change_builder_overflow() {
    assert_eq!(
        ProgramChangeBuilder::new(&mut [])
            .group(U4::new(0x4))
            .program(U7::new(0x63))
            .build(),
        Err(Error::BufferOverflow),
    );
}

#[test]
fn program_change_from_data_failures() {
    assert_eq!(
        ProgramChangeMessage::from_data(&[]),
        Err(Error::InvalidData(ERR_SLICE_TOO_SHORT)),
    );
    assert_eq!(
        ProgramChangeMessage::from_data(&[0x24D7_6300]),
        Err(Error::InvalidData(ERR_INCORRECT_STATUS)),
    );
}

#[test]
fn program_change_builder_writes_the_callers_buffer() {
    let mut buffer = [0xFFFF_FFFF_u32, 0xFFFF_FFFF];
    {
        let mut builder = ProgramChangeBuilder::new(&mut buffer);
        builder.group(U4::new(0x4)).program(U7::new(0x63));
    }
    assert_eq!(buffer, [0x24C0_6300, 0xFFFF_FFFF]);
    let mut short: [u32; 0] = [];
    {
        let mut builder = ProgramChangeBuilder::new(&mut short);
        builder.group(U4::new(0x4));
    }
    assert_eq!(short, []);
}
