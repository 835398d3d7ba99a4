use midi2::error::Error;
use midi2::message::midi2_channel_voice::assignable_controller::{
    AssignableControllerBuilder, AssignableControllerMessage,
};
use midi2::numeric_types::{U4, U7};

#[test]
fn assignable_controller_builder() {
    assert_eq!(
        AssignableControllerMessage::builder(&mut [0x0, 0x0])
            .group(U4::new(0xC))
            .channel(U4::new(0x8))
            .bank(U7::new(0x51))
            .index(U7::new(0x38))
            .controller_data(0x3F3ADD42)
            .build(),
        Ok(AssignableControllerMessage(&[0x4C38_5138, 0x3F3ADD42])),
    );
}

#[test]
fn assignable_controller_group() {
    assert_eq!(
        AssignableControllerMessage::from_data(&[0x4C38_5138, 0x3F3ADD42])
            .unwrap()
            .group(),
        U4::new(0xC),
    );
}

#[test]
fn assignable_controller_channel() {
    assert_eq!(
        AssignableControllerMessage::from_data(&[0x4C38_5138, 0x3F3ADD42])
            .unwrap()
            .channel(),
        U4::new(0x8),
    );
}

#[test]
pub fn bank() {
    assert_eq!(
        AssignableControllerMessage::from_data(&[0x4C38_5138, 0x3F3ADD42])
            .unwrap()
            .bank(),
        U7::new(0x51),
    );
}

#[test]
pub fn index() {
    assert_eq!(
        AssignableControllerMessage::from_data(&[0x4C38_5138, 0x3F3ADD42])
            .unwrap()
            .index(),
        U7::new(0x38),
    );
}

#[test]
pub fn controller_data() {
    assert_eq!(
        AssignableControllerMessage::from_data(&[0x4C38_5138, 0x3F3ADD42])
            .unwrap()
            .controller_data(),
        0x3F3ADD42,
    );
}

#[test]
fn assignable_controller_builder_overflow() {
    assert_eq!(
        AssignableControllerBuilder::new(&mut [0x0])
            .group(U4::new(0xC))
            .build(),
        Err(Error::BufferOverflow),
    );
}

#[test]
fn assignable_controller_builder_clears_stale_words() {
    assert_eq!(
        AssignableControllerMessage::builder(&mut [0xFFFF_FFFF, 0xFFFF_FFFF, 0x1234])
            .build()
            .unwrap()
            .data(),
        &[0x4030_0000, 0x0, 0x1234],
    );
}
