use midi2::buffer::MessageData;
use midi2::error::{Error, ERR_INCORRECT_STATUS, ERR_INCORRECT_UMP_MESSAGE_TYPE, ERR_SLICE_TOO_SHORT};
use midi2::message::utility::time_stamp::TimeStampMessage;
use midi2::message::utility::{validate_packet, UtilityBorrowed, UtilityMessage, UtilityOwned};
use midi2::numeric_types::{U20, U4};
use midi2::utility::no_op::NoOp;
use midi2::utility::time_stamp::TimeStamp;

#[test]
fn mod_builder() {
    assert_eq!(
        UtilityMessage::builder()
            .time_stamp()
            .time_stamp(U20::new(0x1))
            .build(),
        Ok(UtilityMessage::TimeStamp(
            TimeStampMessage::builder()
                .time_stamp(U20::new(0x1))
                .build()
                .unwrap()
        ))
    )
}

#[test]
fn utility_owned_builder() {
    assert_eq!(
        UtilityOwned::builder()
            .time_stamp()
            .group(U4::new(0x3))
            .time_stamp(U20::new(0xF_FFFF))
            .build(),
        Ok(UtilityOwned::TimeStamp(TimeStamp([0x032F_FFFF, 0x0, 0x0, 0x0]))),
    );
    assert_eq!(
        UtilityOwned::builder().no_op().build(),
        Ok(UtilityOwned::NoOp(NoOp([0x0, 0x0, 0x0, 0x0]))),
    );
}

#[test]
fn utility_routing() {
    assert_eq!(
        UtilityBorrowed::from_data(&[0x0020_1234]),
        Ok(UtilityBorrowed::TimeStamp(TimeStamp(&[0x0020_1234][..]))),
    );
    assert_eq!(
        UtilityMessage::from_data(&[0x0000_0000]),
        Ok(UtilityMessage::NoOp(NoOp(MessageData::Borrowed(&[0x0000_0000])))),
    );
    assert_eq!(
        UtilityBorrowed::from_data(&[0x0050_0000]),
        Err(Error::InvalidData("Unknown utility message status")),
    );
    assert_eq!(
        UtilityBorrowed::from_data(&[0x1020_0000]),
        Err(Error::InvalidData(ERR_INCORRECT_UMP_MESSAGE_TYPE)),
    );
    assert_eq!(
        UtilityBorrowed::from_data(&[]),
        Err(Error::InvalidData(ERR_SLICE_TOO_SHORT)),
    );
}

#[test]
fn utility_into_owned() {
    let borrowed = UtilityBorrowed::from_data(&[0x0020_1234, 0xFFFF_FFFF]).unwrap();
    assert_eq!(
        borrowed.into_owned(),
        UtilityOwned::TimeStamp(TimeStamp([0x0020_1234, 0x0, 0x0, 0x0])),
    );
}

#[test]
fn utility_validate_packet() {
    assert_eq!(validate_packet(&[0x0020_1234], U4::new(0x2)), Ok(()));
    assert_eq!(
        validate_packet(&[], U4::new(0x2)),
        Err(Error::InvalidData(ERR_SLICE_TOO_SHORT)),
    );
    assert_eq!(
        validate_packet(&[0x1020_1234], U4::new(0x2)),
        Err(Error::InvalidData(ERR_INCORRECT_UMP_MESSAGE_TYPE)),
    );
    assert_eq!(
        validate_packet(&[0x0010_1234], U4::new(0x2)),
        Err(Error::InvalidData(ERR_INCORRECT_STATUS)),
    );
}
