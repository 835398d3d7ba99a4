use midi2::channel_voice1::channel_pressure::ChannelPressure;
use midi2::error::{Error, ERR_INCORRECT_STATUS, ERR_INCORRECT_UMP_MESSAGE_TYPE, ERR_SLICE_TOO_SHORT};
use midi2::numeric_types::{U4, U7};

#[test]
fn channel_pressure_setters() {
    let mut message = ChannelPressure::new_arr();
    message.set_group(U4::new(0xF));
    message.set_channel(U4::new(0x6));
    message.set_pressure(U7::new(0x09));
    assert_eq!(message, ChannelPressure([0x2FD6_0900, 0x0, 0x0, 0x0]));
}

#[test]
fn channel_pressure_setters_bytes() {
    let mut message = ChannelPressure::new_arr_bytes();
    message.set_channel(U4::new(0x6));
    message.set_pressure(U7::new(0x09));
    assert_eq!(message, ChannelPressure([0xD6, 0x09, 0x0]));
}

#[test]
fn channel_pressure_group() {
    assert_eq!(
        ChannelPressure::try_from(&[0x2FD6_0900_u32][..])
            .unwrap()
            .group(),
        U4::new(0xF),
    );
}

#[test]
fn from_outsized_data() {
    assert_eq!(
        ChannelPressure::try_from(&[0x20D0_0000_u32, 0x0_u32][..]),
        Ok(ChannelPressure(&[0x20D0_0000_u32, 0x0_u32][..])),
    );
}

#[test]
fn from_empty_data() {
    assert_eq!(
        ChannelPressure::try_from(&<[u32; 0] as Default>::default()[..]),
        Err(Error::InvalidData("slice too short")),
    );
    assert_eq!(ERR_SLICE_TOO_SHORT, "slice too short");
}

#[test]
fn from_empty_bytes() {
    assert_eq!(
        ChannelPressure::try_from(&<[u8; 0] as Default>::default()[..]),
        Err(Error::InvalidData(ERR_SLICE_TOO_SHORT)),
    );
}

#[test]
fn from_wrong_type_and_status() {
    assert_eq!(
        ChannelPressure::try_from(&[0x40D0_0000_u32][..]),
        Err(Error::InvalidData(ERR_INCORRECT_UMP_MESSAGE_TYPE)),
    );
    assert_eq!(
        ChannelPressure::try_from(&[0x20C0_0000_u32][..]),
        Err(Error::InvalidData(ERR_INCORRECT_STATUS)),
    );
    assert_eq!(
        ChannelPressure::try_from(&[0xC6_u8, 0x09_u8][..]),
        Err(Error::InvalidData(ERR_INCORRECT_STATUS)),
    );
}

#[test]
fn channel_pressure_channel() {
    assert_eq!(
        ChannelPressure::try_from(&[0x2FD6_0900_u32][..])
            .unwrap()
            .channel(),
        U4::new(0x6),
    );
}

#[test]
fn pressure() {
    assert_eq!(
        ChannelPressure::try_from(&[0x2FD6_0900_u32][..])
            .unwrap()
            .pressure(),
        U7::new(0x09),
    );
}

#[test]
fn channel_pressure_channel_bytes() {
    assert_eq!(
        ChannelPressure::try_from(&[0xD6_u8, 0x09_u8][..])
            .unwrap()
            .channel(),
        U4::new(0x6),
    );
}

#[test]
fn pressure_bytes() {
    assert_eq!(
        ChannelPressure::try_from(&[0xD6_u8, 0x09_u8][..])
            .unwrap()
            .pressure(),
        U7::new(0x09),
    );
}

#[test]
fn data() {
    assert_eq!(
        ChannelPressure::try_from(&[0x2FD6_0900_u32][..])
            .unwrap()
            .data(),
        &[0x2FD6_0900]
    );
}

#[test]
fn data_bytes() {
    assert_eq!(
        ChannelPressure::try_from(&[0xD6_u8, 0x09_u8][..])
            .unwrap()
            .data(),
        &[0xD6_u8, 0x09_u8]
    );
}

#[test]
fn data_with_outsized_buffer() {
    assert_eq!(
        ChannelPressure::<[u32; 2]>::try_new().unwrap().data(),
        &[0x20D0_0000]
    );
}

#[test]
fn from_bytes() {
    let buffer = [0xD6_u8, 0x09_u8];
    let borrowed = ChannelPressure::try_from(&buffer[..]).unwrap();
    assert_eq!(
        ChannelPressure::<std::vec::Vec<u32>>::from_bytes(borrowed),
        ChannelPressure(std::vec![0x20D6_0900_u32]),
    );
}

#[test]
fn from_ump() {
    let buffer = [0x2FD6_0900_u32];
    let borrowed = ChannelPressure::try_from(&buffer[..]).unwrap();
    assert_eq!(
        ChannelPressure::<std::vec::Vec<u8>>::from_ump(borrowed),
        ChannelPressure(std::vec![0xD6_u8, 0x09_u8]),
    );
}

#[test]
fn try_from_bytes() {
    let buffer = [0xD6_u8, 0x09_u8];
    let borrowed = ChannelPressure::try_from(&buffer[..]).unwrap();
    assert_eq!(
        ChannelPressure::<[u32; 2]>::try_from_bytes(borrowed),
        Ok(ChannelPressure([0x20D6_0900_u32, 0x0])),
    );
}

#[test]
fn try_from_ump() {
    let buffer = [0x2FD6_0900_u32];
    let borrowed = ChannelPressure::try_from(&buffer[..]).unwrap();
    assert_eq!(
        ChannelPressure::<[u8; 2]>::try_from_ump(borrowed),
        Ok(ChannelPressure([0xD6_u8, 0x09_u8])),
    );
}

#[test]
fn try_from_bytes_fail() {
    let buffer = [0xD6_u8, 0x09_u8];
    let borrowed = ChannelPressure::try_from(&buffer[..]).unwrap();
    assert_eq!(
        ChannelPressure::<[u32; 0]>::try_from_bytes(borrowed),
        Err(Error::BufferOverflow),
    );
}

#[test]
fn new_with_custom_buffer() {
    assert_eq!(
        ChannelPressure::<std::vec::Vec<u32>>::new(),
        ChannelPressure::new_arr().rebuffer_into(),
    )
}

#[test]
fn new_with_custom_buffer_bytes() {
    assert_eq!(
        ChannelPressure::<std::vec::Vec<u8>>::new(),
        ChannelPressure(std::vec![0xD0, 0x0])
    )
}

#[test]
fn try_new_with_custom_buffer() {
    assert_eq!(
        ChannelPressure::<[u32; 3]>::try_new(),
        Ok(ChannelPressure([0x20D0_0000, 0x0, 0x0]))
    )
}

#[test]
fn try_new_with_custom_buffer_bytes() {
    assert_eq!(
        ChannelPressure::<[u8; 3]>::try_new(),
        Ok(ChannelPressure([0xD0, 0x00, 0x0]))
    )
}

#[test]
fn try_new_with_custom_buffer_fail() {
    assert_eq!(
        ChannelPressure::<[u32; 0]>::try_new(),
        Err(Error::BufferOverflow),
    )
}

#[test]
fn try_new_with_custom_buffer_bytes_fail() {
    assert_eq!(
        ChannelPressure::<[u8; 1]>::try_new(),
        Err(Error::BufferOverflow),
    )
}

#[test]
fn try_new_at_the_capacity_boundary() {
    assert_eq!(
        ChannelPressure::<[u32; 1]>::try_new(),
        Ok(ChannelPressure([0x20D0_0000]))
    );
    assert_eq!(
        ChannelPressure::<[u8; 2]>::try_new(),
        Ok(ChannelPressure([0xD0, 0x00]))
    );
}

#[test]
fn rebuffer_from() {
    let buffer = [0x2FD6_0900_u32];
    let borrowed = ChannelPressure::try_from(&buffer[..]).unwrap();
    assert_eq!(
        ChannelPressure::<std::vec::Vec<u32>>::rebuffer_from(borrowed),
        ChannelPressure(std::vec![0x2FD6_0900_u32]),
    );
}

#[test]
fn rebuffer_from_bytes() {
    let buffer = [0xD6_u8, 0x09_u8];
    let borrowed = ChannelPressure::try_from(&buffer[..]).unwrap();
    assert_eq!(
        ChannelPressure::<std::vec::Vec<u8>>::rebuffer_from(borrowed),
        ChannelPressure(std::vec![0xD6_u8, 0x09_u8]),
    );
}

#[test]
fn try_rebuffer_from() {
    let buffer = [0x2FD6_0900_u32];
    let borrowed = ChannelPressure::try_from(&buffer[..]).unwrap();
    assert_eq!(
        ChannelPressure::<[u32; 2]>::try_rebuffer_from(borrowed),
        Ok(ChannelPressure([0x2FD6_0900_u32, 0x0])),
    );
}

#[test]
fn try_rebuffer_from_fail() {
    let buffer = [0x2FD6_0900_u32];
    let borrowed = ChannelPressure::try_from(&buffer[..]).unwrap();
    assert_eq!(
        ChannelPressure::<[u32; 0]>::try_rebuffer_from(borrowed),
        Err(Error::BufferOverflow),
    );
}

#[test]
fn try_rebuffer_from_bytes() {
    let buffer = [0xD6_u8, 0x09_u8];
    let borrowed = ChannelPressure::try_from(&buffer[..]).unwrap();
    assert_eq!(
        ChannelPressure::<[u8; 2]>::try_rebuffer_from(borrowed),
        Ok(ChannelPressure([0xD6_u8, 0x09_u8])),
    );
}

#[test]
fn try_rebuffer_from_bytes_fail() {
    let buffer = [0xD6_u8, 0x09_u8];
    let borrowed = ChannelPressure::try_from(&buffer[..]).unwrap();
    assert_eq!(
        ChannelPressure::<[u8; 0]>::try_rebuffer_from(borrowed),
        Err(Error::BufferOverflow),
    );
}

#[test]
fn rebuffer_into() {
    let buffer = [0x2FD6_0900_u32];
    let borrowed = ChannelPressure::try_from(&buffer[..]).unwrap();
    let owned: ChannelPressure<std::vec::Vec<u32>> = borrowed.rebuffer_into();
    assert_eq!(owned, ChannelPressure(std::vec![0x2FD6_0900_u32]),);
}

#[test]
fn rebuffer_into_bytes() {
    let buffer = [0xD6_u8, 0x09_u8];
    let borrowed = ChannelPressure::try_from(&buffer[..]).unwrap();
    let owned: ChannelPressure<std::vec::Vec<u8>> = borrowed.rebuffer_into();
    assert_eq!(owned, ChannelPressure(std::vec![0xD6_u8, 0x09_u8]),);
}

#[test]
fn try_rebuffer_into() {
    let buffer = [0x2FD6_0900_u32];
    let borrowed = ChannelPressure::try_from(&buffer[..]).unwrap();
    let owned: core::result::Result<ChannelPressure<[u32; 2]>, Error> =
        borrowed.try_rebuffer_into();
    assert_eq!(owned, Ok(ChannelPressure([0x2FD6_0900_u32, 0x0])));
}

#[test]
fn try_rebuffer_into_bytes() {
    let buffer = [0xD6_u8, 0x09_u8];
    let borrowed = ChannelPressure::try_from(&buffer[..]).unwrap();
    let owned: core::result::Result<ChannelPressure<[u8; 2]>, Error> =
        borrowed.try_rebuffer_into();
    assert_eq!(owned, Ok(ChannelPressure([0xD6_u8, 0x09_u8])));
}

#[test]
fn try_rebuffer_into_fail() {
    let buffer = [0x2FD6_0900_u32];
    let borrowed = ChannelPressure::try_from(&buffer[..]).unwrap();
    let owned: core::result::Result<ChannelPressure<[u32; 0]>, Error> =
        borrowed.try_rebuffer_into();
    assert_eq!(owned, Err(Error::BufferOverflow));
}

#[test]
fn try_rebuffer_into_bytes_fail() {
    let buffer = [0xD6_u8, 0x09_u8];
    let borrowed = ChannelPressure::try_from(&buffer[..]).unwrap();
    let owned: core::result::Result<ChannelPressure<[u8; 0]>, Error> =
        borrowed.try_rebuffer_into();
    assert_eq!(owned, Err(Error::BufferOverflow));
}

#[test]
fn rebuffer_into_the_same_backend_changes_nothing() {
    let message = ChannelPressure::try_from(vec![0x2FD6_0900_u32]).unwrap();
    let again: ChannelPressure<Vec<u32>> = message.clone().rebuffer_into();
    assert_eq!(again, message);
    let fixed = ChannelPressure::try_from([0x2FD6_0900_u32, 0x0]).unwrap();
    let again: ChannelPressure<[u32; 2]> = fixed.clone().rebuffer_into();
    assert_eq!(again, fixed);
}

#[test]
fn rebuffer_drops_what_lies_behind_the_message() {
    let borrowed = ChannelPressure::try_from(&[0x2FD6_0900_u32, 0xFFFF_FFFF][..]).unwrap();
    let owned: ChannelPressure<[u32; 2]> = borrowed.rebuffer_into();
    assert_eq!(owned, ChannelPressure([0x2FD6_0900_u32, 0x0]));
}

#[test]
fn clone() {
    let message = ChannelPressure::new_arr();
    let clone = message.clone();
    assert_eq!(message, clone);
}

#[test]
fn clone_borrowed() {
    let buffer = [0x2FD6_0900_u32];
    let borrowed = ChannelPressure::try_from(&buffer[..]).unwrap();
    let clone = borrowed.clone();
    assert_eq!(borrowed, clone);
}

#[test]
fn bytes_to_packet_scenario() {
    let borrowed = ChannelPressure::try_from(&[0xD6_u8, 0x09][..]).unwrap();
    assert_eq!(borrowed.channel(), U4::new(0x6));
    assert_eq!(borrowed.pressure(), U7::new(0x09));
    let packet = ChannelPressure::<[u32; 1]>::from_bytes(borrowed);
    assert_eq!(packet.group(), U4::new(0x0));
    assert_eq!(packet, ChannelPressure([0x20D6_0900]));
}

#[test]
fn setters_leave_sibling_fields_alone() {
    let mut message = ChannelPressure::try_from([0x2FD6_0900_u32]).unwrap();
    message.set_pressure(U7::new(0x7F));
    assert_eq!(message, ChannelPressure([0x2FD6_7F00]));
    message.set_channel(U4::new(0x0));
    assert_eq!(message, ChannelPressure([0x2FD0_7F00]));
    message.set_group(U4::new(0x1));
    assert_eq!(message, ChannelPressure([0x21D0_7F00]));
}
