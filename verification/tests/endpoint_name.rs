use midi2::error::{Error, ERR_INCORRECT_STATUS, ERR_NAME_NOT_UTF8, ERR_SLICE_TOO_SHORT};
use midi2::message::ump_stream::endpoint_name::{
    EndpointName, EndpointNameBorrowed, EndpointNameBorrowedBuilder, EndpointNameBuilder,
    EndpointNameMessage, EndpointNameOwned,
};
use midi2::message::ump_stream::UmpStreamMessage;
use midi2::message::Message;

const SIGNAL: [u32; 8] = [
    0xF403_4769,
    0x6D6D_6520,
    0x736F_6D65,
    0x2073_6967,
    0xFC03_6E61,
    0x6C20_F09F,
    0x948A_20F0,
    0x9F99_8C00,
];

fn collect(message: &EndpointNameMessage) -> Vec<u8> {
    let mut walk = message.name_bytes();
    let mut bytes = Vec::new();
    while let Some(byte) = walk.next() {
        bytes.push(byte);
    }
    bytes
}

#[test]
fn test() {
    assert_eq!(
        std::string::String::from_utf8(std::vec![
            0x47, 0x69, 0x6D, 0x6D, 0x65, 0x20, 0x73, 0x6F, 0x6D, 0x65, 0x20, 0x73, 0x69, 0x67,
            0x6E, 0x61, 0x6C, 0x20, 0xF0, 0x9F, 0x94, 0x8A, 0x20, 0xF0, 0x9F, 0x99, 0x8C,
        ]),
        Ok("Gimme some signal 🔊 🙌".into())
    );
    assert_eq!(
        std::string::String::from_utf8(std::vec![
            0x47, 0x69, 0x6D, 0x6D, 0x65, 0x20, 0x73, 0x6F, 0x6D, 0x65, 0x20, 0x6D, 0x6F, 0x72,
            0x65, 0x20, 0x73, 0x69, 0x67, 0x6E, 0x61, 0x6C, 0x20, 0xF0, 0x9F, 0x94, 0x8A, 0x20,
            0xF0, 0x9F, 0x99, 0x8C
        ]),
        Ok("Gimme some more signal 🔊 🙌".into())
    );
}

#[test]
fn endpoint_name_builder() {
    assert_eq!(
        EndpointNameMessage::builder()
            .name("Gimme some signal 🔊 🙌")
            .build()
            .unwrap()
            .data(),
        &SIGNAL,
    );
}

#[test]
fn borrowed_builder() {
    let mut buffer = [0xDEAD_BEEF_u32; 8];
    assert_eq!(
        EndpointNameBorrowed::builder(&mut buffer)
            .name("Gimme some signal 🔊 🙌")
            .build()
            .unwrap()
            .data(),
        &SIGNAL,
    );
}

#[test]
fn borrowed_builder_overflow() {
    let mut buffer = [0xDEAD_BEEF_u32; 7];
    assert_eq!(
        EndpointNameBorrowed::builder(&mut buffer)
            .name("Gimme some signal 🔊 🙌")
            .build(),
        Err(Error::BufferOverflow),
    );
    let mut short = [0x0_u32; 3];
    assert_eq!(
        EndpointNameBorrowedBuilder::new(&mut short).name("").build(),
        Err(Error::BufferOverflow),
    );
}

#[test]
fn borrowed_builder_leaves_the_rest_of_the_buffer() {
    let mut buffer = [0xDEAD_BEEF_u32; 6];
    assert_eq!(
        EndpointNameBorrowed::builder(&mut buffer)
            .name("Gimme")
            .build()
            .unwrap()
            .data(),
        &[0xF003_4769, 0x6D6D_6500, 0x0, 0x0],
    );
    assert_eq!(buffer[4..], [0xDEAD_BEEF, 0xDEAD_BEEF]);
}

#[test]
fn name() {
    assert_eq!(
        EndpointNameMessage::from_data(&[
            0xF403_4769,
            0x6D6D_6520,
            0x736F_6D65,
            0x2073_6967,
            0xFC03_6E61,
            0x6C20_F09F,
            0x948A_20F0,
            0x9F99_8C00,
        ])
        .unwrap()
        .name(),
        Ok(std::string::String::from("Gimme some signal 🔊 🙌")),
    );
    assert_eq!(
        EndpointNameMessage::from_data(&[
            0xF403_4769,
            0x6D6D_6520,
            0x736F_6D65,
            0x206D_6F72,
            0xF803_6520,
            0x7369_676E,
            0x616C_20F0,
            0x9F94_8A20,
            0xFC03_F09F,
            0x998C_0000,
            0x0000_0000,
            0x0000_0000,
        ])
        .unwrap()
        .name(),
        Ok(std::string::String::from("Gimme some more signal 🔊 🙌")),
    );
}

#[test]
fn name_bytes() {
    assert_eq!(
        collect(
            &EndpointNameMessage::from_data(&[
                0xF403_4769,
                0x6D6D_6520,
                0x736F_6D65,
                0x2073_6967,
                0xFC03_6E61,
                0x6C20_F09F,
                0x948A_20F0,
                0x9F99_8C00,
            ])
            .unwrap()
        ),
        std::vec![
            0x47, 0x69, 0x6D, 0x6D, 0x65, 0x20, 0x73, 0x6F, 0x6D, 0x65, 0x20, 0x73, 0x69, 0x67,
            0x6E, 0x61, 0x6C, 0x20, 0xF0, 0x9F, 0x94, 0x8A, 0x20, 0xF0, 0x9F, 0x99, 0x8C,
        ],
    );
}

#[test]
fn name_that_is_not_utf8() {
    assert_eq!(
        EndpointNameMessage::from_data(&[0xF003_FF00, 0x0, 0x0, 0x0])
            .unwrap()
            .name(),
        Err(Error::InvalidData(ERR_NAME_NOT_UTF8)),
    );
}

#[test]
fn empty_name_takes_one_complete_packet() {
    let message = EndpointNameMessage::builder().build().unwrap();
    assert_eq!(message.data(), &[0xF003_0000, 0x0, 0x0, 0x0]);
    assert_eq!(message.name(), Ok(String::new()));
}

#[test]
fn name_of_exactly_one_packet() {
    let message = EndpointNameMessage::builder()
        .name("fourteen bytes")
        .build()
        .unwrap();
    assert_eq!(
        message.data(),
        &[0xF003_666F, 0x7572_7465, 0x656E_2062, 0x7974_6573],
    );
    let longer = EndpointNameMessage::builder()
        .name("fourteen bytes!")
        .build()
        .unwrap();
    assert_eq!(longer.data().len(), 8);
    assert_eq!(longer.data()[0] >> 24, 0xF4);
    assert_eq!(longer.data()[4], 0xFC03_2100);
    assert_eq!(longer.name(), Ok(String::from("fourteen bytes!")));
}

#[test]
fn endpoint_name_validation() {
    assert_eq!(
        EndpointNameMessage::from_data(&[]),
        Err(Error::InvalidData(ERR_SLICE_TOO_SHORT)),
    );
    assert_eq!(
        EndpointNameMessage::from_data(&[0xF003_0000, 0x0, 0x0]),
        Err(Error::InvalidData(ERR_SLICE_TOO_SHORT)),
    );
    assert_eq!(
        EndpointNameMessage::from_data(&[0xF004_0000, 0x0, 0x0, 0x0]),
        Err(Error::InvalidData(ERR_INCORRECT_STATUS)),
    );
    assert_eq!(
        EndpointNameMessage::from_data(&[0xF403_0000, 0x0, 0x0, 0x0]),
        Err(Error::InvalidData("Inconsistent packet sequence")),
    );
    assert_eq!(
        EndpointNameMessage::from_data(&[0xF403_0000, 0, 0, 0, 0xFC04_0000, 0, 0, 0]),
        Err(Error::InvalidData("Inconsistent packet sequence")),
    );
    assert_eq!(
        EndpointNameMessage::from_data(&[0xE003_0000, 0x0, 0x0, 0x0]),
        Err(Error::InvalidData("Incorrect ump message type")),
    );
}

#[test]
fn endpoint_name_into_owned() {
    let borrowed = EndpointNameBorrowed::from_data(&SIGNAL).unwrap();
    assert_eq!(borrowed.clone().into_owned(), EndpointNameOwned(SIGNAL.to_vec()));
    assert_eq!(
        EndpointNameMessage::from(borrowed).into_owned(),
        EndpointNameOwned(SIGNAL.to_vec()),
    );
}

#[test]
fn endpoint_name_through_the_message_builder() {
    assert_eq!(
        Message::builder()
            .ump_stream()
            .endpoint_name()
            .name("Gimme some signal 🔊 🙌")
            .build(),
        Ok(Message::UmpStream(UmpStreamMessage::EndpointName(
            EndpointNameMessage::Owned(EndpointNameOwned(SIGNAL.to_vec()))
        ))),
    );
}

#[test]
fn endpoint_name_builder_default() {
    assert_eq!(
        <EndpointNameBuilder<EndpointNameMessage> as Default>::default().build(),
        EndpointNameMessage::builder().build(),
    );
    assert_eq!(
        <EndpointNameBuilder<EndpointNameOwned> as Default>::default()
            .name("Gimme")
            .build(),
        Ok(EndpointNameOwned(vec![0xF003_4769, 0x6D6D_6500, 0x0, 0x0])),
    );
}
