use midi2::error::{Error, ERR_INCORRECT_STATUS};
use midi2::message::ump_stream::{UmpStreamBorrowed, UmpStreamMessage, UmpStreamOwned};
use midi2::ump_stream::end_of_clip::EndOfClip;
use midi2::ump_stream::stream_configuration_request::StreamConfigurationRequest;

#[test]
fn end_of_clip_setters() {
    assert_eq!(
        EndOfClip::new_arr(),
        EndOfClip([0xF021_0000, 0x0, 0x0, 0x0])
    );
}

#[test]
fn from_data() {
    assert_eq!(
        EndOfClip::try_from(&[0xF021_0000_u32][..]),
        Ok(EndOfClip(&[0xF021_0000_u32][..]))
    );
}

#[test]
fn stream_configuration_request_builder() {
    let mut message = StreamConfigurationRequest::new_arr();
    message.set_protocol(0x2);
    message.set_receive_jr_timestamps(true);
    message.set_send_jr_timestamps(true);
    assert_eq!(
        message,
        StreamConfigurationRequest([0xF005_0203, 0x0, 0x0, 0x0,]),
    );
}

#[test]
fn protocol() {
    assert_eq!(
        StreamConfigurationRequest::try_from(&[0xF005_0203_u32][..])
            .unwrap()
            .protocol(),
        0x2
    );
}

#[test]
fn receive_jr_timestamps() {
    assert_eq!(
        StreamConfigurationRequest::try_from(&[0xF005_0203_u32][..])
            .unwrap()
            .receive_jr_timestamps(),
        true
    );
}

#[test]
fn send_jr_timestamps() {
    assert_eq!(
        StreamConfigurationRequest::try_from(&[0xF005_0203_u32][..])
            .unwrap()
            .send_jr_timestamps(),
        true
    );
}

#[test]
fn flags_clear_one_bit_each() {
    let mut message = StreamConfigurationRequest::try_from([0xF005_0203_u32]).unwrap();
    message.set_receive_jr_timestamps(false);
    assert_eq!(message, StreamConfigurationRequest([0xF005_0201]));
    message.set_send_jr_timestamps(false);
    assert_eq!(message, StreamConfigurationRequest([0xF005_0200]));
}

#[test]
fn ump_stream_routing() {
    assert_eq!(
        UmpStreamBorrowed::from_data(&[0xF021_0000]),
        Ok(UmpStreamBorrowed::EndOfClip(EndOfClip(&[0xF021_0000][..]))),
    );
    assert_eq!(
        UmpStreamBorrowed::from_data(&[0xF022_0000]),
        Err(Error::InvalidData("Unknown ump stream status")),
    );
    assert_eq!(
        UmpStreamBorrowed::from_data(&[0xF421_0000]),
        Err(Error::InvalidData("Inconsistent packet sequence")),
    );
    assert_eq!(
        EndOfClip::try_from(&[0xF020_0000_u32][..]),
        Err(Error::InvalidData(ERR_INCORRECT_STATUS)),
    );
    assert_eq!(
        UmpStreamMessage::builder().end_of_clip().build(),
        Ok(UmpStreamMessage::from(UmpStreamOwned::EndOfClip(EndOfClip([
            0xF021_0000,
            0x0,
            0x0,
            0x0
        ])))),
    );
}
