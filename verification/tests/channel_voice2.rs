use midi2::buffer::MessageData;
use midi2::channel_voice2::channel_pitch_bend::ChannelPitchBend;
use midi2::channel_voice2::control_change::ControlChange;
use midi2::channel_voice2::note_on::NoteOn;
use midi2::channel_voice2::ChannelVoice2;
use midi2::error::Error;
use midi2::message::midi2_channel_voice::attribute::Attribute;
use midi2::message::midi2_channel_voice::channel_pitch_bend::{
    ChannelPitchBendBuilder, ChannelPitchBendMessage,
};
use midi2::message::midi2_channel_voice::control_change::ControlChangeMessage;
use midi2::numeric_types::{U4, U7};

#[test]
fn control_change_builder() {
    assert_eq!(
        ControlChangeMessage::builder()
            .group(U4::new(0x3))
            .channel(U4::new(0x9))
            .control(U7::new(0x30))
            .control_change_data(0x2468_1012)
            .build(),
        Ok(ControlChange(MessageData::Owned([
            0x43B9_3000,
            0x2468_1012,
            0x0,
            0x0
        ])))
    );
}

#[test]
fn control_change_group() {
    assert_eq!(
        ControlChangeMessage::from_data(&[0x43B9_3000, 0x2468_1012, 0x0, 0x0])
            .unwrap()
            .group(),
        U4::new(0x3),
    );
}

#[test]
fn control_change_channel() {
    assert_eq!(
        ControlChangeMessage::from_data(&[0x43B9_3000, 0x2468_1012, 0x0, 0x0])
            .unwrap()
            .channel(),
        U4::new(0x9),
    );
}

#[test]
fn control_change_control() {
    assert_eq!(
        ControlChangeMessage::from_data(&[0x43B9_3000, 0x2468_1012, 0x0, 0x0])
            .unwrap()
            .control(),
        U7::new(0x30),
    );
}

#[test]
fn control_change_data() {
    assert_eq!(
        ControlChangeMessage::from_data(&[0x43B9_3000, 0x2468_1012, 0x0, 0x0])
            .unwrap()
            .control_change_data(),
        0x2468_1012,
    );
}

#[test]
fn channel_pitch_bend_builder() {
    assert_eq!(
        ChannelPitchBendMessage::builder()
            .group(U4::new(0xB))
            .channel(U4::new(0x9))
            .pitch_bend_data(0x08306AF8)
            .build(),
        Ok(ChannelPitchBend(MessageData::Owned([
            0x4BE9_0000,
            0x0830_6AF8,
            0x0,
            0x0
        ]))),
    );
}

#[test]
fn channel_pitch_bend_group() {
    assert_eq!(
        ChannelPitchBendMessage::from_data(&[0x4BE9_0000, 0x0830_6AF8, 0x0, 0x0])
            .unwrap()
            .group(),
        U4::new(0xB),
    );
}

#[test]
fn channel_pitch_bend_channel() {
    assert_eq!(
        ChannelPitchBendMessage::from_data(&[0x4BE9_0000, 0x0830_6AF8, 0x0, 0x0])
            .unwrap()
            .channel(),
        U4::new(0x9),
    );
}

#[test]
fn pitch_bend_data() {
    assert_eq!(
        ChannelPitchBendMessage::from_data(&[0x4BE9_0000, 0x0830_6AF8, 0x0, 0x0])
            .unwrap()
            .pitch_bend_data(),
        0x0830_6AF8,
    );
}

#[test]
fn builder_default() {
    assert_eq!(
        ChannelPitchBendBuilder::<ChannelPitchBendMessage>::new().build(),
        <ChannelPitchBendBuilder<ChannelPitchBendMessage> as Default>::default().build()
    );
}

#[test]
fn channel_pitch_bend_into_owned() {
    let borrowed = ChannelPitchBendMessage::from_data(&[0x4BE9_0000, 0x0830_6AF8]).unwrap();
    assert_eq!(
        borrowed.into_owned(),
        ChannelPitchBend([0x4BE9_0000, 0x0830_6AF8, 0x0, 0x0]),
    );
}

#[test]
fn channel_voice2_routing() {
    assert_eq!(
        ChannelVoice2::try_from(&[0x4BE9_0000_u32, 0x0830_6AF8][..]),
        Ok(ChannelVoice2::ChannelPitchBend(ChannelPitchBend(&[0x4BE9_0000_u32, 0x0830_6AF8][..]))),
    );
    assert_eq!(
        ChannelVoice2::try_from(&[0x4B09_0000_u32, 0x0][..]),
        Err(Error::InvalidData("Unknown midi2 channel voice status")),
    );
    assert_eq!(
        ChannelVoice2::try_from(&[0x4BE9_0000_u32][..]),
        Err(Error::InvalidData("slice too short")),
    );
    let message = ChannelVoice2::try_from(&[0x4BB9_3000_u32, 0x2468_1012, 0xFFFF_FFFF][..]).unwrap();
    assert_eq!(message.group(), U4::new(0xB));
    assert_eq!(message.data(), &[0x4BB9_3000, 0x2468_1012]);
    let owned: ChannelVoice2<[u32; 4]> = message.try_rebuffer_into().unwrap();
    assert_eq!(
        owned,
        ChannelVoice2::from(ControlChange([0x4BB9_3000, 0x2468_1012, 0x0, 0x0])),
    );
}

#[test]
fn note_on_with_attribute() {
    let mut message = NoteOn::<[u32; 2]>::new();
    message.set_group(U4::new(0x1));
    message.set_channel(U4::new(0x2));
    message.set_note(U7::new(0x40));
    message.set_velocity(0x8000);
    message.set_attribute(Some(Attribute::ProfileSpecific(0xBEEF)));
    assert_eq!(message, NoteOn([0x4192_4002, 0x8000_BEEF]));
    assert_eq!(message.attribute(), Some(Attribute::ProfileSpecific(0xBEEF)));
    message.set_attribute(None);
    assert_eq!(message, NoteOn([0x4192_4000, 0x8000_BEEF]));
    assert_eq!(message.attribute(), None);
    assert_eq!(message.velocity(), 0x8000);
}
