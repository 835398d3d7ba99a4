use midi2::channel_voice1::control_change::ControlChange;
use midi2::numeric_types::{U4, U7};

#[test]
fn control_change_setters() {
    let mut message = ControlChange::new_arr();
    message.set_group(U4::new(0xA));
    message.set_channel(U4::new(0x7));
    message.set_control(U7::new(0x36));
    message.set_control_data(U7::new(0x37));
    assert_eq!(message, ControlChange([0x2AB7_3637, 0x0, 0x0, 0x0]));
}

#[test]
fn control_change_setters_bytes() {
    let mut message = ControlChange::new_arr_bytes();
    message.set_channel(U4::new(0x7));
    message.set_control(U7::new(0x36));
    message.set_control_data(U7::new(0x37));
    assert_eq!(message, ControlChange([0xB7, 0x36, 0x37]));
}

#[test]
fn group() {
    assert_eq!(
        ControlChange::try_from(&[0x2AB7_3637_u32][..])
            .unwrap()
            .group(),
        U4::new(0xA),
    );
}

#[test]
fn channel() {
    assert_eq!(
        ControlChange::try_from(&[0x2AB7_3637_u32][..])
            .unwrap()
            .channel(),
        U4::new(0x7),
    );
}

#[test]
fn control_change_channel_bytes() {
    assert_eq!(
        ControlChange::try_from(&[0xB7_u8, 0x36_u8, 0x37_u8][..])
            .unwrap()
            .channel(),
        U4::new(0x7),
    );
}

#[test]
fn control() {
    assert_eq!(
        ControlChange::try_from(&[0x2AB7_3637_u32][..])
            .unwrap()
            .control(),
        U7::new(0x36),
    );
}

#[test]
fn control_bytes() {
    assert_eq!(
        ControlChange::try_from(&[0xB7_u8, 0x36_u8, 0x37_u8][..])
            .unwrap()
            .control(),
        U7::new(0x36),
    );
}

#[test]
fn control_data() {
    assert_eq!(
        ControlChange::try_from(&[0x2AB7_3637_u32][..])
            .unwrap()
            .control_data(),
        U7::new(0x37),
    );
}

#[test]
fn control_data_bytes() {
    assert_eq!(
        ControlChange::try_from(&[0xB7_u8, 0x36_u8, 0x37_u8][..])
            .unwrap()
            .control_data(),
        U7::new(0x37),
    );
}

#[test]
fn control_change_word_round_trip() {
    let mut message = ControlChange::<Vec<u32>>::new();
    message.set_group(U4::new(0xA));
    message.set_channel(U4::new(0x7));
    message.set_control(U7::new(0x36));
    message.set_control_data(U7::new(0x37));
    assert_eq!(message.data(), &[0x2AB7_3637]);
    let parsed = ControlChange::try_from(message.data()).unwrap();
    assert_eq!(parsed.channel(), U4::new(0x7));
    assert_eq!(parsed.control(), U7::new(0x36));
    assert_eq!(parsed.control_data(), U7::new(0x37));
}

#[test]
fn control_change_group_is_absent_from_bytes() {
    let mut message = ControlChange::new_arr_bytes();
    message.set_group(U4::new(0xA));
    assert_eq!(message, ControlChange([0xB0, 0x00, 0x00]));
    assert_eq!(message.group(), U4::new(0x0));
}
