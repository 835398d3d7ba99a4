use midi2::error::{Error, ERR_INCORRECT_UMP_MESSAGE_TYPE, ERR_SLICE_TOO_SHORT};
use midi2::numeric_types::{U14, U4, U7};
use midi2::system_common::song_position_pointer::SongPositionPointer;
use midi2::system_common::song_select::SongSelect;
use midi2::system_common::status;
use midi2::system_common::time_code::TimeCode;
use midi2::system_common::tune_request::TuneRequest;
use midi2::system_common::{SystemCommon, SystemCommonStatus};

#[test]
fn mod_from_byte_data() {
    assert_eq!(
        SystemCommon::try_from(&[0xF3_u8, 0x4D][..]),
        SongSelect::try_from(&[0xF3_u8, 0x4D][..]).map(|m| m.into())
    );
}

#[test]
fn from_ump_data() {
    assert_eq!(
        SystemCommon::try_from(&[0x15F1_5F00_u32][..]),
        TimeCode::try_from(&[0x15F1_5F00_u32][..]).map(|m| m.into())
    );
}

#[test]
fn system_common_status_property() {
    let mut bytes = [0x00_u8, 0x4D];
    assert_eq!(
        SystemCommonStatus::<0xF3>::validate(&bytes[..]),
        Err(Error::InvalidData("Incorrect status field")),
    );
    SystemCommonStatus::<0xF3>::write(&mut bytes[..]);
    assert_eq!(bytes, [0xF3, 0x4D]);
    assert_eq!(SystemCommonStatus::<0xF3>::validate(&bytes[..]), Ok(()));
    let mut words = [0x1A00_7D6C_u32];
    SystemCommonStatus::<0xF2>::write(&mut words[..]);
    assert_eq!(words, [0x1AF2_7D6C]);
    assert_eq!(SystemCommonStatus::<0xF2>::validate(&words[..]), Ok(()));
    assert_eq!(
        SystemCommonStatus::<0xF3>::validate(&words[..]),
        Err(Error::InvalidData("Incorrect status field")),
    );
}

#[test]
fn system_common_routing() {
    assert_eq!(
        SystemCommon::try_from(&[0x15F1_5F00_u32][..]),
        Ok(SystemCommon::TimeCode(TimeCode(&[0x15F1_5F00_u32][..]))),
    );
    assert_eq!(
        SystemCommon::try_from(&[0xF6_u8][..]),
        Ok(SystemCommon::TuneRequest(TuneRequest(&[0xF6_u8][..]))),
    );
    for (status, defined) in [
        (0xF0_u8, false),
        (0xF1, true),
        (0xF2, true),
        (0xF3, true),
        (0xF4, false),
        (0xF5, false),
        (0xF6, true),
        (0xF7, false),
        (0xF8, true),
        (0xF9, false),
        (0xFA, true),
        (0xFB, true),
        (0xFC, true),
        (0xFD, false),
        (0xFE, true),
        (0xFF, true),
    ] {
        let bytes = [status, 0x00, 0x00];
        let words = [0x1000_0000_u32 | ((status as u32) << 16)];
        if defined {
            assert!(SystemCommon::try_from(&bytes[..]).is_ok());
            assert!(SystemCommon::try_from(&words[..]).is_ok());
        } else {
            assert_eq!(
                SystemCommon::try_from(&bytes[..]),
                Err(Error::InvalidData("Unknown system common status")),
            );
            assert_eq!(
                SystemCommon::try_from(&words[..]),
                Err(Error::InvalidData("Unknown system common status")),
            );
        }
    }
    assert_eq!(
        SystemCommon::try_from(&<[u8; 0] as Default>::default()[..]),
        Err(Error::InvalidData(ERR_SLICE_TOO_SHORT)),
    );
    assert_eq!(
        SystemCommon::try_from(&[0x25F1_5F00_u32][..]),
        Err(Error::InvalidData(ERR_INCORRECT_UMP_MESSAGE_TYPE)),
    );
}

#[test]
fn system_common_status() {
    assert_eq!(status(&[0x15F1_5F00_u32][..]), 0xF1);
    assert_eq!(status(&[0xF3_u8, 0x4D][..]), 0xF3);
}

#[test]
fn system_common_data_group_and_rebuffer() {
    let message = SystemCommon::try_from(&[0x1AF2_7D6C_u32, 0xFFFF_FFFF][..]).unwrap();
    assert_eq!(message.data(), &[0x1AF2_7D6C]);
    assert_eq!(message.group(), U4::new(0xA));
    let owned: SystemCommon<Vec<u32>> = message.try_rebuffer_into().unwrap();
    assert_eq!(
        owned,
        SystemCommon::SongPositionPointer(SongPositionPointer(vec![0x1AF2_7D6C])),
    );
    let bytes = SystemCommon::<[u8; 3]>::try_from_ump(owned).unwrap();
    assert_eq!(
        bytes,
        SystemCommon::SongPositionPointer(SongPositionPointer([0xF2, 0x7D, 0x6C])),
    );
    let back = SystemCommon::<[u32; 1]>::try_from_bytes(bytes).unwrap();
    assert_eq!(
        back,
        SystemCommon::SongPositionPointer(SongPositionPointer([0x10F2_7D6C])),
    );
}

#[test]
fn song_position_pointer_setters() {
    let mut message = SongPositionPointer::new_arr();
    message.set_group(U4::new(0xA));
    message.set_position(U14::new(0x367D));
    assert_eq!(message, SongPositionPointer([0x1AF2_7D6C, 0x0, 0x0, 0x0]),);
}

#[test]
fn song_position_pointer_setters_bytes() {
    let mut message = SongPositionPointer::new_arr_bytes();
    message.set_position(U14::new(0x367D));
    assert_eq!(message, SongPositionPointer([0xF2, 0x7D, 0x6C]),);
}

#[test]
fn song_position_pointer_group() {
    assert_eq!(
        SongPositionPointer::try_from(&[0x1AF2_7D6C_u32][..])
            .unwrap()
            .group(),
        U4::new(0xA),
    );
}

#[test]
fn position() {
    assert_eq!(
        SongPositionPointer::try_from(&[0x1AF2_7D6C_u32][..])
            .unwrap()
            .position(),
        U14::new(0x367D),
    );
}

#[test]
fn position_bytes() {
    assert_eq!(
        SongPositionPointer::try_from(&[0xF2_u8, 0x7D, 0x6C][..])
            .unwrap()
            .position(),
        U14::new(0x367D),
    );
}

#[test]
fn song_select_round_trip() {
    let mut message = SongSelect::<[u8; 2]>::new();
    message.set_song(U7::new(0x4D));
    assert_eq!(message, SongSelect([0xF3, 0x4D]));
    assert_eq!(SongSelect::try_from(message.data()).unwrap().song(), U7::new(0x4D));
}
