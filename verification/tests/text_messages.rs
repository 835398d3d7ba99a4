use midi2::error::{Error, ERR_FLEX_ADDRESS, ERR_INCORRECT_STATUS};
use midi2::message::flex_data::composer_name::{ComposerNameBorrowed, ComposerNameMessage};
use midi2::message::flex_data::FlexDataBorrowed;
use midi2::message::ump_stream::function_block_name::{
    FunctionBlockNameBorrowed, FunctionBlockNameMessage, FunctionBlockNameOwned,
};
use midi2::message::ump_stream::UmpStreamBorrowed;
use midi2::message::MessageBorrowed;
use midi2::numeric_types::U4;

#[test]
fn function_block_name_round_trip() {
    let built = FunctionBlockNameMessage::builder()
        .function_block(0x7F)
        .name("Synth Engine One")
        .build()
        .unwrap();
    assert_eq!(
        built.data(),
        &[
            0xF412_7F53,
            0x796E_7468,
            0x2045_6E67,
            0x696E_6520,
            0xFC12_7F4F,
            0x6E65_0000,
            0x0,
            0x0
        ],
    );
    assert_eq!(built.function_block(), 0x7F);
    assert_eq!(built.name(), Ok(String::from("Synth Engine One")));
    let parsed = FunctionBlockNameBorrowed::from_data(built.data()).unwrap();
    assert_eq!(parsed.name(), Ok(String::from("Synth Engine One")));
    let mut walk = parsed.name_bytes();
    assert_eq!(walk.next(), Some(b'S'));
    assert_eq!(walk.next(), Some(b'y'));
    assert_eq!(
        parsed.clone().into_owned(),
        FunctionBlockNameOwned(built.data().to_vec()),
    );
}

#[test]
fn function_block_name_validation() {
    assert_eq!(
        FunctionBlockNameBorrowed::from_data(&[0xF003_0000, 0, 0, 0]),
        Err(Error::InvalidData(ERR_INCORRECT_STATUS)),
    );
    assert_eq!(
        FunctionBlockNameBorrowed::from_data(&[0xF412_0500, 0, 0, 0, 0xFC12_0600, 0, 0, 0]),
        Err(Error::InvalidData("Inconsistent packet sequence")),
    );
    assert!(FunctionBlockNameBorrowed::from_data(&[0xF012_0500, 0, 0, 0]).is_ok());
    assert_eq!(
        UmpStreamBorrowed::from_data(&[0xF012_0500, 0, 0, 0]),
        Ok(UmpStreamBorrowed::FunctionBlockName(FunctionBlockNameBorrowed(&[0xF012_0500, 0, 0, 0]))),
    );
}

#[test]
fn composer_name_round_trip() {
    let built = ComposerNameMessage::builder()
        .group(U4::new(0x2))
        .optional_channel(Some(U4::new(0x9)))
        .text("Clara Schumann")
        .build()
        .unwrap();
    assert_eq!(
        built.data(),
        &[
            0xD249_0105,
            0x436C_6172,
            0x6120_5363,
            0x6875_6D61,
            0xD2C9_0105,
            0x6E6E_0000,
            0x0,
            0x0
        ],
    );
    assert_eq!(built.group(), U4::new(0x2));
    assert_eq!(built.optional_channel(), Some(U4::new(0x9)));
    assert_eq!(built.text(), Ok(String::from("Clara Schumann")));
    let whole_group = ComposerNameMessage::builder().text("ok").build().unwrap();
    assert_eq!(whole_group.data(), &[0xD010_0105, 0x6F6B_0000, 0x0, 0x0]);
    assert_eq!(whole_group.optional_channel(), None);
}

#[test]
fn composer_name_validation() {
    assert_eq!(
        ComposerNameBorrowed::from_data(&[0xD010_0106, 0, 0, 0]),
        Err(Error::InvalidData(ERR_INCORRECT_STATUS)),
    );
    assert_eq!(
        ComposerNameBorrowed::from_data(&[0xD020_0105, 0, 0, 0]),
        Err(Error::InvalidData(ERR_FLEX_ADDRESS)),
    );
    assert_eq!(
        ComposerNameBorrowed::from_data(&[0xD050_0105, 0, 0, 0]),
        Err(Error::InvalidData("Inconsistent packet sequence")),
    );
    assert_eq!(
        ComposerNameBorrowed::from_data(&[0xD010_0105, 0, 0]),
        Err(Error::InvalidData("slice too short")),
    );
    assert_eq!(
        FlexDataBorrowed::from_data(&[0xD010_0105, 0x54C3_A172, 0, 0]),
        Ok(FlexDataBorrowed::ComposerName(ComposerNameBorrowed(&[
            0xD010_0105,
            0x54C3_A172,
            0,
            0
        ]))),
    );
    assert!(MessageBorrowed::from_data(&[0xD010_0105, 0x54C3_A172, 0, 0]).is_ok());
}
