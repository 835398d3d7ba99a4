use midi2::error::{Error, ERR_TONIC};
use midi2::flex_data::set_key_signature::SetKeySignature;
use midi2::flex_data::tonic::{Tonic, TonicProperty};
use midi2::message::flex_data::{FlexDataBorrowed, FlexDataMessage, FlexDataOwned};
use midi2::message::Message;
use midi2::numeric_types::U4;

const ALL: [(u8, Tonic); 8] = [
    (0x0, Tonic::NonStandard),
    (0x1, Tonic::A),
    (0x2, Tonic::B),
    (0x3, Tonic::C),
    (0x4, Tonic::D),
    (0x5, Tonic::E),
    (0x6, Tonic::F),
    (0x7, Tonic::G),
];

#[test]
fn tonic_from_nibble_covers_the_domain() {
    for (nibble, tonic) in ALL {
        assert_eq!(Tonic::from_nibble(U4::new(nibble)), Ok(tonic));
        assert_eq!(tonic.into_nibble(), U4::new(nibble));
    }
    for nibble in 0x8..=0xF_u8 {
        assert_eq!(
            Tonic::from_nibble(U4::new(nibble)),
            Err(Error::InvalidData(ERR_TONIC)),
        );
    }
    assert_eq!(ERR_TONIC, "Couldn't interpret Tonic field");
}

#[test]
fn tonic_default_is_c() {
    assert_eq!(Tonic::default(), Tonic::C);
    assert_eq!(TonicProperty::default(), Tonic::C);
}

#[test]
fn tonic_property_reads_and_writes_its_nibble_only() {
    let property = TonicProperty::at_tonic();
    let mut words = [0xFFFF_FFFF_u32, 0xFFFF_FFFF, 0xFFFF_FFFF, 0xFFFF_FFFF];
    assert_eq!(
        property.validate(&words[..]),
        Err(Error::InvalidData(ERR_TONIC)),
    );
    property.write(&mut words[..], Tonic::E);
    assert_eq!(words, [0xFFFF_FFFF, 0xF5FF_FFFF, 0xFFFF_FFFF, 0xFFFF_FFFF]);
    assert_eq!(property.validate(&words[..]), Ok(()));
    assert_eq!(property.read(&words[..]), Tonic::E);
    let bass = TonicProperty::at_bass_tonic();
    bass.write(&mut words[..], Tonic::NonStandard);
    assert_eq!(words, [0xFFFF_FFFF, 0xF5FF_FFFF, 0xFFFF_FFFF, 0xF0FF_FFFF]);
    assert_eq!(bass.read(&words[..]), Tonic::NonStandard);
    assert_eq!(TonicProperty::validate_value(&Tonic::G), Ok(()));
}

#[test]
fn key_signature_defaults_and_setters() {
    let mut message = SetKeySignature::<[u32; 4]>::new();
    assert_eq!(message, SetKeySignature([0xD000_0005, 0x0300_0000, 0x0, 0x0]));
    assert_eq!(message.tonic(), Tonic::C);
    message.set_group(U4::new(0x4));
    message.set_channel(U4::new(0x2));
    message.set_sharps_flats(U4::new(0xE));
    message.set_tonic(Tonic::G);
    assert_eq!(message, SetKeySignature([0xD402_0005, 0xE700_0000, 0x0, 0x0]));
    assert_eq!(message.tonic(), Tonic::G);
    assert_eq!(message.sharps_flats(), U4::new(0xE));
}

#[test]
fn key_signature_rejects_every_undefined_tonic() {
    for nibble in 0x0..=0xF_u32 {
        let words = [0xD000_0005_u32, nibble << 24, 0x0, 0x0];
        let parsed = SetKeySignature::try_from(&words[..]);
        if nibble <= 0x7 {
            assert_eq!(parsed.unwrap().tonic().into_nibble(), U4::new(nibble as u8));
        } else {
            assert_eq!(parsed, Err(Error::InvalidData(ERR_TONIC)));
        }
    }
}

#[test]
fn key_signature_needs_four_words() {
    assert_eq!(
        SetKeySignature::try_from(&[0xD000_0005_u32, 0x0300_0000, 0x0][..]),
        Err(Error::InvalidData("slice too short")),
    );
    assert_eq!(
        SetKeySignature::<[u32; 3]>::try_new(),
        Err(Error::BufferOverflow),
    );
    assert!(SetKeySignature::<[u32; 4]>::try_new().is_ok());
}

#[test]
fn flex_data_through_the_unions() {
    let words = [0xD402_0005_u32, 0xE700_0000, 0x0, 0x0];
    assert_eq!(
        FlexDataBorrowed::from_data(&words),
        Ok(FlexDataBorrowed::SetKeySignature(SetKeySignature(&words[..]))),
    );
    assert_eq!(
        FlexDataBorrowed::from_data(&[0xD402_0006, 0x0, 0x0, 0x0]),
        Err(Error::InvalidData("Unknown flex data status")),
    );
    assert_eq!(
        Message::builder()
            .flex_data()
            .set_key_signature()
            .group(U4::new(0x4))
            .channel(U4::new(0x2))
            .sharps_flats(U4::new(0xE))
            .tonic(Tonic::G)
            .build(),
        Ok(Message::FlexData(FlexDataMessage::from(FlexDataOwned::SetKeySignature(
            SetKeySignature(words)
        )))),
    );
}
