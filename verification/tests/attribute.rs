use midi2::error::{Error, ERR_ATTRIBUTE};
use midi2::message::midi2_channel_voice::attribute::{
    from_ump, validate_ump, write_attribute, Attribute,
};
use midi2::numeric_types::{U7, U9};

fn try_from_ump(bytes: &[u32]) -> Result<Option<Attribute>, Error> {
    validate_ump(bytes)?;
    Ok(from_ump(bytes))
}

#[test]
fn from_packet_invalid() {
    assert_eq!(
        try_from_ump(&[0x0000_0004]),
        Err(Error::InvalidData(ERR_ATTRIBUTE)),
    );
}

#[test]
fn from_packet_none() {
    assert_eq!(try_from_ump(&[0x0, 0x0]), Ok(None),);
}

#[test]
fn from_packet_generic() {
    assert_eq!(
        try_from_ump(&[0x0000_0001, 0x0000_1234]),
        Ok(Some(Attribute::ManufacturerSpecific(0x1234))),
    );
}

#[test]
fn from_packet_pitch7_9() {
    assert_eq!(
        try_from_ump(&[0x0000_0003, 0b0000_0000_0000_0000_0011_0011_0011_0011]),
        Ok(Some(Attribute::Pitch7_9 {
            note: U7::new(0b0011001),
            pitch_up: U9::new(0b100110011)
        })),
    );
}

#[test]
fn write_attribute_none() {
    assert_eq!(write_attribute(&mut [0x0, 0x0], None), &[0x0, 0x0],);
}

#[test]
fn write_attribute_generic() {
    assert_eq!(
        write_attribute(&mut [0x0, 0x0], Some(Attribute::ProfileSpecific(0x0666))),
        &[0x0000_0002, 0x0000_0666],
    );
}

#[test]
fn write_attribute_pitch7_9() {
    let attribute = Attribute::Pitch7_9 {
        note: U7::new(0b1011100),
        pitch_up: U9::new(0b100010111),
    };
    assert_eq!(
        write_attribute(&mut [0x0, 0x0], Some(attribute)),
        &[0x0000_0003, 0b0000_0000_0000_0000_1011_1001_0001_0111]
    );
}

#[test]
fn write_attribute_keeps_other_bits() {
    let mut words = [0xFFFF_FFFF, 0xFFFF_FFFF, 0xABCD_0123];
    assert_eq!(
        write_attribute(&mut words, Some(Attribute::ManufacturerSpecific(0x1234))),
        &[0xFFFF_FF01, 0xFFFF_1234],
    );
    assert_eq!(words, [0xFFFF_FF01, 0xFFFF_1234, 0xABCD_0123]);
}
