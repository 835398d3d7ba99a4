use midi2::channel_voice1::key_pressure::KeyPressure;
use midi2::channel_voice1::note_off::NoteOff;
use midi2::channel_voice1::note_on::{self, NoteOn};
use midi2::channel_voice1::pitch_bend::PitchBend;
use midi2::channel_voice1::program_change::ProgramChange;
use midi2::channel_voice1::ChannelVoice1;
use midi2::channel_voice2::assignable_controller::AssignableController;
use midi2::channel_voice2::channel_pressure::ChannelPressure as ChannelPressure2;
use midi2::error::Error;
use midi2::numeric_types::{U14, U20, U4, U7};
use midi2::system_common::active_sensing::ActiveSensing;
use midi2::system_common::cont::Continue;
use midi2::system_common::reset::Reset;
use midi2::system_common::start::Start;
use midi2::system_common::stop::Stop;
use midi2::system_common::time_code::TimeCode;
use midi2::system_common::timing_clock::TimingClock;
use midi2::system_common::tune_request::{self, TuneRequest};
use midi2::ump_stream::start_of_clip::StartOfClip;
use midi2::utility::no_op::NoOp;
use midi2::utility::time_stamp::TimeStamp;
use midi2::utility::Utility;

#[test]
fn minimum_sizes() {
    assert_eq!(note_on::minimum_size_in_units::<u32>(), 1);
    assert_eq!(note_on::minimum_size_in_units::<u8>(), 3);
    assert_eq!(tune_request::minimum_size_in_units::<u32>(), 1);
    assert_eq!(tune_request::minimum_size_in_units::<u8>(), 1);
    assert_eq!(midi2::channel_voice2::note_on::minimum_size_in_units::<u32>(), 2);
    assert_eq!(midi2::channel_voice2::note_on::minimum_size_in_units::<u8>(), 0);
    assert_eq!(midi2::flex_data::set_key_signature::minimum_size_in_units::<u32>(), 4);
}

#[test]
fn channel_voice1_wire_forms() {
    let mut note_on = NoteOn::<[u32; 1]>::new();
    note_on.set_channel(U4::new(0x1));
    note_on.set_note(U7::new(0x40));
    note_on.set_velocity(U7::new(0x60));
    assert_eq!(note_on, NoteOn([0x2091_4060]));
    assert_eq!(NoteOn::<[u8; 3]>::from_ump(note_on), NoteOn([0x91, 0x40, 0x60]));

    let mut note_off = NoteOff::<[u8; 3]>::new();
    note_off.set_channel(U4::new(0xF));
    note_off.set_note(U7::new(0x7F));
    note_off.set_velocity(U7::new(0x01));
    assert_eq!(note_off, NoteOff([0x8F, 0x7F, 0x01]));

    let key_pressure = KeyPressure::try_from(&[0xAB_u8, 0x60, 0x33][..]).unwrap();
    assert_eq!(key_pressure.note(), U7::new(0x60));
    assert_eq!(key_pressure.pressure(), U7::new(0x33));

    let mut program = ProgramChange::<[u32; 1]>::new();
    program.set_group(U4::new(0x4));
    program.set_channel(U4::new(0x7));
    program.set_program(U7::new(0x63));
    assert_eq!(program, ProgramChange([0x24C7_6300]));

    let centre = PitchBend::try_from(&[0xE3_u8, 0x00, 0x40][..]).unwrap();
    assert_eq!(centre.bend(), U14::new(0x2000));
    let mut bend = PitchBend::<[u32; 1]>::from_bytes(centre);
    assert_eq!(bend, PitchBend([0x20E3_0040]));
    bend.set_bend(U14::new(0x3FFF));
    assert_eq!(bend, PitchBend([0x20E3_7F7F]));
    bend.set_bend(U14::new(0x0081));
    assert_eq!(bend, PitchBend([0x20E3_0101]));
    assert_eq!(bend.bend(), U14::new(0x0081));
}

#[test]
fn channel_voice1_routes_every_opcode() {
    for opcode in 0x0..=0xF_u32 {
        let words = [0x2000_0000 | (opcode << 20)];
        let bytes = [(opcode as u8) << 4, 0x00, 0x00];
        let by_words = ChannelVoice1::try_from(&words[..]);
        let by_bytes = ChannelVoice1::try_from(&bytes[..]);
        if (0x8..=0xE).contains(&opcode) {
            assert!(by_words.is_ok());
            assert!(by_bytes.is_ok());
        } else {
            assert_eq!(
                by_words,
                Err(Error::InvalidData("Unknown midi1 channel voice status")),
            );
            assert_eq!(
                by_bytes,
                Err(Error::InvalidData("Unknown midi1 channel voice status")),
            );
        }
    }
    assert!(matches!(
        ChannelVoice1::try_from(&[0x20C7_6300_u32][..]),
        Ok(ChannelVoice1::ProgramChange(_))
    ));
    assert!(matches!(
        ChannelVoice1::try_from(&[0xE0_u8, 0x00, 0x40][..]),
        Ok(ChannelVoice1::PitchBend(_))
    ));
}

#[test]
fn system_real_time_wire_forms() {
    assert_eq!(TimingClock::<[u8; 1]>::new(), TimingClock([0xF8]));
    assert_eq!(Start::<[u8; 1]>::new(), Start([0xFA]));
    assert_eq!(Continue::<[u8; 1]>::new(), Continue([0xFB]));
    assert_eq!(Stop::<[u8; 1]>::new(), Stop([0xFC]));
    assert_eq!(ActiveSensing::<[u8; 1]>::new(), ActiveSensing([0xFE]));
    assert_eq!(Reset::<[u8; 1]>::new(), Reset([0xFF]));
    assert_eq!(TuneRequest::<[u32; 1]>::new(), TuneRequest([0x10F6_0000]));
    assert_eq!(TuneRequest::<[u8; 0]>::try_new(), Err(Error::BufferOverflow));
    let mut time_code = TimeCode::<[u32; 1]>::new();
    time_code.set_group(U4::new(0x5));
    time_code.set_time_code(U7::new(0x5F));
    assert_eq!(time_code, TimeCode([0x15F1_5F00]));
}

#[test]
fn utility_and_stream_wire_forms() {
    assert_eq!(NoOp::<[u32; 1]>::new(), NoOp([0x0000_0000]));
    let mut stamp = TimeStamp::<[u32; 1]>::new();
    stamp.set_time_stamp(U20::new(0x1234));
    assert_eq!(stamp, TimeStamp([0x0020_1234]));
    assert_eq!(stamp.time_stamp(), U20::new(0x1234));
    assert_eq!(
        Utility::try_from(&[0x0020_1234_u32][..]),
        Ok(Utility::from(TimeStamp(&[0x0020_1234_u32][..]))),
    );
    assert_eq!(StartOfClip::<[u32; 4]>::new(), StartOfClip([0xF020_0000, 0, 0, 0]));
}

#[test]
fn channel_voice2_wire_forms() {
    let mut pressure = ChannelPressure2::<[u32; 2]>::new();
    pressure.set_group(U4::new(0x1));
    pressure.set_channel(U4::new(0x2));
    pressure.set_channel_pressure_data(0xDEAD_BEEF);
    assert_eq!(pressure, ChannelPressure2([0x41D2_0000, 0xDEAD_BEEF]));
    let mut controller = AssignableController::<[u32; 2]>::new();
    controller.set_group(U4::new(0xC));
    controller.set_channel(U4::new(0x8));
    controller.set_bank(U7::new(0x51));
    controller.set_index(U7::new(0x38));
    controller.set_controller_data(0x3F3A_DD42);
    assert_eq!(controller, AssignableController([0x4C38_5138, 0x3F3A_DD42]));
    assert_eq!(
        AssignableController::<[u32; 1]>::try_new(),
        Err(Error::BufferOverflow),
    );
}

#[test]
fn round_trip_over_every_seven_bit_value() {
    for value in 0..=0x7F_u8 {
        let mut message = NoteOn::<[u32; 1]>::new();
        message.set_note(U7::new(value));
        message.set_velocity(U7::new(0x7F - value));
        let parsed = NoteOn::try_from(message.data()).unwrap();
        assert_eq!(parsed.note(), U7::new(value));
        assert_eq!(parsed.velocity(), U7::new(0x7F - value));
        let bytes = NoteOn::<[u8; 3]>::from_ump(parsed);
        assert_eq!(bytes.note(), U7::new(value));
        assert_eq!(NoteOn::<[u32; 1]>::from_bytes(bytes), message);
    }
}
