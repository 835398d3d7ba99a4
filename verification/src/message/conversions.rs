//! Conversions into the unions of all messages: of each family, and of
//! each owned message kind by way of its family.

use vstd::prelude::*;
use vstd::std_specs::convert::FromSpecImpl;
use crate::message::{Message, MessageBorrowed, MessageOwned};
use crate::message::{
    flex_data, midi1_channel_voice, midi2_channel_voice, system_common, ump_stream, utility,
};
use crate::message::flex_data::{FlexDataBorrowed, FlexDataMessage, FlexDataOwned};
use crate::message::midi1_channel_voice::{
    Midi1ChannelVoiceBorrowed, Midi1ChannelVoiceMessage, Midi1ChannelVoiceOwned,
};
use crate::message::midi2_channel_voice::{
    Midi2ChannelVoiceBorrowed, Midi2ChannelVoiceMessage, Midi2ChannelVoiceOwned,
};
use crate::message::system_common::{SystemCommonBorrowed, SystemCommonMessage, SystemCommonOwned};
use crate::message::system_exclusive_7bit::{Sysex7Borrowed, Sysex7Message, Sysex7Owned};
use crate::message::system_exclusive_8bit::{Sysex8Borrowed, Sysex8Message, Sysex8Owned};
use crate::message::ump_stream::{UmpStreamBorrowed, UmpStreamMessage, UmpStreamOwned};
use crate::message::utility::{UtilityBorrowed, UtilityMessage, UtilityOwned};

verus! {

impl From<FlexDataOwned> for MessageOwned {
    fn from(value: FlexDataOwned) -> (r: Self) {
        MessageOwned::FlexData(value)
    }
}

impl FromSpecImpl<FlexDataOwned> for MessageOwned {
    open spec fn obeys_from_spec() -> bool {
        true
    }

    open spec fn from_spec(value: FlexDataOwned) -> Self {
        MessageOwned::FlexData(value)
    }
}

impl<'a> From<FlexDataBorrowed<'a>> for MessageBorrowed<'a> {
    fn from(value: FlexDataBorrowed<'a>) -> (r: Self) {
        MessageBorrowed::FlexData(value)
    }
}

impl<'a> FromSpecImpl<FlexDataBorrowed<'a>> for MessageBorrowed<'a> {
    open spec fn obeys_from_spec() -> bool {
        true
    }

    open spec fn from_spec(value: FlexDataBorrowed<'a>) -> Self {
        MessageBorrowed::FlexData(value)
    }
}

impl<'a> From<FlexDataMessage<'a>> for Message<'a> {
    fn from(value: FlexDataMessage<'a>) -> (r: Self) {
        Message::FlexData(value)
    }
}

impl<'a> FromSpecImpl<FlexDataMessage<'a>> for Message<'a> {
    open spec fn obeys_from_spec() -> bool {
        true
    }

    open spec fn from_spec(value: FlexDataMessage<'a>) -> Self {
        Message::FlexData(value)
    }
}

impl From<Midi1ChannelVoiceOwned> for MessageOwned {
    fn from(value: Midi1ChannelVoiceOwned) -> (r: Self) {
        MessageOwned::Midi1ChannelVoice(value)
    }
}

impl FromSpecImpl<Midi1ChannelVoiceOwned> for MessageOwned {
    open spec fn obeys_from_spec() -> bool {
        true
    }

    open spec fn from_spec(value: Midi1ChannelVoiceOwned) -> Self {
        MessageOwned::Midi1ChannelVoice(value)
    }
}

impl<'a> From<Midi1ChannelVoiceBorrowed<'a>> for MessageBorrowed<'a> {
    fn from(value: Midi1ChannelVoiceBorrowed<'a>) -> (r: Self) {
        MessageBorrowed::Midi1ChannelVoice(value)
    }
}

impl<'a> FromSpecImpl<Midi1ChannelVoiceBorrowed<'a>> for MessageBorrowed<'a> {
    open spec fn obeys_from_spec() -> bool {
        true
    }

    open spec fn from_spec(value: Midi1ChannelVoiceBorrowed<'a>) -> Self {
        MessageBorrowed::Midi1ChannelVoice(value)
    }
}

impl<'a> From<Midi1ChannelVoiceMessage<'a>> for Message<'a> {
    fn from(value: Midi1ChannelVoiceMessage<'a>) -> (r: Self) {
        Message::Midi1ChannelVoice(value)
    }
}

impl<'a> FromSpecImpl<Midi1ChannelVoiceMessage<'a>> for Message<'a> {
    open spec fn obeys_from_spec() -> bool {
        true
    }

    open spec fn from_spec(value: Midi1ChannelVoiceMessage<'a>) -> Self {
        Message::Midi1ChannelVoice(value)
    }
}

impl From<Midi2ChannelVoiceOwned> for MessageOwned {
    fn from(value: Midi2ChannelVoiceOwned) -> (r: Self) {
        MessageOwned::Midi2ChannelVoice(value)
    }
}

impl FromSpecImpl<Midi2ChannelVoiceOwned> for MessageOwned {
    open spec fn obeys_from_spec() -> bool {
        true
    }

    open spec fn from_spec(value: Midi2ChannelVoiceOwned) -> Self {
        MessageOwned::Midi2ChannelVoice(value)
    }
}

impl<'a> From<Midi2ChannelVoiceBorrowed<'a>> for MessageBorrowed<'a> {
    fn from(value: Midi2ChannelVoiceBorrowed<'a>) -> (r: Self) {
        MessageBorrowed::Midi2ChannelVoice(value)
    }
}

impl<'a> FromSpecImpl<Midi2ChannelVoiceBorrowed<'a>> for MessageBorrowed<'a> {
    open spec fn obeys_from_spec() -> bool {
        true
    }

    open spec fn from_spec(value: Midi2ChannelVoiceBorrowed<'a>) -> Self {
        MessageBorrowed::Midi2ChannelVoice(value)
    }
}

impl<'a> From<Midi2ChannelVoiceMessage<'a>> for Message<'a> {
    fn from(value: Midi2ChannelVoiceMessage<'a>) -> (r: Self) {
        Message::Midi2ChannelVoice(value)
    }
}

impl<'a> FromSpecImpl<Midi2ChannelVoiceMessage<'a>> for Message<'a> {
    open spec fn obeys_from_spec() -> bool {
        true
    }

    open spec fn from_spec(value: Midi2ChannelVoiceMessage<'a>) -> Self {
        Message::Midi2ChannelVoice(value)
    }
}

impl From<Sysex7Owned> for MessageOwned {
    fn from(value: Sysex7Owned) -> (r: Self) {
        MessageOwned::Sysex7(value)
    }
}

impl FromSpecImpl<Sysex7Owned> for MessageOwned {
    open spec fn obeys_from_spec() -> bool {
        true
    }

    open spec fn from_spec(value: Sysex7Owned) -> Self {
        MessageOwned::Sysex7(value)
    }
}

impl<'a> From<Sysex7Borrowed<'a>> for MessageBorrowed<'a> {
    fn from(value: Sysex7Borrowed<'a>) -> (r: Self) {
        MessageBorrowed::Sysex7(value)
    }
}

impl<'a> FromSpecImpl<Sysex7Borrowed<'a>> for MessageBorrowed<'a> {
    open spec fn obeys_from_spec() -> bool {
        true
    }

    open spec fn from_spec(value: Sysex7Borrowed<'a>) -> Self {
        MessageBorrowed::Sysex7(value)
    }
}

impl<'a> From<Sysex7Message<'a>> for Message<'a> {
    fn from(value: Sysex7Message<'a>) -> (r: Self) {
        Message::Sysex7(value)
    }
}

impl<'a> FromSpecImpl<Sysex7Message<'a>> for Message<'a> {
    open spec fn obeys_from_spec() -> bool {
        true
    }

    open spec fn from_spec(value: Sysex7Message<'a>) -> Self {
        Message::Sysex7(value)
    }
}

impl From<Sysex8Owned> for MessageOwned {
    fn from(value: Sysex8Owned) -> (r: Self) {
        MessageOwned::Sysex8(value)
    }
}

impl FromSpecImpl<Sysex8Owned> for MessageOwned {
    open spec fn obeys_from_spec() -> bool {
        true
    }

    open spec fn from_spec(value: Sysex8Owned) -> Self {
        MessageOwned::Sysex8(value)
    }
}

impl<'a> From<Sysex8Borrowed<'a>> for MessageBorrowed<'a> {
    fn from(value: Sysex8Borrowed<'a>) -> (r: Self) {
        MessageBorrowed::Sysex8(value)
    }
}

impl<'a> FromSpecImpl<Sysex8Borrowed<'a>> for MessageBorrowed<'a> {
    open spec fn obeys_from_spec() -> bool {
        true
    }

    open spec fn from_spec(value: Sysex8Borrowed<'a>) -> Self {
        MessageBorrowed::Sysex8(value)
    }
}

impl<'a> From<Sysex8Message<'a>> for Message<'a> {
    fn from(value: Sysex8Message<'a>) -> (r: Self) {
        Message::Sysex8(value)
    }
}

impl<'a> FromSpecImpl<Sysex8Message<'a>> for Message<'a> {
    open spec fn obeys_from_spec() -> bool {
        true
    }

    open spec fn from_spec(value: Sysex8Message<'a>) -> Self {
        Message::Sysex8(value)
    }
}

impl From<SystemCommonOwned> for MessageOwned {
    fn from(value: SystemCommonOwned) -> (r: Self) {
        MessageOwned::SystemCommon(value)
    }
}

impl FromSpecImpl<SystemCommonOwned> for MessageOwned {
    open spec fn obeys_from_spec() -> bool {
        true
    }

    open spec fn from_spec(value: SystemCommonOwned) -> Self {
        MessageOwned::SystemCommon(value)
    }
}

impl<'a> From<SystemCommonBorrowed<'a>> for MessageBorrowed<'a> {
    fn from(value: SystemCommonBorrowed<'a>) -> (r: Self) {
        MessageBorrowed::SystemCommon(value)
    }
}

impl<'a> FromSpecImpl<SystemCommonBorrowed<'a>> for MessageBorrowed<'a> {
    open spec fn obeys_from_spec() -> bool {
        true
    }

    open spec fn from_spec(value: SystemCommonBorrowed<'a>) -> Self {
        MessageBorrowed::SystemCommon(value)
    }
}

impl<'a> From<SystemCommonMessage<'a>> for Message<'a> {
    fn from(value: SystemCommonMessage<'a>) -> (r: Self) {
        Message::SystemCommon(value)
    }
}

impl<'a> FromSpecImpl<SystemCommonMessage<'a>> for Message<'a> {
    open spec fn obeys_from_spec() -> bool {
        true
    }

    open spec fn from_spec(value: SystemCommonMessage<'a>) -> Self {
        Message::SystemCommon(value)
    }
}

impl From<UmpStreamOwned> for MessageOwned {
    fn from(value: UmpStreamOwned) -> (r: Self) {
        MessageOwned::UmpStream(value)
    }
}

impl FromSpecImpl<UmpStreamOwned> for MessageOwned {
    open spec fn obeys_from_spec() -> bool {
        true
    }

    open spec fn from_spec(value: UmpStreamOwned) -> Self {
        MessageOwned::UmpStream(value)
    }
}

impl<'a> From<UmpStreamBorrowed<'a>> for MessageBorrowed<'a> {
    fn from(value: UmpStreamBorrowed<'a>) -> (r: Self) {
        MessageBorrowed::UmpStream(value)
    }
}

impl<'a> FromSpecImpl<UmpStreamBorrowed<'a>> for MessageBorrowed<'a> {
    open spec fn obeys_from_spec() -> bool {
        true
    }

    open spec fn from_spec(value: UmpStreamBorrowed<'a>) -> Self {
        MessageBorrowed::UmpStream(value)
    }
}

impl<'a> From<UmpStreamMessage<'a>> for Message<'a> {
    fn from(value: UmpStreamMessage<'a>) -> (r: Self) {
        Message::UmpStream(value)
    }
}

impl<'a> FromSpecImpl<UmpStreamMessage<'a>> for Message<'a> {
    open spec fn obeys_from_spec() -> bool {
        true
    }

    open spec fn from_spec(value: UmpStreamMessage<'a>) -> Self {
        Message::UmpStream(value)
    }
}

impl From<UtilityOwned> for MessageOwned {
    fn from(value: UtilityOwned) -> (r: Self) {
        MessageOwned::Utility(value)
    }
}

impl FromSpecImpl<UtilityOwned> for MessageOwned {
    open spec fn obeys_from_spec() -> bool {
        true
    }

    open spec fn from_spec(value: UtilityOwned) -> Self {
        MessageOwned::Utility(value)
    }
}

impl<'a> From<UtilityBorrowed<'a>> for MessageBorrowed<'a> {
    fn from(value: UtilityBorrowed<'a>) -> (r: Self) {
        MessageBorrowed::Utility(value)
    }
}

impl<'a> FromSpecImpl<UtilityBorrowed<'a>> for MessageBorrowed<'a> {
    open spec fn obeys_from_spec() -> bool {
        true
    }

    open spec fn from_spec(value: UtilityBorrowed<'a>) -> Self {
        MessageBorrowed::Utility(value)
    }
}

impl<'a> From<UtilityMessage<'a>> for Message<'a> {
    fn from(value: UtilityMessage<'a>) -> (r: Self) {
        Message::Utility(value)
    }
}

impl<'a> FromSpecImpl<UtilityMessage<'a>> for Message<'a> {
    open spec fn obeys_from_spec() -> bool {
        true
    }

    open spec fn from_spec(value: UtilityMessage<'a>) -> Self {
        Message::Utility(value)
    }
}

impl From<flex_data::composer_name::ComposerNameOwned> for MessageOwned {
    fn from(value: flex_data::composer_name::ComposerNameOwned) -> (r: Self) {
        MessageOwned::FlexData(FlexDataOwned::ComposerName(value))
    }
}

impl FromSpecImpl<flex_data::composer_name::ComposerNameOwned> for MessageOwned {
    open spec fn obeys_from_spec() -> bool {
        true
    }

    open spec fn from_spec(value: flex_data::composer_name::ComposerNameOwned) -> Self {
        MessageOwned::FlexData(FlexDataOwned::ComposerName(value))
    }
}

impl<'a> From<flex_data::composer_name::ComposerNameOwned> for Message<'a> {
    fn from(value: flex_data::composer_name::ComposerNameOwned) -> (r: Self) {
        Message::FlexData(FlexDataMessage::from(FlexDataOwned::ComposerName(value)))
    }
}

impl<'a> FromSpecImpl<flex_data::composer_name::ComposerNameOwned> for Message<'a> {
    open spec fn obeys_from_spec() -> bool {
        true
    }

    open spec fn from_spec(value: flex_data::composer_name::ComposerNameOwned) -> Self {
        Message::FlexData(FlexDataMessage::spec_from_owned(FlexDataOwned::ComposerName(value)))
    }
}

impl From<flex_data::set_key_signature::SetKeySignatureOwned> for MessageOwned {
    fn from(value: flex_data::set_key_signature::SetKeySignatureOwned) -> (r: Self) {
        MessageOwned::FlexData(FlexDataOwned::SetKeySignature(value))
    }
}

impl FromSpecImpl<flex_data::set_key_signature::SetKeySignatureOwned> for MessageOwned {
    open spec fn obeys_from_spec() -> bool {
        true
    }

    open spec fn from_spec(value: flex_data::set_key_signature::SetKeySignatureOwned) -> Self {
        MessageOwned::FlexData(FlexDataOwned::SetKeySignature(value))
    }
}

impl<'a> From<flex_data::set_key_signature::SetKeySignatureOwned> for Message<'a> {
    fn from(value: flex_data::set_key_signature::SetKeySignatureOwned) -> (r: Self) {
        Message::FlexData(FlexDataMessage::from(FlexDataOwned::SetKeySignature(value)))
    }
}

impl<'a> FromSpecImpl<flex_data::set_key_signature::SetKeySignatureOwned> for Message<'a> {
    open spec fn obeys_from_spec() -> bool {
        true
    }

    open spec fn from_spec(value: flex_data::set_key_signature::SetKeySignatureOwned) -> Self {
        Message::FlexData(FlexDataMessage::spec_from_owned(FlexDataOwned::SetKeySignature(value)))
    }
}

impl From<midi1_channel_voice::channel_pressure::ChannelPressureOwned> for MessageOwned {
    fn from(value: midi1_channel_voice::channel_pressure::ChannelPressureOwned) -> (r: Self) {
        MessageOwned::Midi1ChannelVoice(Midi1ChannelVoiceOwned::ChannelPressure(value))
    }
}

impl FromSpecImpl<midi1_channel_voice::channel_pressure::ChannelPressureOwned> for MessageOwned {
    open spec fn obeys_from_spec() -> bool {
        true
    }

    open spec fn from_spec(
        value: midi1_channel_voice::channel_pressure::ChannelPressureOwned,
    ) -> Self {
        MessageOwned::Midi1ChannelVoice(Midi1ChannelVoiceOwned::ChannelPressure(value))
    }
}

impl<'a> From<midi1_channel_voice::channel_pressure::ChannelPressureOwned> for Message<'a> {
    fn from(value: midi1_channel_voice::channel_pressure::ChannelPressureOwned) -> (r: Self) {
        Message::Midi1ChannelVoice(
            Midi1ChannelVoiceMessage::from(Midi1ChannelVoiceOwned::ChannelPressure(value))
        )
    }
}

impl<'a> FromSpecImpl<midi1_channel_voice::channel_pressure::ChannelPressureOwned> for Message<'a> {
    open spec fn obeys_from_spec() -> bool {
        true
    }

    open spec fn from_spec(
        value: midi1_channel_voice::channel_pressure::ChannelPressureOwned,
    ) -> Self {
        Message::Midi1ChannelVoice(
            Midi1ChannelVoiceMessage::spec_from_owned(
                Midi1ChannelVoiceOwned::ChannelPressure(value)
            )
        )
    }
}

impl From<midi1_channel_voice::control_change::ControlChangeOwned> for MessageOwned {
    fn from(value: midi1_channel_voice::control_change::ControlChangeOwned) -> (r: Self) {
        MessageOwned::Midi1ChannelVoice(Midi1ChannelVoiceOwned::ControlChange(value))
    }
}

impl FromSpecImpl<midi1_channel_voice::control_change::ControlChangeOwned> for MessageOwned {
    open spec fn obeys_from_spec() -> bool {
        true
    }

    open spec fn from_spec(value: midi1_channel_voice::control_change::ControlChangeOwned) -> Self {
        MessageOwned::Midi1ChannelVoice(Midi1ChannelVoiceOwned::ControlChange(value))
    }
}

impl<'a> From<midi1_channel_voice::control_change::ControlChangeOwned> for Message<'a> {
    fn from(value: midi1_channel_voice::control_change::ControlChangeOwned) -> (r: Self) {
        Message::Midi1ChannelVoice(
            Midi1ChannelVoiceMessage::from(Midi1ChannelVoiceOwned::ControlChange(value))
        )
    }
}

impl<'a> FromSpecImpl<midi1_channel_voice::control_change::ControlChangeOwned> for Message<'a> {
    open spec fn obeys_from_spec() -> bool {
        true
    }

    open spec fn from_spec(value: midi1_channel_voice::control_change::ControlChangeOwned) -> Self {
        Message::Midi1ChannelVoice(
            Midi1ChannelVoiceMessage::spec_from_owned(Midi1ChannelVoiceOwned::ControlChange(value))
        )
    }
}

impl From<midi1_channel_voice::key_pressure::KeyPressureOwned> for MessageOwned {
    fn from(value: midi1_channel_voice::key_pressure::KeyPressureOwned) -> (r: Self) {
        MessageOwned::Midi1ChannelVoice(Midi1ChannelVoiceOwned::KeyPressure(value))
    }
}

impl FromSpecImpl<midi1_channel_voice::key_pressure::KeyPressureOwned> for MessageOwned {
    open spec fn obeys_from_spec() -> bool {
        true
    }

    open spec fn from_spec(value: midi1_channel_voice::key_pressure::KeyPressureOwned) -> Self {
        MessageOwned::Midi1ChannelVoice(Midi1ChannelVoiceOwned::KeyPressure(value))
    }
}

impl<'a> From<midi1_channel_voice::key_pressure::KeyPressureOwned> for Message<'a> {
    fn from(value: midi1_channel_voice::key_pressure::KeyPressureOwned) -> (r: Self) {
        Message::Midi1ChannelVoice(
            Midi1ChannelVoiceMessage::from(Midi1ChannelVoiceOwned::KeyPressure(value))
        )
    }
}

impl<'a> FromSpecImpl<midi1_channel_voice::key_pressure::KeyPressureOwned> for Message<'a> {
    open spec fn obeys_from_spec() -> bool {
        true
    }

    open spec fn from_spec(value: midi1_channel_voice::key_pressure::KeyPressureOwned) -> Self {
        Message::Midi1ChannelVoice(
            Midi1ChannelVoiceMessage::spec_from_owned(Midi1ChannelVoiceOwned::KeyPressure(value))
        )
    }
}

impl From<midi1_channel_voice::note_off::NoteOffOwned> for MessageOwned {
    fn from(value: midi1_channel_voice::note_off::NoteOffOwned) -> (r: Self) {
        MessageOwned::Midi1ChannelVoice(Midi1ChannelVoiceOwned::NoteOff(value))
    }
}

impl FromSpecImpl<midi1_channel_voice::note_off::NoteOffOwned> for MessageOwned {
    open spec fn obeys_from_spec() -> bool {
        true
    }

    open spec fn from_spec(value: midi1_channel_voice::note_off::NoteOffOwned) -> Self {
        MessageOwned::Midi1ChannelVoice(Midi1ChannelVoiceOwned::NoteOff(value))
    }
}

impl<'a> From<midi1_channel_voice::note_off::NoteOffOwned> for Message<'a> {
    fn from(value: midi1_channel_voice::note_off::NoteOffOwned) -> (r: Self) {
        Message::Midi1ChannelVoice(
            Midi1ChannelVoiceMessage::from(Midi1ChannelVoiceOwned::NoteOff(value))
        )
    }
}

impl<'a> FromSpecImpl<midi1_channel_voice::note_off::NoteOffOwned> for Message<'a> {
    open spec fn obeys_from_spec() -> bool {
        true
    }

    open spec fn from_spec(value: midi1_channel_voice::note_off::NoteOffOwned) -> Self {
        Message::Midi1ChannelVoice(
            Midi1ChannelVoiceMessage::spec_from_owned(Midi1ChannelVoiceOwned::NoteOff(value))
        )
    }
}

impl From<midi1_channel_voice::note_on::NoteOnOwned> for MessageOwned {
    fn from(value: midi1_channel_voice::note_on::NoteOnOwned) -> (r: Self) {
        MessageOwned::Midi1ChannelVoice(Midi1ChannelVoiceOwned::NoteOn(value))
    }
}

impl FromSpecImpl<midi1_channel_voice::note_on::NoteOnOwned> for MessageOwned {
    open spec fn obeys_from_spec() -> bool {
        true
    }

    open spec fn from_spec(value: midi1_channel_voice::note_on::NoteOnOwned) -> Self {
        MessageOwned::Midi1ChannelVoice(Midi1ChannelVoiceOwned::NoteOn(value))
    }
}

impl<'a> From<midi1_channel_voice::note_on::NoteOnOwned> for Message<'a> {
    fn from(value: midi1_channel_voice::note_on::NoteOnOwned) -> (r: Self) {
        Message::Midi1ChannelVoice(
            Midi1ChannelVoiceMessage::from(Midi1ChannelVoiceOwned::NoteOn(value))
        )
    }
}

impl<'a> FromSpecImpl<midi1_channel_voice::note_on::NoteOnOwned> for Message<'a> {
    open spec fn obeys_from_spec() -> bool {
        true
    }

    open spec fn from_spec(value: midi1_channel_voice::note_on::NoteOnOwned) -> Self {
        Message::Midi1ChannelVoice(
            Midi1ChannelVoiceMessage::spec_from_owned(Midi1ChannelVoiceOwned::NoteOn(value))
        )
    }
}

impl From<midi1_channel_voice::pitch_bend::PitchBendOwned> for MessageOwned {
    fn from(value: midi1_channel_voice::pitch_bend::PitchBendOwned) -> (r: Self) {
        MessageOwned::Midi1ChannelVoice(Midi1ChannelVoiceOwned::PitchBend(value))
    }
}

impl FromSpecImpl<midi1_channel_voice::pitch_bend::PitchBendOwned> for MessageOwned {
    open spec fn obeys_from_spec() -> bool {
        true
    }

    open spec fn from_spec(value: midi1_channel_voice::pitch_bend::PitchBendOwned) -> Self {
        MessageOwned::Midi1ChannelVoice(Midi1ChannelVoiceOwned::PitchBend(value))
    }
}

impl<'a> From<midi1_channel_voice::pitch_bend::PitchBendOwned> for Message<'a> {
    fn from(value: midi1_channel_voice::pitch_bend::PitchBendOwned) -> (r: Self) {
        Message::Midi1ChannelVoice(
            Midi1ChannelVoiceMessage::from(Midi1ChannelVoiceOwned::PitchBend(value))
        )
    }
}

impl<'a> FromSpecImpl<midi1_channel_voice::pitch_bend::PitchBendOwned> for Message<'a> {
    open spec fn obeys_from_spec() -> bool {
        true
    }

    open spec fn from_spec(value: midi1_channel_voice::pitch_bend::PitchBendOwned) -> Self {
        Message::Midi1ChannelVoice(
            Midi1ChannelVoiceMessage::spec_from_owned(Midi1ChannelVoiceOwned::PitchBend(value))
        )
    }
}

impl From<midi2_channel_voice::channel_pitch_bend::ChannelPitchBendOwned> for MessageOwned {
    fn from(value: midi2_channel_voice::channel_pitch_bend::ChannelPitchBendOwned) -> (r: Self) {
        MessageOwned::Midi2ChannelVoice(Midi2ChannelVoiceOwned::ChannelPitchBend(value))
    }
}

impl FromSpecImpl<midi2_channel_voice::channel_pitch_bend::ChannelPitchBendOwned> for MessageOwned {
    open spec fn obeys_from_spec() -> bool {
        true
    }

    open spec fn from_spec(
        value: midi2_channel_voice::channel_pitch_bend::ChannelPitchBendOwned,
    ) -> Self {
        MessageOwned::Midi2ChannelVoice(Midi2ChannelVoiceOwned::ChannelPitchBend(value))
    }
}

impl<'a> From<midi2_channel_voice::channel_pitch_bend::ChannelPitchBendOwned> for Message<'a> {
    fn from(value: midi2_channel_voice::channel_pitch_bend::ChannelPitchBendOwned) -> (r: Self) {
        Message::Midi2ChannelVoice(
            Midi2ChannelVoiceMessage::from(Midi2ChannelVoiceOwned::ChannelPitchBend(value))
        )
    }
}

impl<'a> FromSpecImpl<midi2_channel_voice::channel_pitch_bend::ChannelPitchBendOwned>
    for Message<'a> {
    open spec fn obeys_from_spec() -> bool {
        true
    }

    open spec fn from_spec(
        value: midi2_channel_voice::channel_pitch_bend::ChannelPitchBendOwned,
    ) -> Self {
        Message::Midi2ChannelVoice(
            Midi2ChannelVoiceMessage::spec_from_owned(
                Midi2ChannelVoiceOwned::ChannelPitchBend(value)
            )
        )
    }
}

impl From<midi2_channel_voice::channel_pressure::ChannelPressureOwned> for MessageOwned {
    fn from(value: midi2_channel_voice::channel_pressure::ChannelPressureOwned) -> (r: Self) {
        MessageOwned::Midi2ChannelVoice(Midi2ChannelVoiceOwned::ChannelPressure(value))
    }
}

impl FromSpecImpl<midi2_channel_voice::channel_pressure::ChannelPressureOwned> for MessageOwned {
    open spec fn obeys_from_spec() -> bool {
        true
    }

    open spec fn from_spec(
        value: midi2_channel_voice::channel_pressure::ChannelPressureOwned,
    ) -> Self {
        MessageOwned::Midi2ChannelVoice(Midi2ChannelVoiceOwned::ChannelPressure(value))
    }
}

impl<'a> From<midi2_channel_voice::channel_pressure::ChannelPressureOwned> for Message<'a> {
    fn from(value: midi2_channel_voice::channel_pressure::ChannelPressureOwned) -> (r: Self) {
        Message::Midi2ChannelVoice(
            Midi2ChannelVoiceMessage::from(Midi2ChannelVoiceOwned::ChannelPressure(value))
        )
    }
}

impl<'a> FromSpecImpl<midi2_channel_voice::channel_pressure::ChannelPressureOwned> for Message<'a> {
    open spec fn obeys_from_spec() -> bool {
        true
    }

    open spec fn from_spec(
        value: midi2_channel_voice::channel_pressure::ChannelPressureOwned,
    ) -> Self {
        Message::Midi2ChannelVoice(
            Midi2ChannelVoiceMessage::spec_from_owned(
                Midi2ChannelVoiceOwned::ChannelPressure(value)
            )
        )
    }
}

impl From<midi2_channel_voice::control_change::ControlChangeOwned> for MessageOwned {
    fn from(value: midi2_channel_voice::control_change::ControlChangeOwned) -> (r: Self) {
        MessageOwned::Midi2ChannelVoice(Midi2ChannelVoiceOwned::ControlChange(value))
    }
}

impl FromSpecImpl<midi2_channel_voice::control_change::ControlChangeOwned> for MessageOwned {
    open spec fn obeys_from_spec() -> bool {
        true
    }

    open spec fn from_spec(value: midi2_channel_voice::control_change::ControlChangeOwned) -> Self {
        MessageOwned::Midi2ChannelVoice(Midi2ChannelVoiceOwned::ControlChange(value))
    }
}

impl<'a> From<midi2_channel_voice::control_change::ControlChangeOwned> for Message<'a> {
    fn from(value: midi2_channel_voice::control_change::ControlChangeOwned) -> (r: Self) {
        Message::Midi2ChannelVoice(
            Midi2ChannelVoiceMessage::from(Midi2ChannelVoiceOwned::ControlChange(value))
        )
    }
}

impl<'a> FromSpecImpl<midi2_channel_voice::control_change::ControlChangeOwned> for Message<'a> {
    open spec fn obeys_from_spec() -> bool {
        true
    }

    open spec fn from_spec(value: midi2_channel_voice::control_change::ControlChangeOwned) -> Self {
        Message::Midi2ChannelVoice(
            Midi2ChannelVoiceMessage::spec_from_owned(Midi2ChannelVoiceOwned::ControlChange(value))
        )
    }
}

impl From<midi2_channel_voice::note_off::NoteOffOwned> for MessageOwned {
    fn from(value: midi2_channel_voice::note_off::NoteOffOwned) -> (r: Self) {
        MessageOwned::Midi2ChannelVoice(Midi2ChannelVoiceOwned::NoteOff(value))
    }
}

impl FromSpecImpl<midi2_channel_voice::note_off::NoteOffOwned> for MessageOwned {
    open spec fn obeys_from_spec() -> bool {
        true
    }

    open spec fn from_spec(value: midi2_channel_voice::note_off::NoteOffOwned) -> Self {
        MessageOwned::Midi2ChannelVoice(Midi2ChannelVoiceOwned::NoteOff(value))
    }
}

impl<'a> From<midi2_channel_voice::note_off::NoteOffOwned> for Message<'a> {
    fn from(value: midi2_channel_voice::note_off::NoteOffOwned) -> (r: Self) {
        Message::Midi2ChannelVoice(
            Midi2ChannelVoiceMessage::from(Midi2ChannelVoiceOwned::NoteOff(value))
        )
    }
}

impl<'a> FromSpecImpl<midi2_channel_voice::note_off::NoteOffOwned> for Message<'a> {
    open spec fn obeys_from_spec() -> bool {
        true
    }

    open spec fn from_spec(value: midi2_channel_voice::note_off::NoteOffOwned) -> Self {
        Message::Midi2ChannelVoice(
            Midi2ChannelVoiceMessage::spec_from_owned(Midi2ChannelVoiceOwned::NoteOff(value))
        )
    }
}

impl From<midi2_channel_voice::note_on::NoteOnOwned> for MessageOwned {
    fn from(value: midi2_channel_voice::note_on::NoteOnOwned) -> (r: Self) {
        MessageOwned::Midi2ChannelVoice(Midi2ChannelVoiceOwned::NoteOn(value))
    }
}

impl FromSpecImpl<midi2_channel_voice::note_on::NoteOnOwned> for MessageOwned {
    open spec fn obeys_from_spec() -> bool {
        true
    }

    open spec fn from_spec(value: midi2_channel_voice::note_on::NoteOnOwned) -> Self {
        MessageOwned::Midi2ChannelVoice(Midi2ChannelVoiceOwned::NoteOn(value))
    }
}

impl<'a> From<midi2_channel_voice::note_on::NoteOnOwned> for Message<'a> {
    fn from(value: midi2_channel_voice::note_on::NoteOnOwned) -> (r: Self) {
        Message::Midi2ChannelVoice(
            Midi2ChannelVoiceMessage::from(Midi2ChannelVoiceOwned::NoteOn(value))
        )
    }
}

impl<'a> FromSpecImpl<midi2_channel_voice::note_on::NoteOnOwned> for Message<'a> {
    open spec fn obeys_from_spec() -> bool {
        true
    }

    open spec fn from_spec(value: midi2_channel_voice::note_on::NoteOnOwned) -> Self {
        Message::Midi2ChannelVoice(
            Midi2ChannelVoiceMessage::spec_from_owned(Midi2ChannelVoiceOwned::NoteOn(value))
        )
    }
}

impl<'a> From<Sysex7Owned> for Message<'a> {
    fn from(value: Sysex7Owned) -> (r: Self) {
        Message::Sysex7(Sysex7Message::Owned(value))
    }
}

impl<'a> FromSpecImpl<Sysex7Owned> for Message<'a> {
    open spec fn obeys_from_spec() -> bool {
        true
    }

    open spec fn from_spec(value: Sysex7Owned) -> Self {
        Message::Sysex7(Sysex7Message::Owned(value))
    }
}

impl<'a> From<Sysex8Owned> for Message<'a> {
    fn from(value: Sysex8Owned) -> (r: Self) {
        Message::Sysex8(Sysex8Message::Owned(value))
    }
}

impl<'a> FromSpecImpl<Sysex8Owned> for Message<'a> {
    open spec fn obeys_from_spec() -> bool {
        true
    }

    open spec fn from_spec(value: Sysex8Owned) -> Self {
        Message::Sysex8(Sysex8Message::Owned(value))
    }
}

impl From<system_common::active_sensing::ActiveSensingOwned> for MessageOwned {
    fn from(value: system_common::active_sensing::ActiveSensingOwned) -> (r: Self) {
        MessageOwned::SystemCommon(SystemCommonOwned::ActiveSensing(value))
    }
}

impl FromSpecImpl<system_common::active_sensing::ActiveSensingOwned> for MessageOwned {
    open spec fn obeys_from_spec() -> bool {
        true
    }

    open spec fn from_spec(value: system_common::active_sensing::ActiveSensingOwned) -> Self {
        MessageOwned::SystemCommon(SystemCommonOwned::ActiveSensing(value))
    }
}

impl<'a> From<system_common::active_sensing::ActiveSensingOwned> for Message<'a> {
    fn from(value: system_common::active_sensing::ActiveSensingOwned) -> (r: Self) {
        Message::SystemCommon(SystemCommonMessage::from(SystemCommonOwned::ActiveSensing(value)))
    }
}

impl<'a> FromSpecImpl<system_common::active_sensing::ActiveSensingOwned> for Message<'a> {
    open spec fn obeys_from_spec() -> bool {
        true
    }

    open spec fn from_spec(value: system_common::active_sensing::ActiveSensingOwned) -> Self {
        Message::SystemCommon(
            SystemCommonMessage::spec_from_owned(SystemCommonOwned::ActiveSensing(value))
        )
    }
}

impl From<system_common::cont::ContinueOwned> for MessageOwned {
    fn from(value: system_common::cont::ContinueOwned) -> (r: Self) {
        MessageOwned::SystemCommon(SystemCommonOwned::Continue(value))
    }
}

impl FromSpecImpl<system_common::cont::ContinueOwned> for MessageOwned {
    open spec fn obeys_from_spec() -> bool {
        true
    }

    open spec fn from_spec(value: system_common::cont::ContinueOwned) -> Self {
        MessageOwned::SystemCommon(SystemCommonOwned::Continue(value))
    }
}

impl<'a> From<system_common::cont::ContinueOwned> for Message<'a> {
    fn from(value: system_common::cont::ContinueOwned) -> (r: Self) {
        Message::SystemCommon(SystemCommonMessage::from(SystemCommonOwned::Continue(value)))
    }
}

impl<'a> FromSpecImpl<system_common::cont::ContinueOwned> for Message<'a> {
    open spec fn obeys_from_spec() -> bool {
        true
    }

    open spec fn from_spec(value: system_common::cont::ContinueOwned) -> Self {
        Message::SystemCommon(
            SystemCommonMessage::spec_from_owned(SystemCommonOwned::Continue(value))
        )
    }
}

impl From<system_common::reset::ResetOwned> for MessageOwned {
    fn from(value: system_common::reset::ResetOwned) -> (r: Self) {
        MessageOwned::SystemCommon(SystemCommonOwned::Reset(value))
    }
}

impl FromSpecImpl<system_common::reset::ResetOwned> for MessageOwned {
    open spec fn obeys_from_spec() -> bool {
        true
    }

    open spec fn from_spec(value: system_common::reset::ResetOwned) -> Self {
        MessageOwned::SystemCommon(SystemCommonOwned::Reset(value))
    }
}

impl<'a> From<system_common::reset::ResetOwned> for Message<'a> {
    fn from(value: system_common::reset::ResetOwned) -> (r: Self) {
        Message::SystemCommon(SystemCommonMessage::from(SystemCommonOwned::Reset(value)))
    }
}

impl<'a> FromSpecImpl<system_common::reset::ResetOwned> for Message<'a> {
    open spec fn obeys_from_spec() -> bool {
        true
    }

    open spec fn from_spec(value: system_common::reset::ResetOwned) -> Self {
        Message::SystemCommon(SystemCommonMessage::spec_from_owned(SystemCommonOwned::Reset(value)))
    }
}

impl From<system_common::song_position_pointer::SongPositionPointerOwned> for MessageOwned {
    fn from(value: system_common::song_position_pointer::SongPositionPointerOwned) -> (r: Self) {
        MessageOwned::SystemCommon(SystemCommonOwned::SongPositionPointer(value))
    }
}

impl FromSpecImpl<system_common::song_position_pointer::SongPositionPointerOwned> for MessageOwned {
    open spec fn obeys_from_spec() -> bool {
        true
    }

    open spec fn from_spec(
        value: system_common::song_position_pointer::SongPositionPointerOwned,
    ) -> Self {
        MessageOwned::SystemCommon(SystemCommonOwned::SongPositionPointer(value))
    }
}

impl<'a> From<system_common::song_position_pointer::SongPositionPointerOwned> for Message<'a> {
    fn from(value: system_common::song_position_pointer::SongPositionPointerOwned) -> (r: Self) {
        Message::SystemCommon(
            SystemCommonMessage::from(SystemCommonOwned::SongPositionPointer(value))
        )
    }
}

impl<'a> FromSpecImpl<system_common::song_position_pointer::SongPositionPointerOwned>
    for Message<'a> {
    open spec fn obeys_from_spec() -> bool {
        true
    }

    open spec fn from_spec(
        value: system_common::song_position_pointer::SongPositionPointerOwned,
    ) -> Self {
        Message::SystemCommon(
            SystemCommonMessage::spec_from_owned(SystemCommonOwned::SongPositionPointer(value))
        )
    }
}

impl From<system_common::song_select::SongSelectOwned> for MessageOwned {
    fn from(value: system_common::song_select::SongSelectOwned) -> (r: Self) {
        MessageOwned::SystemCommon(SystemCommonOwned::SongSelect(value))
    }
}

impl FromSpecImpl<system_common::song_select::SongSelectOwned> for MessageOwned {
    open spec fn obeys_from_spec() -> bool {
        true
    }

    open spec fn from_spec(value: system_common::song_select::SongSelectOwned) -> Self {
        MessageOwned::SystemCommon(SystemCommonOwned::SongSelect(value))
    }
}

impl<'a> From<system_common::song_select::SongSelectOwned> for Message<'a> {
    fn from(value: system_common::song_select::SongSelectOwned) -> (r: Self) {
        Message::SystemCommon(SystemCommonMessage::from(SystemCommonOwned::SongSelect(value)))
    }
}

impl<'a> FromSpecImpl<system_common::song_select::SongSelectOwned> for Message<'a> {
    open spec fn obeys_from_spec() -> bool {
        true
    }

    open spec fn from_spec(value: system_common::song_select::SongSelectOwned) -> Self {
        Message::SystemCommon(
            SystemCommonMessage::spec_from_owned(SystemCommonOwned::SongSelect(value))
        )
    }
}

impl From<system_common::start::StartOwned> for MessageOwned {
    fn from(value: system_common::start::StartOwned) -> (r: Self) {
        MessageOwned::SystemCommon(SystemCommonOwned::Start(value))
    }
}

impl FromSpecImpl<system_common::start::StartOwned> for MessageOwned {
    open spec fn obeys_from_spec() -> bool {
        true
    }

    open spec fn from_spec(value: system_common::start::StartOwned) -> Self {
        MessageOwned::SystemCommon(SystemCommonOwned::Start(value))
    }
}

impl<'a> From<system_common::start::StartOwned> for Message<'a> {
    fn from(value: system_common::start::StartOwned) -> (r: Self) {
        Message::SystemCommon(SystemCommonMessage::from(SystemCommonOwned::Start(value)))
    }
}

impl<'a> FromSpecImpl<system_common::start::StartOwned> for Message<'a> {
    open spec fn obeys_from_spec() -> bool {
        true
    }

    open spec fn from_spec(value: system_common::start::StartOwned) -> Self {
        Message::SystemCommon(SystemCommonMessage::spec_from_owned(SystemCommonOwned::Start(value)))
    }
}

impl From<system_common::stop::StopOwned> for MessageOwned {
    fn from(value: system_common::stop::StopOwned) -> (r: Self) {
        MessageOwned::SystemCommon(SystemCommonOwned::Stop(value))
    }
}

impl FromSpecImpl<system_common::stop::StopOwned> for MessageOwned {
    open spec fn obeys_from_spec() -> bool {
        true
    }

    open spec fn from_spec(value: system_common::stop::StopOwned) -> Self {
        MessageOwned::SystemCommon(SystemCommonOwned::Stop(value))
    }
}

impl<'a> From<system_common::stop::StopOwned> for Message<'a> {
    fn from(value: system_common::stop::StopOwned) -> (r: Self) {
        Message::SystemCommon(SystemCommonMessage::from(SystemCommonOwned::Stop(value)))
    }
}

impl<'a> FromSpecImpl<system_common::stop::StopOwned> for Message<'a> {
    open spec fn obeys_from_spec() -> bool {
        true
    }

    open spec fn from_spec(value: system_common::stop::StopOwned) -> Self {
        Message::SystemCommon(SystemCommonMessage::spec_from_owned(SystemCommonOwned::Stop(value)))
    }
}

impl From<system_common::time_code::TimeCodeOwned> for MessageOwned {
    fn from(value: system_common::time_code::TimeCodeOwned) -> (r: Self) {
        MessageOwned::SystemCommon(SystemCommonOwned::TimeCode(value))
    }
}

impl FromSpecImpl<system_common::time_code::TimeCodeOwned> for MessageOwned {
    open spec fn obeys_from_spec() -> bool {
        true
    }

    open spec fn from_spec(value: system_common::time_code::TimeCodeOwned) -> Self {
        MessageOwned::SystemCommon(SystemCommonOwned::TimeCode(value))
    }
}

impl<'a> From<system_common::time_code::TimeCodeOwned> for Message<'a> {
    fn from(value: system_common::time_code::TimeCodeOwned) -> (r: Self) {
        Message::SystemCommon(SystemCommonMessage::from(SystemCommonOwned::TimeCode(value)))
    }
}

impl<'a> FromSpecImpl<system_common::time_code::TimeCodeOwned> for Message<'a> {
    open spec fn obeys_from_spec() -> bool {
        true
    }

    open spec fn from_spec(value: system_common::time_code::TimeCodeOwned) -> Self {
        Message::SystemCommon(
            SystemCommonMessage::spec_from_owned(SystemCommonOwned::TimeCode(value))
        )
    }
}

impl From<system_common::timing_clock::TimingClockOwned> for MessageOwned {
    fn from(value: system_common::timing_clock::TimingClockOwned) -> (r: Self) {
        MessageOwned::SystemCommon(SystemCommonOwned::TimingClock(value))
    }
}

impl FromSpecImpl<system_common::timing_clock::TimingClockOwned> for MessageOwned {
    open spec fn obeys_from_spec() -> bool {
        true
    }

    open spec fn from_spec(value: system_common::timing_clock::TimingClockOwned) -> Self {
        MessageOwned::SystemCommon(SystemCommonOwned::TimingClock(value))
    }
}

impl<'a> From<system_common::timing_clock::TimingClockOwned> for Message<'a> {
    fn from(value: system_common::timing_clock::TimingClockOwned) -> (r: Self) {
        Message::SystemCommon(SystemCommonMessage::from(SystemCommonOwned::TimingClock(value)))
    }
}

impl<'a> FromSpecImpl<system_common::timing_clock::TimingClockOwned> for Message<'a> {
    open spec fn obeys_from_spec() -> bool {
        true
    }

    open spec fn from_spec(value: system_common::timing_clock::TimingClockOwned) -> Self {
        Message::SystemCommon(
            SystemCommonMessage::spec_from_owned(SystemCommonOwned::TimingClock(value))
        )
    }
}

impl From<system_common::tune_request::TuneRequestOwned> for MessageOwned {
    fn from(value: system_common::tune_request::TuneRequestOwned) -> (r: Self) {
        MessageOwned::SystemCommon(SystemCommonOwned::TuneRequest(value))
    }
}

impl FromSpecImpl<system_common::tune_request::TuneRequestOwned> for MessageOwned {
    open spec fn obeys_from_spec() -> bool {
        true
    }

    open spec fn from_spec(value: system_common::tune_request::TuneRequestOwned) -> Self {
        MessageOwned::SystemCommon(SystemCommonOwned::TuneRequest(value))
    }
}

impl<'a> From<system_common::tune_request::TuneRequestOwned> for Message<'a> {
    fn from(value: system_common::tune_request::TuneRequestOwned) -> (r: Self) {
        Message::SystemCommon(SystemCommonMessage::from(SystemCommonOwned::TuneRequest(value)))
    }
}

impl<'a> FromSpecImpl<system_common::tune_request::TuneRequestOwned> for Message<'a> {
    open spec fn obeys_from_spec() -> bool {
        true
    }

    open spec fn from_spec(value: system_common::tune_request::TuneRequestOwned) -> Self {
        Message::SystemCommon(
            SystemCommonMessage::spec_from_owned(SystemCommonOwned::TuneRequest(value))
        )
    }
}

impl From<ump_stream::end_of_clip::EndOfClipOwned> for MessageOwned {
    fn from(value: ump_stream::end_of_clip::EndOfClipOwned) -> (r: Self) {
        MessageOwned::UmpStream(UmpStreamOwned::EndOfClip(value))
    }
}

impl FromSpecImpl<ump_stream::end_of_clip::EndOfClipOwned> for MessageOwned {
    open spec fn obeys_from_spec() -> bool {
        true
    }

    open spec fn from_spec(value: ump_stream::end_of_clip::EndOfClipOwned) -> Self {
        MessageOwned::UmpStream(UmpStreamOwned::EndOfClip(value))
    }
}

impl<'a> From<ump_stream::end_of_clip::EndOfClipOwned> for Message<'a> {
    fn from(value: ump_stream::end_of_clip::EndOfClipOwned) -> (r: Self) {
        Message::UmpStream(UmpStreamMessage::from(UmpStreamOwned::EndOfClip(value)))
    }
}

impl<'a> FromSpecImpl<ump_stream::end_of_clip::EndOfClipOwned> for Message<'a> {
    open spec fn obeys_from_spec() -> bool {
        true
    }

    open spec fn from_spec(value: ump_stream::end_of_clip::EndOfClipOwned) -> Self {
        Message::UmpStream(UmpStreamMessage::spec_from_owned(UmpStreamOwned::EndOfClip(value)))
    }
}

impl From<ump_stream::endpoint_name::EndpointNameOwned> for MessageOwned {
    fn from(value: ump_stream::endpoint_name::EndpointNameOwned) -> (r: Self) {
        MessageOwned::UmpStream(UmpStreamOwned::EndpointName(value))
    }
}

impl FromSpecImpl<ump_stream::endpoint_name::EndpointNameOwned> for MessageOwned {
    open spec fn obeys_from_spec() -> bool {
        true
    }

    open spec fn from_spec(value: ump_stream::endpoint_name::EndpointNameOwned) -> Self {
        MessageOwned::UmpStream(UmpStreamOwned::EndpointName(value))
    }
}

impl<'a> From<ump_stream::endpoint_name::EndpointNameOwned> for Message<'a> {
    fn from(value: ump_stream::endpoint_name::EndpointNameOwned) -> (r: Self) {
        Message::UmpStream(UmpStreamMessage::from(UmpStreamOwned::EndpointName(value)))
    }
}

impl<'a> FromSpecImpl<ump_stream::endpoint_name::EndpointNameOwned> for Message<'a> {
    open spec fn obeys_from_spec() -> bool {
        true
    }

    open spec fn from_spec(value: ump_stream::endpoint_name::EndpointNameOwned) -> Self {
        Message::UmpStream(UmpStreamMessage::spec_from_owned(UmpStreamOwned::EndpointName(value)))
    }
}

impl From<ump_stream::function_block_name::FunctionBlockNameOwned> for MessageOwned {
    fn from(value: ump_stream::function_block_name::FunctionBlockNameOwned) -> (r: Self) {
        MessageOwned::UmpStream(UmpStreamOwned::FunctionBlockName(value))
    }
}

impl FromSpecImpl<ump_stream::function_block_name::FunctionBlockNameOwned> for MessageOwned {
    open spec fn obeys_from_spec() -> bool {
        true
    }

    open spec fn from_spec(value: ump_stream::function_block_name::FunctionBlockNameOwned) -> Self {
        MessageOwned::UmpStream(UmpStreamOwned::FunctionBlockName(value))
    }
}

impl<'a> From<ump_stream::function_block_name::FunctionBlockNameOwned> for Message<'a> {
    fn from(value: ump_stream::function_block_name::FunctionBlockNameOwned) -> (r: Self) {
        Message::UmpStream(UmpStreamMessage::from(UmpStreamOwned::FunctionBlockName(value)))
    }
}

impl<'a> FromSpecImpl<ump_stream::function_block_name::FunctionBlockNameOwned> for Message<'a> {
    open spec fn obeys_from_spec() -> bool {
        true
    }

    open spec fn from_spec(value: ump_stream::function_block_name::FunctionBlockNameOwned) -> Self {
        Message::UmpStream(
            UmpStreamMessage::spec_from_owned(UmpStreamOwned::FunctionBlockName(value))
        )
    }
}

impl From<ump_stream::start_of_clip::StartOfClipOwned> for MessageOwned {
    fn from(value: ump_stream::start_of_clip::StartOfClipOwned) -> (r: Self) {
        MessageOwned::UmpStream(UmpStreamOwned::StartOfClip(value))
    }
}

impl FromSpecImpl<ump_stream::start_of_clip::StartOfClipOwned> for MessageOwned {
    open spec fn obeys_from_spec() -> bool {
        true
    }

    open spec fn from_spec(value: ump_stream::start_of_clip::StartOfClipOwned) -> Self {
        MessageOwned::UmpStream(UmpStreamOwned::StartOfClip(value))
    }
}

impl<'a> From<ump_stream::start_of_clip::StartOfClipOwned> for Message<'a> {
    fn from(value: ump_stream::start_of_clip::StartOfClipOwned) -> (r: Self) {
        Message::UmpStream(UmpStreamMessage::from(UmpStreamOwned::StartOfClip(value)))
    }
}

impl<'a> FromSpecImpl<ump_stream::start_of_clip::StartOfClipOwned> for Message<'a> {
    open spec fn obeys_from_spec() -> bool {
        true
    }

    open spec fn from_spec(value: ump_stream::start_of_clip::StartOfClipOwned) -> Self {
        Message::UmpStream(UmpStreamMessage::spec_from_owned(UmpStreamOwned::StartOfClip(value)))
    }
}

impl From<ump_stream::stream_configuration_request::StreamConfigurationRequestOwned>
    for MessageOwned {
    fn from(
        value: ump_stream::stream_configuration_request::StreamConfigurationRequestOwned,
    ) -> (r: Self) {
        MessageOwned::UmpStream(UmpStreamOwned::StreamConfigurationRequest(value))
    }
}

impl FromSpecImpl<ump_stream::stream_configuration_request::StreamConfigurationRequestOwned>
    for MessageOwned {
    open spec fn obeys_from_spec() -> bool {
        true
    }

    open spec fn from_spec(
        value: ump_stream::stream_configuration_request::StreamConfigurationRequestOwned,
    ) -> Self {
        MessageOwned::UmpStream(UmpStreamOwned::StreamConfigurationRequest(value))
    }
}

impl<'a> From<ump_stream::stream_configuration_request::StreamConfigurationRequestOwned>
    for Message<'a> {
    fn from(
        value: ump_stream::stream_configuration_request::StreamConfigurationRequestOwned,
    ) -> (r: Self) {
        Message::UmpStream(
            UmpStreamMessage::from(UmpStreamOwned::StreamConfigurationRequest(value))
        )
    }
}

impl<'a> FromSpecImpl<ump_stream::stream_configuration_request::StreamConfigurationRequestOwned>
    for Message<'a> {
    open spec fn obeys_from_spec() -> bool {
        true
    }

    open spec fn from_spec(
        value: ump_stream::stream_configuration_request::StreamConfigurationRequestOwned,
    ) -> Self {
        Message::UmpStream(
            UmpStreamMessage::spec_from_owned(UmpStreamOwned::StreamConfigurationRequest(value))
        )
    }
}

impl From<utility::no_op::NoOpOwned> for MessageOwned {
    fn from(value: utility::no_op::NoOpOwned) -> (r: Self) {
        MessageOwned::Utility(UtilityOwned::NoOp(value))
    }
}

impl FromSpecImpl<utility::no_op::NoOpOwned> for MessageOwned {
    open spec fn obeys_from_spec() -> bool {
        true
    }

    open spec fn from_spec(value: utility::no_op::NoOpOwned) -> Self {
        MessageOwned::Utility(UtilityOwned::NoOp(value))
    }
}

impl<'a> From<utility::no_op::NoOpOwned> for Message<'a> {
    fn from(value: utility::no_op::NoOpOwned) -> (r: Self) {
        Message::Utility(UtilityMessage::from(UtilityOwned::NoOp(value)))
    }
}

impl<'a> FromSpecImpl<utility::no_op::NoOpOwned> for Message<'a> {
    open spec fn obeys_from_spec() -> bool {
        true
    }

    open spec fn from_spec(value: utility::no_op::NoOpOwned) -> Self {
        Message::Utility(UtilityMessage::spec_from_owned(UtilityOwned::NoOp(value)))
    }
}

impl From<utility::time_stamp::TimeStampOwned> for MessageOwned {
    fn from(value: utility::time_stamp::TimeStampOwned) -> (r: Self) {
        MessageOwned::Utility(UtilityOwned::TimeStamp(value))
    }
}

impl FromSpecImpl<utility::time_stamp::TimeStampOwned> for MessageOwned {
    open spec fn obeys_from_spec() -> bool {
        true
    }

    open spec fn from_spec(value: utility::time_stamp::TimeStampOwned) -> Self {
        MessageOwned::Utility(UtilityOwned::TimeStamp(value))
    }
}

impl<'a> From<utility::time_stamp::TimeStampOwned> for Message<'a> {
    fn from(value: utility::time_stamp::TimeStampOwned) -> (r: Self) {
        Message::Utility(UtilityMessage::from(UtilityOwned::TimeStamp(value)))
    }
}

impl<'a> FromSpecImpl<utility::time_stamp::TimeStampOwned> for Message<'a> {
    open spec fn obeys_from_spec() -> bool {
        true
    }

    open spec fn from_spec(value: utility::time_stamp::TimeStampOwned) -> Self {
        Message::Utility(UtilityMessage::spec_from_owned(UtilityOwned::TimeStamp(value)))
    }
}

} // verus!
