//! The MIDI 1.0 note off message as a plain value: its fields out of a
//! packet, and a packet out of its fields.

use vstd::prelude::*;
use crate::channel_voice1::note_off::{
    lemma_round_trip, note, spec_validate, spec_with_fields, velocity, NoteOff,
};
use crate::common_properties::{channel, group};
use crate::error::Error;
use crate::numeric_types::{U4, U7};
use crate::schema::spec_read;

verus! {

#[derive(Clone, Copy, Debug, PartialEq, Eq)]
pub struct Message {
    pub group: U4,
    pub channel: U4,
    pub note: U7,
    pub velocity: U7,
}

impl Message {
    /// Parses the first word of `data`: the fields it holds if it validates
    /// as a note off packet, else the first rule that fails.
    pub fn try_from_ump(data: &[u32]) -> (r: Result<Self, Error>)
        ensures
            match spec_validate::<u32>(data@) {
                Ok(()) => r is Ok && r->Ok_0.group@ == spec_read(data@, group())
                    && r->Ok_0.channel@ == spec_read(data@, channel()) && r->Ok_0.note@
                    == spec_read(data@, note()) && r->Ok_0.velocity@ == spec_read(
                    data@,
                    velocity(),
                ),
                Err(e) => r == Err::<Self, Error>(e),
            },
    {
        match NoteOff::try_from(data) {
            Err(e) => Err(e),
            Ok(packet) => Ok(
                Message {
                    group: packet.group(),
                    channel: packet.channel(),
                    note: packet.note(),
                    velocity: packet.velocity(),
                },
            ),
        }
    }

    /// The packet that holds this message.
    pub open spec fn spec_ump(&self) -> Seq<u32> {
        spec_with_fields::<u32>(1, self.group@, self.channel@, self.note@, self.velocity@)
    }

    /// Writes the message over the first word of `data` and hands that word
    /// back. The words behind it are not touched.
    pub fn to_ump<'a>(&self, data: &'a mut [u32]) -> (written: &'a [u32])
        requires
            old(data)@.len() >= 1,
        ensures
            written@ == self.spec_ump(),
            final(data)@ == self.spec_ump() + old(data)@.subrange(1, old(data)@.len() as int),
    {
        let mut packet = NoteOff::<[u32; 1]>::new();
        packet.set_group(self.group);
        packet.set_channel(self.channel);
        packet.set_note(self.note);
        packet.set_velocity(self.velocity);
        data[0] = packet.0[0];
        proof {
            assert(packet.0@ =~= self.spec_ump());
            assert(data@ =~= self.spec_ump() + old(data)@.subrange(1, old(data)@.len() as int));
        }
        let whole: &'a [u32] = data;
        vstd::slice::slice_subrange(whole, 0, 1)
    }

    /// A message written and parsed again is the same message.
    pub proof fn lemma_ump_round_trip(message: Message)
        requires
            message.group@ <= 0xF,
            message.channel@ <= 0xF,
            message.note@ <= 0x7F,
            message.velocity@ <= 0x7F,
        ensures
            spec_validate::<u32>(message.spec_ump()) is Ok,
            spec_read(message.spec_ump(), group()) == message.group@,
            spec_read(message.spec_ump(), channel()) == message.channel@,
            spec_read(message.spec_ump(), note()) == message.note@,
            spec_read(message.spec_ump(), velocity()) == message.velocity@,
    {
        lemma_round_trip::<u32>(
            1,
            message.group@,
            message.channel@,
            message.note@,
            message.velocity@,
        );
    }
}

} // verus!
