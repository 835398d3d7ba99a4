//! The MIDI 2.0 note off message as a plain value: its fields out of a
//! packet, and a packet out of its fields.

use vstd::prelude::*;
use crate::channel_voice2::note_off::{
    attribute_data, attribute_type, note, spec_validate, spec_with_fields, velocity, NoteOff,
};
use crate::common_properties::{channel, group};
use crate::error::Error;
use crate::message::midi2_channel_voice::attribute::{decodes_to, spec_write_attribute, Attribute};
use crate::numeric_types::{U4, U7};
use crate::schema::spec_read;

verus! {

#[derive(Clone, Copy, Debug, PartialEq, Eq)]
pub struct Message {
    pub group: U4,
    pub channel: U4,
    pub note: U7,
    pub velocity: u16,
    pub attribute: Option<Attribute>,
}

impl Message {
    /// Parses the first two words of `data`: the fields they hold if they
    /// validate as a note off packet, else the first rule that fails.
    pub fn try_from_ump(data: &[u32]) -> (r: Result<Self, Error>)
        ensures
            match spec_validate::<u32>(data@) {
                Ok(()) => r is Ok && r->Ok_0.group@ == spec_read(data@, group())
                    && r->Ok_0.channel@ == spec_read(data@, channel()) && r->Ok_0.note@
                    == spec_read(data@, note()) && r->Ok_0.velocity == spec_read(data@, velocity())
                    && decodes_to(
                    spec_read(data@, attribute_type()),
                    spec_read(data@, attribute_data()),
                    r->Ok_0.attribute,
                ),
                Err(e) => r == Err::<Self, Error>(e),
            },
    {
        match NoteOff::try_from(data) {
            Err(e) => Err(e),
            Ok(packet) => Ok(
                Message {
                    group: packet.group(),
                    channel: packet.channel(),
                    note: packet.note(),
                    velocity: packet.velocity(),
                    attribute: packet.attribute(),
                },
            ),
        }
    }

    /// The packet that holds this message.
    pub open spec fn spec_ump(&self) -> Seq<u32> {
        spec_write_attribute(
            spec_with_fields::<u32>(
                2,
                self.group@,
                self.channel@,
                self.note@,
                self.velocity as u32,
                0,
                0,
            ),
            self.attribute,
        )
    }

    /// Writes the message over the first two words of `data` and hands those
    /// words back. The words behind them are not touched.
    pub fn to_ump<'a>(&self, data: &'a mut [u32]) -> (written: &'a [u32])
        requires
            old(data)@.len() >= 2,
        ensures
            written@ == self.spec_ump(),
            final(data)@ == self.spec_ump() + old(data)@.subrange(2, old(data)@.len() as int),
    {
        let mut packet = NoteOff::<[u32; 2]>::new();
        packet.set_group(self.group);
        packet.set_channel(self.channel);
        packet.set_note(self.note);
        packet.set_velocity(self.velocity);
        packet.set_attribute_type(0);
        packet.set_attribute_data(0);
        packet.set_attribute(self.attribute);
        data[0] = packet.0[0];
        data[1] = packet.0[1];
        proof {
            assert(packet.0@ =~= self.spec_ump());
            assert(data@ =~= self.spec_ump() + old(data)@.subrange(2, old(data)@.len() as int));
        }
        let whole: &'a [u32] = data;
        vstd::slice::slice_subrange(whole, 0, 2)
    }
}

} // verus!
