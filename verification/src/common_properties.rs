//! Schemas of the fields that many message kinds share. Each is defined
//! once, so every message that carries the field places it identically.

use vstd::prelude::*;
use crate::schema::{Place, Schema};

verus! {

/// The message-type nibble that leads every Universal MIDI Packet.
pub open spec fn ump_type() -> Schema {
    Schema::ump_only(0, 28, 4)
}

pub fn ump_type_schema() -> (schema: Schema)
    ensures
        schema == ump_type(),
{
    Schema {
        ump: Place { index: 0, shift: 28, width: 4 },
        bytes: Place { index: 0, shift: 0, width: 0 },
    }
}

/// The group nibble: one of sixteen virtual cables. The byte stream has no
/// groups.
pub open spec fn group() -> Schema {
    Schema::ump_only(0, 24, 4)
}

pub fn group_schema() -> (schema: Schema)
    ensures
        schema == group(),
{
    Schema {
        ump: Place { index: 0, shift: 24, width: 4 },
        bytes: Place { index: 0, shift: 0, width: 0 },
    }
}

/// The opcode nibble of a channel voice message.
pub open spec fn channel_voice_status() -> Schema {
    Schema {
        ump: Place { index: 0, shift: 20, width: 4 },
        bytes: Place { index: 0, shift: 4, width: 4 },
    }
}

pub fn channel_voice_status_schema() -> (schema: Schema)
    ensures
        schema == channel_voice_status(),
{
    Schema {
        ump: Place { index: 0, shift: 20, width: 4 },
        bytes: Place { index: 0, shift: 4, width: 4 },
    }
}

/// The channel nibble of a channel voice message.
pub open spec fn channel() -> Schema {
    Schema {
        ump: Place { index: 0, shift: 16, width: 4 },
        bytes: Place { index: 0, shift: 0, width: 4 },
    }
}

pub fn channel_schema() -> (schema: Schema)
    ensures
        schema == channel(),
{
    Schema {
        ump: Place { index: 0, shift: 16, width: 4 },
        bytes: Place { index: 0, shift: 0, width: 4 },
    }
}

/// The whole status byte, as system messages carry it.
pub open spec fn status_octet() -> Schema {
    Schema {
        ump: Place { index: 0, shift: 16, width: 8 },
        bytes: Place { index: 0, shift: 0, width: 8 },
    }
}

pub fn status_octet_schema() -> (schema: Schema)
    ensures
        schema == status_octet(),
{
    Schema {
        ump: Place { index: 0, shift: 16, width: 8 },
        bytes: Place { index: 0, shift: 0, width: 8 },
    }
}

/// The ten-bit status of a stream message.
pub open spec fn stream_status() -> Schema {
    Schema::ump_only(0, 16, 10)
}

pub fn stream_status_schema() -> (schema: Schema)
    ensures
        schema == stream_status(),
{
    Schema {
        ump: Place { index: 0, shift: 16, width: 10 },
        bytes: Place { index: 0, shift: 0, width: 0 },
    }
}

/// The status bank and the status of a flex data message, as one number.
pub open spec fn flex_status() -> Schema {
    Schema::ump_only(0, 0, 16)
}

pub fn flex_status_schema() -> (schema: Schema)
    ensures
        schema == flex_status(),
{
    Schema {
        ump: Place { index: 0, shift: 0, width: 16 },
        bytes: Place { index: 0, shift: 0, width: 0 },
    }
}

} // verus!
