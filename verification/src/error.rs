//! The two ways an operation of this library can fail.

use vstd::prelude::*;

verus! {

/// The reason an operation was abandoned. Both kinds are terminal: no partial
/// message is ever handed back alongside one.
#[derive(Clone, Copy, Debug, PartialEq, Eq)]
pub enum Error {
    /// The bits under interpretation do not encode a legal value. The payload
    /// is a static diagnostic naming the field or rule that failed.
    InvalidData(&'static str),
    /// A fixed-capacity target cannot hold the units the message needs.
    BufferOverflow,
}

pub const ERR_SLICE_TOO_SHORT: &'static str = "slice too short";

pub const ERR_INCORRECT_UMP_MESSAGE_TYPE: &'static str = "Incorrect ump message type";

pub const ERR_INCORRECT_STATUS: &'static str = "Incorrect status field";

pub const ERR_UNKNOWN_MESSAGE_TYPE: &'static str = "Unknown ump message type";

pub const ERR_UNKNOWN_CHANNEL_VOICE_STATUS: &'static str = "Unknown midi1 channel voice status";

pub const ERR_UNKNOWN_MIDI2_CHANNEL_VOICE_STATUS: &'static str =
    "Unknown midi2 channel voice status";

pub const ERR_UNKNOWN_SYSTEM_COMMON_STATUS: &'static str = "Unknown system common status";

pub const ERR_UNKNOWN_UTILITY_STATUS: &'static str = "Unknown utility message status";

pub const ERR_UNKNOWN_UMP_STREAM_STATUS: &'static str = "Unknown ump stream status";

pub const ERR_UNKNOWN_FLEX_DATA_STATUS: &'static str = "Unknown flex data status";

pub const ERR_UNKNOWN_BYTE_STATUS: &'static str = "Unknown byte stream status";

pub const ERR_TONIC: &'static str = "Couldn't interpret Tonic field";

pub const ERR_ATTRIBUTE: &'static str = "Couldn't interpret attribute type";

pub const ERR_INCONSISTENT_PACKETS: &'static str = "Inconsistent packet sequence";

pub const ERR_INVALID_PACKET_SIZE: &'static str = "Invalid packet payload size";

pub const ERR_NO_BYTE_FORM: &'static str = "Message has no byte stream form";

pub const ERR_NAME_NOT_UTF8: &'static str = "Name is not valid UTF-8";

pub const ERR_OWNED_NEEDS_ALLOCATION: &'static str = "Owned form needs a growable buffer";

pub const ERR_FLEX_ADDRESS: &'static str = "Unknown flex data address";

pub const ERR_DATA_BYTE: &'static str = "Data byte has its top bit set";

impl Error {
    /// The diagnostic text: the reason of an `InvalidData`, a fixed phrase
    /// for `BufferOverflow`.
    pub fn message(&self) -> (text: &'static str)
        ensures
            match *self {
                Error::InvalidData(reason) => text == reason,
                Error::BufferOverflow => text == "Buffer overflow",
            },
    {
        match self {
            Error::InvalidData(reason) => reason,
            Error::BufferOverflow => "Buffer overflow",
        }
    }
}

} // verus!
