//! A codec for the Universal MIDI Packet format and the MIDI 1.0 byte stream.
//!
//! Messages are typed views over a buffer of wire units: 32-bit words for
//! Universal MIDI Packets, bytes for the MIDI 1.0 stream. Every accessor's
//! contract is stated over the buffer's unit sequence, so what a setter
//! writes and what a getter reads are proved to agree bit for bit.
//!
//! The crate is layered, leaf first:
//!
//! - [`error`] and [`numeric_types`]: the two failures, and the unsigned
//!   integers narrower than a byte or a word.
//! - [`bit_ops`]: bit fields of a single unit.
//! - [`schema`] and [`property`]: where a field lives in each wire form, and
//!   typed, validated access to it.
//! - [`buffer`]: the storage backends and re-homing between them.
//! - [`segmentation`]: payloads of any length split across packets.
//! - [`channel_voice1`], [`channel_voice2`], [`system_common`], [`utility`],
//!   [`flex_data`], [`ump_stream`]: the message kinds, each generic over its
//!   buffer, and the unions that route a buffer to a kind.
//! - [`message`]: the same messages qualified by ownership, their builders,
//!   and the union of all families.
//! - [`util`]: the marker trait that every message type satisfies.

pub mod bit_ops;
pub mod buffer;
pub mod channel_voice1;
pub mod channel_voice2;
pub mod common_properties;
pub mod error;
pub mod flex_data;
pub mod message;
pub mod numeric_types;
pub mod property;
pub mod schema;
pub mod segmentation;
pub mod system_common;
pub mod ump_stream;
pub mod util;
pub mod utility;
