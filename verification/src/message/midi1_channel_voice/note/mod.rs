//! Note messages as plain values.

pub mod note_off;
