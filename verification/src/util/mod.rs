//! Traits that every message type is expected to satisfy.

use vstd::prelude::*;

verus! {

/// What every message type offers: it can be cloned, printed and compared.
/// The trait holds nothing of its own; naming it for a type makes sure, when the
/// crate is built, that the type offers all three.
pub trait MessageTraits {
}

impl<T> MessageTraits for T where T: Clone + core::fmt::Debug + PartialEq {
}

} // verus!
