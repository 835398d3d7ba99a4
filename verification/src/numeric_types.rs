//! Unsigned integers narrower than a byte or a word.
//!
//! Each type wraps the smallest primitive that holds it and carries the
//! bound as a type invariant, so a value of the type never exceeds its
//! width. The view of every type is the held number as a `u32`, which is the
//! currency of the field engine.

use vstd::prelude::*;

verus! {

/// An unsigned 4-bit integer.
#[allow(non_camel_case_types)]
#[derive(Clone, Copy, Debug, PartialEq, Eq, Structural, PartialOrd, Ord, Hash)]
pub struct U4(u8);

impl View for U4 {
    type V = u32;

    closed spec fn view(&self) -> u32 {
        self.0 as u32
    }
}

impl U4 {
    /// The largest number the type holds.
    pub open spec fn max() -> u32 {
        0xF
    }

    #[verifier::type_invariant]
    closed spec fn in_range(self) -> bool {
        self.0 <= 0xF
    }

    /// Wraps a number already known to fit.
    pub fn new(value: u8) -> (r: Self)
        requires
            value <= Self::max(),
        ensures
            r@ == value,
    {
        U4(value)
    }

    /// The checked narrowing: `None` exactly when `value` does not fit.
    pub fn try_new(value: u8) -> (r: Option<Self>)
        ensures
            value <= Self::max() <==> r is Some,
            r is Some ==> r->Some_0@ == value,
    {
        if value <= 0xF {
            Some(U4(value))
        } else {
            None
        }
    }

    /// Keeps the low 4 bits of `value` and drops the rest.
    pub fn truncate(value: u32) -> (r: Self)
        ensures
            r@ == value & Self::max(),
    {
        proof {
            crate::bit_ops::lemma_and_bound(value, 0xF);
        }
        U4((value & 0xF) as u8)
    }

    /// The held number, widened to its container.
    pub fn value(&self) -> (r: u8)
        ensures
            r == self@,
            r <= Self::max(),
    {
        proof {
            use_type_invariant(self);
        }
        self.0
    }

    /// The held number as a word-sized value.
    pub fn as_u32(&self) -> (r: u32)
        ensures
            r == self@,
            r <= Self::max(),
    {
        proof {
            use_type_invariant(self);
        }
        self.0 as u32
    }

    /// Two values with the same view are the same value.
    pub proof fn lemma_view_injective(a: Self, b: Self)
        ensures
            a@ == b@ <==> a == b,
    {
    }
}

/// An unsigned 7-bit integer.
#[allow(non_camel_case_types)]
#[derive(Clone, Copy, Debug, PartialEq, Eq, Structural, PartialOrd, Ord, Hash)]
pub struct U7(u8);

impl View for U7 {
    type V = u32;

    closed spec fn view(&self) -> u32 {
        self.0 as u32
    }
}

impl U7 {
    /// The largest number the type holds.
    pub open spec fn max() -> u32 {
        0x7F
    }

    #[verifier::type_invariant]
    closed spec fn in_range(self) -> bool {
        self.0 <= 0x7F
    }

    /// Wraps a number already known to fit.
    pub fn new(value: u8) -> (r: Self)
        requires
            value <= Self::max(),
        ensures
            r@ == value,
    {
        U7(value)
    }

    /// The checked narrowing: `None` exactly when `value` does not fit.
    pub fn try_new(value: u8) -> (r: Option<Self>)
        ensures
            value <= Self::max() <==> r is Some,
            r is Some ==> r->Some_0@ == value,
    {
        if value <= 0x7F {
            Some(U7(value))
        } else {
            None
        }
    }

    /// Keeps the low 7 bits of `value` and drops the rest.
    pub fn truncate(value: u32) -> (r: Self)
        ensures
            r@ == value & Self::max(),
    {
        proof {
            crate::bit_ops::lemma_and_bound(value, 0x7F);
        }
        U7((value & 0x7F) as u8)
    }

    /// The held number, widened to its container.
    pub fn value(&self) -> (r: u8)
        ensures
            r == self@,
            r <= Self::max(),
    {
        proof {
            use_type_invariant(self);
        }
        self.0
    }

    /// The held number as a word-sized value.
    pub fn as_u32(&self) -> (r: u32)
        ensures
            r == self@,
            r <= Self::max(),
    {
        proof {
            use_type_invariant(self);
        }
        self.0 as u32
    }

    /// Two values with the same view are the same value.
    pub proof fn lemma_view_injective(a: Self, b: Self)
        ensures
            a@ == b@ <==> a == b,
    {
    }
}

/// An unsigned 9-bit integer.
#[allow(non_camel_case_types)]
#[derive(Clone, Copy, Debug, PartialEq, Eq, Structural, PartialOrd, Ord, Hash)]
pub struct U9(u16);

impl View for U9 {
    type V = u32;

    closed spec fn view(&self) -> u32 {
        self.0 as u32
    }
}

impl U9 {
    /// The largest number the type holds.
    pub open spec fn max() -> u32 {
        0x1FF
    }

    #[verifier::type_invariant]
    closed spec fn in_range(self) -> bool {
        self.0 <= 0x1FF
    }

    /// Wraps a number already known to fit.
    pub fn new(value: u16) -> (r: Self)
        requires
            value <= Self::max(),
        ensures
            r@ == value,
    {
        U9(value)
    }

    /// The checked narrowing: `None` exactly when `value` does not fit.
    pub fn try_new(value: u16) -> (r: Option<Self>)
        ensures
            value <= Self::max() <==> r is Some,
            r is Some ==> r->Some_0@ == value,
    {
        if value <= 0x1FF {
            Some(U9(value))
        } else {
            None
        }
    }

    /// Keeps the low 9 bits of `value` and drops the rest.
    pub fn truncate(value: u32) -> (r: Self)
        ensures
            r@ == value & Self::max(),
    {
        proof {
            crate::bit_ops::lemma_and_bound(value, 0x1FF);
        }
        U9((value & 0x1FF) as u16)
    }

    /// The held number, widened to its container.
    pub fn value(&self) -> (r: u16)
        ensures
            r == self@,
            r <= Self::max(),
    {
        proof {
            use_type_invariant(self);
        }
        self.0
    }

    /// The held number as a word-sized value.
    pub fn as_u32(&self) -> (r: u32)
        ensures
            r == self@,
            r <= Self::max(),
    {
        proof {
            use_type_invariant(self);
        }
        self.0 as u32
    }

    /// Two values with the same view are the same value.
    pub proof fn lemma_view_injective(a: Self, b: Self)
        ensures
            a@ == b@ <==> a == b,
    {
    }
}

/// An unsigned 10-bit integer.
#[allow(non_camel_case_types)]
#[derive(Clone, Copy, Debug, PartialEq, Eq, Structural, PartialOrd, Ord, Hash)]
pub struct U10(u16);

impl View for U10 {
    type V = u32;

    closed spec fn view(&self) -> u32 {
        self.0 as u32
    }
}

impl U10 {
    /// The largest number the type holds.
    pub open spec fn max() -> u32 {
        0x3FF
    }

    #[verifier::type_invariant]
    closed spec fn in_range(self) -> bool {
        self.0 <= 0x3FF
    }

    /// Wraps a number already known to fit.
    pub fn new(value: u16) -> (r: Self)
        requires
            value <= Self::max(),
        ensures
            r@ == value,
    {
        U10(value)
    }

    /// The checked narrowing: `None` exactly when `value` does not fit.
    pub fn try_new(value: u16) -> (r: Option<Self>)
        ensures
            value <= Self::max() <==> r is Some,
            r is Some ==> r->Some_0@ == value,
    {
        if value <= 0x3FF {
            Some(U10(value))
        } else {
            None
        }
    }

    /// Keeps the low 10 bits of `value` and drops the rest.
    pub fn truncate(value: u32) -> (r: Self)
        ensures
            r@ == value & Self::max(),
    {
        proof {
            crate::bit_ops::lemma_and_bound(value, 0x3FF);
        }
        U10((value & 0x3FF) as u16)
    }

    /// The held number, widened to its container.
    pub fn value(&self) -> (r: u16)
        ensures
            r == self@,
            r <= Self::max(),
    {
        proof {
            use_type_invariant(self);
        }
        self.0
    }

    /// The held number as a word-sized value.
    pub fn as_u32(&self) -> (r: u32)
        ensures
            r == self@,
            r <= Self::max(),
    {
        proof {
            use_type_invariant(self);
        }
        self.0 as u32
    }

    /// Two values with the same view are the same value.
    pub proof fn lemma_view_injective(a: Self, b: Self)
        ensures
            a@ == b@ <==> a == b,
    {
    }
}

/// An unsigned 14-bit integer.
#[allow(non_camel_case_types)]
#[derive(Clone, Copy, Debug, PartialEq, Eq, Structural, PartialOrd, Ord, Hash)]
pub struct U14(u16);

impl View for U14 {
    type V = u32;

    closed spec fn view(&self) -> u32 {
        self.0 as u32
    }
}

impl U14 {
    /// The largest number the type holds.
    pub open spec fn max() -> u32 {
        0x3FFF
    }

    #[verifier::type_invariant]
    closed spec fn in_range(self) -> bool {
        self.0 <= 0x3FFF
    }

    /// Wraps a number already known to fit.
    pub fn new(value: u16) -> (r: Self)
        requires
            value <= Self::max(),
        ensures
            r@ == value,
    {
        U14(value)
    }

    /// The checked narrowing: `None` exactly when `value` does not fit.
    pub fn try_new(value: u16) -> (r: Option<Self>)
        ensures
            value <= Self::max() <==> r is Some,
            r is Some ==> r->Some_0@ == value,
    {
        if value <= 0x3FFF {
            Some(U14(value))
        } else {
            None
        }
    }

    /// Keeps the low 14 bits of `value` and drops the rest.
    pub fn truncate(value: u32) -> (r: Self)
        ensures
            r@ == value & Self::max(),
    {
        proof {
            crate::bit_ops::lemma_and_bound(value, 0x3FFF);
        }
        U14((value & 0x3FFF) as u16)
    }

    /// The held number, widened to its container.
    pub fn value(&self) -> (r: u16)
        ensures
            r == self@,
            r <= Self::max(),
    {
        proof {
            use_type_invariant(self);
        }
        self.0
    }

    /// The held number as a word-sized value.
    pub fn as_u32(&self) -> (r: u32)
        ensures
            r == self@,
            r <= Self::max(),
    {
        proof {
            use_type_invariant(self);
        }
        self.0 as u32
    }

    /// Two values with the same view are the same value.
    pub proof fn lemma_view_injective(a: Self, b: Self)
        ensures
            a@ == b@ <==> a == b,
    {
    }
}

/// An unsigned 20-bit integer.
#[allow(non_camel_case_types)]
#[derive(Clone, Copy, Debug, PartialEq, Eq, Structural, PartialOrd, Ord, Hash)]
pub struct U20(u32);

impl View for U20 {
    type V = u32;

    closed spec fn view(&self) -> u32 {
        self.0
    }
}

impl U20 {
    /// The largest number the type holds.
    pub open spec fn max() -> u32 {
        0xF_FFFF
    }

    #[verifier::type_invariant]
    closed spec fn in_range(self) -> bool {
        self.0 <= 0xF_FFFF
    }

    /// Wraps a number already known to fit.
    pub fn new(value: u32) -> (r: Self)
        requires
            value <= Self::max(),
        ensures
            r@ == value,
    {
        U20(value)
    }

    /// The checked narrowing: `None` exactly when `value` does not fit.
    pub fn try_new(value: u32) -> (r: Option<Self>)
        ensures
            value <= Self::max() <==> r is Some,
            r is Some ==> r->Some_0@ == value,
    {
        if value <= 0xF_FFFF {
            Some(U20(value))
        } else {
            None
        }
    }

    /// Keeps the low 20 bits of `value` and drops the rest.
    pub fn truncate(value: u32) -> (r: Self)
        ensures
            r@ == value & Self::max(),
    {
        proof {
            crate::bit_ops::lemma_and_bound(value, 0xF_FFFF);
        }
        U20(value & 0xF_FFFF)
    }

    /// The held number, widened to its container.
    pub fn value(&self) -> (r: u32)
        ensures
            r == self@,
            r <= Self::max(),
    {
        proof {
            use_type_invariant(self);
        }
        self.0
    }

    /// The held number as a word-sized value.
    pub fn as_u32(&self) -> (r: u32)
        ensures
            r == self@,
            r <= Self::max(),
    {
        proof {
            use_type_invariant(self);
        }
        self.0
    }

    /// Two values with the same view are the same value.
    pub proof fn lemma_view_injective(a: Self, b: Self)
        ensures
            a@ == b@ <==> a == b,
    {
    }
}

} // verus!
