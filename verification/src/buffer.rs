//! The storage behind a message: borrowed slices, fixed-size arrays and
//! growable vectors, each holding a whole number of wire units.

use vstd::prelude::*;
use crate::error::Error;
use crate::schema::Unit;

verus! {

/// `count` units with no bit set.
pub open spec fn zeros<U: Unit>(count: nat) -> Seq<U> {
    Seq::new(count, |i: int| U::from_bits(0))
}

/// Read access to a sequence of wire units.
pub trait Buffer {
    type Unit: Unit;

    /// The units the buffer holds, in order.
    spec fn units(&self) -> Seq<Self::Unit>;

    fn as_slice(&self) -> (slice: &[Self::Unit])
        ensures
            slice@ == self.units(),
    ;
}

/// A buffer that owns its units and can be written to.
pub trait BufferMut: Buffer + Sized {
    /// The number of units a buffer of this type is fixed at, or `None` for
    /// a buffer that grows on demand.
    spec fn capacity() -> Option<nat>;

    /// A buffer of fixed capacity always holds exactly that many units.
    proof fn lemma_capacity(&self)
        ensures
            Self::capacity() is Some ==> self.units().len() == Self::capacity()->Some_0,
    ;

    fn as_mut_slice(&mut self) -> (slice: &mut [Self::Unit])
        ensures
            slice@ == old(self).units(),
            final(slice)@ == final(self).units(),
    ;

    /// Makes sure the buffer holds at least `minimum` units. A growable
    /// buffer is extended with zero units; a fixed one fails if it is too
    /// small. Units already present are never changed.
    fn required_capacity(&mut self, minimum: usize) -> (r: Result<(), Error>)
        ensures
            r is Err <==> (Self::capacity() is Some && minimum > Self::capacity()->Some_0),
            r is Err ==> r == Err::<(), Error>(Error::BufferOverflow) && final(self).units() == old(
                self,
            ).units(),
            r is Ok ==> final(self).units().len() >= minimum && final(self).units() == old(
                self,
            ).units() + zeros::<Self::Unit>(
                (final(self).units().len() - old(self).units().len()) as nat,
            ),
            r is Ok && old(self).units().len() >= minimum ==> final(self).units() == old(
                self,
            ).units(),
            r is Ok && old(self).units().len() < minimum ==> final(self).units().len() == minimum,
    ;

    /// A fresh buffer: empty if growable, otherwise filled with zero units.
    fn default() -> (buffer: Self)
        ensures
            buffer.units() == zeros::<Self::Unit>(
                match Self::capacity() {
                    Some(n) => n,
                    None => 0,
                },
            ),
    ;
}

impl<'a, U: Unit> Buffer for &'a [U] {
    type Unit = U;

    open spec fn units(&self) -> Seq<U> {
        self@
    }

    fn as_slice(&self) -> (slice: &[U]) {
        *self
    }
}

impl<U: Unit, const N: usize> Buffer for [U; N] {
    type Unit = U;

    open spec fn units(&self) -> Seq<U> {
        self@
    }

    fn as_slice(&self) -> (slice: &[U]) {
        self.as_slice()
    }
}

impl<U: Unit> Buffer for Vec<U> {
    type Unit = U;

    open spec fn units(&self) -> Seq<U> {
        self@
    }

    fn as_slice(&self) -> (slice: &[U]) {
        self.as_slice()
    }
}

/// The words of a message that is either a view of borrowed words or the
/// owner of a packet of its own.
#[derive(Clone, Copy, Debug, PartialEq, Eq)]
pub enum MessageData<'a> {
    Borrowed(&'a [u32]),
    Owned([u32; 4]),
}

impl<'a> Buffer for MessageData<'a> {
    type Unit = u32;

    open spec fn units(&self) -> Seq<u32> {
        match self {
            MessageData::Borrowed(words) => words@,
            MessageData::Owned(words) => words@,
        }
    }

    fn as_slice(&self) -> (slice: &[u32]) {
        match self {
            MessageData::Borrowed(words) => words,
            MessageData::Owned(words) => words.as_slice(),
        }
    }
}

impl<U: Unit, const N: usize> BufferMut for [U; N] {
    open spec fn capacity() -> Option<nat> {
        Some(N as nat)
    }

    proof fn lemma_capacity(&self) {
    }

    fn as_mut_slice(&mut self) -> (slice: &mut [U]) {
        self
    }

    fn required_capacity(&mut self, minimum: usize) -> (r: Result<(), Error>) {
        if minimum > N {
            Err(Error::BufferOverflow)
        } else {
            assert(self@ + zeros::<U>(0) =~= self@);
            Ok(())
        }
    }

    fn default() -> (buffer: Self) {
        let buffer: [U; N] = [U::of_bits(0); N];
        assert(buffer@ =~= zeros::<U>(N as nat));
        buffer
    }
}

impl<U: Unit> BufferMut for Vec<U> {
    open spec fn capacity() -> Option<nat> {
        None
    }

    proof fn lemma_capacity(&self) {
    }

    fn as_mut_slice(&mut self) -> (slice: &mut [U]) {
        self.as_mut_slice()
    }

    fn required_capacity(&mut self, minimum: usize) -> (r: Result<(), Error>) {
        let ghost before = self@;
        while self.len() < minimum
            invariant
                before.len() <= self@.len(),
                self@.len() <= minimum || self@ == before,
                self@ == before + zeros::<U>((self@.len() - before.len()) as nat),
            decreases minimum - self@.len(),
        {
            let ghost prior = self@;
            self.push(U::of_bits(0));
            assert(self@ =~= before + zeros::<U>((self@.len() - before.len()) as nat)) by {
                assert(prior == before + zeros::<U>((prior.len() - before.len()) as nat));
            }
        }
        Ok(())
    }

    fn default() -> (buffer: Self) {
        let buffer: Vec<U> = Vec::new();
        assert(buffer@ =~= zeros::<U>(0));
        buffer
    }
}

} // verus!
