//! A borrowed view of an assignable controller packet, and its in-place
//! builder.

use vstd::prelude::*;
use crate::bit_ops::lemma_low_mask_bound;
use crate::buffer::zeros;
use crate::channel_voice2::UMP_MESSAGE_TYPE;
use crate::channel_voice2::assignable_controller::{
    bank, bank_schema, controller_data, controller_data_schema, index, index_schema,
    lemma_field_written, lemma_new_is_valid, lemma_same_front, spec_new, spec_validate, validate,
};
use crate::channel_voice2::assignable_controller::STATUS;
use crate::common_properties::{
    channel, channel_schema, channel_voice_status_schema, group, group_schema, ump_type_schema,
};
use crate::error::Error;
use crate::numeric_types::{U4, U7};
use crate::property::{read_u4, read_u7};
use crate::schema::{read_field, spec_read, spec_write, write_field};

verus! {

/// The number of words the message occupies.
pub const SIZE: usize = 2;

/// An assignable controller packet in a borrowed word slice.
#[derive(Clone, Debug, PartialEq, Eq)]
pub struct AssignableControllerMessage<'a>(pub &'a [u32]);

impl<'a> AssignableControllerMessage<'a> {
    /// The slice holds a message of this kind.
    pub open spec fn wf(&self) -> bool {
        spec_validate::<u32>(self.0@) is Ok
    }

    /// Starts a message in the caller's buffer.
    pub fn builder(buffer: &'a mut [u32]) -> (builder: AssignableControllerBuilder<'a>)
        ensures
            builder.state() == AssignableControllerBuilder::initial_state(old(buffer)@),
            builder.wf(),
            builder.0 is Ok ==> final(buffer)@ == final(builder.0->Ok_0)@,
            builder.0 is Err ==> final(buffer)@ == old(buffer)@,
    {
        AssignableControllerBuilder::new(buffer)
    }

    pub fn group(&self) -> (value: U4)
        requires
            self.wf(),
        ensures
            value@ == spec_read(self.0@, group()),
    {
        read_u4(self.0, &group_schema())
    }

    pub fn channel(&self) -> (value: U4)
        requires
            self.wf(),
        ensures
            value@ == spec_read(self.0@, channel()),
    {
        read_u4(self.0, &channel_schema())
    }

    pub fn bank(&self) -> (value: U7)
        requires
            self.wf(),
        ensures
            value@ == spec_read(self.0@, bank()),
    {
        read_u7(self.0, &bank_schema())
    }

    pub fn index(&self) -> (value: U7)
        requires
            self.wf(),
        ensures
            value@ == spec_read(self.0@, index()),
    {
        read_u7(self.0, &index_schema())
    }

    pub fn controller_data(&self) -> (value: u32)
        requires
            self.wf(),
        ensures
            value == spec_read(self.0@, controller_data()),
    {
        read_field(self.0, &controller_data_schema())
    }

    /// The words the view was made over.
    pub fn data(&self) -> (data: &'a [u32])
        ensures
            data@ == self.0@,
    {
        self.0
    }

    /// Parses a slice: the view over it if it validates, else the first
    /// rule that fails.
    pub fn from_data(data: &'a [u32]) -> (r: Result<Self, Error>)
        ensures
            match spec_validate::<u32>(data@) {
                Ok(()) => r == Ok::<Self, Error>(AssignableControllerMessage(data)),
                Err(e) => r == Err::<Self, Error>(e),
            },
    {
        match validate(data) {
            Ok(()) => Ok(AssignableControllerMessage(data)),
            Err(e) => Err(e),
        }
    }
}

/// A message under construction in a caller-owned buffer, or the error
/// that stopped its construction. Once an error is held every setter
/// leaves the builder as it is, and `build` reports that error.
#[derive(PartialEq, Eq)]
pub struct AssignableControllerBuilder<'a>(pub Result<&'a mut [u32], Error>);

impl<'a> AssignableControllerBuilder<'a> {
    /// The words written so far, or the error held.
    pub open spec fn state(&self) -> Result<Seq<u32>, Error> {
        match self.0 {
            Ok(buffer) => Ok(buffer@),
            Err(e) => Err(e),
        }
    }

    /// Whatever is under construction is a valid message.
    pub open spec fn wf(&self) -> bool {
        self.state() is Ok ==> spec_validate::<u32>(self.state()->Ok_0) is Ok
    }

    /// The state of a builder just made over a buffer: `BufferOverflow`
    /// if the buffer is shorter than the message, else a fresh message
    /// followed by the rest of the buffer, untouched.
    pub open spec fn initial_state(units: Seq<u32>) -> Result<Seq<u32>, Error> {
        if units.len() < SIZE {
            Err(Error::BufferOverflow)
        } else {
            Ok(spec_new::<u32>(SIZE as nat) + units.subrange(SIZE as int, units.len() as int))
        }
    }

    pub fn new(buffer: &'a mut [u32]) -> (builder: Self)
        ensures
            builder.state() == Self::initial_state(old(buffer)@),
            builder.wf(),
            builder.0 is Ok ==> final(buffer)@ == final(builder.0->Ok_0)@,
            builder.0 is Err ==> final(buffer)@ == old(buffer)@,
    {
        if buffer.len() < SIZE {
            AssignableControllerBuilder(Err(Error::BufferOverflow))
        } else {
            let mut i: usize = 0;
            while i < SIZE
                invariant
                    i <= SIZE,
                    buffer@.len() == old(buffer)@.len(),
                    SIZE <= buffer@.len(),
                    forall|j: int| 0 <= j < i ==> buffer@[j] == 0u32,
                    forall|j: int| SIZE <= j < buffer@.len() ==> buffer@[j] == old(buffer)@[j],
                decreases SIZE - i,
            {
                buffer[i] = 0;
                i += 1;
            }
            let ghost rest = old(buffer)@.subrange(SIZE as int, old(buffer)@.len() as int);
            proof {
                assert(buffer@ =~= zeros::<u32>(SIZE as nat) + rest);
            }
            write_field(buffer, &ump_type_schema(), UMP_MESSAGE_TYPE as u32);
            write_field(buffer, &channel_voice_status_schema(), STATUS as u32);
            proof {
                lemma_new_is_valid::<u32>(SIZE as nat);
                assert(buffer@ =~= spec_new::<u32>(SIZE as nat) + rest);
                assert(buffer@.subrange(0, SIZE as int) =~= spec_new::<u32>(SIZE as nat).subrange(
                    0,
                    SIZE as int,
                ));
                lemma_same_front::<u32>(spec_new::<u32>(SIZE as nat), buffer@);
            }
            AssignableControllerBuilder(Ok(buffer))
        }
    }

    pub fn group(&mut self, v: U4) -> (ret: &mut Self)
        requires
            old(self).wf(),
        ensures
            match old(self).state() {
                Ok(units) => ret.state() == Ok::<Seq<u32>, Error>(
                    spec_write(units, group(), v@),
                ),
                Err(e) => ret.state() == Err::<Seq<u32>, Error>(e),
            },
            ret.wf(),
            old(self).0 is Ok ==> ret.0 is Ok && final(ret.0->Ok_0)@ == final(
                old(self).0->Ok_0
            )@,
            *final(self) == *final(ret),
    {
        let raw: u32 = v.as_u32();
        match &mut self.0 {
            Ok(buffer) => {
                proof {
                    lemma_low_mask_bound(4);
                    lemma_field_written::<u32>(buffer@, group(), raw);
                }
                write_field(buffer, &group_schema(), raw);
            },
            Err(_) => {},
        }
        self
    }

    pub fn channel(&mut self, v: U4) -> (ret: &mut Self)
        requires
            old(self).wf(),
        ensures
            match old(self).state() {
                Ok(units) => ret.state() == Ok::<Seq<u32>, Error>(
                    spec_write(units, channel(), v@),
                ),
                Err(e) => ret.state() == Err::<Seq<u32>, Error>(e),
            },
            ret.wf(),
            old(self).0 is Ok ==> ret.0 is Ok && final(ret.0->Ok_0)@ == final(
                old(self).0->Ok_0
            )@,
            *final(self) == *final(ret),
    {
        let raw: u32 = v.as_u32();
        match &mut self.0 {
            Ok(buffer) => {
                proof {
                    lemma_low_mask_bound(4);
                    lemma_field_written::<u32>(buffer@, channel(), raw);
                }
                write_field(buffer, &channel_schema(), raw);
            },
            Err(_) => {},
        }
        self
    }

    pub fn bank(&mut self, v: U7) -> (ret: &mut Self)
        requires
            old(self).wf(),
        ensures
            match old(self).state() {
                Ok(units) => ret.state() == Ok::<Seq<u32>, Error>(
                    spec_write(units, bank(), v@),
                ),
                Err(e) => ret.state() == Err::<Seq<u32>, Error>(e),
            },
            ret.wf(),
            old(self).0 is Ok ==> ret.0 is Ok && final(ret.0->Ok_0)@ == final(
                old(self).0->Ok_0
            )@,
            *final(self) == *final(ret),
    {
        let raw: u32 = v.as_u32();
        match &mut self.0 {
            Ok(buffer) => {
                proof {
                    lemma_low_mask_bound(7);
                    lemma_field_written::<u32>(buffer@, bank(), raw);
                }
                write_field(buffer, &bank_schema(), raw);
            },
            Err(_) => {},
        }
        self
    }

    pub fn index(&mut self, v: U7) -> (ret: &mut Self)
        requires
            old(self).wf(),
        ensures
            match old(self).state() {
                Ok(units) => ret.state() == Ok::<Seq<u32>, Error>(
                    spec_write(units, index(), v@),
                ),
                Err(e) => ret.state() == Err::<Seq<u32>, Error>(e),
            },
            ret.wf(),
            old(self).0 is Ok ==> ret.0 is Ok && final(ret.0->Ok_0)@ == final(
                old(self).0->Ok_0
            )@,
            *final(self) == *final(ret),
    {
        let raw: u32 = v.as_u32();
        match &mut self.0 {
            Ok(buffer) => {
                proof {
                    lemma_low_mask_bound(7);
                    lemma_field_written::<u32>(buffer@, index(), raw);
                }
                write_field(buffer, &index_schema(), raw);
            },
            Err(_) => {},
        }
        self
    }

    pub fn controller_data(&mut self, v: u32) -> (ret: &mut Self)
        requires
            old(self).wf(),
        ensures
            match old(self).state() {
                Ok(units) => ret.state() == Ok::<Seq<u32>, Error>(
                    spec_write(units, controller_data(), v),
                ),
                Err(e) => ret.state() == Err::<Seq<u32>, Error>(e),
            },
            ret.wf(),
            old(self).0 is Ok ==> ret.0 is Ok && final(ret.0->Ok_0)@ == final(
                old(self).0->Ok_0
            )@,
            *final(self) == *final(ret),
    {
        let raw: u32 = v;
        match &mut self.0 {
            Ok(buffer) => {
                proof {
                    lemma_low_mask_bound(32);
                    lemma_field_written::<u32>(buffer@, controller_data(), raw);
                }
                write_field(buffer, &controller_data_schema(), raw);
            },
            Err(_) => {},
        }
        self
    }

    /// The finished message, or the error that stopped its construction.
    pub fn build(&'a self) -> (r: Result<AssignableControllerMessage<'a>, Error>)
        requires
            self.wf(),
        ensures
            match self.state() {
                Ok(units) => r is Ok && r->Ok_0.0@ == units && r->Ok_0.wf(),
                Err(e) => r == Err::<AssignableControllerMessage<'a>, Error>(e),
            },
    {
        match &self.0 {
            Ok(buffer) => Ok(AssignableControllerMessage(buffer)),
            Err(e) => Err(*e),
        }
    }
}

} // verus!
