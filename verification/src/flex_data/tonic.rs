//! The tonic of a key or chord: a nibble with eight defined values.

use vstd::prelude::*;
use crate::error::{ERR_TONIC, Error};
use crate::numeric_types::U4;
use crate::property::read_u4;
use crate::schema::{
    lemma_read_after_write, place, spec_read, spec_write, usable, write_field, Place, Schema, Unit,
};

verus! {

#[derive(Debug, Clone, Copy, PartialEq, Eq, Structural)]
pub enum Tonic {
    A,
    B,
    C,
    D,
    E,
    F,
    G,
    NonStandard,
}

impl Default for Tonic {
    /// The default tonic is C.
    fn default() -> (tonic: Self)
        ensures
            tonic == Tonic::C,
    {
        Tonic::C
    }
}

impl Tonic {
    /// The largest nibble that names a tonic.
    pub open spec fn limit() -> u32 {
        7
    }

    /// The nibble a tonic is written as.
    pub open spec fn nibble(self) -> u32 {
        match self {
            Tonic::NonStandard => 0x0,
            Tonic::A => 0x1,
            Tonic::B => 0x2,
            Tonic::C => 0x3,
            Tonic::D => 0x4,
            Tonic::E => 0x5,
            Tonic::F => 0x6,
            Tonic::G => 0x7,
        }
    }

    /// The tonic a nibble stands for, if any.
    pub open spec fn spec_from_nibble(nibble: u32) -> Result<Tonic, Error> {
        if nibble == 0x0 {
            Ok(Tonic::NonStandard)
        } else if nibble == 0x1 {
            Ok(Tonic::A)
        } else if nibble == 0x2 {
            Ok(Tonic::B)
        } else if nibble == 0x3 {
            Ok(Tonic::C)
        } else if nibble == 0x4 {
            Ok(Tonic::D)
        } else if nibble == 0x5 {
            Ok(Tonic::E)
        } else if nibble == 0x6 {
            Ok(Tonic::F)
        } else if nibble == 0x7 {
            Ok(Tonic::G)
        } else {
            Err(Error::InvalidData(ERR_TONIC))
        }
    }

    pub fn from_nibble(nibble: U4) -> (r: Result<Self, Error>)
        ensures
            r == Self::spec_from_nibble(nibble@),
    {
        match nibble.value() {
            0x0 => Ok(Tonic::NonStandard),
            0x1 => Ok(Tonic::A),
            0x2 => Ok(Tonic::B),
            0x3 => Ok(Tonic::C),
            0x4 => Ok(Tonic::D),
            0x5 => Ok(Tonic::E),
            0x6 => Ok(Tonic::F),
            0x7 => Ok(Tonic::G),
            _ => Err(Error::InvalidData(ERR_TONIC)),
        }
    }

    pub fn into_nibble(self) -> (nibble: U4)
        ensures
            nibble@ == self.nibble(),
    {
        U4::new(
            match self {
                Tonic::A => 0x1,
                Tonic::B => 0x2,
                Tonic::C => 0x3,
                Tonic::D => 0x4,
                Tonic::E => 0x5,
                Tonic::F => 0x6,
                Tonic::G => 0x7,
                Tonic::NonStandard => 0x0,
            },
        )
    }

    /// A nibble names a tonic exactly when it is at most seven, and the
    /// tonic it names is written back as that nibble.
    pub proof fn lemma_domain(nibble: u32)
        ensures
            Self::spec_from_nibble(nibble) is Ok <==> nibble <= Self::limit(),
            Self::spec_from_nibble(nibble) is Err ==> Self::spec_from_nibble(nibble) == Err::<
                Tonic,
                Error,
            >(Error::InvalidData(ERR_TONIC)),
            Self::spec_from_nibble(nibble) is Ok ==> Self::spec_from_nibble(nibble)->Ok_0.nibble()
                == nibble,
    {
    }

    /// Every tonic survives being written and read back.
    pub proof fn lemma_round_trip(tonic: Tonic)
        ensures
            tonic.nibble() <= Self::limit(),
            Self::spec_from_nibble(tonic.nibble()) == Ok::<Tonic, Error>(tonic),
    {
    }
}

/// The tonic as a property of a flex data message: where its nibble lives,
/// and validation, reading and writing at that place.
#[derive(Clone, Copy, Debug, PartialEq, Eq, Structural)]
pub struct TonicProperty(pub Schema);

impl TonicProperty {
    /// The tonic of a key signature or of a chord: the second nibble of the
    /// second word.
    pub open spec fn tonic() -> Schema {
        Schema::ump_only(1, 24, 4)
    }

    /// The tonic of the bass note of a chord: the second nibble of the
    /// fourth word.
    pub open spec fn bass_tonic() -> Schema {
        Schema::ump_only(3, 24, 4)
    }

    pub fn at_tonic() -> (property: Self)
        ensures
            property.0 == Self::tonic(),
    {
        TonicProperty(
            Schema {
                ump: Place { index: 1, shift: 24, width: 4 },
                bytes: Place { index: 0, shift: 0, width: 0 },
            },
        )
    }

    pub fn at_bass_tonic() -> (property: Self)
        ensures
            property.0 == Self::bass_tonic(),
    {
        TonicProperty(
            Schema {
                ump: Place { index: 3, shift: 24, width: 4 },
                bytes: Place { index: 0, shift: 0, width: 0 },
            },
        )
    }

    /// The property sits at a nibble of the unit sequence.
    pub open spec fn fits<U: Unit>(&self, len: nat) -> bool {
        usable::<U>(self.0, len) && place::<U>(self.0).width == 4
    }

    /// The verdict on the bits the property owns.
    pub open spec fn spec_validate<U: Unit>(&self, units: Seq<U>) -> Result<(), Error> {
        match Tonic::spec_from_nibble(spec_read(units, self.0)) {
            Ok(_) => Ok(()),
            Err(e) => Err(e),
        }
    }

    /// Looks at the property's own nibble and nothing else: `InvalidData`
    /// exactly when it names no tonic.
    pub fn validate<U: Unit>(&self, units: &[U]) -> (r: Result<(), Error>)
        requires
            self.fits::<U>(units@.len()),
        ensures
            r == self.spec_validate(units@),
    {
        match Tonic::from_nibble(read_u4(units, &self.0)) {
            Ok(_) => Ok(()),
            Err(e) => Err(e),
        }
    }

    /// Reads the tonic of validated units.
    pub fn read<U: Unit>(&self, units: &[U]) -> (tonic: Tonic)
        requires
            self.fits::<U>(units@.len()),
            self.spec_validate(units@) is Ok,
        ensures
            Tonic::spec_from_nibble(spec_read(units@, self.0)) == Ok::<Tonic, Error>(tonic),
    {
        match Tonic::from_nibble(read_u4(units, &self.0)) {
            Ok(tonic) => tonic,
            Err(_) => {
                proof {
                    assert(false);
                }
                Tonic::NonStandard
            },
        }
    }

    /// Every tonic can be written.
    pub fn validate_value(_value: &Tonic) -> (r: Result<(), Error>)
        ensures
            r is Ok,
    {
        Ok(())
    }

    /// The tonic a builder writes when none is set.
    pub fn default() -> (tonic: Tonic)
        ensures
            tonic == Tonic::C,
    {
        Tonic::C
    }

    /// Writes the tonic into its nibble and leaves every other bit alone.
    pub fn write<U: Unit>(&self, units: &mut [U], v: Tonic)
        requires
            self.fits::<U>(old(units)@.len()),
        ensures
            final(units)@ == spec_write(old(units)@, self.0, v.nibble()),
            self.spec_validate(final(units)@) is Ok,
            Tonic::spec_from_nibble(spec_read(final(units)@, self.0)) == Ok::<Tonic, Error>(v),
    {
        proof {
            crate::bit_ops::lemma_low_mask_bound(4);
            crate::bit_ops::lemma_mask_identity(v.nibble(), 4);
            lemma_read_after_write(units@, self.0, v.nibble());
        }
        write_field(units, &self.0, v.into_nibble().as_u32());
    }
}

} // verus!
