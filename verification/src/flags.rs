//! The three per-object attributes and their one-byte encoding.
//!
//! `public` sits in the most significant bit, `protected` in the next,
//! `no_preview` in the third. The remaining five bits are written as zero
//! and ignored when reading, so that bytes written by a later format
//! revision still decode to the three attributes.

use crate::bits::{bools_to_u8, flag_bit, spec_bools_to_u8, u8_to_bools};
use vstd::prelude::*;

verus! {

/// The three independent attributes of a stored object.
#[derive(Debug, Clone, Copy, PartialEq, Eq, Structural)]
pub struct FileFlags {
    pub public: bool,
    pub protected: bool,
    pub no_preview: bool,
}

impl Default for FileFlags {
    /// A fresh object is public, unprotected, and previewable.
    fn default() -> (r: Self)
        ensures
            r == (FileFlags { public: true, protected: false, no_preview: false }),
    {
        FileFlags { public: true, protected: false, no_preview: false }
    }
}

/// The byte that encodes the flags: `public` in bit 7, `protected` in
/// bit 6, `no_preview` in bit 5, the rest zero.
pub open spec fn spec_flags_byte(f: FileFlags) -> u8 {
    spec_bools_to_u8(
        seq![f.public, f.protected, f.no_preview, false, false, false, false, false],
    )
}

/// The flags read from a byte: the top three bits, whatever the reserved
/// five hold.
pub open spec fn spec_flags_of_byte(byte: u8) -> FileFlags {
    FileFlags {
        public: flag_bit(byte, 0),
        protected: flag_bit(byte, 1),
        no_preview: flag_bit(byte, 2),
    }
}

impl FileFlags {
    /// Reads the flags from the first booleans handed over; missing
    /// positions default to false.
    pub fn from_iter(bools: &[bool]) -> (r: Self)
        ensures
            r.public == (bools@.len() > 0 && bools@[0]),
            r.protected == (bools@.len() > 1 && bools@[1]),
            r.no_preview == (bools@.len() > 2 && bools@[2]),
    {
        FileFlags {
            public: bools.len() > 0 && bools[0],
            protected: bools.len() > 1 && bools[1],
            no_preview: bools.len() > 2 && bools[2],
        }
    }

    /// Encodes the flags into their byte.
    pub fn to_byte(&self) -> (r: u8)
        ensures
            r == spec_flags_byte(*self),
    {
        bools_to_u8(
            [self.public, self.protected, self.no_preview, false, false, false, false, false],
        )
    }

    /// Decodes the flags from a byte, ignoring the reserved bits.
    pub fn from_byte(byte: u8) -> (r: Self)
        ensures
            r == spec_flags_of_byte(byte),
    {
        let bools = u8_to_bools(byte);
        FileFlags::from_iter(&bools)
    }
}

/// Law: encoding three flags and decoding the byte gives the flags back,
/// whatever their eight combinations; and decoding ignores the reserved
/// bits, so any two bytes that agree on the top three bits decode alike.
pub proof fn lemma_flags_byte_round_trip(f: FileFlags, noise: u8)
    requires
        noise & 0xe0 == 0,
    ensures
        spec_flags_of_byte(spec_flags_byte(f)) == f,
        spec_flags_of_byte(spec_flags_byte(f) | noise) == f,
{
    crate::bits::lemma_bools_byte_round_trip(
        seq![f.public, f.protected, f.no_preview, false, false, false, false, false],
    );
    assert(crate::bits::spec_u8_to_bools(spec_flags_byte(f))[0] == f.public);
    assert(crate::bits::spec_u8_to_bools(spec_flags_byte(f))[1] == f.protected);
    assert(crate::bits::spec_u8_to_bools(spec_flags_byte(f))[2] == f.no_preview);
    let v = spec_flags_byte(f);
    assert(((v | noise) >> 7u8) & 1 == (v >> 7u8) & 1 && ((v | noise) >> 6u8) & 1 == (v >> 6u8) & 1
        && ((v | noise) >> 5u8) & 1 == (v >> 5u8) & 1) by (bit_vector)
        requires
            noise & 0xe0 == 0,
    ;
}

} // verus!
