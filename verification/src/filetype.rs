//! The four-byte tag that records what kind of content an object holds.
//!
//! Byte 0 is the discriminator: 0 for plain text, 1 for binary, 2 for
//! syntax-highlighted code. A binary tag keeps previewability in byte 3;
//! a code tag keeps a 24-bit little-endian language identifier in bytes
//! 1 to 3. Every unknown discriminator reads back as plain text, so a
//! tag written by a later format revision never stops decoding.

use vstd::prelude::*;

verus! {

/// Whether a binary object may be shown inline.
#[derive(Debug, Clone, Copy, PartialEq, Eq, Structural)]
pub enum BinaryType {
    Previewable,
    NonPreviewable,
}

/// The kind of content an object holds. A code object carries the
/// identifier of its language in the external highlighting table; the
/// codec does not check that the table knows the identifier, resolution
/// failure is the collaborator's to absorb.
#[derive(Debug, Clone, Copy, PartialEq, Eq, Structural)]
pub enum FileType {
    Text,
    Binary(BinaryType),
    Code(u32),
}

impl Default for FileType {
    fn default() -> (r: Self)
        ensures
            r == FileType::Text,
    {
        FileType::Text
    }
}

/// A language identifier must fit the 24 bits the tag gives it.
pub open spec fn spec_type_wf(t: FileType) -> bool {
    match t {
        FileType::Code(id) => id < 0x1000000,
        _ => true,
    }
}

/// The 24-bit little-endian bytes of an identifier.
pub open spec fn spec_u24_le_bytes(id: u32) -> Seq<u8>
    recommends
        id < 0x1000000,
{
    seq![(id % 256) as u8, ((id / 256) % 256) as u8, ((id / 65536) % 256) as u8]
}

/// The identifier read from three little-endian bytes.
pub open spec fn spec_u24_from_le_bytes(b0: u8, b1: u8, b2: u8) -> u32 {
    (b0 + 256 * b1 + 65536 * b2) as u32
}

/// The four tag bytes of a content kind.
pub open spec fn spec_type_bytes(t: FileType) -> Seq<u8>
    recommends
        spec_type_wf(t),
{
    match t {
        FileType::Text => seq![0u8, 0u8, 0u8, 0u8],
        FileType::Binary(BinaryType::Previewable) => seq![1u8, 0u8, 0u8, 0u8],
        FileType::Binary(BinaryType::NonPreviewable) => seq![1u8, 0u8, 0u8, 1u8],
        FileType::Code(id) => seq![2u8] + spec_u24_le_bytes(id),
    }
}

/// The content kind read from four tag bytes. Discriminator 2 is code,
/// 1 is binary with previewability in byte 3, and everything else,
/// known or not, is plain text.
pub open spec fn spec_type_of_bytes(b: Seq<u8>) -> FileType
    recommends
        b.len() == 4,
{
    if b[0] == 2 {
        FileType::Code(spec_u24_from_le_bytes(b[1], b[2], b[3]))
    } else if b[0] == 1 {
        if b[3] == 0 {
            FileType::Binary(BinaryType::Previewable)
        } else {
            FileType::Binary(BinaryType::NonPreviewable)
        }
    } else {
        FileType::Text
    }
}

impl FileType {
    /// Encodes the kind into its four tag bytes.
    pub fn as_bytes(&self) -> (r: [u8; 4])
        requires
            spec_type_wf(*self),
        ensures
            r@ =~= spec_type_bytes(*self),
    {
        match self {
            FileType::Text => [0, 0, 0, 0],
            FileType::Binary(BinaryType::Previewable) => [1, 0, 0, 0],
            FileType::Binary(BinaryType::NonPreviewable) => [1, 0, 0, 1],
            FileType::Code(id) => [
                2,
                (id % 256) as u8,
                ((id / 256) % 256) as u8,
                ((id / 65536) % 256) as u8,
            ],
        }
    }

    /// Decodes a kind from four tag bytes; never fails.
    pub fn from_bytes(b: [u8; 4]) -> (r: Self)
        ensures
            r == spec_type_of_bytes(b@),
            spec_type_wf(r),
    {
        if b[0] == 2 {
            FileType::Code(b[1] as u32 + 256 * (b[2] as u32) + 65536 * (b[3] as u32))
        } else if b[0] == 1 {
            if b[3] == 0 {
                FileType::Binary(BinaryType::Previewable)
            } else {
                FileType::Binary(BinaryType::NonPreviewable)
            }
        } else {
            FileType::Text
        }
    }
}

/// Law: encoding a well-formed kind and decoding the four bytes gives the
/// kind back.
pub proof fn lemma_type_bytes_round_trip(t: FileType)
    requires
        spec_type_wf(t),
    ensures
        spec_type_of_bytes(spec_type_bytes(t)) == t,
{
    match t {
        FileType::Code(id) => {
            assert(spec_u24_from_le_bytes(
                (id % 256) as u8,
                ((id / 256) % 256) as u8,
                ((id / 65536) % 256) as u8,
            ) == id) by {
                assert(id % 256 + 256 * ((id / 256) % 256) + 65536 * ((id / 65536) % 256) == id)
                    by (nonlinear_arith)
                    requires
                        id < 0x1000000u32,
                ;
            }
        },
        _ => {},
    }
}

} // verus!
