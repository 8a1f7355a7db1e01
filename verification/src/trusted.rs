//! The few places where the library leans on outside crates.
//!
//! Each function here is believed, not proved: its body makes one call
//! into an outside crate (or into a part of std that vstd leaves
//! unspecified) and its contract states what that call's source shows.
//! Results that would take pages to state — the compressed stream, the
//! hash value, the base-62 digits — are only given names, and everything
//! the library proves about them goes through those names.

use vstd::prelude::*;
use vstd::utf8::{decode_utf8, valid_utf8};

verus! {

/// The zlib stream that the encoder produces from the given bytes at the
/// speed-optimized level.
pub uninterp spec fn deflate_of(data: Seq<u8>) -> Seq<u8>;

/// What the zlib decoder makes of the given bytes: the decompressed
/// payload, or nothing when the bytes are not a well-formed stream.
pub uninterp spec fn inflate_of(data: Seq<u8>) -> Option<Seq<u8>>;

/// The 64-bit XXH3 hash of the given bytes.
pub uninterp spec fn xxh3_64_of(data: Seq<u8>) -> u64;

/// The base-62 rendering of the given bytes.
pub uninterp spec fn base62_of(data: Seq<u8>) -> Seq<char>;

/// Relies on flate2::write::ZlibEncoder at Compression::fast(): the pure
/// rust backend compresses deterministically, and zlib compression is
/// lossless, so the decoder gives the input back. Writing into a
/// Vec-backed encoder cannot fail.
#[verifier::external_body]
pub(crate) fn zlib_compress(data: &Vec<u8>) -> (r: Vec<u8>)
    ensures
        r@ == deflate_of(data@),
        inflate_of(r@) == Some(data@),
{
    let mut e = flate2::write::ZlibEncoder::new(Vec::new(), flate2::Compression::fast());
    std::io::Write::write_all(&mut e, data).unwrap();
    e.finish().unwrap()
}

/// Relies on flate2::read::ZlibDecoder: decoding is a deterministic
/// function of the bytes, succeeding on what the encoder produces and
/// failing on corrupt streams.
#[verifier::external_body]
pub(crate) fn zlib_decompress(data: &Vec<u8>) -> (r: Option<Vec<u8>>)
    ensures
        r is Some <==> inflate_of(data@) is Some,
        r matches Some(v) ==> inflate_of(data@) == Some(v@),
{
    let mut d = flate2::read::ZlibDecoder::new(data.as_slice());
    let mut out = Vec::new();
    match std::io::Read::read_to_end(&mut d, &mut out) {
        Ok(_) => Some(out),
        Err(_) => None,
    }
}

/// Relies on xxhash_rust::xxh3::xxh3_64: the unseeded 64-bit XXH3 value
/// is a pure function of the bytes.
#[verifier::external_body]
pub(crate) fn xxh3_64(data: &Vec<u8>) -> (r: u64)
    ensures
        r == xxh3_64_of(data@),
{
    xxhash_rust::xxh3::xxh3_64(data)
}

/// Relies on base_62::encode: the digits are a pure function of the
/// bytes, drawn from the 62 ASCII alphanumerics, and a non-empty input
/// always yields at least one digit.
#[verifier::external_body]
pub(crate) fn base62_encode(data: &Vec<u8>) -> (r: String)
    ensures
        r@ == base62_of(data@),
        data@.len() > 0 ==> r@.len() > 0,
{
    base_62::encode(data)
}

/// A character the secret generator can produce: an ASCII letter or
/// digit. Such a character is one byte of UTF-8 and never a zero byte.
pub open spec fn is_secret_char(c: char) -> bool {
    ('0' <= c <= '9') || ('a' <= c <= 'z') || ('A' <= c <= 'Z')
}

/// Relies on passwords::PasswordGenerator::generate_one: built with its
/// defaults (length 8, digits and lowercase on) plus uppercase, the
/// generator cannot fail and every character it draws is an ASCII letter
/// or digit.
#[verifier::external_body]
pub(crate) fn generate_secret() -> (r: String)
    ensures
        r@.len() == 8,
        forall|i: int| 0 <= i < 8 ==> is_secret_char(#[trigger] r@[i]),
{
    passwords::PasswordGenerator::new().uppercase_letters(true).generate_one().unwrap()
}

/// Relies on String::from_utf8 of std: it succeeds exactly on a valid
/// UTF-8 encoding and decodes it.
#[verifier::external_body]
pub(crate) fn string_from_utf8(bytes: Vec<u8>) -> (r: Option<String>)
    ensures
        r is Some <==> valid_utf8(bytes@),
        r matches Some(s) ==> s@ == decode_utf8(bytes@),
{
    String::from_utf8(bytes).ok()
}

} // verus!
