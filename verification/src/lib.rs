//! A content-addressed store for small shared files.
//!
//! A client hands over a payload with a display name and a few
//! attributes; the store compresses it, derives a short base-62 code
//! from the payload's 64-bit content hash, and keeps the object in a
//! fixed-layout container under that code. Submitting byte-identical
//! content again yields the same code and merges the two objects'
//! headers instead of storing anything twice.

pub mod bits;
pub mod context;
pub mod filetype;
pub mod flags;
pub mod format;
pub mod store;
pub mod templates;
pub mod trusted;
pub mod upload;

use vstd::prelude::*;

verus! {

/// Everything that can go wrong inside the store.
///
/// Recoverable oddities (reserved flag bits, an unknown type tag, an
/// unresolved language, a name that is not UTF-8) never surface here:
/// they degrade to safe defaults during decoding.
#[derive(Debug, Clone, Copy, PartialEq, Eq, Structural)]
pub enum SfssError {
    /// The bytes at hand are not one of our containers: the magic check
    /// failed or the header ends early.
    Format,
    /// Compression or decompression was asked for from the wrong state.
    State,
    /// The address is occupied by a file that is not a container; it
    /// must not be overwritten.
    Integrity,
    /// No object is stored at the address.
    NotFound,
}

} // verus!
