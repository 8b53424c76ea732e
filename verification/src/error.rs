//! Error taxonomy for the decoding pipeline.
//!
//! Callers can tell bad input (`UnknownFormat`, `CorruptMetadata`,
//! `UnpackFailure`, `CorruptThumb`) from resource exhaustion (`AllocError`)
//! and from internal defects (`LibError`).

use vstd::prelude::*;

verus! {

/// Allocation of a decoder-owned buffer failed.
#[derive(Clone, Copy, PartialEq, Eq, Structural, Debug)]
pub struct LibrawAllocError;

impl LibrawAllocError {
    /// Human-readable description of the error.
    pub fn message(&self) -> (r: &'static str)
        ensures
            r@ == seq_alloc_msg(),
    {
        proof {
            reveal_strlit("image data allocation failed");
        }
        "image data allocation failed"
    }
}

/// The decoder violated one of its own invariants: a defect, not bad input.
#[derive(Clone, Copy, PartialEq, Eq, Structural, Debug)]
pub struct LibrawLibraryError;

impl LibrawLibraryError {
    /// Human-readable description of the error.
    pub fn message(&self) -> (r: &'static str)
        ensures
            r@ == seq_lib_msg(),
    {
        proof {
            reveal_strlit("internal libraw library error");
        }
        "internal libraw library error"
    }
}

/// The message of `LibrawAllocError`, as a character sequence.
pub open spec fn seq_alloc_msg() -> Seq<char> {
    "image data allocation failed"@
}

/// The message of `LibrawLibraryError`, as a character sequence.
pub open spec fn seq_lib_msg() -> Seq<char> {
    "internal libraw library error"@
}

/// Every way a decode can fail, one variant per cause so callers can
/// distinguish unsupported input from corrupt input from internal defects.
#[derive(Clone, Copy, PartialEq, Eq, Structural, Debug)]
pub enum LibrawError {
    /// No format handler matches the file's magic signature.
    UnknownFormat,
    /// A required metadata tag is missing or malformed.
    CorruptMetadata,
    /// The sensor bytes do not decode under the format's packing rules.
    UnpackFailure,
    /// A thumbnail directory entry points outside the file.
    CorruptThumb,
    /// A decoder-owned buffer could not be allocated.
    AllocError(LibrawAllocError),
    /// An internal invariant was violated.
    LibError(LibrawLibraryError),
}

} // verus!
