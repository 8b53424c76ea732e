//! Format identification from the file's magic signature.
//!
//! The identifier inspects only a fixed-size probe region at the start
//! of the file — the four-byte byte-order marker and version — and
//! selects a handler, or rejects the file as `UnknownFormat` before any
//! sensor buffer is allocated.

use vstd::prelude::*;
use crate::error::LibrawError;

verus! {

/// Number of bytes of the probe region `identify` inspects.
pub const PROBE_LEN: usize = 4;

/// A format handler: the container family plus the byte order its
/// multi-byte fields use.
#[derive(Clone, Copy, PartialEq, Eq, Structural, Debug)]
pub enum FormatHandle {
    /// Tag-directory container, little-endian fields.
    TiffLittleEndian,
    /// Tag-directory container, big-endian fields.
    TiffBigEndian,
}

impl FormatHandle {
    /// Whether multi-byte fields of this format are big-endian.
    pub fn is_big_endian(&self) -> (r: bool)
        ensures
            r == self.spec_big_endian(),
    {
        match self {
            FormatHandle::TiffLittleEndian => false,
            FormatHandle::TiffBigEndian => true,
        }
    }

    /// Byte order of the format's multi-byte fields.
    pub open spec fn spec_big_endian(&self) -> bool {
        match self {
            FormatHandle::TiffLittleEndian => false,
            FormatHandle::TiffBigEndian => true,
        }
    }
}

/// The handler selected for a buffer: a function of the first
/// `PROBE_LEN` bytes alone. `None` means no handler matches.
pub open spec fn spec_identify(b: Seq<u8>) -> Option<FormatHandle> {
    if b.len() >= 4 {
        if b[0] == 0x49 && b[1] == 0x49 && b[2] == 0x2a && b[3] == 0x00 {
            Some(FormatHandle::TiffLittleEndian)
        } else if b[0] == 0x4d && b[1] == 0x4d && b[2] == 0x00 && b[3] == 0x2a {
            Some(FormatHandle::TiffBigEndian)
        } else {
            None
        }
    } else {
        None
    }
}

/// Select the format handler for `data` from its magic signature, or
/// fail with `UnknownFormat` when no signature matches. Reads nothing
/// beyond the probe region and allocates nothing.
pub fn identify(data: &[u8]) -> (r: Result<FormatHandle, LibrawError>)
    ensures
        spec_identify(data@) matches Some(h) ==> r == Ok::<FormatHandle, LibrawError>(h),
        spec_identify(data@) is None ==> r == Err::<FormatHandle, LibrawError>(
            LibrawError::UnknownFormat,
        ),
{
    if data.len() >= 4 {
        let b0 = data[0];
        let b1 = data[1];
        let b2 = data[2];
        let b3 = data[3];
        if b0 == 0x49 && b1 == 0x49 && b2 == 0x2a && b3 == 0x00 {
            Ok(FormatHandle::TiffLittleEndian)
        } else if b0 == 0x4d && b1 == 0x4d && b2 == 0x00 && b3 == 0x2a {
            Ok(FormatHandle::TiffBigEndian)
        } else {
            Err(LibrawError::UnknownFormat)
        }
    } else {
        Err(LibrawError::UnknownFormat)
    }
}

/// Identification is deterministic and confined to the probe region:
/// two buffers that agree on their first `PROBE_LEN` bytes are given
/// the same handler. In particular, repeated runs over one buffer
/// always select the same handler.
pub proof fn lemma_identify_probe_only(b1: Seq<u8>, b2: Seq<u8>)
    requires
        b1.len() >= PROBE_LEN,
        b2.len() >= PROBE_LEN,
        b1.subrange(0, PROBE_LEN as int) == b2.subrange(0, PROBE_LEN as int),
    ensures
        spec_identify(b1) == spec_identify(b2),
{
    assert forall|i: int| 0 <= i < 4 implies b1[i] == b2[i] by {
        assert(b1.subrange(0, 4)[i] == b2.subrange(0, 4)[i]);
    }
}

} // verus!
