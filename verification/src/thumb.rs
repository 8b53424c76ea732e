//! Embedded-thumbnail extraction.
//!
//! The thumbnail is optional: a directory without thumbnail entries
//! yields `None`, not an error. Entries that point outside the file
//! yield `CorruptThumb`, which the pipeline treats as non-fatal — the
//! decoded image is still built, with its thumbnail dropped. Thumbnail
//! bytes are copied verbatim, never re-encoded.

use vstd::prelude::*;
use crate::error::LibrawError;
use crate::format::FormatHandle;
use crate::image::{ThumbFormat, Thumbnail, ThumbnailV};
use crate::metadata::{
    find_tag,
    opt_u16,
    parse_ifd,
    req_u32,
    spec_find,
    spec_header_ifd,
    spec_opt_u16,
    spec_req_u32,
    TagEntry,
};
use crate::reader::Reader;

verus! {

pub const TAG_THUMB_OFFSET: u16 = 0x0201;

pub const TAG_THUMB_LENGTH: u16 = 0x0202;

pub const TAG_THUMB_WIDTH: u16 = 0x9020;

pub const TAG_THUMB_HEIGHT: u16 = 0x9021;

pub const TAG_THUMB_FORMAT: u16 = 0x9022;

/// The thumbnail encoding a format-code tag value declares.
pub open spec fn spec_thumb_format(code: u16) -> ThumbFormat {
    if code == 1 {
        ThumbFormat::Jpeg
    } else if code == 2 {
        ThumbFormat::Bitmap
    } else if code == 4 {
        ThumbFormat::Layer
    } else if code == 5 {
        ThumbFormat::Vendor
    } else {
        ThumbFormat::Unknown
    }
}

/// Map a format-code tag value to the thumbnail encoding.
pub fn thumb_format_of(code: u16) -> (r: ThumbFormat)
    ensures
        r == spec_thumb_format(code),
{
    if code == 1 {
        ThumbFormat::Jpeg
    } else if code == 2 {
        ThumbFormat::Bitmap
    } else if code == 4 {
        ThumbFormat::Layer
    } else if code == 5 {
        ThumbFormat::Vendor
    } else {
        ThumbFormat::Unknown
    }
}

/// Whether the directory declares a thumbnail at all.
pub open spec fn spec_thumb_present(s: Seq<TagEntry>) -> bool {
    spec_find(s, TAG_THUMB_OFFSET) is Some || spec_find(s, TAG_THUMB_LENGTH) is Some
}

/// Whether the declared thumbnail is well formed: offset and length
/// entries both single integers, and the byte window inside the file.
pub open spec fn spec_thumb_valid(b: Seq<u8>, s: Seq<TagEntry>) -> bool {
    &&& spec_req_u32(s, TAG_THUMB_OFFSET) is Some
    &&& spec_req_u32(s, TAG_THUMB_LENGTH) is Some
    &&& spec_req_u32(s, TAG_THUMB_OFFSET)->Some_0 + spec_req_u32(s, TAG_THUMB_LENGTH)->Some_0
        <= b.len()
}

/// The thumbnail a valid directory declares: its verbatim bytes and
/// its declared encoding and dimensions.
pub open spec fn spec_thumb(b: Seq<u8>, s: Seq<TagEntry>) -> ThumbnailV
    recommends
        spec_thumb_valid(b, s),
{
    let off = spec_req_u32(s, TAG_THUMB_OFFSET)->Some_0;
    let len = spec_req_u32(s, TAG_THUMB_LENGTH)->Some_0;
    ThumbnailV {
        format: spec_thumb_format(spec_opt_u16(s, TAG_THUMB_FORMAT, 1)),
        width: spec_opt_u16(s, TAG_THUMB_WIDTH, 0),
        height: spec_opt_u16(s, TAG_THUMB_HEIGHT, 0),
        data: b.subrange(off as int, off + len),
    }
}

/// Locate and copy the embedded preview. A directory without
/// thumbnail entries yields `None`; thumbnail entries that are
/// malformed or point outside the file yield `CorruptThumb`.
pub fn extract_thumb(data: &[u8], format: FormatHandle) -> (r: Result<
    Option<Thumbnail>,
    LibrawError,
>)
    ensures
        spec_header_ifd(data@, format.spec_big_endian()) is None ==> r == Err::<
            Option<Thumbnail>,
            LibrawError,
        >(LibrawError::CorruptThumb),
        spec_header_ifd(data@, format.spec_big_endian()) matches Some(s) ==> {
            &&& !spec_thumb_present(s) ==> r == Ok::<Option<Thumbnail>, LibrawError>(None)
            &&& spec_thumb_present(s) && !spec_thumb_valid(data@, s) ==> r == Err::<
                Option<Thumbnail>,
                LibrawError,
            >(LibrawError::CorruptThumb)
            &&& spec_thumb_present(s) && spec_thumb_valid(data@, s) ==> (r matches Ok(o)
                && o matches Some(t) && t@ == spec_thumb(data@, s))
        },
{
    let be = format.is_big_endian();
    if data.len() < 8 {
        return Err(LibrawError::CorruptThumb);
    }
    let mut rd = Reader::new(data, be);
    match rd.seek(4) {
        Ok(_) => (),
        Err(_) => {
            return Err(LibrawError::CorruptThumb);
        },
    }
    let ifd_off = match rd.read_u32() {
        Ok(v) => v,
        Err(_) => {
            return Err(LibrawError::CorruptThumb);
        },
    };
    let entries = match parse_ifd(data, ifd_off, be) {
        Ok(v) => v,
        Err(_) => {
            return Err(LibrawError::CorruptThumb);
        },
    };
    let has_off = find_tag(&entries, TAG_THUMB_OFFSET).is_some();
    let has_len = find_tag(&entries, TAG_THUMB_LENGTH).is_some();
    if !has_off && !has_len {
        return Ok(None);
    }
    let off = match req_u32(&entries, TAG_THUMB_OFFSET) {
        Ok(v) => v,
        Err(_) => {
            return Err(LibrawError::CorruptThumb);
        },
    };
    let len = match req_u32(&entries, TAG_THUMB_LENGTH) {
        Ok(v) => v,
        Err(_) => {
            return Err(LibrawError::CorruptThumb);
        },
    };
    if off as u64 + len as u64 > data.len() as u64 {
        return Err(LibrawError::CorruptThumb);
    }
    let mut copier = Reader::new(data, be);
    match copier.seek(off as usize) {
        Ok(_) => (),
        Err(_) => {
            return Err(LibrawError::CorruptThumb);
        },
    }
    let bytes = match copier.read_exact(len as usize) {
        Ok(v) => v,
        Err(_) => {
            return Err(LibrawError::CorruptThumb);
        },
    };
    Ok(
        Some(
            Thumbnail {
                format: thumb_format_of(opt_u16(&entries, TAG_THUMB_FORMAT, 1)),
                width: opt_u16(&entries, TAG_THUMB_WIDTH, 0),
                height: opt_u16(&entries, TAG_THUMB_HEIGHT, 0),
                data: bytes,
            },
        ),
    )
}

} // verus!
