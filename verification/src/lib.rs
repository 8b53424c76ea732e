//! Decoder for camera raw-image files.
//!
//! The library normalizes a vendor container format into one stable
//! in-memory representation: sensor geometry, color calibration, shot
//! metadata, the flat sensor-sample buffer, and an optional embedded
//! thumbnail. All decoding is pure computation over an in-memory byte
//! buffer; reading the file from disk is the caller's job.

pub mod error;
pub mod format;
pub mod image;
pub mod metadata;
pub mod reader;
pub mod thumb;
pub mod unpack;

use vstd::prelude::*;
use crate::error::LibrawError;
use crate::format::{identify, spec_identify};
use crate::image::{assemble, RawImage, ThumbnailV};
use crate::metadata::{extract, spec_extract, spec_extract_valid, spec_header_ifd};
use crate::thumb::{extract_thumb, spec_thumb, spec_thumb_present, spec_thumb_valid};
use crate::unpack::{
    spec_area_fits,
    spec_avail_bytes,
    spec_needed_bytes,
    spec_unpack_result,
    unpack,
};

verus! {

/// The thumbnail a full decode of `b` carries: the declared one when
/// it is present and well formed, and `None` both when the directory
/// declares none and when the declared one is corrupt — thumbnail
/// corruption never aborts the decode.
pub open spec fn spec_thumb_result(b: Seq<u8>, be: bool) -> Option<ThumbnailV> {
    match spec_header_ifd(b, be) {
        Some(s) => if spec_thumb_present(s) && spec_thumb_valid(b, s) {
            Some(spec_thumb(b, s))
        } else {
            None
        },
        None => None,
    }
}

/// Whether the sensor stream of a valid buffer unpacks completely:
/// the declared window, clipped to the file, holds the whole packed
/// area.
pub open spec fn spec_stream_complete(b: Seq<u8>, be: bool) -> bool
    recommends
        spec_extract_valid(b, be),
{
    let e = spec_extract(b, be);
    spec_needed_bytes(e.sizes.raw_width as int, e.sizes.raw_height as int) <= spec_avail_bytes(
        b.len() as int,
        e.sensor.offset as int,
        e.sensor.length as int,
    )
}

/// Whether a valid buffer's geometry can be unpacked at all: rows end
/// on whole packed groups and the area fits the address width.
pub open spec fn spec_geometry_ok(b: Seq<u8>, be: bool) -> bool
    recommends
        spec_extract_valid(b, be),
{
    let e = spec_extract(b, be);
    &&& e.sizes.raw_width as int % 2 == 0
    &&& spec_area_fits(e.sizes.raw_width as int, e.sizes.raw_height as int)
}

/// The sample buffer a valid buffer's sensor window unpacks to, at the
/// geometry and black level its directory declares.
pub open spec fn spec_sensor_samples(b: Seq<u8>, be: bool) -> Seq<u16>
    recommends
        spec_extract_valid(b, be),
{
    let e = spec_extract(b, be);
    spec_unpack_result(
        b,
        e.sensor.offset as int,
        e.sensor.length as int,
        e.sizes.raw_width as int,
        e.sizes.raw_height as int,
        e.color.black[0],
    )
}

/// What a successful decode of a valid buffer returns: every field of
/// the image pinned to the buffer's extracted metadata, its unpacked
/// sensor samples, and its declared thumbnail.
pub open spec fn spec_decoded_image(b: Seq<u8>, be: bool, img: RawImage) -> bool
    recommends
        spec_extract_valid(b, be),
{
    let e = spec_extract(b, be);
    &&& img.sizes == e.sizes
    &&& img.color@ == e.color
    &&& img.metadata@ == e.metadata
    &&& img.components == 1
    &&& img.sensor_data@ == spec_sensor_samples(b, be)
    &&& (match (img.thumbnail, spec_thumb_result(b, be)) {
        (Some(t), Some(tv)) => t@ == tv,
        (None, None) => true,
        _ => false,
    })
}

/// Decode one complete raw-image file held in memory: identify the
/// format, extract and normalize the metadata, unpack the sensor data,
/// and assemble the immutable result. In strict mode (`lenient` false)
/// a truncated sensor stream aborts with `UnpackFailure`; in lenient
/// mode the undecoded tail is filled with the declared black level. A
/// corrupt thumbnail never aborts the decode: the image is returned
/// with `thumbnail` dropped to `None`.
pub fn decode_buffer(data: &[u8], lenient: bool) -> (r: Result<RawImage, LibrawError>)
    ensures
        spec_identify(data@) is None ==> r == Err::<RawImage, LibrawError>(
            LibrawError::UnknownFormat,
        ),
        spec_identify(data@) matches Some(h) ==> {
            let be = h.spec_big_endian();
            &&& !spec_extract_valid(data@, be) ==> r == Err::<RawImage, LibrawError>(
                LibrawError::CorruptMetadata,
            )
            &&& spec_extract_valid(data@, be) && !spec_geometry_ok(data@, be) ==> r == Err::<
                RawImage,
                LibrawError,
            >(LibrawError::UnpackFailure)
            &&& spec_extract_valid(data@, be) && spec_geometry_ok(data@, be) && !lenient
                && !spec_stream_complete(data@, be) ==> r == Err::<RawImage, LibrawError>(
                LibrawError::UnpackFailure,
            )
            &&& spec_extract_valid(data@, be) && spec_geometry_ok(data@, be) && (lenient
                || spec_stream_complete(data@, be)) ==> (r matches Ok(img) && img.wf()
                && spec_decoded_image(data@, be, img))
        },
{
    let handle = match identify(data) {
        Ok(h) => h,
        Err(e) => {
            return Err(e);
        },
    };
    let extracted = match extract(data, handle) {
        Ok(e) => e,
        Err(e) => {
            return Err(e);
        },
    };
    proof {
        assert(extracted.color.black@.len() == 4);
    }
    let black0: u16 = extracted.color.black[0];
    let samples = match unpack(
        data,
        extracted.sensor.offset,
        extracted.sensor.length,
        extracted.sizes.raw_width,
        extracted.sizes.raw_height,
        black0,
        lenient,
    ) {
        Ok(v) => v,
        Err(e) => {
            return Err(e);
        },
    };
    let thumbnail = match extract_thumb(data, handle) {
        Ok(o) => o,
        Err(_) => None,
    };
    proof {
        assert(samples@.len() == extracted.sizes.raw_width as int
            * extracted.sizes.raw_height as int * 1);
    }
    match assemble(extracted.sizes, extracted.color, extracted.metadata, 1, samples, thumbnail) {
        Ok(img) => Ok(img),
        Err(e) => Err(e),
    }
}

/// A directory without thumbnail entries decodes to an image whose
/// `thumbnail` is `None`; the rest of the decode does not depend on
/// it, so the image is otherwise the one the same metadata and sensor
/// bytes always yield.
pub proof fn lemma_missing_thumb_entry_gives_none(b: Seq<u8>, be: bool)
    requires
        spec_header_ifd(b, be) matches Some(s) && !spec_thumb_present(s),
    ensures
        spec_thumb_result(b, be) is None,
{
}

/// Stripping a file of its thumbnail changes only the thumbnail.
/// Take two valid buffers whose directories extract to the same
/// metadata and whose sensor windows unpack to the same samples —
/// exactly what holds when the second is the first with its
/// thumbnail-only bytes removed — where the second's directory
/// declares no thumbnail. Their decoded images agree on geometry,
/// color model, metadata and sensor data, and the second's thumbnail
/// is `None`.
pub proof fn lemma_thumb_stripping_changes_only_thumbnail(
    img1: RawImage,
    img2: RawImage,
    b1: Seq<u8>,
    b2: Seq<u8>,
    be: bool,
)
    requires
        spec_extract_valid(b1, be),
        spec_extract_valid(b2, be),
        spec_extract(b1, be) == spec_extract(b2, be),
        spec_sensor_samples(b1, be) == spec_sensor_samples(b2, be),
        spec_decoded_image(b1, be, img1),
        spec_decoded_image(b2, be, img2),
        spec_header_ifd(b2, be) matches Some(s2) && !spec_thumb_present(s2),
    ensures
        img1.sizes == img2.sizes,
        img1.color@ == img2.color@,
        img1.metadata@ == img2.metadata@,
        img1.components == img2.components,
        img1.sensor_data@ == img2.sensor_data@,
        img2.thumbnail is None,
{
    lemma_missing_thumb_entry_gives_none(b2, be);
}

} // verus!
