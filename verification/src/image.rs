//! The normalized in-memory representation of a decoded raw image and
//! the result assembler that enforces its cross-entity invariants.
//!
//! A `RawImage` is constructed only by a successful full pipeline run;
//! its buffers are owned exclusively by the image and released together
//! when it is dropped.

use vstd::prelude::*;
use crate::error::{LibrawError, LibrawLibraryError};

verus! {

/// An unsigned fraction, the container's native representation for
/// exposure values and aspect ratios.
#[derive(Clone, Copy, PartialEq, Eq, Structural, Debug)]
pub struct Rational {
    pub num: u32,
    pub den: u32,
}

/// Sensor geometry: full sensor area, visible area, and crop margins.
/// Margins are cropping metadata for a later post-processing stage; the
/// sample buffer always covers the full `raw_width` by `raw_height`
/// area.
#[derive(Clone, Copy, PartialEq, Eq, Structural, Debug)]
pub struct Sizes {
    /// Full sensor width in samples.
    pub raw_width: u16,
    /// Full sensor height in samples.
    pub raw_height: u16,
    /// Visible-area width in samples.
    pub width: u16,
    /// Visible-area height in samples.
    pub height: u16,
    /// Rows above the visible area.
    pub top_margin: u16,
    /// Columns left of the visible area.
    pub left_margin: u16,
    /// Bytes per packed sensor row.
    pub raw_pitch: u32,
    /// Width of a sensor pixel over its height.
    pub pixel_aspect: Rational,
    /// Orientation: 90-degree steps the image is to be turned.
    pub flip: u16,
}

impl Sizes {
    /// The visible area, shifted by its margins, lies inside the full
    /// sensor area.
    pub open spec fn wf(&self) -> bool {
        &&& self.width + self.left_margin <= self.raw_width
        &&& self.height + self.top_margin <= self.raw_height
    }
}

/// Color calibration: color count, filter-pattern descriptor,
/// calibration matrix, and the per-channel black and white levels.
#[derive(Clone, PartialEq, Eq, Debug)]
pub struct ColorModel {
    /// Number of distinct color channels: 1, 3 or 4.
    pub colors: u8,
    /// Packed color-filter-array descriptor.
    pub filters: u32,
    /// Camera color matrix, 3 by 3 row-major.
    pub cam_matrix: Vec<i32>,
    /// Black level of each of the four channel slots.
    pub black: Vec<u16>,
    /// White (saturation) level, shared by all channels.
    pub maximum: u16,
}

/// The ghost value of a `ColorModel`: its buffers as sequences.
pub struct ColorModelV {
    pub colors: u8,
    pub filters: u32,
    pub cam_matrix: Seq<i32>,
    pub black: Seq<u16>,
    pub maximum: u16,
}

impl View for ColorModel {
    type V = ColorModelV;

    open spec fn view(&self) -> ColorModelV {
        ColorModelV {
            colors: self.colors,
            filters: self.filters,
            cam_matrix: self.cam_matrix@,
            black: self.black@,
            maximum: self.maximum,
        }
    }
}

impl ColorModel {
    /// The matrix is 3 by 3, every channel slot has a black level, the
    /// color count is one of the defined ones, and no channel's black
    /// level exceeds the white level.
    pub open spec fn wf(&self) -> bool {
        &&& self.cam_matrix@.len() == 9
        &&& self.black@.len() == 4
        &&& (self.colors == 1 || self.colors == 3 || self.colors == 4)
        &&& forall|ch: int| 0 <= ch < 4 ==> self.black@[ch] <= self.maximum
    }
}

/// Shot metadata normalized out of the container's tag directory.
/// String fields are copied verbatim at their declared length and
/// never assumed null-terminated.
#[derive(Clone, PartialEq, Eq, Debug)]
pub struct Metadata {
    /// Camera vendor, verbatim bytes.
    pub make: Vec<u8>,
    /// Camera model, verbatim bytes.
    pub model: Vec<u8>,
    /// ISO speed rating; zero when absent.
    pub iso: u32,
    /// Exposure time in seconds.
    pub shutter: Rational,
    /// F-number.
    pub aperture: Rational,
    /// Focal length in millimetres.
    pub focal_len: Rational,
    /// Capture time, seconds since the epoch; zero when absent.
    pub timestamp: u32,
    /// Shot sequence number; zero when absent.
    pub shot_order: u32,
    /// Raw GPS tag block; empty when absent.
    pub gpsdata: Vec<u32>,
    /// Free-text description, verbatim bytes; empty when absent.
    pub desc: Vec<u8>,
    /// Artist, verbatim bytes; empty when absent.
    pub artist: Vec<u8>,
}

/// The ghost value of a `Metadata`: its buffers as sequences.
pub struct MetadataV {
    pub make: Seq<u8>,
    pub model: Seq<u8>,
    pub iso: u32,
    pub shutter: Rational,
    pub aperture: Rational,
    pub focal_len: Rational,
    pub timestamp: u32,
    pub shot_order: u32,
    pub gpsdata: Seq<u32>,
    pub desc: Seq<u8>,
    pub artist: Seq<u8>,
}

impl View for Metadata {
    type V = MetadataV;

    open spec fn view(&self) -> MetadataV {
        MetadataV {
            make: self.make@,
            model: self.model@,
            iso: self.iso,
            shutter: self.shutter,
            aperture: self.aperture,
            focal_len: self.focal_len,
            timestamp: self.timestamp,
            shot_order: self.shot_order,
            gpsdata: self.gpsdata@,
            desc: self.desc@,
            artist: self.artist@,
        }
    }
}

/// Encoding of an embedded preview image.
#[derive(Clone, Copy, PartialEq, Eq, Structural, Debug)]
pub enum ThumbFormat {
    Unknown,
    Jpeg,
    Bitmap,
    Layer,
    Vendor,
}

/// An embedded preview image, its bytes copied verbatim.
#[derive(Clone, PartialEq, Eq, Debug)]
pub struct Thumbnail {
    pub format: ThumbFormat,
    pub width: u16,
    pub height: u16,
    pub data: Vec<u8>,
}

/// The ghost value of a `Thumbnail`: its bytes as a sequence.
pub struct ThumbnailV {
    pub format: ThumbFormat,
    pub width: u16,
    pub height: u16,
    pub data: Seq<u8>,
}

impl View for Thumbnail {
    type V = ThumbnailV;

    open spec fn view(&self) -> ThumbnailV {
        ThumbnailV {
            format: self.format,
            width: self.width,
            height: self.height,
            data: self.data@,
        }
    }
}

/// A fully decoded raw image: geometry, calibration, shot metadata, the
/// flat sensor-sample buffer, and the optional embedded thumbnail. It
/// is constructed only by a successful full pipeline run and is
/// immutable to the caller afterwards.
#[derive(Clone, Debug)]
pub struct RawImage {
    pub sizes: Sizes,
    pub color: ColorModel,
    pub metadata: Metadata,
    /// Samples per pixel of the sample buffer.
    pub components: u8,
    /// One contiguous sample buffer of exactly
    /// `raw_width * raw_height * components` widened samples, in raw
    /// row-major order at `raw_width` stride.
    pub sensor_data: Vec<u16>,
    /// The embedded preview, or `None` when the file has none or its
    /// thumbnail bytes are corrupt.
    pub thumbnail: Option<Thumbnail>,
}

impl RawImage {
    /// The cross-entity invariants of a decoded image: valid geometry,
    /// valid calibration, and a sample buffer of exactly the full
    /// sensor area.
    pub open spec fn wf(&self) -> bool {
        &&& self.sizes.wf()
        &&& self.color.wf()
        &&& self.components >= 1
        &&& self.sensor_data@.len() == self.sizes.raw_width as int * self.sizes.raw_height as int
            * self.components as int
    }
}

/// Check the cross-entity invariants and build the immutable result.
/// A violation here means a defect in an earlier pipeline stage, not a
/// bad file, so it is reported as an internal `LibError`, never as a
/// corrupt-input error.
pub fn assemble(
    sizes: Sizes,
    color: ColorModel,
    metadata: Metadata,
    components: u8,
    sensor_data: Vec<u16>,
    thumbnail: Option<Thumbnail>,
) -> (r: Result<RawImage, LibrawError>)
    ensures
        r matches Ok(img) ==> {
            &&& img.wf()
            &&& img.sizes == sizes
            &&& img.color@ == color@
            &&& img.metadata@ == metadata@
            &&& img.components == components
            &&& img.sensor_data@ == sensor_data@
            &&& (match (img.thumbnail, thumbnail) {
                (Some(a), Some(b)) => a@ == b@,
                (None, None) => true,
                _ => false,
            })
        },
        r matches Err(e) ==> e == LibrawError::LibError(LibrawLibraryError)
            && !spec_assembly_valid(sizes, color@, components, sensor_data@),
        spec_assembly_valid(sizes, color@, components, sensor_data@) ==> r is Ok,
{
    let ok_sizes = sizes.width as u32 + sizes.left_margin as u32 <= sizes.raw_width as u32
        && sizes.height as u32 + sizes.top_margin as u32 <= sizes.raw_height as u32;
    let ok_colors = color.colors == 1 || color.colors == 3 || color.colors == 4;
    let ok_shapes = color.cam_matrix.len() == 9 && color.black.len() == 4;
    let mut ok_levels = ok_shapes;
    if ok_shapes {
        let mut ch: usize = 0;
        while ch < 4
            invariant
                ch <= 4,
                color.black@.len() == 4,
                ok_levels == (forall|j: int| 0 <= j < ch ==> color.black@[j] <= color.maximum),
            decreases 4 - ch,
        {
            if color.black[ch] > color.maximum {
                ok_levels = false;
            }
            ch = ch + 1;
        }
    }
    proof {
        let pair = sizes.raw_width as int * sizes.raw_height as int;
        let area = pair * components as int;
        assert(0 <= area < 0x1_0000_0000_0000_0000 && 0 <= pair < 0x1_0000_0000)
            by (nonlinear_arith)
            requires
                pair == sizes.raw_width as int * sizes.raw_height as int,
                area == pair * components as int,
                0 <= sizes.raw_width < 0x10000,
                0 <= sizes.raw_height < 0x10000,
                0 <= components < 0x100,
        ;
    }
    let expected: u64 = sizes.raw_width as u64 * sizes.raw_height as u64 * components as u64;
    let ok_buffer = components >= 1 && sensor_data.len() as u64 == expected;
    if ok_sizes && ok_colors && ok_shapes && ok_levels && ok_buffer {
        Ok(RawImage { sizes, color, metadata, components, sensor_data, thumbnail })
    } else {
        Err(LibrawError::LibError(LibrawLibraryError))
    }
}

/// Whether the parts handed to the assembler satisfy every
/// cross-entity invariant of a `RawImage`.
pub open spec fn spec_assembly_valid(
    sizes: Sizes,
    color: ColorModelV,
    components: u8,
    sensor_data: Seq<u16>,
) -> bool {
    &&& sizes.wf()
    &&& color.cam_matrix.len() == 9
    &&& color.black.len() == 4
    &&& (color.colors == 1 || color.colors == 3 || color.colors == 4)
    &&& (forall|ch: int| 0 <= ch < 4 ==> color.black[ch] <= color.maximum)
    &&& components >= 1
    &&& sensor_data.len() == sizes.raw_width as int * sizes.raw_height as int * components as int
}

/// Every successfully constructed image satisfies the buffer-size
/// invariant — the sample buffer holds exactly
/// `raw_width * raw_height * components` samples — and no channel's
/// black level exceeds the white level.
pub proof fn lemma_raw_image_invariants(img: RawImage)
    requires
        img.wf(),
    ensures
        img.sensor_data@.len() == img.sizes.raw_width as int * img.sizes.raw_height as int
            * img.components as int,
        forall|ch: int| 0 <= ch < 4 ==> img.color.black@[ch] <= img.color.maximum,
{
}

} // verus!
