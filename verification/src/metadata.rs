//! Metadata extraction from the container's tag directory.
//!
//! The container keeps one directory of (tag, type, count, value)
//! entries. Required tags — geometry, sensor-data location, make,
//! model, filter pattern, color matrix — must be present and well
//! formed or the whole decode fails with `CorruptMetadata`; unknown
//! tags are skipped, and optional tags default to zero or empty on any
//! failure and never abort the pipeline. Numeric fields are read at
//! their declared width and widened; string fields are copied verbatim.

use vstd::prelude::*;
use crate::error::LibrawError;
use crate::format::FormatHandle;
use crate::image::{ColorModel, ColorModelV, Metadata, MetadataV, Rational, Sizes};
use crate::reader::{Reader, i32_at, u16_at, u32_at};

verus! {

pub const TAG_RAW_WIDTH: u16 = 0x0100;

pub const TAG_RAW_HEIGHT: u16 = 0x0101;

pub const TAG_DESC: u16 = 0x010e;

pub const TAG_MAKE: u16 = 0x010f;

pub const TAG_MODEL: u16 = 0x0110;

pub const TAG_SENSOR_OFFSET: u16 = 0x0111;

pub const TAG_ORIENTATION: u16 = 0x0112;

pub const TAG_SENSOR_LENGTH: u16 = 0x0117;

pub const TAG_ARTIST: u16 = 0x013b;

pub const TAG_SHUTTER: u16 = 0x829a;

pub const TAG_APERTURE: u16 = 0x829d;

pub const TAG_GPS: u16 = 0x8825;

pub const TAG_ISO: u16 = 0x8827;

pub const TAG_FILTERS: u16 = 0x828e;

pub const TAG_FOCAL: u16 = 0x920a;

pub const TAG_TIMESTAMP: u16 = 0x9010;

pub const TAG_SHOT_ORDER: u16 = 0x9011;

pub const TAG_COLORS: u16 = 0x9012;

pub const TAG_WIDTH: u16 = 0x9013;

pub const TAG_HEIGHT: u16 = 0x9014;

pub const TAG_TOP_MARGIN: u16 = 0x9015;

pub const TAG_LEFT_MARGIN: u16 = 0x9016;

pub const TAG_PIXEL_ASPECT: u16 = 0x9017;

pub const TAG_BLACK: u16 = 0xc61a;

pub const TAG_WHITE: u16 = 0xc61d;

pub const TAG_COLOR_MATRIX: u16 = 0xc621;

/// Entry type code for 16-bit integers.
pub const TYPE_SHORT: u16 = 3;

/// Entry type code for 32-bit unsigned integers.
pub const TYPE_LONG: u16 = 4;

/// Entry type code for verbatim byte strings.
pub const TYPE_ASCII: u16 = 2;

/// Entry type code for unsigned fractions: two 32-bit integers.
pub const TYPE_RATIONAL: u16 = 5;

/// Entry type code for 32-bit signed integers.
pub const TYPE_SLONG: u16 = 9;

/// One directory entry: a tag, its declared type, the element count,
/// and the inline value or the offset of the out-of-line data.
#[derive(Clone, Copy, PartialEq, Eq, Structural, Debug)]
pub struct TagEntry {
    pub tag: u16,
    pub typ: u16,
    pub count: u32,
    pub value: u32,
}

/// The entry stored at byte offset `p` of the buffer.
pub open spec fn spec_entry_at(b: Seq<u8>, p: int, be: bool) -> TagEntry
    recommends
        0 <= p,
        p + 12 <= b.len(),
{
    TagEntry {
        tag: u16_at(b, p, be),
        typ: u16_at(b, p + 2, be),
        count: u32_at(b, p + 4, be),
        value: u32_at(b, p + 8, be),
    }
}

/// The directory stored at byte offset `off`: an entry count followed
/// by that many twelve-byte entries. `None` when the directory runs
/// past the end of the buffer.
pub open spec fn spec_ifd(b: Seq<u8>, off: int, be: bool) -> Option<Seq<TagEntry>> {
    if 0 <= off && off + 2 <= b.len() {
        if off + 2 + 12 * (u16_at(b, off, be) as int) <= b.len() {
            Some(
                Seq::new(
                    u16_at(b, off, be) as nat,
                    |j: int| spec_entry_at(b, off + 2 + 12 * j, be),
                ),
            )
        } else {
            None
        }
    } else {
        None
    }
}

/// The first entry of the directory carrying `tag`, if any; later
/// duplicates are ignored.
pub open spec fn spec_find(s: Seq<TagEntry>, tag: u16) -> Option<TagEntry>
    decreases s.len(),
{
    if s.len() == 0 {
        None
    } else if s[0].tag == tag {
        Some(s[0])
    } else {
        spec_find(s.drop_first(), tag)
    }
}

/// A required single 32-bit value: the tag must be present as a
/// single-element integer entry.
pub open spec fn spec_req_u32(s: Seq<TagEntry>, tag: u16) -> Option<u32> {
    match spec_find(s, tag) {
        Some(e) => if (e.typ == TYPE_SHORT || e.typ == TYPE_LONG) && e.count == 1 {
            Some(e.value)
        } else {
            None
        },
        None => None,
    }
}

/// A required single value that must also fit 16 bits.
pub open spec fn spec_req_u16(s: Seq<TagEntry>, tag: u16) -> Option<u16> {
    match spec_req_u32(s, tag) {
        Some(v) => if v <= 0xffff {
            Some(v as u16)
        } else {
            None
        },
        None => None,
    }
}

/// An optional single 32-bit value; `default` on absence or on any
/// type or count mismatch.
pub open spec fn spec_opt_u32(s: Seq<TagEntry>, tag: u16, default: u32) -> u32 {
    match spec_req_u32(s, tag) {
        Some(v) => v,
        None => default,
    }
}

/// An optional single value that must fit 16 bits; `default` otherwise.
pub open spec fn spec_opt_u16(s: Seq<TagEntry>, tag: u16, default: u16) -> u16 {
    match spec_req_u16(s, tag) {
        Some(v) => v,
        None => default,
    }
}

/// The verbatim bytes of a string entry of at most `max` bytes, stored
/// out of line at the entry's value offset. `None` on a type mismatch
/// or an out-of-range offset.
pub open spec fn spec_bytes_field(b: Seq<u8>, e: TagEntry, max: int) -> Option<Seq<u8>> {
    if e.typ == TYPE_ASCII && e.count <= max && e.value + e.count <= b.len() {
        Some(b.subrange(e.value as int, e.value as int + e.count as int))
    } else {
        None
    }
}

/// A required string field.
pub open spec fn spec_req_ascii(b: Seq<u8>, s: Seq<TagEntry>, tag: u16, max: int) -> Option<
    Seq<u8>,
> {
    match spec_find(s, tag) {
        Some(e) => spec_bytes_field(b, e, max),
        None => None,
    }
}

/// An optional string field; empty on absence or on any failure.
pub open spec fn spec_opt_ascii(b: Seq<u8>, s: Seq<TagEntry>, tag: u16, max: int) -> Seq<u8> {
    match spec_req_ascii(b, s, tag, max) {
        Some(v) => v,
        None => Seq::empty(),
    }
}

/// The required camera color matrix: nine 32-bit signed integers
/// stored out of line, row-major.
pub open spec fn spec_req_matrix(b: Seq<u8>, s: Seq<TagEntry>, be: bool) -> Option<Seq<i32>> {
    match spec_find(s, TAG_COLOR_MATRIX) {
        Some(e) => if e.typ == TYPE_SLONG && e.count == 9 && e.value + 36 <= b.len() {
            Some(Seq::new(9, |i: int| i32_at(b, e.value + 4 * i, be)))
        } else {
            None
        },
        None => None,
    }
}

/// The optional GPS tag block: thirty-two 32-bit words stored out of
/// line; empty on absence or on any failure.
pub open spec fn spec_opt_gps(b: Seq<u8>, s: Seq<TagEntry>, be: bool) -> Seq<u32> {
    match spec_find(s, TAG_GPS) {
        Some(e) => if e.typ == TYPE_LONG && e.count == 32 && e.value + 128 <= b.len() {
            Seq::new(32, |i: int| u32_at(b, e.value + 4 * i, be))
        } else {
            Seq::empty()
        },
        None => Seq::empty(),
    }
}

/// An optional unsigned fraction stored out of line; `default` on
/// absence or on any failure.
pub open spec fn spec_opt_rational(
    b: Seq<u8>,
    s: Seq<TagEntry>,
    tag: u16,
    be: bool,
    default: Rational,
) -> Rational {
    match spec_find(s, tag) {
        Some(e) => if e.typ == TYPE_RATIONAL && e.count == 1 && e.value + 8 <= b.len() {
            Rational { num: u32_at(b, e.value as int, be), den: u32_at(b, e.value + 4, be) }
        } else {
            default
        },
        None => default,
    }
}

/// Parse the directory at byte offset `off` into a vector of entries;
/// a directory running past the end of the buffer is
/// `CorruptMetadata`.
pub fn parse_ifd(data: &[u8], off: u32, be: bool) -> (r: Result<Vec<TagEntry>, LibrawError>)
    ensures
        spec_ifd(data@, off as int, be) matches Some(s) ==> (r matches Ok(v) && v@ == s),
        spec_ifd(data@, off as int, be) is None ==> r == Err::<Vec<TagEntry>, LibrawError>(
            LibrawError::CorruptMetadata,
        ),
{
    let mut rd = Reader::new(data, be);
    match rd.seek(off as usize) {
        Ok(_) => (),
        Err(_) => {
            return Err(LibrawError::CorruptMetadata);
        },
    }
    let n: u16 = match rd.read_u16() {
        Ok(v) => v,
        Err(_) => {
            return Err(LibrawError::CorruptMetadata);
        },
    };
    if (data.len() as u64) < off as u64 + 2 + 12 * (n as u64) {
        return Err(LibrawError::CorruptMetadata);
    }
    let ghost s = spec_ifd(data@, off as int, be)->Some_0;
    let mut v: Vec<TagEntry> = Vec::with_capacity(n as usize);
    let mut j: usize = 0;
    while j < n as usize
        invariant
            j <= n,
            v@.len() == j,
            rd.wf(),
            rd.bytes() == data@,
            rd.spec_big_endian() == be,
            rd.spec_pos() == off + 2 + 12 * j,
            off + 2 + 12 * (n as int) <= data@.len(),
            s == spec_ifd(data@, off as int, be)->Some_0,
            spec_ifd(data@, off as int, be) is Some,
            s.len() == n,
            forall|i: int| 0 <= i < j ==> v@[i] == s[i],
        decreases n as usize - j,
    {
        let tag = match rd.read_u16() {
            Ok(x) => x,
            Err(_) => {
                return Err(LibrawError::CorruptMetadata);
            },
        };
        let typ = match rd.read_u16() {
            Ok(x) => x,
            Err(_) => {
                return Err(LibrawError::CorruptMetadata);
            },
        };
        let count = match rd.read_u32() {
            Ok(x) => x,
            Err(_) => {
                return Err(LibrawError::CorruptMetadata);
            },
        };
        let value = match rd.read_u32() {
            Ok(x) => x,
            Err(_) => {
                return Err(LibrawError::CorruptMetadata);
            },
        };
        v.push(TagEntry { tag, typ, count, value });
        proof {
            assert(s[j as int] == spec_entry_at(data@, off + 2 + 12 * (j as int), be));
            assert(v@[j as int] == s[j as int]);
        }
        j = j + 1;
    }
    proof {
        assert(v@ =~= s);
    }
    Ok(v)
}

/// Find the first entry carrying `tag`; later duplicates are ignored.
pub fn find_tag(entries: &Vec<TagEntry>, tag: u16) -> (r: Option<TagEntry>)
    ensures
        r == spec_find(entries@, tag),
{
    let n = entries.len();
    let mut i: usize = 0;
    proof {
        assert(entries@.skip(0) =~= entries@);
    }
    while i < n
        invariant
            i <= n,
            n == entries@.len(),
            spec_find(entries@, tag) == spec_find(entries@.skip(i as int), tag),
        decreases n - i,
    {
        let e = entries[i];
        if e.tag == tag {
            proof {
                assert(entries@.skip(i as int)[0] == entries@[i as int]);
            }
            return Some(e);
        }
        proof {
            assert(entries@.skip(i as int)[0] == entries@[i as int]);
            assert(entries@.skip(i as int).drop_first() =~= entries@.skip(i as int + 1));
        }
        i = i + 1;
    }
    proof {
        assert(entries@.skip(n as int).len() == 0);
    }
    None
}

/// A required single integer value, or `CorruptMetadata`.
pub fn req_u32(entries: &Vec<TagEntry>, tag: u16) -> (r: Result<u32, LibrawError>)
    ensures
        spec_req_u32(entries@, tag) matches Some(v) ==> r == Ok::<u32, LibrawError>(v),
        spec_req_u32(entries@, tag) is None ==> r == Err::<u32, LibrawError>(
            LibrawError::CorruptMetadata,
        ),
{
    match find_tag(entries, tag) {
        Some(e) => {
            if (e.typ == TYPE_SHORT || e.typ == TYPE_LONG) && e.count == 1 {
                Ok(e.value)
            } else {
                Err(LibrawError::CorruptMetadata)
            }
        },
        None => Err(LibrawError::CorruptMetadata),
    }
}

/// A required single integer value that must fit 16 bits, or
/// `CorruptMetadata`.
pub fn req_u16(entries: &Vec<TagEntry>, tag: u16) -> (r: Result<u16, LibrawError>)
    ensures
        spec_req_u16(entries@, tag) matches Some(v) ==> r == Ok::<u16, LibrawError>(v),
        spec_req_u16(entries@, tag) is None ==> r == Err::<u16, LibrawError>(
            LibrawError::CorruptMetadata,
        ),
{
    match req_u32(entries, tag) {
        Ok(v) => {
            if v <= 0xffff {
                Ok(v as u16)
            } else {
                Err(LibrawError::CorruptMetadata)
            }
        },
        Err(e) => Err(e),
    }
}

/// An optional single integer value with a default.
pub fn opt_u32(entries: &Vec<TagEntry>, tag: u16, default: u32) -> (r: u32)
    ensures
        r == spec_opt_u32(entries@, tag, default),
{
    match find_tag(entries, tag) {
        Some(e) => {
            if (e.typ == TYPE_SHORT || e.typ == TYPE_LONG) && e.count == 1 {
                e.value
            } else {
                default
            }
        },
        None => default,
    }
}

/// An optional single 16-bit value with a default.
pub fn opt_u16(entries: &Vec<TagEntry>, tag: u16, default: u16) -> (r: u16)
    ensures
        r == spec_opt_u16(entries@, tag, default),
{
    match find_tag(entries, tag) {
        Some(e) => {
            if (e.typ == TYPE_SHORT || e.typ == TYPE_LONG) && e.count == 1 && e.value <= 0xffff {
                e.value as u16
            } else {
                default
            }
        },
        None => default,
    }
}

/// Copy the verbatim bytes of a string entry, bounds-checked.
fn read_bytes_field(data: &[u8], e: TagEntry, max: u32) -> (r: Option<Vec<u8>>)
    ensures
        spec_bytes_field(data@, e, max as int) matches Some(s) ==> (r matches Some(v) && v@ == s),
        spec_bytes_field(data@, e, max as int) is None ==> r is None,
{
    if e.typ == TYPE_ASCII && e.count <= max && e.value as u64 + e.count as u64 <= data.len()
        as u64 {
        let mut rd = Reader::new(data, false);
        match rd.seek(e.value as usize) {
            Ok(_) => (),
            Err(_) => {
                return None;
            },
        }
        match rd.read_exact(e.count as usize) {
            Ok(v) => Some(v),
            Err(_) => None,
        }
    } else {
        None
    }
}

/// A required string field, or `CorruptMetadata`.
pub fn req_ascii(data: &[u8], entries: &Vec<TagEntry>, tag: u16, max: u32) -> (r: Result<
    Vec<u8>,
    LibrawError,
>)
    ensures
        spec_req_ascii(data@, entries@, tag, max as int) matches Some(s) ==> (r matches Ok(v)
            && v@ == s),
        spec_req_ascii(data@, entries@, tag, max as int) is None ==> r == Err::<
            Vec<u8>,
            LibrawError,
        >(LibrawError::CorruptMetadata),
{
    match find_tag(entries, tag) {
        Some(e) => match read_bytes_field(data, e, max) {
            Some(v) => Ok(v),
            None => Err(LibrawError::CorruptMetadata),
        },
        None => Err(LibrawError::CorruptMetadata),
    }
}

/// An optional string field; empty on absence or on any failure.
pub fn opt_ascii(data: &[u8], entries: &Vec<TagEntry>, tag: u16, max: u32) -> (r: Vec<u8>)
    ensures
        r@ == spec_opt_ascii(data@, entries@, tag, max as int),
{
    match find_tag(entries, tag) {
        Some(e) => match read_bytes_field(data, e, max) {
            Some(v) => v,
            None => Vec::new(),
        },
        None => Vec::new(),
    }
}

/// The required color matrix: nine signed words out of line, or
/// `CorruptMetadata`.
pub fn req_matrix(data: &[u8], entries: &Vec<TagEntry>, be: bool) -> (r: Result<
    Vec<i32>,
    LibrawError,
>)
    ensures
        spec_req_matrix(data@, entries@, be) matches Some(s) ==> (r matches Ok(v) && v@ == s),
        spec_req_matrix(data@, entries@, be) is None ==> r == Err::<Vec<i32>, LibrawError>(
            LibrawError::CorruptMetadata,
        ),
{
    let e = match find_tag(entries, TAG_COLOR_MATRIX) {
        Some(e) => e,
        None => {
            return Err(LibrawError::CorruptMetadata);
        },
    };
    if !(e.typ == TYPE_SLONG && e.count == 9 && e.value as u64 + 36 <= data.len() as u64) {
        return Err(LibrawError::CorruptMetadata);
    }
    let mut rd = Reader::new(data, be);
    match rd.seek(e.value as usize) {
        Ok(_) => (),
        Err(_) => {
            return Err(LibrawError::CorruptMetadata);
        },
    }
    let ghost s = spec_req_matrix(data@, entries@, be)->Some_0;
    let mut v: Vec<i32> = Vec::with_capacity(9);
    let mut i: usize = 0;
    while i < 9
        invariant
            i <= 9,
            v@.len() == i,
            rd.wf(),
            rd.bytes() == data@,
            rd.spec_big_endian() == be,
            rd.spec_pos() == e.value + 4 * i,
            e.value + 36 <= data@.len(),
            s == Seq::new(9, |k: int| i32_at(data@, e.value + 4 * k, be)),
            forall|k: int| 0 <= k < i ==> v@[k] == s[k],
        decreases 9 - i,
    {
        let w = match rd.read_i32() {
            Ok(x) => x,
            Err(_) => {
                return Err(LibrawError::CorruptMetadata);
            },
        };
        v.push(w);
        proof {
            assert(v@[i as int] == s[i as int]);
        }
        i = i + 1;
    }
    proof {
        assert(v@ =~= s);
    }
    Ok(v)
}

/// The optional GPS block: thirty-two words out of line; empty on
/// absence or on any failure.
pub fn opt_gps(data: &[u8], entries: &Vec<TagEntry>, be: bool) -> (r: Vec<u32>)
    ensures
        r@ == spec_opt_gps(data@, entries@, be),
{
    let e = match find_tag(entries, TAG_GPS) {
        Some(e) => e,
        None => {
            return Vec::new();
        },
    };
    if !(e.typ == TYPE_LONG && e.count == 32 && e.value as u64 + 128 <= data.len() as u64) {
        return Vec::new();
    }
    let mut rd = Reader::new(data, be);
    match rd.seek(e.value as usize) {
        Ok(_) => (),
        Err(_) => {
            return Vec::new();
        },
    }
    let ghost s = spec_opt_gps(data@, entries@, be);
    let mut v: Vec<u32> = Vec::with_capacity(32);
    let mut i: usize = 0;
    while i < 32
        invariant
            i <= 32,
            v@.len() == i,
            rd.wf(),
            rd.bytes() == data@,
            rd.spec_big_endian() == be,
            rd.spec_pos() == e.value + 4 * i,
            e.value + 128 <= data@.len(),
            s == Seq::new(32, |k: int| u32_at(data@, e.value + 4 * k, be)),
            forall|k: int| 0 <= k < i ==> v@[k] == s[k],
        decreases 32 - i,
    {
        let w = match rd.read_u32() {
            Ok(x) => x,
            Err(_) => {
                return Vec::new();
            },
        };
        v.push(w);
        proof {
            assert(v@[i as int] == s[i as int]);
        }
        i = i + 1;
    }
    proof {
        assert(v@ =~= s);
    }
    v
}

/// An optional unsigned fraction stored out of line; `default` on
/// absence or on any failure.
pub fn opt_rational(data: &[u8], entries: &Vec<TagEntry>, tag: u16, be: bool, default: Rational)
    -> (r: Rational)
    ensures
        r == spec_opt_rational(data@, entries@, tag, be, default),
{
    let fallback = default;
    let e = match find_tag(entries, tag) {
        Some(e) => e,
        None => {
            return fallback;
        },
    };
    if !(e.typ == TYPE_RATIONAL && e.count == 1 && e.value as u64 + 8 <= data.len() as u64) {
        return fallback;
    }
    let mut rd = Reader::new(data, be);
    match rd.seek(e.value as usize) {
        Ok(_) => (),
        Err(_) => {
            return fallback;
        },
    }
    let num = match rd.read_u32() {
        Ok(x) => x,
        Err(_) => {
            return fallback;
        },
    };
    let den = match rd.read_u32() {
        Ok(x) => x,
        Err(_) => {
            return fallback;
        },
    };
    Rational { num, den }
}

/// Where the sensor data lies in the file, as the directory declares
/// it: an absolute byte offset and a byte length.
#[derive(Clone, Copy, PartialEq, Eq, Structural, Debug)]
pub struct SensorLocation {
    pub offset: u32,
    pub length: u32,
}

/// Everything the metadata extractor yields: normalized geometry,
/// color calibration, shot metadata, and the sensor-data location.
pub struct Extracted {
    pub sizes: Sizes,
    pub color: ColorModel,
    pub metadata: Metadata,
    pub sensor: SensorLocation,
}

/// The ghost value of an `Extracted`.
pub struct ExtractedV {
    pub sizes: Sizes,
    pub color: ColorModelV,
    pub metadata: MetadataV,
    pub sensor: SensorLocation,
}

impl View for Extracted {
    type V = ExtractedV;

    open spec fn view(&self) -> ExtractedV {
        ExtractedV {
            sizes: self.sizes,
            color: self.color@,
            metadata: self.metadata@,
            sensor: self.sensor,
        }
    }
}

/// The container's main directory: its offset is the 32-bit word after
/// the four-byte magic signature.
pub open spec fn spec_header_ifd(b: Seq<u8>, be: bool) -> Option<Seq<TagEntry>> {
    if b.len() >= 8 {
        spec_ifd(b, u32_at(b, 4, be) as int, be)
    } else {
        None
    }
}

/// Whether the buffer's directory yields complete and consistent
/// metadata: every required tag well formed, the visible area inside
/// the sensor area, black level at most white level, and a defined
/// color count.
pub open spec fn spec_extract_valid(b: Seq<u8>, be: bool) -> bool {
    match spec_header_ifd(b, be) {
        None => false,
        Some(s) => {
            &&& spec_req_u16(s, TAG_RAW_WIDTH) is Some
            &&& spec_req_u16(s, TAG_RAW_HEIGHT) is Some
            &&& spec_req_u32(s, TAG_SENSOR_OFFSET) is Some
            &&& spec_req_u32(s, TAG_SENSOR_LENGTH) is Some
            &&& spec_req_ascii(b, s, TAG_MAKE, 64) is Some
            &&& spec_req_ascii(b, s, TAG_MODEL, 64) is Some
            &&& spec_req_u32(s, TAG_FILTERS) is Some
            &&& spec_req_matrix(b, s, be) is Some
            &&& {
                let raw_w = spec_req_u16(s, TAG_RAW_WIDTH)->Some_0;
                let raw_h = spec_req_u16(s, TAG_RAW_HEIGHT)->Some_0;
                let width = spec_opt_u16(s, TAG_WIDTH, raw_w);
                let height = spec_opt_u16(s, TAG_HEIGHT, raw_h);
                let top = spec_opt_u16(s, TAG_TOP_MARGIN, 0);
                let left = spec_opt_u16(s, TAG_LEFT_MARGIN, 0);
                let black = spec_opt_u16(s, TAG_BLACK, 0);
                let white = spec_opt_u16(s, TAG_WHITE, 4095);
                let colors = spec_opt_u16(s, TAG_COLORS, 3);
                &&& width + left <= raw_w
                &&& height + top <= raw_h
                &&& black <= white
                &&& (colors == 1 || colors == 3 || colors == 4)
            }
        },
    }
}

/// The metadata a valid buffer extracts to. Meaningful only when
/// `spec_extract_valid` holds.
pub open spec fn spec_extract(b: Seq<u8>, be: bool) -> ExtractedV
    recommends
        spec_extract_valid(b, be),
{
    let s = spec_header_ifd(b, be)->Some_0;
    let raw_w = spec_req_u16(s, TAG_RAW_WIDTH)->Some_0;
    let raw_h = spec_req_u16(s, TAG_RAW_HEIGHT)->Some_0;
    let black = spec_opt_u16(s, TAG_BLACK, 0);
    ExtractedV {
        sizes: Sizes {
            raw_width: raw_w,
            raw_height: raw_h,
            width: spec_opt_u16(s, TAG_WIDTH, raw_w),
            height: spec_opt_u16(s, TAG_HEIGHT, raw_h),
            top_margin: spec_opt_u16(s, TAG_TOP_MARGIN, 0),
            left_margin: spec_opt_u16(s, TAG_LEFT_MARGIN, 0),
            raw_pitch: (3 * (raw_w as int / 2)) as u32,
            pixel_aspect: spec_opt_rational(b, s, TAG_PIXEL_ASPECT, be, Rational { num: 1, den: 1 }),
            flip: spec_opt_u16(s, TAG_ORIENTATION, 0),
        },
        color: ColorModelV {
            colors: spec_opt_u16(s, TAG_COLORS, 3) as u8,
            filters: spec_req_u32(s, TAG_FILTERS)->Some_0,
            cam_matrix: spec_req_matrix(b, s, be)->Some_0,
            black: Seq::new(4, |i: int| black),
            maximum: spec_opt_u16(s, TAG_WHITE, 4095),
        },
        metadata: MetadataV {
            make: spec_req_ascii(b, s, TAG_MAKE, 64)->Some_0,
            model: spec_req_ascii(b, s, TAG_MODEL, 64)->Some_0,
            iso: spec_opt_u32(s, TAG_ISO, 0),
            shutter: spec_opt_rational(b, s, TAG_SHUTTER, be, Rational { num: 0, den: 1 }),
            aperture: spec_opt_rational(b, s, TAG_APERTURE, be, Rational { num: 0, den: 1 }),
            focal_len: spec_opt_rational(b, s, TAG_FOCAL, be, Rational { num: 0, den: 1 }),
            timestamp: spec_opt_u32(s, TAG_TIMESTAMP, 0),
            shot_order: spec_opt_u32(s, TAG_SHOT_ORDER, 0),
            gpsdata: spec_opt_gps(b, s, be),
            desc: spec_opt_ascii(b, s, TAG_DESC, 512),
            artist: spec_opt_ascii(b, s, TAG_ARTIST, 64),
        },
        sensor: SensorLocation {
            offset: spec_req_u32(s, TAG_SENSOR_OFFSET)->Some_0,
            length: spec_req_u32(s, TAG_SENSOR_LENGTH)->Some_0,
        },
    }
}

/// Walk the buffer's tag directory and populate the normalized
/// metadata schema. Fails with `CorruptMetadata` exactly when a
/// required tag is missing or malformed or the required fields are
/// inconsistent; optional tags degrade to their defaults instead.
pub fn extract(data: &[u8], format: FormatHandle) -> (r: Result<Extracted, LibrawError>)
    ensures
        spec_extract_valid(data@, format.spec_big_endian()) ==> (r matches Ok(e) && e@
            == spec_extract(data@, format.spec_big_endian())),
        !spec_extract_valid(data@, format.spec_big_endian()) ==> r == Err::<
            Extracted,
            LibrawError,
        >(LibrawError::CorruptMetadata),
{
    let be = format.is_big_endian();
    if data.len() < 8 {
        return Err(LibrawError::CorruptMetadata);
    }
    let mut rd = Reader::new(data, be);
    match rd.seek(4) {
        Ok(_) => (),
        Err(_) => {
            return Err(LibrawError::CorruptMetadata);
        },
    }
    let ifd_off = match rd.read_u32() {
        Ok(v) => v,
        Err(_) => {
            return Err(LibrawError::CorruptMetadata);
        },
    };
    let entries = parse_ifd(data, ifd_off, be)?;
    let raw_width = req_u16(&entries, TAG_RAW_WIDTH)?;
    let raw_height = req_u16(&entries, TAG_RAW_HEIGHT)?;
    let sensor_offset = req_u32(&entries, TAG_SENSOR_OFFSET)?;
    let sensor_length = req_u32(&entries, TAG_SENSOR_LENGTH)?;
    let make = req_ascii(data, &entries, TAG_MAKE, 64)?;
    let model = req_ascii(data, &entries, TAG_MODEL, 64)?;
    let filters = req_u32(&entries, TAG_FILTERS)?;
    let cam_matrix = req_matrix(data, &entries, be)?;
    let width = opt_u16(&entries, TAG_WIDTH, raw_width);
    let height = opt_u16(&entries, TAG_HEIGHT, raw_height);
    let top_margin = opt_u16(&entries, TAG_TOP_MARGIN, 0);
    let left_margin = opt_u16(&entries, TAG_LEFT_MARGIN, 0);
    if width as u32 + left_margin as u32 > raw_width as u32 || height as u32 + top_margin as u32
        > raw_height as u32 {
        return Err(LibrawError::CorruptMetadata);
    }
    let black = opt_u16(&entries, TAG_BLACK, 0);
    let white = opt_u16(&entries, TAG_WHITE, 4095);
    if black > white {
        return Err(LibrawError::CorruptMetadata);
    }
    let colors = opt_u16(&entries, TAG_COLORS, 3);
    if !(colors == 1 || colors == 3 || colors == 4) {
        return Err(LibrawError::CorruptMetadata);
    }
    let mut black_vec: Vec<u16> = Vec::with_capacity(4);
    black_vec.push(black);
    black_vec.push(black);
    black_vec.push(black);
    black_vec.push(black);
    proof {
        assert(black_vec@ =~= Seq::new(4, |i: int| black));
    }
    let e = Extracted {
        sizes: Sizes {
            raw_width,
            raw_height,
            width,
            height,
            top_margin,
            left_margin,
            raw_pitch: 3 * (raw_width as u32 / 2),
            pixel_aspect: opt_rational(
                data,
                &entries,
                TAG_PIXEL_ASPECT,
                be,
                Rational { num: 1, den: 1 },
            ),
            flip: opt_u16(&entries, TAG_ORIENTATION, 0),
        },
        color: ColorModel {
            colors: colors as u8,
            filters,
            cam_matrix,
            black: black_vec,
            maximum: white,
        },
        metadata: Metadata {
            make,
            model,
            iso: opt_u32(&entries, TAG_ISO, 0),
            shutter: opt_rational(data, &entries, TAG_SHUTTER, be, Rational { num: 0, den: 1 }),
            aperture: opt_rational(data, &entries, TAG_APERTURE, be, Rational { num: 0, den: 1 }),
            focal_len: opt_rational(data, &entries, TAG_FOCAL, be, Rational { num: 0, den: 1 }),
            timestamp: opt_u32(&entries, TAG_TIMESTAMP, 0),
            shot_order: opt_u32(&entries, TAG_SHOT_ORDER, 0),
            gpsdata: opt_gps(data, &entries, be),
            desc: opt_ascii(data, &entries, TAG_DESC, 512),
            artist: opt_ascii(data, &entries, TAG_ARTIST, 64),
        },
        sensor: SensorLocation { offset: sensor_offset, length: sensor_length },
    };
    Ok(e)
}

} // verus!
