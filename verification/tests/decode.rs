//! End-to-end decoding tests over synthetic little-endian container
//! files: a header with the byte-order magic, one tag directory, and
//! out-of-line string, matrix, thumbnail and sensor-data regions.

use rawdec::decode_buffer;
use rawdec::error::LibrawError;
use rawdec::format::{identify, FormatHandle};
use rawdec::image::ThumbFormat;
use rawdec::unpack::unpack;

/// One directory entry: tag, type, count, value-or-offset.
#[derive(Clone, Copy)]
struct E(u16, u16, u32, u32);

/// Build a little-endian file: magic, directory offset 8, the entries,
/// then `tail` verbatim. Out-of-line offsets inside entries must point
/// into the tail region, which starts at `8 + 2 + 12 * entries.len()`.
fn build_le(entries: &[E], tail: &[u8]) -> Vec<u8> {
    let mut f: Vec<u8> = vec![0x49, 0x49, 0x2a, 0x00];
    f.extend_from_slice(&8u32.to_le_bytes());
    f.extend_from_slice(&(entries.len() as u16).to_le_bytes());
    for e in entries {
        f.extend_from_slice(&e.0.to_le_bytes());
        f.extend_from_slice(&e.1.to_le_bytes());
        f.extend_from_slice(&e.2.to_le_bytes());
        f.extend_from_slice(&e.3.to_le_bytes());
    }
    f.extend_from_slice(tail);
    f
}

/// Sensor bytes packing samples 0..=7 at 12 bits, two per group.
const SENSOR: [u8; 12] = [
    0x00, 0x00, 0x01, 0x00, 0x20, 0x03, 0x00, 0x40, 0x05, 0x00, 0x60, 0x07,
];

/// A minimal valid file: 4 by 2 sensor, samples 0..=7, no thumbnail.
/// The data region starts at 8 + 2 + 12 * 8 = 106: make at 106, model
/// at 114, color matrix at 120, sensor data at 156.
fn minimal_file() -> Vec<u8> {
    let entries = [
        E(0x0100, 3, 1, 4),        // raw width
        E(0x0101, 3, 1, 2),        // raw height
        E(0x0111, 4, 1, 156),      // sensor offset
        E(0x0117, 4, 1, 12),       // sensor length
        E(0x010f, 2, 8, 106),      // make
        E(0x0110, 2, 6, 114),      // model
        E(0x828e, 4, 1, 0x94949494), // filter pattern
        E(0xc621, 9, 9, 120),      // color matrix
    ];
    let mut tail: Vec<u8> = Vec::new();
    tail.extend_from_slice(b"TestCam\0");
    tail.extend_from_slice(b"Alpha\0");
    for i in 0..9i32 {
        tail.extend_from_slice(&i.to_le_bytes());
    }
    tail.extend_from_slice(&SENSOR);
    build_le(&entries, &tail)
}

#[test]
fn packed12_scenario_exact_samples() {
    let f = minimal_file();
    let img = decode_buffer(&f, false).unwrap();
    assert_eq!(img.sensor_data, vec![0u16, 1, 2, 3, 4, 5, 6, 7]);
    assert_eq!(img.sizes.raw_width, 4);
    assert_eq!(img.sizes.raw_height, 2);
    assert_eq!(img.components, 1);
}

#[test]
fn unpack_direct_exact_samples() {
    let f = minimal_file();
    let v = unpack(&f, 156, 12, 4, 2, 0, false).unwrap();
    assert_eq!(v, vec![0u16, 1, 2, 3, 4, 5, 6, 7]);
}

#[test]
fn identify_is_deterministic() {
    let f = minimal_file();
    let h1 = identify(&f).unwrap();
    let h2 = identify(&f).unwrap();
    assert_eq!(h1, h2);
    assert_eq!(h1, FormatHandle::TiffLittleEndian);
    let be = [0x4du8, 0x4d, 0x00, 0x2a, 0, 0, 0, 0];
    assert_eq!(identify(&be).unwrap(), FormatHandle::TiffBigEndian);
}

#[test]
fn unknown_header_all_zero() {
    let f = [0u8; 64];
    assert!(matches!(identify(&f), Err(LibrawError::UnknownFormat)));
    assert!(matches!(decode_buffer(&f, true), Err(LibrawError::UnknownFormat)));
    let short = [0u8; 3];
    assert!(matches!(identify(&short), Err(LibrawError::UnknownFormat)));
}

#[test]
fn reunpacking_same_buffer_is_identical() {
    let f = minimal_file();
    let a = unpack(&f, 156, 12, 4, 2, 0, false).unwrap();
    let b = unpack(&f, 156, 12, 4, 2, 0, false).unwrap();
    assert_eq!(a, b);
    let i1 = decode_buffer(&f, false).unwrap();
    let i2 = decode_buffer(&f, false).unwrap();
    assert_eq!(i1.sensor_data, i2.sensor_data);
}

/// A file with an explicit nonzero black level, cut off mid-sensor.
/// The entry layout matches `minimal_file` plus black and white tags.
fn truncated_file() -> Vec<u8> {
    let entries = [
        E(0x0100, 3, 1, 4),
        E(0x0101, 3, 1, 2),
        E(0x0111, 4, 1, 180),
        E(0x0117, 4, 1, 12),
        E(0x010f, 2, 8, 130),
        E(0x0110, 2, 6, 138),
        E(0x828e, 4, 1, 0x94949494),
        E(0xc621, 9, 9, 144),
        E(0xc61a, 3, 1, 7),  // black level
        E(0xc61d, 3, 1, 4095), // white level
    ];
    // data region starts at 8 + 2 + 12 * 10 = 130
    let mut tail: Vec<u8> = Vec::new();
    tail.extend_from_slice(b"TestCam\0");
    tail.extend_from_slice(b"Alpha\0");
    for i in 0..9i32 {
        tail.extend_from_slice(&i.to_le_bytes());
    }
    // sensor data at 130 + 8 + 6 + 36 = 180, but only 6 of 12 bytes
    tail.extend_from_slice(&SENSOR[0..6]);
    build_le(&entries, &tail)
}

#[test]
fn truncated_strict_fails() {
    let f = truncated_file();
    assert!(matches!(decode_buffer(&f, false), Err(LibrawError::UnpackFailure)));
}

#[test]
fn truncated_lenient_fills_tail_with_black() {
    let f = truncated_file();
    let img = decode_buffer(&f, true).unwrap();
    assert_eq!(img.sensor_data, vec![0u16, 1, 2, 3, 7, 7, 7, 7]);
    assert_eq!(img.sensor_data.len(), 4 * 2);
}

#[test]
fn buffer_size_and_level_invariants() {
    let f = minimal_file();
    let img = decode_buffer(&f, false).unwrap();
    assert_eq!(
        img.sensor_data.len(),
        img.sizes.raw_width as usize * img.sizes.raw_height as usize * img.components as usize
    );
    assert_eq!(img.color.black.len(), 4);
    for ch in 0..4 {
        assert!(img.color.black[ch] <= img.color.maximum);
    }
}

/// The minimal file plus a thumbnail: offset, length, dimensions and
/// format tags, with the thumbnail bytes appended after the sensor
/// data.
fn file_with_thumbnail() -> Vec<u8> {
    let entries = [
        E(0x0100, 3, 1, 4),
        E(0x0101, 3, 1, 2),
        E(0x0111, 4, 1, 216),
        E(0x0117, 4, 1, 12),
        E(0x010f, 2, 8, 166),
        E(0x0110, 2, 6, 174),
        E(0x828e, 4, 1, 0x94949494),
        E(0xc621, 9, 9, 180),
        E(0x0201, 4, 1, 228),  // thumbnail offset
        E(0x0202, 4, 1, 4),    // thumbnail length
        E(0x9020, 3, 1, 2),    // thumbnail width
        E(0x9021, 3, 1, 1),    // thumbnail height
        E(0x9022, 3, 1, 1),    // thumbnail format: JPEG
    ];
    // data region starts at 8 + 2 + 12 * 13 = 166
    let mut tail: Vec<u8> = Vec::new();
    tail.extend_from_slice(b"TestCam\0");
    tail.extend_from_slice(b"Alpha\0");
    for i in 0..9i32 {
        tail.extend_from_slice(&i.to_le_bytes());
    }
    tail.extend_from_slice(&SENSOR); // sensor at 166 + 50 = 216
    tail.extend_from_slice(&[0xde, 0xad, 0xbe, 0xef]); // thumbnail at 228
    build_le(&entries, &tail)
}

#[test]
fn thumbnail_present_and_copied_verbatim() {
    let f = file_with_thumbnail();
    let img = decode_buffer(&f, false).unwrap();
    let t = img.thumbnail.expect("thumbnail should be present");
    assert_eq!(t.data, vec![0xde, 0xad, 0xbe, 0xef]);
    assert_eq!(t.width, 2);
    assert_eq!(t.height, 1);
    assert_eq!(t.format, ThumbFormat::Jpeg);
}

#[test]
fn missing_thumbnail_entry_yields_none_and_same_image() {
    let with = decode_buffer(&file_with_thumbnail(), false).unwrap();
    let without = decode_buffer(&minimal_file(), false).unwrap();
    assert!(without.thumbnail.is_none());
    assert!(with.thumbnail.is_some());
    assert_eq!(with.sizes, without.sizes);
    assert_eq!(with.color, without.color);
    assert_eq!(with.metadata, without.metadata);
    assert_eq!(with.sensor_data, without.sensor_data);
    assert_eq!(with.components, without.components);
}

#[test]
fn corrupt_thumbnail_is_nonfatal() {
    // thumbnail window runs past the end of the file
    let entries = [
        E(0x0100, 3, 1, 4),
        E(0x0101, 3, 1, 2),
        E(0x0111, 4, 1, 180),
        E(0x0117, 4, 1, 12),
        E(0x010f, 2, 8, 130),
        E(0x0110, 2, 6, 138),
        E(0x828e, 4, 1, 0x94949494),
        E(0xc621, 9, 9, 144),
        E(0x0201, 4, 1, 100_000), // out of bounds
        E(0x0202, 4, 1, 4),
    ];
    // data region starts at 8 + 2 + 12 * 10 = 130, sensor at 180
    let mut tail: Vec<u8> = Vec::new();
    tail.extend_from_slice(b"TestCam\0");
    tail.extend_from_slice(b"Alpha\0");
    for i in 0..9i32 {
        tail.extend_from_slice(&i.to_le_bytes());
    }
    tail.extend_from_slice(&SENSOR);
    let f = build_le(&entries, &tail);
    let img = decode_buffer(&f, false).unwrap();
    assert!(img.thumbnail.is_none());
    assert_eq!(img.sensor_data, vec![0u16, 1, 2, 3, 4, 5, 6, 7]);
}

#[test]
fn missing_required_tag_is_corrupt_metadata() {
    // model tag dropped: data region starts at 8 + 2 + 12 * 7 = 94
    let entries = [
        E(0x0100, 3, 1, 4),
        E(0x0101, 3, 1, 2),
        E(0x0111, 4, 1, 138),
        E(0x0117, 4, 1, 12),
        E(0x010f, 2, 8, 94),
        E(0x828e, 4, 1, 0x94949494),
        E(0xc621, 9, 9, 102),
    ];
    let mut tail: Vec<u8> = Vec::new();
    tail.extend_from_slice(b"TestCam\0");
    for i in 0..9i32 {
        tail.extend_from_slice(&i.to_le_bytes());
    }
    tail.extend_from_slice(&SENSOR);
    let f = build_le(&entries, &tail);
    assert!(matches!(decode_buffer(&f, false), Err(LibrawError::CorruptMetadata)));
}

#[test]
fn black_above_white_is_corrupt_metadata() {
    let entries = [
        E(0x0100, 3, 1, 4),
        E(0x0101, 3, 1, 2),
        E(0x0111, 4, 1, 180),
        E(0x0117, 4, 1, 12),
        E(0x010f, 2, 8, 130),
        E(0x0110, 2, 6, 138),
        E(0x828e, 4, 1, 0x94949494),
        E(0xc621, 9, 9, 144),
        E(0xc61a, 3, 1, 5000), // black level above white level
        E(0xc61d, 3, 1, 4095),
    ];
    let mut tail: Vec<u8> = Vec::new();
    tail.extend_from_slice(b"TestCam\0");
    tail.extend_from_slice(b"Alpha\0");
    for i in 0..9i32 {
        tail.extend_from_slice(&i.to_le_bytes());
    }
    tail.extend_from_slice(&SENSOR);
    let f = build_le(&entries, &tail);
    assert!(matches!(decode_buffer(&f, false), Err(LibrawError::CorruptMetadata)));
}

#[test]
fn odd_raw_width_is_unpack_failure() {
    // raw width 5: every row ends in a partial group
    let entries = [
        E(0x0100, 3, 1, 5),
        E(0x0101, 3, 1, 2),
        E(0x0111, 4, 1, 156),
        E(0x0117, 4, 1, 16),
        E(0x010f, 2, 8, 106),
        E(0x0110, 2, 6, 114),
        E(0x828e, 4, 1, 0x94949494),
        E(0xc621, 9, 9, 120),
    ];
    let mut tail: Vec<u8> = Vec::new();
    tail.extend_from_slice(b"TestCam\0");
    tail.extend_from_slice(b"Alpha\0");
    for i in 0..9i32 {
        tail.extend_from_slice(&i.to_le_bytes());
    }
    tail.extend_from_slice(&SENSOR);
    tail.extend_from_slice(&[0u8; 4]);
    let f = build_le(&entries, &tail);
    assert!(matches!(decode_buffer(&f, false), Err(LibrawError::UnpackFailure)));
}

#[test]
fn sensor_window_past_end_lenient_is_all_black() {
    // sensor offset beyond the end of the file: nothing decodable
    let entries = [
        E(0x0100, 3, 1, 4),
        E(0x0101, 3, 1, 2),
        E(0x0111, 4, 1, 100_000),
        E(0x0117, 4, 1, 12),
        E(0x010f, 2, 8, 130),
        E(0x0110, 2, 6, 138),
        E(0x828e, 4, 1, 0x94949494),
        E(0xc621, 9, 9, 144),
        E(0xc61a, 3, 1, 9),
        E(0xc61d, 3, 1, 4095),
    ];
    // data region starts at 8 + 2 + 12 * 10 = 130
    let mut tail: Vec<u8> = Vec::new();
    tail.extend_from_slice(b"TestCam\0");
    tail.extend_from_slice(b"Alpha\0");
    for i in 0..9i32 {
        tail.extend_from_slice(&i.to_le_bytes());
    }
    let f = build_le(&entries, &tail);
    assert!(matches!(decode_buffer(&f, false), Err(LibrawError::UnpackFailure)));
    let img = decode_buffer(&f, true).unwrap();
    assert_eq!(img.sensor_data, vec![9u16; 8]);
}

#[test]
fn directory_past_end_is_corrupt_metadata() {
    // a directory declaring more entries than the file holds
    let mut f: Vec<u8> = vec![0x49, 0x49, 0x2a, 0x00];
    f.extend_from_slice(&8u32.to_le_bytes());
    f.extend_from_slice(&500u16.to_le_bytes());
    f.extend_from_slice(&[0u8; 24]);
    assert!(matches!(decode_buffer(&f, false), Err(LibrawError::CorruptMetadata)));
    // a directory offset beyond the end of the file
    let mut g: Vec<u8> = vec![0x49, 0x49, 0x2a, 0x00];
    g.extend_from_slice(&100_000u32.to_le_bytes());
    assert!(matches!(decode_buffer(&g, false), Err(LibrawError::CorruptMetadata)));
}

#[test]
fn metadata_fields_are_extracted() {
    let f = minimal_file();
    let img = decode_buffer(&f, false).unwrap();
    assert_eq!(img.metadata.make, b"TestCam\0".to_vec());
    assert_eq!(img.metadata.model, b"Alpha\0".to_vec());
    let m: Vec<i32> = (0..9).collect();
    assert_eq!(img.color.cam_matrix, m);
    assert_eq!(img.color.colors, 3);
    assert_eq!(img.color.filters, 0x94949494);
    // optional tags were absent: defaults
    assert_eq!(img.metadata.iso, 0);
    assert_eq!(img.metadata.shutter.num, 0);
    assert_eq!(img.metadata.shutter.den, 1);
    assert_eq!(img.color.black, vec![0u16; 4]);
    assert_eq!(img.color.maximum, 4095);
    assert_eq!(img.sizes.width, 4);
    assert_eq!(img.sizes.height, 2);
    assert_eq!(img.sizes.top_margin, 0);
    assert_eq!(img.sizes.left_margin, 0);
    assert_eq!(img.sizes.raw_pitch, 6);
    assert_eq!(img.sizes.pixel_aspect.num, 1);
    assert_eq!(img.sizes.pixel_aspect.den, 1);
}
