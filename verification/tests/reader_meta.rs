//! Byte-reader behaviour, big-endian decoding, optional metadata tags,
//! and the assembler's internal-error path.

use rawdec::decode_buffer;
use rawdec::error::{LibrawAllocError, LibrawError, LibrawLibraryError};
use rawdec::image::{assemble, ColorModel, Metadata, Rational, Sizes};
use rawdec::reader::{ReadError, Reader};

#[test]
fn reader_reads_both_byte_orders() {
    let data = [0x12u8, 0x34, 0x56, 0x78];
    let mut le = Reader::new(&data, false);
    assert_eq!(le.read_u16().unwrap(), 0x3412);
    assert_eq!(le.read_u16().unwrap(), 0x7856);
    let mut be = Reader::new(&data, true);
    assert_eq!(be.read_u32().unwrap(), 0x12345678);
}

#[test]
fn reader_bounds_checks_every_read() {
    let data = [1u8, 2, 3];
    let mut rd = Reader::new(&data, false);
    assert_eq!(rd.read_u16().unwrap(), 0x0201);
    assert_eq!(rd.tell(), 2);
    // two bytes wanted, one left: truncated, cursor unchanged
    assert_eq!(rd.read_u16(), Err(ReadError::Truncated));
    assert_eq!(rd.tell(), 2);
    assert_eq!(rd.read_u8().unwrap(), 3);
    assert_eq!(rd.read_u8(), Err(ReadError::Truncated));
    assert_eq!(rd.seek(4), Err(ReadError::OutOfRange));
    assert_eq!(rd.seek(0), Ok(()));
    let four = rd.read_exact(3).unwrap();
    assert_eq!(four, vec![1, 2, 3]);
    assert_eq!(rd.read_exact(1), Err(ReadError::Truncated));
}

#[test]
fn reader_reads_signed_words() {
    let data = (-5i32).to_le_bytes();
    let mut rd = Reader::new(&data, false);
    assert_eq!(rd.read_i32().unwrap(), -5);
}

/// Sensor bytes packing samples 0..=7 at 12 bits.
const SENSOR: [u8; 12] = [
    0x00, 0x00, 0x01, 0x00, 0x20, 0x03, 0x00, 0x40, 0x05, 0x00, 0x60, 0x07,
];

#[test]
fn big_endian_file_decodes() {
    // magic "MM", directory at 8, the eight required entries
    let mut f: Vec<u8> = vec![0x4d, 0x4d, 0x00, 0x2a];
    f.extend_from_slice(&8u32.to_be_bytes());
    let entries: [(u16, u16, u32, u32); 8] = [
        (0x0100, 3, 1, 4),
        (0x0101, 3, 1, 2),
        (0x0111, 4, 1, 156),
        (0x0117, 4, 1, 12),
        (0x010f, 2, 8, 106),
        (0x0110, 2, 6, 114),
        (0x828e, 4, 1, 0x01020304),
        (0xc621, 9, 9, 120),
    ];
    f.extend_from_slice(&(entries.len() as u16).to_be_bytes());
    for e in &entries {
        f.extend_from_slice(&e.0.to_be_bytes());
        f.extend_from_slice(&e.1.to_be_bytes());
        f.extend_from_slice(&e.2.to_be_bytes());
        f.extend_from_slice(&e.3.to_be_bytes());
    }
    f.extend_from_slice(b"TestCam\0");
    f.extend_from_slice(b"Alpha\0");
    for i in 0..9i32 {
        f.extend_from_slice(&i.to_be_bytes());
    }
    f.extend_from_slice(&SENSOR);
    let img = decode_buffer(&f, false).unwrap();
    assert_eq!(img.sensor_data, vec![0u16, 1, 2, 3, 4, 5, 6, 7]);
    assert_eq!(img.color.filters, 0x01020304);
    let m: Vec<i32> = (0..9).collect();
    assert_eq!(img.color.cam_matrix, m);
}

#[test]
fn optional_tags_are_extracted() {
    let entries_n: u32 = 22;
    let base: u32 = 8 + 2 + 12 * entries_n;
    let mut tail: Vec<u8> = Vec::new();
    let make_off = base + tail.len() as u32;
    tail.extend_from_slice(b"TestCam\0");
    let model_off = base + tail.len() as u32;
    tail.extend_from_slice(b"Alpha\0");
    let matrix_off = base + tail.len() as u32;
    for i in 0..9i32 {
        tail.extend_from_slice(&i.to_le_bytes());
    }
    let desc_off = base + tail.len() as u32;
    tail.extend_from_slice(b"Hello");
    let artist_off = base + tail.len() as u32;
    tail.extend_from_slice(b"Bob\0");
    let shutter_off = base + tail.len() as u32;
    tail.extend_from_slice(&1u32.to_le_bytes());
    tail.extend_from_slice(&250u32.to_le_bytes());
    let aspect_off = base + tail.len() as u32;
    tail.extend_from_slice(&4u32.to_le_bytes());
    tail.extend_from_slice(&3u32.to_le_bytes());
    let gps_off = base + tail.len() as u32;
    for i in 0..32u32 {
        tail.extend_from_slice(&(i * 3).to_le_bytes());
    }
    let sensor_off = base + tail.len() as u32;
    tail.extend_from_slice(&SENSOR);
    let entries = [
        (0x0100u16, 3u16, 1u32, 4u32),
        (0x0101, 3, 1, 2),
        (0x0111, 4, 1, sensor_off),
        (0x0117, 4, 1, 12),
        (0x010f, 2, 8, make_off),
        (0x0110, 2, 6, model_off),
        (0x828e, 4, 1, 0x94949494),
        (0xc621, 9, 9, matrix_off),
        (0x8827, 3, 1, 200),        // ISO
        (0x0112, 3, 1, 5),          // orientation
        (0x9010, 4, 1, 1700000000), // timestamp
        (0x9011, 4, 1, 42),         // shot order
        (0x010e, 2, 5, desc_off),   // description
        (0x013b, 2, 4, artist_off), // artist
        (0x829a, 5, 1, shutter_off),// exposure time
        (0x9013, 3, 1, 2),          // visible width
        (0x9014, 3, 1, 1),          // visible height
        (0x9015, 3, 1, 1),          // top margin
        (0x9016, 3, 1, 2),          // left margin
        (0x8825, 4, 32, gps_off),   // GPS block
        (0x9012, 3, 1, 4),          // color count
        (0x9017, 5, 1, aspect_off), // pixel aspect
    ];
    assert_eq!(entries.len() as u32, entries_n);
    let mut f: Vec<u8> = vec![0x49, 0x49, 0x2a, 0x00];
    f.extend_from_slice(&8u32.to_le_bytes());
    f.extend_from_slice(&(entries.len() as u16).to_le_bytes());
    for e in &entries {
        f.extend_from_slice(&e.0.to_le_bytes());
        f.extend_from_slice(&e.1.to_le_bytes());
        f.extend_from_slice(&e.2.to_le_bytes());
        f.extend_from_slice(&e.3.to_le_bytes());
    }
    f.extend_from_slice(&tail);
    let img = decode_buffer(&f, false).unwrap();
    assert_eq!(img.metadata.iso, 200);
    assert_eq!(img.sizes.flip, 5);
    assert_eq!(img.metadata.timestamp, 1700000000);
    assert_eq!(img.metadata.shot_order, 42);
    assert_eq!(img.metadata.desc, b"Hello".to_vec());
    assert_eq!(img.metadata.artist, b"Bob\0".to_vec());
    assert_eq!(img.metadata.shutter.num, 1);
    assert_eq!(img.metadata.shutter.den, 250);
    assert_eq!(img.metadata.aperture, Rational { num: 0, den: 1 });
    assert_eq!(img.sizes.width, 2);
    assert_eq!(img.sizes.height, 1);
    assert_eq!(img.sizes.top_margin, 1);
    assert_eq!(img.sizes.left_margin, 2);
    assert_eq!(img.color.colors, 4);
    assert_eq!(img.sizes.pixel_aspect, Rational { num: 4, den: 3 });
    let gps: Vec<u32> = (0..32).map(|i| i * 3).collect();
    assert_eq!(img.metadata.gpsdata, gps);
}

fn plain_parts() -> (Sizes, ColorModel, Metadata) {
    let sizes = Sizes {
        raw_width: 4,
        raw_height: 2,
        width: 4,
        height: 2,
        top_margin: 0,
        left_margin: 0,
        raw_pitch: 6,
        pixel_aspect: Rational { num: 1, den: 1 },
        flip: 0,
    };
    let color = ColorModel {
        colors: 3,
        filters: 0x94949494,
        cam_matrix: vec![0; 9],
        black: vec![0; 4],
        maximum: 4095,
    };
    let metadata = Metadata {
        make: Vec::new(),
        model: Vec::new(),
        iso: 0,
        shutter: Rational { num: 0, den: 1 },
        aperture: Rational { num: 0, den: 1 },
        focal_len: Rational { num: 0, den: 1 },
        timestamp: 0,
        shot_order: 0,
        gpsdata: Vec::new(),
        desc: Vec::new(),
        artist: Vec::new(),
    };
    (sizes, color, metadata)
}

#[test]
fn assemble_rejects_short_buffer_as_internal_error() {
    let (sizes, color, metadata) = plain_parts();
    // seven samples instead of eight: a defect, not bad input
    let r = assemble(sizes, color, metadata, 1, vec![0u16; 7], None);
    assert!(matches!(r, Err(LibrawError::LibError(LibrawLibraryError))));
}

#[test]
fn assemble_accepts_consistent_parts() {
    let (sizes, color, metadata) = plain_parts();
    let img = assemble(sizes, color, metadata, 1, vec![0u16; 8], None).unwrap();
    assert_eq!(img.sensor_data.len(), 8);
    assert!(img.thumbnail.is_none());
}

#[test]
fn error_messages() {
    assert_eq!(LibrawAllocError.message(), "image data allocation failed");
    assert_eq!(LibrawLibraryError.message(), "internal libraw library error");
}
