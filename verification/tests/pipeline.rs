//! End-to-end transcoding: raster documents in, multi-frame TIFF out.

use std::io::Cursor;
use tiff::decoder::{Decoder, DecodingResult};
use tiff::decoder::ifd::Value;
use tiff::tags::Tag;
use ipp_sharing::raster::{cups_raster_to_tiff, urf_to_tiff, RasterError};

fn gray_urf_two_pages_300dpi() -> Vec<u8> {
    let mut b = Vec::new();
    b.extend_from_slice(b"UNIRAST\0");
    b.extend_from_slice(&2u32.to_be_bytes());
    for content in [
        [0x00u8, 0xff, 10, 20, 0x00, 0xff, 30, 40],
        [0x00u8, 0xff, 50, 60, 0x00, 0xff, 70, 80],
    ] {
        let mut header = [0u8; 32];
        header[0] = 8; // bits per pixel
        header[1] = 0; // sGray
        header[2] = 1; // no duplex
        header[12..16].copy_from_slice(&2u32.to_be_bytes());
        header[16..20].copy_from_slice(&2u32.to_be_bytes());
        header[20..24].copy_from_slice(&300u32.to_be_bytes());
        b.extend_from_slice(&header);
        b.extend_from_slice(&content);
    }
    b
}

fn rational(v: Option<Value>) -> (u32, u32) {
    match v {
        Some(Value::Rational(n, d)) => (n, d),
        other => panic!("expected a rational tag, got {:?}", other),
    }
}

#[test]
fn urf_round_trip_preserves_frames_resolution_and_pixels() {
    let tiff_bytes = urf_to_tiff(&gray_urf_two_pages_300dpi()).unwrap();
    let mut dec = Decoder::new(Cursor::new(tiff_bytes)).unwrap();
    let expected = [vec![10u8, 20, 30, 40], vec![50u8, 60, 70, 80]];
    let mut frames = 0;
    loop {
        assert_eq!(dec.dimensions().unwrap(), (2, 2));
        assert_eq!(rational(dec.find_tag(Tag::XResolution).unwrap()), (300, 1));
        assert_eq!(rational(dec.find_tag(Tag::YResolution).unwrap()), (300, 1));
        // Resolution unit 2 is inches.
        assert_eq!(
            dec.find_tag(Tag::ResolutionUnit).unwrap().unwrap().into_u16().unwrap(),
            2
        );
        match dec.read_image().unwrap() {
            DecodingResult::U8(pixels) => assert_eq!(pixels, expected[frames]),
            other => panic!("expected 8-bit data, got {:?}", other),
        }
        frames += 1;
        if !dec.more_images() {
            break;
        }
        dec.next_image().unwrap();
    }
    assert_eq!(frames, 2);
}

#[test]
fn cups_round_trip_preserves_rgb_pixels() {
    let mut b = b"RaS3".to_vec();
    let mut header = vec![0u8; 1796];
    let mut put = |off: usize, v: u32| header[off..off + 4].copy_from_slice(&v.to_be_bytes());
    put(276, 600);
    put(280, 300);
    put(372, 2); // width
    put(376, 1); // height
    put(384, 8); // bits per color
    put(388, 24); // bits per pixel
    put(392, 6); // bytes per line
    put(400, 19); // sRGB
    b.extend_from_slice(&header);
    b.extend_from_slice(&[1, 2, 3, 4, 5, 6]);
    let tiff_bytes = cups_raster_to_tiff(&b).unwrap();
    let mut dec = Decoder::new(Cursor::new(tiff_bytes)).unwrap();
    assert_eq!(dec.dimensions().unwrap(), (2, 1));
    assert_eq!(rational(dec.find_tag(Tag::XResolution).unwrap()), (600, 1));
    assert_eq!(rational(dec.find_tag(Tag::YResolution).unwrap()), (300, 1));
    match dec.read_image().unwrap() {
        DecodingResult::U8(pixels) => assert_eq!(pixels, vec![1, 2, 3, 4, 5, 6]),
        other => panic!("expected 8-bit data, got {:?}", other),
    }
    assert!(!dec.more_images());
}

#[test]
fn unsupported_color_space_leaves_no_output() {
    let mut b = Vec::new();
    b.extend_from_slice(b"UNIRAST\0");
    b.extend_from_slice(&1u32.to_be_bytes());
    let mut header = [0u8; 32];
    header[0] = 32; // bits per pixel
    header[1] = 6; // CMYK
    header[2] = 1;
    header[12..16].copy_from_slice(&1u32.to_be_bytes());
    header[16..20].copy_from_slice(&1u32.to_be_bytes());
    header[20..24].copy_from_slice(&300u32.to_be_bytes());
    b.extend_from_slice(&header);
    b.extend_from_slice(&[0x00, 0x00, 0, 0, 0, 0]);
    // The whole document aborts with the offending fields named; no bytes
    // come back that a caller could leave on disk.
    assert_eq!(
        urf_to_tiff(&b),
        Err(RasterError::UnsupportedPixel { color_space: 6, bits_per_pixel: 32 })
    );
}

#[test]
fn empty_urf_document_yields_empty_tiff() {
    let mut b = Vec::new();
    b.extend_from_slice(b"UNIRAST\0");
    b.extend_from_slice(&0u32.to_be_bytes());
    let tiff_bytes = urf_to_tiff(&b).unwrap();
    // A TIFF with no frames has no readable image directory.
    match Decoder::new(Cursor::new(tiff_bytes)) {
        Err(_) => {},
        Ok(mut dec) => {
            assert!(dec.dimensions().is_err());
        },
    }
}

#[test]
fn zero_area_page_is_rejected_before_encoding() {
    // A page may decode with no area (here width 0), but the image encoder
    // refuses zero-dimension frames, so the pipeline rejects the document
    // without touching the encoder.
    let mut b = Vec::new();
    b.extend_from_slice(b"UNIRAST\0");
    b.extend_from_slice(&1u32.to_be_bytes());
    let mut header = [0u8; 32];
    header[0] = 8; // bits per pixel
    header[1] = 0; // sGray
    header[2] = 1;
    header[16..20].copy_from_slice(&2u32.to_be_bytes()); // height 2, width 0
    header[20..24].copy_from_slice(&300u32.to_be_bytes());
    b.extend_from_slice(&header);
    assert_eq!(urf_to_tiff(&b), Err(RasterError::EncodeFailure));
}
