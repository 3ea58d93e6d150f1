//! URF and CUPS raster decoding.

use ipp_sharing::raster::cups::cups_to_pages;
use ipp_sharing::raster::urf::urf_to_pages;
use ipp_sharing::raster::{ContentFormat, RasterError};

fn urf_stream(pages: &[(u8, u8, u32, u32, u32, Vec<u8>)]) -> Vec<u8> {
    // (bits_per_pixel, color_space, width, height, dpi, rle content)
    let mut b = Vec::new();
    b.extend_from_slice(b"UNIRAST\0");
    b.extend_from_slice(&(pages.len() as u32).to_be_bytes());
    for (bpp, cs, w, h, dpi, content) in pages {
        let mut header = [0u8; 32];
        header[0] = *bpp;
        header[1] = *cs;
        header[2] = 1; // duplex: no duplex
        header[3] = 0; // quality: default
        header[12..16].copy_from_slice(&w.to_be_bytes());
        header[16..20].copy_from_slice(&h.to_be_bytes());
        header[20..24].copy_from_slice(&dpi.to_be_bytes());
        b.extend_from_slice(&header);
        b.extend_from_slice(content);
    }
    b
}

fn cups_header(le: bool, dpi: (u32, u32), w: u32, h: u32, bpp: u32, bpl: u32, order: u32, cs: u32)
    -> Vec<u8> {
    let mut header = vec![0u8; 1796];
    let mut put = |off: usize, v: u32| {
        let bytes = if le { v.to_le_bytes() } else { v.to_be_bytes() };
        header[off..off + 4].copy_from_slice(&bytes);
    };
    put(276, dpi.0);
    put(280, dpi.1);
    put(372, w);
    put(376, h);
    put(384, 8); // bits per color
    put(388, bpp);
    put(392, bpl);
    put(396, order);
    put(400, cs);
    header
}

#[test]
fn urf_two_gray_pages_decode() {
    // Two 2x2 8-bit gray pages; each line is two literal pixels.
    let p1 = vec![0x00, 0xff, 10, 20, 0x00, 0xff, 30, 40];
    let p2 = vec![0x00, 0xff, 50, 60, 0x00, 0xff, 70, 80];
    let b = urf_stream(&[(8, 0, 2, 2, 300, p1), (8, 4, 2, 2, 600, p2)]);
    let pages = urf_to_pages(&b).unwrap();
    assert_eq!(pages.len(), 2);
    assert_eq!(pages[0].format, ContentFormat::Gray8);
    assert_eq!((pages[0].width, pages[0].height), (2, 2));
    assert_eq!((pages[0].dpi_x, pages[0].dpi_y), (300, 300));
    assert_eq!(pages[0].content, vec![10, 20, 30, 40]);
    assert_eq!((pages[1].dpi_x, pages[1].dpi_y), (600, 600));
    assert_eq!(pages[1].content, vec![50, 60, 70, 80]);
}

#[test]
fn urf_pixel_and_line_repeats_expand() {
    // One 4x3 gray page: a repeat byte of 2 emits the line three times; the
    // line itself is one pixel emitted 2 + 1 times plus a literal pixel.
    let content = vec![0x02, 0x02, 9, 0x00, 7];
    let b = urf_stream(&[(8, 0, 4, 3, 203, content)]);
    let pages = urf_to_pages(&b).unwrap();
    assert_eq!(pages[0].content, vec![9, 9, 9, 7, 9, 9, 9, 7, 9, 9, 9, 7]);
}

#[test]
fn urf_fill_code_completes_the_line_with_white() {
    // One 4x1 gray page: one literal pixel, then the fill code.
    let content = vec![0x00, 0x00, 5, 0x80];
    let b = urf_stream(&[(8, 0, 4, 1, 300, content)]);
    let pages = urf_to_pages(&b).unwrap();
    assert_eq!(pages[0].content, vec![5, 0xff, 0xff, 0xff]);
}

#[test]
fn urf_rgb_page_decodes() {
    let content = vec![0x00, 0x00, 1, 2, 3];
    let b = urf_stream(&[(24, 1, 1, 1, 300, content)]);
    let pages = urf_to_pages(&b).unwrap();
    assert_eq!(pages[0].format, ContentFormat::Rgb8);
    assert_eq!(pages[0].content, vec![1, 2, 3]);
}

#[test]
fn urf_cmyk_page_aborts_whole_document() {
    let good = vec![0x00, 0xff, 10, 20, 0x00, 0xff, 30, 40];
    let cmyk = vec![0x00, 0x00, 0, 0x80];
    let b = urf_stream(&[(8, 0, 2, 2, 300, good), (32, 6, 1, 1, 300, cmyk)]);
    assert_eq!(
        urf_to_pages(&b),
        Err(RasterError::UnsupportedPixel { color_space: 6, bits_per_pixel: 32 })
    );
}

#[test]
fn urf_wrong_magic_is_rejected() {
    assert_eq!(urf_to_pages(b"UNIRASTX\0\0\0\0"), Err(RasterError::InvalidMagic));
    assert_eq!(urf_to_pages(b"UNIR"), Err(RasterError::InvalidMagic));
}

#[test]
fn urf_truncated_page_aborts() {
    // The second line group is cut off inside its pixel data.
    let content = vec![0x00, 0xff, 10, 20, 0x00, 0xff, 30];
    let b = urf_stream(&[(8, 0, 2, 2, 300, content)]);
    assert_eq!(urf_to_pages(&b), Err(RasterError::Truncated));
}

#[test]
fn urf_block_overrunning_its_line_aborts() {
    // A repeat block of 4 pixels cannot fit a 2-byte line.
    let content = vec![0x00, 0x03, 10];
    let b = urf_stream(&[(8, 0, 2, 1, 300, content)]);
    assert_eq!(urf_to_pages(&b), Err(RasterError::InvalidRasterData));
}

#[test]
fn cups_v2_little_endian_gray_decodes() {
    let mut b = b"2SaR".to_vec();
    b.extend_from_slice(&cups_header(true, (300, 600), 2, 2, 8, 2, 0, 18));
    b.extend_from_slice(&[0x00, 0xff, 10, 20, 0x00, 0xff, 30, 40]);
    let pages = cups_to_pages(&b).unwrap();
    assert_eq!(pages.len(), 1);
    assert_eq!(pages[0].format, ContentFormat::Gray8);
    assert_eq!((pages[0].dpi_x, pages[0].dpi_y), (300, 600));
    assert_eq!(pages[0].content, vec![10, 20, 30, 40]);
}

#[test]
fn cups_v3_big_endian_raw_content_decodes() {
    let mut b = b"RaS3".to_vec();
    b.extend_from_slice(&cups_header(false, (203, 203), 2, 2, 8, 2, 0, 0));
    b.extend_from_slice(&[1, 2, 3, 4]);
    let pages = cups_to_pages(&b).unwrap();
    assert_eq!(pages[0].content, vec![1, 2, 3, 4]);
}

#[test]
fn cups_v1_big_endian_has_short_header() {
    // Version 1 headers stop after the 420-byte prefix.
    let mut b = b"RaSt".to_vec();
    b.extend_from_slice(&cups_header(false, (100, 100), 2, 1, 8, 2, 0, 0)[..420]);
    b.extend_from_slice(&[8, 9]);
    let pages = cups_to_pages(&b).unwrap();
    assert_eq!(pages[0].content, vec![8, 9]);
}

#[test]
fn cups_planar_color_order_aborts() {
    let mut b = b"2SaR".to_vec();
    b.extend_from_slice(&cups_header(true, (300, 300), 2, 2, 8, 2, 2, 18));
    assert_eq!(
        cups_to_pages(&b),
        Err(RasterError::UnsupportedColorOrder { color_order: 2 })
    );
}

#[test]
fn cups_cmyk_page_aborts() {
    let mut b = b"2SaR".to_vec();
    b.extend_from_slice(&cups_header(true, (300, 300), 2, 2, 32, 8, 0, 6));
    assert_eq!(
        cups_to_pages(&b),
        Err(RasterError::UnsupportedPixel { color_space: 6, bits_per_pixel: 32 })
    );
}

#[test]
fn cups_wrong_sync_word_is_rejected() {
    assert_eq!(cups_to_pages(b"3Sar"), Err(RasterError::InvalidMagic));
}

#[test]
fn cups_truncated_raw_content_aborts() {
    let mut b = b"RaS3".to_vec();
    b.extend_from_slice(&cups_header(false, (203, 203), 2, 2, 8, 2, 0, 0));
    b.extend_from_slice(&[1, 2, 3]);
    assert_eq!(cups_to_pages(&b), Err(RasterError::Truncated));
}
