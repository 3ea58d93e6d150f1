//! Raster transcoding: decode URF or CUPS raster documents page by page and
//! re-encode them as a multi-frame TIFF.
//!
//! Decoding is this library's own logic, verified against byte-level
//! specifications of the two container formats; the TIFF encoding is done by
//! the `tiff` crate behind trusted wrappers.  Validation is applied per page
//! and any failure aborts the whole document: no partial output is handed
//! on.

pub mod cups;
pub mod rle;
pub mod tiffsink;
pub mod urf;

use vstd::prelude::*;
use crate::raster::cups::{cups_doc, cups_to_pages};
use crate::raster::tiffsink::{all_accepted, encode_pages, tiff_bytes_match};
use crate::raster::urf::{urf_doc, urf_to_pages};

verus! {

/// The pixel format of a decoded page.  Only these two formats can be
/// printed; a page reporting any other (color space, bits per pixel) pair
/// fails the whole document.
#[derive(Clone, Copy, Debug, PartialEq, Eq, Structural)]
pub enum ContentFormat {
    /// 8-bit grayscale, one byte per pixel.
    Gray8,
    /// 24-bit RGB, three bytes per pixel.
    Rgb8,
}

/// One decoded raster page: geometry, resolution, pixel format and the
/// owned pixel bytes.  Produced by a decoder, consumed and discarded by the
/// encoder sink.
#[derive(Debug, PartialEq, Eq)]
pub struct Page {
    pub width: u32,
    pub height: u32,
    pub dpi_x: u32,
    pub dpi_y: u32,
    pub format: ContentFormat,
    pub content: Vec<u8>,
}

/// The mathematical value of a page.
pub ghost struct PageV {
    pub width: u32,
    pub height: u32,
    pub dpi_x: u32,
    pub dpi_y: u32,
    pub format: ContentFormat,
    pub content: Seq<u8>,
}

impl View for Page {
    type V = PageV;

    open spec fn view(&self) -> PageV {
        PageV {
            width: self.width,
            height: self.height,
            dpi_x: self.dpi_x,
            dpi_y: self.dpi_y,
            format: self.format,
            content: self.content@,
        }
    }
}

/// Why a raster document was rejected.  Every failure aborts the whole
/// document; the caller discards any partial output.
#[derive(Clone, Copy, Debug, PartialEq, Eq, Structural)]
pub enum RasterError {
    /// The container's magic bytes or sync word are wrong.
    InvalidMagic,
    /// A page header field holds a value outside its enumeration.
    InvalidHeaderField,
    /// A page reports a (color space, bits per pixel) pair that is neither
    /// 8-bit gray nor 24-bit RGB.
    UnsupportedPixel { color_space: u32, bits_per_pixel: u32 },
    /// A CUPS page stores its colors in an order other than chunky
    /// (interleaved).
    UnsupportedColorOrder { color_order: u32 },
    /// A compressed block overruns its line.
    InvalidRasterData,
    /// The stream ends inside a page.
    Truncated,
    /// A page declares more pixel data than can be addressed.
    TooLarge,
    /// The TIFF encoder failed, or a page's content does not match its
    /// declared geometry.
    EncodeFailure,
}

/// A page's content length agrees with its geometry and pixel format.
pub open spec fn page_wf(p: PageV) -> bool {
    p.content.len() == p.width * p.height * (match p.format {
        ContentFormat::Gray8 => 1int,
        ContentFormat::Rgb8 => 3int,
    })
}

/// The page can become a frame: its content matches its geometry and it
/// has area — the image encoder refuses zero-dimension frames up front.
pub open spec fn page_encodable(p: PageV) -> bool {
    page_wf(p) && p.width > 0 && p.height > 0
}

/// Every page can become a frame.
pub open spec fn pages_encodable(pages: Seq<PageV>) -> bool {
    forall|i: int| 0 <= i < pages.len() ==> page_encodable(#[trigger] pages[i])
}

/// Read a big-endian 32-bit value.
pub open spec fn spec_u32_be(b: Seq<u8>, i: int) -> u32
    recommends
        0 <= i,
        i + 4 <= b.len(),
{
    (b[i] * 0x1000000 + b[i + 1] * 0x10000 + b[i + 2] * 0x100 + b[i + 3]) as u32
}

/// Read a little-endian 32-bit value.
pub open spec fn spec_u32_le(b: Seq<u8>, i: int) -> u32
    recommends
        0 <= i,
        i + 4 <= b.len(),
{
    (b[i + 3] * 0x1000000 + b[i + 2] * 0x10000 + b[i + 1] * 0x100 + b[i]) as u32
}

/// Read a big-endian 32-bit value from a byte slice.
pub fn u32_be(b: &[u8], i: usize) -> (r: u32)
    requires
        i + 4 <= b@.len(),
    ensures
        r == spec_u32_be(b@, i as int),
{
    let _blen = b.len();
    (b[i] as u32) * 0x1000000 + (b[i + 1] as u32) * 0x10000 + (b[i + 2] as u32) * 0x100 + (b[i + 3]
        as u32)
}

/// Read a little-endian 32-bit value from a byte slice.
pub fn u32_le(b: &[u8], i: usize) -> (r: u32)
    requires
        i + 4 <= b@.len(),
    ensures
        r == spec_u32_le(b@, i as int),
{
    let _blen = b.len();
    (b[i + 3] as u32) * 0x1000000 + (b[i + 2] as u32) * 0x10000 + (b[i + 1] as u32) * 0x100 + (b[i]
        as u32)
}

/// Transcode a URF document to a multi-frame TIFF.  Each decoded page
/// becomes one frame, tagged with the page's DPI on both axes; any decode
/// or validation failure aborts the document with its exact error, and no
/// bytes are returned.  On a document that decodes, the call succeeds
/// exactly when every page matches its declared geometry and the encoder
/// accepts every frame.
pub fn urf_to_tiff(b: &[u8]) -> (r: Result<Vec<u8>, RasterError>)
    ensures
        r matches Ok(bytes) ==> (urf_doc(b@) matches Ok(pv) && pages_encodable(pv)
            && all_accepted(pv) && tiff_bytes_match(bytes@, pv)),
        r matches Err(e) ==> urf_doc(b@) == Err::<Seq<PageV>, RasterError>(e) || (urf_doc(b@)
            matches Ok(pv) && e == RasterError::EncodeFailure && !(pages_encodable(pv)
            && all_accepted(pv))),
{
    match urf_to_pages(b) {
        Err(e) => Err(e),
        Ok(pages) => encode_pages(&pages),
    }
}

/// Transcode a CUPS raster document to a multi-frame TIFF, as
/// `urf_to_tiff` does for URF.
pub fn cups_raster_to_tiff(b: &[u8]) -> (r: Result<Vec<u8>, RasterError>)
    ensures
        r matches Ok(bytes) ==> (cups_doc(b@) matches Ok(pv) && pages_encodable(pv)
            && all_accepted(pv) && tiff_bytes_match(bytes@, pv)),
        r matches Err(e) ==> cups_doc(b@) == Err::<Seq<PageV>, RasterError>(e) || (cups_doc(b@)
            matches Ok(pv) && e == RasterError::EncodeFailure && !(pages_encodable(pv)
            && all_accepted(pv))),
{
    match cups_to_pages(b) {
        Err(e) => Err(e),
        Ok(pages) => encode_pages(&pages),
    }
}

} // verus!
