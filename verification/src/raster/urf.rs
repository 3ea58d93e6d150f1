//! The URF (Apple raster) container.
//!
//! A document is a 12-byte file header — the magic `UNIRAST\0` followed by
//! a big-endian page count — and then, per page, a 32-byte page header and
//! the page's run-length-encoded content.  Pages are read until the stream
//! has fewer bytes left than one page header; the header's page count is
//! not consulted, as the stream's own structure bounds the pages.  URF
//! carries one isotropic resolution, reused on both axes.

use vstd::prelude::*;
use crate::raster::{spec_u32_be, u32_be, ContentFormat, Page, PageV, RasterError};
use crate::raster::rle::{rle_page, lemma_rle_page_bounds, decode_rle_page};

verus! {

/// The fields of a URF page header that drive decoding and validation.
pub ghost struct UrfHeaderV {
    pub bits_per_pixel: u8,
    pub color_space: u8,
    pub duplex: u8,
    pub quality: u8,
    pub media_position: u8,
    pub media_type: u8,
    pub width: u32,
    pub height: u32,
    pub dot_per_inch: u32,
}

/// The page header encoded at `pos`.
pub open spec fn urf_header_at(b: Seq<u8>, pos: int) -> UrfHeaderV
    recommends
        0 <= pos,
        pos + 32 <= b.len(),
{
    UrfHeaderV {
        bits_per_pixel: b[pos],
        color_space: b[pos + 1],
        duplex: b[pos + 2],
        quality: b[pos + 3],
        media_position: b[pos + 4],
        media_type: b[pos + 5],
        width: spec_u32_be(b, pos + 12),
        height: spec_u32_be(b, pos + 16),
        dot_per_inch: spec_u32_be(b, pos + 20),
    }
}

/// Every enumerated header field is within its enumeration: color space,
/// duplex mode, quality, media position and media type.
pub open spec fn urf_header_valid(h: UrfHeaderV) -> bool {
    &&& h.color_space <= 6
    &&& 1 <= h.duplex && h.duplex <= 3
    &&& (h.quality == 0 || (3 <= h.quality && h.quality <= 5))
    &&& h.media_position <= 49
    &&& h.media_type <= 13
}

/// The pixel format a page resolves to: 8-bit gray for the two gray color
/// spaces at 8 bits per pixel, 24-bit RGB for the two RGB color spaces at
/// 24 bits per pixel, nothing otherwise.
pub open spec fn urf_pixel_format(h: UrfHeaderV) -> Option<ContentFormat> {
    if (h.color_space == 0 || h.color_space == 4) && h.bits_per_pixel == 8 {
        Some(ContentFormat::Gray8)
    } else if (h.color_space == 1 || h.color_space == 5) && h.bits_per_pixel == 24 {
        Some(ContentFormat::Rgb8)
    } else {
        None
    }
}

/// The page's pixel data cannot be addressed: its byte count overflows, or
/// a line or the page exceeds what this platform can hold in memory.
pub open spec fn urf_too_large(h: UrfHeaderV) -> bool {
    let chunk = h.bits_per_pixel as int / 8;
    ||| h.width * h.height * chunk > u64::MAX
    ||| h.width * chunk > usize::MAX
    ||| h.width * h.height * chunk > usize::MAX
}

/// The page a URF header and decoded content become: the single DPI value
/// is used for both axes.
pub open spec fn urf_page_v(h: UrfHeaderV, fmt: ContentFormat, content: Seq<u8>) -> PageV {
    PageV {
        width: h.width,
        height: h.height,
        dpi_x: h.dot_per_inch,
        dpi_y: h.dot_per_inch,
        format: fmt,
        content,
    }
}

/// The pages encoded from `pos` to the end of the stream, or the error
/// that aborts the document.
pub open spec fn urf_pages_from(b: Seq<u8>, pos: int) -> Result<Seq<PageV>, RasterError>
    decreases b.len() - pos
        when 0 <= pos <= b.len()
        via urf_pages_from_decreases
{
    if pos + 32 > b.len() {
        Ok(Seq::empty())
    } else {
        let h = urf_header_at(b, pos);
        if !urf_header_valid(h) {
            Err(RasterError::InvalidHeaderField)
        } else {
            match urf_pixel_format(h) {
                None => Err(
                    RasterError::UnsupportedPixel {
                        color_space: h.color_space as u32,
                        bits_per_pixel: h.bits_per_pixel as u32,
                    },
                ),
                Some(fmt) => {
                    if urf_too_large(h) {
                        Err(RasterError::TooLarge)
                    } else {
                        let chunk = (h.bits_per_pixel / 8) as nat;
                        if h.width * h.height == 0 {
                            match urf_pages_from(b, pos + 32) {
                                Ok(rest) => Ok(seq![urf_page_v(h, fmt, Seq::empty())] + rest),
                                Err(e) => Err(e),
                            }
                        } else {
                            match rle_page(
                                b,
                                pos + 32,
                                h.height as nat,
                                (h.width * chunk) as nat,
                                chunk,
                                0xff,
                                Seq::empty(),
                            ) {
                                Err(e) => Err(e),
                                Ok(pe) => match urf_pages_from(b, pe.1) {
                                    Ok(rest) => Ok(seq![urf_page_v(h, fmt, pe.0)] + rest),
                                    Err(e) => Err(e),
                                },
                            }
                        }
                    }
                },
            }
        }
    }
}

#[via_fn]
proof fn urf_pages_from_decreases(b: Seq<u8>, pos: int) {
    if pos + 32 <= b.len() {
        let h = urf_header_at(b, pos);
        if urf_header_valid(h) && urf_pixel_format(h) is Some && !urf_too_large(h) && h.width
            * h.height != 0 {
            let chunk = (h.bits_per_pixel / 8) as nat;
            assert(h.width >= 1 && h.width * chunk >= 1) by (nonlinear_arith)
                requires h.width * h.height != 0 && chunk >= 1;
            lemma_rle_page_bounds(
                b,
                pos + 32,
                h.height as nat,
                (h.width * chunk) as nat,
                chunk,
                0xff,
                Seq::empty(),
            );
        }
    }
}

/// The stream opens with the URF magic `UNIRAST\0` and a page count.
pub open spec fn urf_magic_ok(b: Seq<u8>) -> bool {
    &&& b.len() >= 12
    &&& b[0] == 0x55u8
    &&& b[1] == 0x4eu8
    &&& b[2] == 0x49u8
    &&& b[3] == 0x52u8
    &&& b[4] == 0x41u8
    &&& b[5] == 0x53u8
    &&& b[6] == 0x54u8
    &&& b[7] == 0x00u8
}

/// What decoding a whole URF document yields.
pub open spec fn urf_doc(b: Seq<u8>) -> Result<Seq<PageV>, RasterError> {
    if urf_magic_ok(b) {
        urf_pages_from(b, 12)
    } else {
        Err(RasterError::InvalidMagic)
    }
}

/// The document prefix already decoded composes with what remains.
pub open spec fn pages_compose(
    outer: Result<Seq<PageV>, RasterError>,
    done: Seq<PageV>,
    inner: Result<Seq<PageV>, RasterError>,
) -> bool {
    match inner {
        Ok(rest) => outer == Ok::<Seq<PageV>, RasterError>(done + rest),
        Err(e) => outer == Err::<Seq<PageV>, RasterError>(e),
    }
}

/// Decode a whole URF document into its pages.  Single-pass and
/// forward-only; any per-page validation failure aborts the document.
pub fn urf_to_pages(b: &[u8]) -> (r: Result<Vec<Page>, RasterError>)
    ensures
        r matches Ok(pages) ==> urf_doc(b@) == Ok::<Seq<PageV>, RasterError>(
            pages@.map_values(|p: Page| p@),
        ),
        r matches Err(e) ==> urf_doc(b@) == Err::<Seq<PageV>, RasterError>(e),
{
    let blen = b.len();
    if blen < 12 {
        return Err(RasterError::InvalidMagic);
    }
    if !(b[0] == 0x55 && b[1] == 0x4e && b[2] == 0x49 && b[3] == 0x52 && b[4] == 0x41 && b[5]
        == 0x53 && b[6] == 0x54 && b[7] == 0x00) {
        return Err(RasterError::InvalidMagic);
    }
    let mut pages: Vec<Page> = Vec::new();
    let mut pos: usize = 12;
    proof {
        assert(pages@.map_values(|p: Page| p@) =~= Seq::<PageV>::empty());
        assert(forall|rest: Seq<PageV>| Seq::<PageV>::empty() + rest =~= rest);
    }
    while blen - pos >= 32
        invariant
            blen == b@.len(),
            12 <= pos <= blen,
            urf_magic_ok(b@),
            pages_compose(
                urf_pages_from(b@, 12),
                pages@.map_values(|p: Page| p@),
                urf_pages_from(b@, pos as int),
            ),
        decreases blen - pos,
    {
        let ghost done_before = pages@.map_values(|p: Page| p@);
        let ghost pos_before = pos as int;
        let bpp = b[pos];
        let cs = b[pos + 1];
        let duplex = b[pos + 2];
        let quality = b[pos + 3];
        let mpos = b[pos + 4];
        let mtype = b[pos + 5];
        let width = u32_be(b, pos + 12);
        let height = u32_be(b, pos + 16);
        let dpi = u32_be(b, pos + 20);
        let ghost h = urf_header_at(b@, pos as int);
        proof {
            assert(h.bits_per_pixel == bpp && h.color_space == cs && h.duplex == duplex
                && h.quality == quality && h.media_position == mpos && h.media_type == mtype
                && h.width == width && h.height == height && h.dot_per_inch == dpi);
        }
        if !(cs <= 6 && 1 <= duplex && duplex <= 3 && (quality == 0 || (3 <= quality && quality
            <= 5)) && mpos <= 49 && mtype <= 13) {
            proof {
                assert(!urf_header_valid(h));
            }
            return Err(RasterError::InvalidHeaderField);
        }
        let fmt: ContentFormat;
        if (cs == 0 || cs == 4) && bpp == 8 {
            fmt = ContentFormat::Gray8;
        } else if (cs == 1 || cs == 5) && bpp == 24 {
            fmt = ContentFormat::Rgb8;
        } else {
            proof {
                assert(urf_pixel_format(h) is None);
            }
            return Err(
                RasterError::UnsupportedPixel {
                    color_space: cs as u32,
                    bits_per_pixel: bpp as u32,
                },
            );
        }
        let chunk: u64 = (bpp / 8) as u64;
        proof {
            assert(chunk == 1 || chunk == 3);
            assert((width as int) * (height as int) < 0x10000000000000000) by (nonlinear_arith)
                requires width <= 0xffffffffu32 && height <= 0xffffffffu32;
        }
        let wh: u64 = (width as u64) * (height as u64);
        if chunk == 3 && wh > 0x5555_5555_5555_5555u64 {
            proof {
                assert((wh as int) * 3 > u64::MAX) by (nonlinear_arith)
                    requires wh > 0x5555_5555_5555_5555u64;
                assert(urf_too_large(h));
            }
            return Err(RasterError::TooLarge);
        }
        proof {
            assert((wh as int) * (chunk as int) <= u64::MAX) by (nonlinear_arith)
                requires
                    chunk == 1 || (chunk == 3 && wh <= 0x5555_5555_5555_5555u64),
                    wh <= u64::MAX,
            ;
        }
        let num: u64 = wh * chunk;
        proof {
            assert((width as int) * (chunk as int) <= (0xffffffffu64 as int) * 3)
                by (nonlinear_arith)
                requires width <= 0xffffffffu32 && chunk <= 3;
        }
        let bpl: u64 = (width as u64) * chunk;
        if bpl > usize::MAX as u64 || num > usize::MAX as u64 {
            proof {
                assert(urf_too_large(h));
            }
            return Err(RasterError::TooLarge);
        }
        proof {
            assert(!urf_too_large(h));
        }
        if wh == 0 {
            proof {
                assert(h.width * h.height == 0) by (nonlinear_arith)
                    requires
                        wh == 0,
                        (width as int) * (height as int) == wh as int,
                        h.width == width && h.height == height,
                ;
            }
            let page = Page {
                width,
                height,
                dpi_x: dpi,
                dpi_y: dpi,
                format: fmt,
                content: Vec::new(),
            };
            proof {
                assert(page@ == urf_page_v(h, fmt, Seq::<u8>::empty()));
            }
            pages.push(page);
            pos = pos + 32;
            proof {
                assert(pages@.map_values(|p: Page| p@) =~= done_before.push(
                    urf_page_v(h, fmt, Seq::<u8>::empty()),
                ));
                lemma_compose_step(
                    urf_pages_from(b@, 12),
                    done_before,
                    urf_page_v(h, fmt, Seq::<u8>::empty()),
                    urf_pages_from(b@, pos_before),
                    urf_pages_from(b@, pos as int),
                );
            }
        } else {
            proof {
                assert(h.width * h.height != 0 && h.width >= 1) by (nonlinear_arith)
                    requires
                        wh != 0,
                        (width as int) * (height as int) == wh as int,
                        h.width == width && h.height == height,
                ;
                assert((bpl as int) == h.width * ((h.bits_per_pixel / 8) as nat));
                assert(bpl >= 1) by (nonlinear_arith)
                    requires (bpl as int) == (width as int) * (chunk as int) && width >= 1 && chunk >= 1;
            }
            match decode_rle_page(b, pos + 32, height as usize, bpl as usize, chunk as usize, 0xff) {
                Err(e) => {
                    return Err(e);
                },
                Ok((content, p2)) => {
                    let page = Page {
                        width,
                        height,
                        dpi_x: dpi,
                        dpi_y: dpi,
                        format: fmt,
                        content,
                    };
                    let ghost pv = page@;
                    pages.push(page);
                    pos = p2;
                    proof {
                        assert(pages@.map_values(|p: Page| p@) =~= done_before.push(pv));
                        lemma_compose_step(
                            urf_pages_from(b@, 12),
                            done_before,
                            pv,
                            urf_pages_from(b@, pos_before),
                            urf_pages_from(b@, pos as int),
                        );
                    }
                },
            }
        }
    }
    proof {
        assert(urf_pages_from(b@, pos as int) == Ok::<Seq<PageV>, RasterError>(Seq::empty()));
        assert(pages@.map_values(|p: Page| p@) + Seq::<PageV>::empty() =~= pages@.map_values(
            |p: Page| p@,
        ));
    }
    Ok(pages)
}

/// One decoded page moves from the remainder to the prefix.
proof fn lemma_compose_step(
    outer: Result<Seq<PageV>, RasterError>,
    done: Seq<PageV>,
    page: PageV,
    inner_before: Result<Seq<PageV>, RasterError>,
    inner_after: Result<Seq<PageV>, RasterError>,
)
    requires
        pages_compose(outer, done, inner_before),
        inner_before == (match inner_after {
            Ok(rest) => Ok::<Seq<PageV>, RasterError>(seq![page] + rest),
            Err(e) => Err::<Seq<PageV>, RasterError>(e),
        }),
    ensures
        pages_compose(outer, done.push(page), inner_after),
{
    match inner_after {
        Ok(rest) => {
            assert(done + (seq![page] + rest) =~= done.push(page) + rest);
        },
        Err(e) => {},
    }
}

} // verus!
