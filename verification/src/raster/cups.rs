//! The CUPS unified raster container.
//!
//! A document opens with a four-byte sync word naming the version and byte
//! order: `RaSt`/`tSaR` for version 1, `RaS2`/`2SaR` for version 2,
//! `RaS3`/`3SaR` for version 3, the reversed forms marking little-endian
//! streams.  Each page is a header — 420 bytes in version 1, 1796 bytes in
//! versions 2 and 3 — followed by the page's content: run-length encoded
//! in version 2, raw in versions 1 and 3.  Pages are read until the stream
//! has fewer bytes left than one header.  CUPS pages carry independent
//! cross-feed and feed resolutions, and must store their colors chunky
//! (interleaved); the header's text fields are not inspected.

use vstd::prelude::*;
use crate::raster::{spec_u32_be, spec_u32_le, u32_be, u32_le, ContentFormat, Page, PageV,
    RasterError};
use crate::raster::rle::{rle_page, lemma_rle_page_bounds, decode_rle_page};

verus! {

/// A 32-bit header field in the stream's byte order.
pub open spec fn spec_u32_at(b: Seq<u8>, i: int, le: bool) -> u32 {
    if le {
        spec_u32_le(b, i)
    } else {
        spec_u32_be(b, i)
    }
}

/// The fields of a CUPS page header that drive decoding and validation.
pub ghost struct CupsHeaderV {
    pub advance_media: u32,
    pub cut_media: u32,
    pub jog: u32,
    pub leading_edge: u32,
    pub orientation: u32,
    pub dpi_x: u32,
    pub dpi_y: u32,
    pub width: u32,
    pub height: u32,
    pub bits_per_color: u32,
    pub bits_per_pixel: u32,
    pub bytes_per_line: u32,
    pub color_order: u32,
    pub color_space: u32,
}

/// The page header encoded at `pos`: each field at its fixed offset, in
/// the stream's byte order.
pub open spec fn cups_header_at(b: Seq<u8>, pos: int, le: bool) -> CupsHeaderV
    recommends
        0 <= pos,
        pos + 420 <= b.len(),
{
    CupsHeaderV {
        advance_media: spec_u32_at(b, pos + 260, le),
        cut_media: spec_u32_at(b, pos + 268, le),
        jog: spec_u32_at(b, pos + 304, le),
        leading_edge: spec_u32_at(b, pos + 308, le),
        orientation: spec_u32_at(b, pos + 344, le),
        dpi_x: spec_u32_at(b, pos + 276, le),
        dpi_y: spec_u32_at(b, pos + 280, le),
        width: spec_u32_at(b, pos + 372, le),
        height: spec_u32_at(b, pos + 376, le),
        bits_per_color: spec_u32_at(b, pos + 384, le),
        bits_per_pixel: spec_u32_at(b, pos + 388, le),
        bytes_per_line: spec_u32_at(b, pos + 392, le),
        color_order: spec_u32_at(b, pos + 396, le),
        color_space: spec_u32_at(b, pos + 400, le),
    }
}

/// The color space enumeration has three ranges: the named spaces, the
/// ICC hints and the device colorant counts.
pub open spec fn cups_color_space_valid(cs: u32) -> bool {
    cs <= 20 || (32 <= cs && cs <= 46) || (48 <= cs && cs <= 62)
}

/// Every enumerated header field is within its enumeration.
pub open spec fn cups_header_valid(h: CupsHeaderV) -> bool {
    &&& h.advance_media <= 4
    &&& h.cut_media <= 4
    &&& h.jog <= 3
    &&& h.leading_edge <= 3
    &&& h.orientation <= 3
    &&& h.color_order <= 2
    &&& cups_color_space_valid(h.color_space)
}

/// The color chunk the page's lines are made of: whole bytes per pixel for
/// chunky pages, per color otherwise, at least one byte.
pub open spec fn cups_chunk0(h: CupsHeaderV) -> int {
    let raw = if h.color_order == 0 {
        (h.bits_per_pixel as int + 7) / 8
    } else {
        (h.bits_per_color as int + 7) / 8
    };
    if raw < 1 {
        1
    } else {
        raw
    }
}

/// The pixel format a page resolves to: 8-bit gray for sGray or Gray at 8
/// bits per pixel, 24-bit RGB for sRGB or RGB at 24 bits per pixel,
/// nothing otherwise.
pub open spec fn cups_pixel_format(h: CupsHeaderV) -> Option<ContentFormat> {
    if (h.color_space == 18 || h.color_space == 0) && h.bits_per_pixel == 8 {
        Some(ContentFormat::Gray8)
    } else if (h.color_space == 19 || h.color_space == 1) && h.bits_per_pixel == 24 {
        Some(ContentFormat::Rgb8)
    } else {
        None
    }
}

/// The page a CUPS header and decoded content become: cross-feed DPI on
/// the horizontal axis, feed DPI on the vertical.
pub open spec fn cups_page_v(h: CupsHeaderV, fmt: ContentFormat, content: Seq<u8>) -> PageV {
    PageV {
        width: h.width,
        height: h.height,
        dpi_x: h.dpi_x,
        dpi_y: h.dpi_y,
        format: fmt,
        content,
    }
}

/// The header size of the given container version.
pub open spec fn cups_header_size(version: nat) -> int {
    if version == 1 {
        420
    } else {
        1796
    }
}

/// The pages encoded from `pos` to the end of the stream, or the error
/// that aborts the document.
pub open spec fn cups_pages_from(b: Seq<u8>, pos: int, le: bool, version: nat) -> Result<
    Seq<PageV>,
    RasterError,
>
    decreases b.len() - pos
        when 0 <= pos <= b.len() && 1 <= version <= 3
        via cups_pages_from_decreases
{
    let hsize = cups_header_size(version);
    if pos + hsize > b.len() {
        Ok(Seq::empty())
    } else {
        let h = cups_header_at(b, pos, le);
        if !cups_header_valid(h) {
            Err(RasterError::InvalidHeaderField)
        } else if cups_chunk0(h) > 255 {
            Err(RasterError::TooLarge)
        } else if h.bytes_per_line != 0 && h.bytes_per_line as int % cups_chunk0(h) != 0 {
            Err(RasterError::InvalidHeaderField)
        } else if h.color_order != 0 {
            Err(RasterError::UnsupportedColorOrder { color_order: h.color_order })
        } else {
            match cups_pixel_format(h) {
                None => Err(
                    RasterError::UnsupportedPixel {
                        color_space: h.color_space,
                        bits_per_pixel: h.bits_per_pixel,
                    },
                ),
                Some(fmt) => {
                    let num = h.bytes_per_line * h.height;
                    if num == 0 {
                        match cups_pages_from(b, pos + hsize, le, version) {
                            Ok(rest) => Ok(seq![cups_page_v(h, fmt, Seq::empty())] + rest),
                            Err(e) => Err(e),
                        }
                    } else if version == 2 {
                        let chunk = (if fmt == ContentFormat::Gray8 {
                            1nat
                        } else {
                            3nat
                        });
                        match rle_page(
                            b,
                            pos + hsize,
                            h.height as nat,
                            h.bytes_per_line as nat,
                            chunk,
                            0xff,
                            Seq::empty(),
                        ) {
                            Err(e) => Err(e),
                            Ok(pe) => match cups_pages_from(b, pe.1, le, version) {
                                Ok(rest) => Ok(seq![cups_page_v(h, fmt, pe.0)] + rest),
                                Err(e) => Err(e),
                            },
                        }
                    } else {
                        if pos + hsize + num > b.len() {
                            Err(RasterError::Truncated)
                        } else {
                            match cups_pages_from(b, pos + hsize + num, le, version) {
                                Ok(rest) => Ok(
                                    seq![
                                        cups_page_v(
                                            h,
                                            fmt,
                                            b.subrange(pos + hsize, pos + hsize + num),
                                        ),
                                    ] + rest,
                                ),
                                Err(e) => Err(e),
                            }
                        }
                    }
                },
            }
        }
    }
}

#[via_fn]
proof fn cups_pages_from_decreases(b: Seq<u8>, pos: int, le: bool, version: nat) {
    let hsize = cups_header_size(version);
    if pos + hsize <= b.len() {
        let h = cups_header_at(b, pos, le);
        if cups_header_valid(h) && cups_chunk0(h) <= 255 && (h.bytes_per_line == 0
            || h.bytes_per_line as int % cups_chunk0(h) == 0) && h.color_order == 0
            && cups_pixel_format(h) is Some {
            let num = h.bytes_per_line * h.height;
            if num != 0 && version == 2 {
                let fmt = cups_pixel_format(h)->Some_0;
                let chunk = (if fmt == ContentFormat::Gray8 {
                    1nat
                } else {
                    3nat
                });
                assert(h.bytes_per_line >= 1) by (nonlinear_arith)
                    requires h.bytes_per_line * h.height != 0;
                lemma_rle_page_bounds(
                    b,
                    pos + hsize,
                    h.height as nat,
                    h.bytes_per_line as nat,
                    chunk,
                    0xff,
                    Seq::empty(),
                );
            }
        }
    }
}

/// The version and byte order named by the document's sync word, if it is
/// one of the six.
pub open spec fn cups_sync_word(b: Seq<u8>) -> Option<(nat, bool)> {
    if b.len() < 4 {
        None
    } else if b[0] == 0x52u8 && b[1] == 0x61u8 && b[2] == 0x53u8 && b[3] == 0x74u8 {
        Some((1nat, false))
    } else if b[0] == 0x74u8 && b[1] == 0x53u8 && b[2] == 0x61u8 && b[3] == 0x52u8 {
        Some((1nat, true))
    } else if b[0] == 0x52u8 && b[1] == 0x61u8 && b[2] == 0x53u8 && b[3] == 0x32u8 {
        Some((2nat, false))
    } else if b[0] == 0x32u8 && b[1] == 0x53u8 && b[2] == 0x61u8 && b[3] == 0x52u8 {
        Some((2nat, true))
    } else if b[0] == 0x52u8 && b[1] == 0x61u8 && b[2] == 0x53u8 && b[3] == 0x33u8 {
        Some((3nat, false))
    } else if b[0] == 0x33u8 && b[1] == 0x53u8 && b[2] == 0x61u8 && b[3] == 0x52u8 {
        Some((3nat, true))
    } else {
        None
    }
}

/// What decoding a whole CUPS raster document yields.
pub open spec fn cups_doc(b: Seq<u8>) -> Result<Seq<PageV>, RasterError> {
    match cups_sync_word(b) {
        None => Err(RasterError::InvalidMagic),
        Some(vle) => cups_pages_from(b, 4, vle.1, vle.0),
    }
}

/// The document prefix already decoded composes with what remains.
pub open spec fn cups_compose(
    outer: Result<Seq<PageV>, RasterError>,
    done: Seq<PageV>,
    inner: Result<Seq<PageV>, RasterError>,
) -> bool {
    match inner {
        Ok(rest) => outer == Ok::<Seq<PageV>, RasterError>(done + rest),
        Err(e) => outer == Err::<Seq<PageV>, RasterError>(e),
    }
}

/// One decoded page moves from the remainder to the prefix.
proof fn lemma_cups_compose_step(
    outer: Result<Seq<PageV>, RasterError>,
    done: Seq<PageV>,
    page: PageV,
    inner_before: Result<Seq<PageV>, RasterError>,
    inner_after: Result<Seq<PageV>, RasterError>,
)
    requires
        cups_compose(outer, done, inner_before),
        inner_before == (match inner_after {
            Ok(rest) => Ok::<Seq<PageV>, RasterError>(seq![page] + rest),
            Err(e) => Err::<Seq<PageV>, RasterError>(e),
        }),
    ensures
        cups_compose(outer, done.push(page), inner_after),
{
    match inner_after {
        Ok(rest) => {
            assert(done + (seq![page] + rest) =~= done.push(page) + rest);
        },
        Err(e) => {},
    }
}

/// Decode a whole CUPS raster document into its pages.  Single-pass and
/// forward-only; any per-page validation failure aborts the document.
#[verifier::rlimit(100)]
pub fn cups_to_pages(b: &[u8]) -> (r: Result<Vec<Page>, RasterError>)
    ensures
        r matches Ok(pages) ==> cups_doc(b@) == Ok::<Seq<PageV>, RasterError>(
            pages@.map_values(|p: Page| p@),
        ),
        r matches Err(e) ==> cups_doc(b@) == Err::<Seq<PageV>, RasterError>(e),
{
    let blen = b.len();
    if blen < 4 {
        return Err(RasterError::InvalidMagic);
    }
    let le: bool;
    let version: u8;
    if b[0] == 0x52 && b[1] == 0x61 && b[2] == 0x53 && b[3] == 0x74 {
        le = false;
        version = 1;
    } else if b[0] == 0x74 && b[1] == 0x53 && b[2] == 0x61 && b[3] == 0x52 {
        le = true;
        version = 1;
    } else if b[0] == 0x52 && b[1] == 0x61 && b[2] == 0x53 && b[3] == 0x32 {
        le = false;
        version = 2;
    } else if b[0] == 0x32 && b[1] == 0x53 && b[2] == 0x61 && b[3] == 0x52 {
        le = true;
        version = 2;
    } else if b[0] == 0x52 && b[1] == 0x61 && b[2] == 0x53 && b[3] == 0x33 {
        le = false;
        version = 3;
    } else if b[0] == 0x33 && b[1] == 0x53 && b[2] == 0x61 && b[3] == 0x52 {
        le = true;
        version = 3;
    } else {
        proof {
            assert(cups_sync_word(b@) is None);
        }
        return Err(RasterError::InvalidMagic);
    }
    proof {
        assert(cups_sync_word(b@) == Some((version as nat, le)));
    }
    let hsize: usize = if version == 1 {
        420
    } else {
        1796
    };
    let mut pages: Vec<Page> = Vec::new();
    let mut pos: usize = 4;
    proof {
        assert(pages@.map_values(|p: Page| p@) =~= Seq::<PageV>::empty());
        assert(forall|rest: Seq<PageV>| Seq::<PageV>::empty() + rest =~= rest);
    }
    while blen - pos >= hsize
        invariant
            blen == b@.len(),
            4 <= pos <= blen,
            1 <= version <= 3,
            hsize == cups_header_size(version as nat),
            cups_sync_word(b@) == Some((version as nat, le)),
            cups_compose(
                cups_pages_from(b@, 4, le, version as nat),
                pages@.map_values(|p: Page| p@),
                cups_pages_from(b@, pos as int, le, version as nat),
            ),
        decreases blen - pos,
    {
        let ghost done_before = pages@.map_values(|p: Page| p@);
        let ghost pos_before = pos as int;
        let advance_media = read_u32(b, pos + 260, le);
        let cut_media = read_u32(b, pos + 268, le);
        let jog = read_u32(b, pos + 304, le);
        let leading_edge = read_u32(b, pos + 308, le);
        let orientation = read_u32(b, pos + 344, le);
        let dpi_x = read_u32(b, pos + 276, le);
        let dpi_y = read_u32(b, pos + 280, le);
        let width = read_u32(b, pos + 372, le);
        let height = read_u32(b, pos + 376, le);
        let bits_per_color = read_u32(b, pos + 384, le);
        let bits_per_pixel = read_u32(b, pos + 388, le);
        let bytes_per_line = read_u32(b, pos + 392, le);
        let color_order = read_u32(b, pos + 396, le);
        let color_space = read_u32(b, pos + 400, le);
        let ghost h = cups_header_at(b@, pos as int, le);
        proof {
            assert(h.advance_media == advance_media && h.cut_media == cut_media && h.jog == jog
                && h.leading_edge == leading_edge && h.orientation == orientation && h.dpi_x
                == dpi_x && h.dpi_y == dpi_y && h.width == width && h.height == height
                && h.bits_per_color == bits_per_color && h.bits_per_pixel == bits_per_pixel
                && h.bytes_per_line == bytes_per_line && h.color_order == color_order
                && h.color_space == color_space);
        }
        if !(advance_media <= 4 && cut_media <= 4 && jog <= 3 && leading_edge <= 3 && orientation
            <= 3 && color_order <= 2 && (color_space <= 20 || (32 <= color_space && color_space
            <= 46) || (48 <= color_space && color_space <= 62))) {
            proof {
                assert(!cups_header_valid(h));
            }
            return Err(RasterError::InvalidHeaderField);
        }
        let chunk0: u64 = {
            let raw: u64 = if color_order == 0 {
                (bits_per_pixel as u64 + 7) / 8
            } else {
                (bits_per_color as u64 + 7) / 8
            };
            if raw < 1 {
                1
            } else {
                raw
            }
        };
        proof {
            assert(chunk0 as int == cups_chunk0(h));
        }
        if chunk0 > 255 {
            proof {
                assert(cups_pages_from(b@, pos_before, le, version as nat) == Err::<
                    Seq<PageV>,
                    RasterError,
                >(RasterError::TooLarge));
            }
            return Err(RasterError::TooLarge);
        }
        if bytes_per_line != 0 && (bytes_per_line as u64) % chunk0 != 0 {
            proof {
                assert(h.bytes_per_line as int % cups_chunk0(h) != 0);
                assert(cups_pages_from(b@, pos_before, le, version as nat) == Err::<
                    Seq<PageV>,
                    RasterError,
                >(RasterError::InvalidHeaderField));
            }
            return Err(RasterError::InvalidHeaderField);
        }
        proof {
            assert(h.bytes_per_line != 0 ==> h.bytes_per_line as int % cups_chunk0(h) == 0);
        }
        if color_order != 0 {
            proof {
                assert(cups_pages_from(b@, pos_before, le, version as nat) == Err::<
                    Seq<PageV>,
                    RasterError,
                >(RasterError::UnsupportedColorOrder { color_order: h.color_order }));
            }
            return Err(RasterError::UnsupportedColorOrder { color_order });
        }
        let fmt: ContentFormat;
        if (color_space == 18 || color_space == 0) && bits_per_pixel == 8 {
            fmt = ContentFormat::Gray8;
        } else if (color_space == 19 || color_space == 1) && bits_per_pixel == 24 {
            fmt = ContentFormat::Rgb8;
        } else {
            proof {
                assert(cups_pixel_format(h) is None);
            }
            return Err(
                RasterError::UnsupportedPixel {
                    color_space,
                    bits_per_pixel,
                },
            );
        }
        proof {
            assert((bytes_per_line as int) * (height as int) < 0x10000000000000000)
                by (nonlinear_arith)
                requires bytes_per_line <= 0xffffffffu32 && height <= 0xffffffffu32;
        }
        let num: u64 = (bytes_per_line as u64) * (height as u64);
        if num == 0 {
            let page = Page {
                width,
                height,
                dpi_x,
                dpi_y,
                format: fmt,
                content: Vec::new(),
            };
            proof {
                assert(page@ == cups_page_v(h, fmt, Seq::<u8>::empty()));
            }
            pages.push(page);
            pos = pos + hsize;
            proof {
                assert(pages@.map_values(|p: Page| p@) =~= done_before.push(
                    cups_page_v(h, fmt, Seq::<u8>::empty()),
                ));
                lemma_cups_compose_step(
                    cups_pages_from(b@, 4, le, version as nat),
                    done_before,
                    cups_page_v(h, fmt, Seq::<u8>::empty()),
                    cups_pages_from(b@, pos_before, le, version as nat),
                    cups_pages_from(b@, pos as int, le, version as nat),
                );
            }
        } else if version == 2 {
            let chunkv: usize = if bits_per_pixel == 8 {
                1
            } else {
                3
            };
            proof {
                assert(bytes_per_line >= 1) by (nonlinear_arith)
                    requires (bytes_per_line as int) * (height as int) != 0;
            }
            match decode_rle_page(
                b,
                pos + hsize,
                height as usize,
                bytes_per_line as usize,
                chunkv,
                0xff,
            ) {
                Err(e) => {
                    return Err(e);
                },
                Ok((content, p2)) => {
                    let page = Page {
                        width,
                        height,
                        dpi_x,
                        dpi_y,
                        format: fmt,
                        content,
                    };
                    let ghost pv = page@;
                    pages.push(page);
                    pos = p2;
                    proof {
                        assert(pages@.map_values(|p: Page| p@) =~= done_before.push(pv));
                        lemma_cups_compose_step(
                            cups_pages_from(b@, 4, le, version as nat),
                            done_before,
                            pv,
                            cups_pages_from(b@, pos_before, le, version as nat),
                            cups_pages_from(b@, pos as int, le, version as nat),
                        );
                    }
                },
            }
        } else {
            if num > (blen - pos - hsize) as u64 {
                proof {
                    assert(pos_before + cups_header_size(version as nat) + (h.bytes_per_line
                        * h.height) > b@.len());
                }
                return Err(RasterError::Truncated);
            }
            let numu: usize = num as usize;
            let mut content: Vec<u8> = Vec::new();
            let from = pos + hsize;
            let mut j = from;
            proof {
                assert(content@ =~= b@.subrange(from as int, from as int));
            }
            while j < from + numu
                invariant
                    from <= j <= from + numu,
                    from + numu <= blen,
                    blen == b@.len(),
                    content@ == b@.subrange(from as int, j as int),
                decreases from + numu - j,
            {
                let x = b[j];
                content.push(x);
                j = j + 1;
                proof {
                    assert(b@.subrange(from as int, j - 1).push(b@[j - 1]) =~= b@.subrange(
                        from as int,
                        j as int,
                    ));
                }
            }
            let page = Page {
                width,
                height,
                dpi_x,
                dpi_y,
                format: fmt,
                content,
            };
            let ghost pv = page@;
            pages.push(page);
            pos = from + numu;
            proof {
                assert(pv == cups_page_v(
                    h,
                    fmt,
                    b@.subrange(
                        pos_before + cups_header_size(version as nat),
                        pos_before + cups_header_size(version as nat) + (h.bytes_per_line
                            * h.height),
                    ),
                ));
                assert(pages@.map_values(|p: Page| p@) =~= done_before.push(pv));
                lemma_cups_compose_step(
                    cups_pages_from(b@, 4, le, version as nat),
                    done_before,
                    pv,
                    cups_pages_from(b@, pos_before, le, version as nat),
                    cups_pages_from(b@, pos as int, le, version as nat),
                );
            }
        }
    }
    proof {
        assert(cups_pages_from(b@, pos as int, le, version as nat) == Ok::<Seq<PageV>, RasterError>(
            Seq::empty(),
        ));
        assert(pages@.map_values(|p: Page| p@) + Seq::<PageV>::empty() =~= pages@.map_values(
            |p: Page| p@,
        ));
    }
    Ok(pages)
}

/// Read a 32-bit header field in the stream's byte order.
fn read_u32(b: &[u8], i: usize, le: bool) -> (r: u32)
    requires
        i + 4 <= b@.len(),
    ensures
        r == spec_u32_at(b@, i as int, le),
{
    if le {
        u32_le(b, i)
    } else {
        u32_be(b, i)
    }
}

} // verus!
