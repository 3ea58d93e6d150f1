//! The image encoder sink: decoded pages become frames of one TIFF file.
//!
//! The `tiff` crate does the encoding.  Its encoder takes ownership of the
//! writer it is created over and never returns it, so the sink borrows the
//! caller's output buffer for its whole lifetime: `sink_open` starts a TIFF
//! file in the buffer, each push appends one frame, and dropping the sink
//! through `sink_close` releases the buffer, which then holds the finished
//! file.  The contracts track the frames pushed so far, the health of the
//! file under construction, and — as prophecies resolved at close — the
//! frames and health at the end of the borrow; closing identifies each
//! prophecy with the current state, which ties the buffer's final bytes to
//! exactly the frames that were pushed, for the runs in which every push
//! succeeded.  A failed push leaves a partly written frame directory in
//! the buffer, so health is lost and nothing is claimed of the bytes.
//!
//! What the bytes of a TIFF file look like is not modelled: the predicate
//! `tiff_bytes_match` names the relation between a finished file and its
//! frames.  Whether the encoder accepts one more frame is named too, by
//! `tiff_accepts`: a healthy encoder writing to an in-memory buffer is a
//! function of the frames pushed, so whether a push succeeds depends only
//! on those frames and the new page (the condition fails only in corners
//! such as offsets outgrowing the standard TIFF format).  The names make
//! success part of every contract: a sink that refused a frame the
//! encoder accepts would not verify.
//!
//! `FrameSink` is the verified face of the sink: it checks each page
//! against its declared geometry before handing it to the encoder, keeps
//! zero-area pages — which the encoder refuses up front — away from it,
//! and refuses further pushes once one has failed, so its callers need no
//! preconditions.

use vstd::prelude::*;
use crate::raster::{page_encodable, pages_encodable, Page, PageV, RasterError, ContentFormat};

verus! {

/// An open multi-frame TIFF file under construction in a borrowed buffer.
/// Frames are compressed with Deflate at its balanced level and tagged
/// with dots-per-inch resolution metadata.
#[verifier::external_body]
pub(crate) struct TiffSink<'a> {
    enc: tiff::encoder::TiffEncoder<std::io::Cursor<&'a mut Vec<u8>>>,
}

/// The frames pushed into the sink so far.
pub uninterp spec fn sink_frames(s: TiffSink) -> Seq<PageV>;

/// Every operation on the sink so far has succeeded, so the buffer is a
/// finished file of the pushed frames at every rest point.  A failed push
/// leaves a partly written directory behind and health is never regained.
pub uninterp spec fn sink_ok(s: TiffSink) -> bool;

/// The frames the sink will have received when it is closed.
pub uninterp spec fn sink_final_frames(s: TiffSink) -> Seq<PageV>;

/// Whether the sink will still be healthy when it is closed.
pub uninterp spec fn sink_final_ok(s: TiffSink) -> bool;

/// The bytes are a finished TIFF file holding exactly these frames, in
/// order, each tagged with its resolution in dots per inch.
pub uninterp spec fn tiff_bytes_match(bytes: Seq<u8>, frames: Seq<PageV>) -> bool;

/// The TIFF encoder, healthy and holding the frames `prev`, accepts
/// `page` as one more frame.  The encoder writes to an in-memory buffer,
/// so this is a function of its arguments (for this platform's word
/// size).
pub uninterp spec fn tiff_accepts(prev: Seq<PageV>, page: PageV) -> bool;

/// Every page is accepted on top of the pages before it.
pub open spec fn all_accepted(pages: Seq<PageV>) -> bool {
    forall|i: int| 0 <= i < pages.len() ==> tiff_accepts(pages.take(i), #[trigger] pages[i])
}

/// Relies on `tiff::encoder::TiffEncoder::new` writing a TIFF file into
/// the cursor over the borrowed buffer, and on `with_compression`
/// selecting Deflate at the balanced level for every later frame.  Writing
/// the file header into an in-memory buffer cannot fail, so the sink
/// always opens, healthy and empty.  If every later operation succeeds,
/// the buffer at the end of the borrow is the finished file of the frames
/// that were pushed; after a failure nothing is claimed of it.
#[verifier::external_body]
pub(crate) fn sink_open<'a>(buf: &'a mut Vec<u8>) -> (r: Result<TiffSink<'a>, RasterError>)
    requires
        old(buf)@.len() == 0,
    ensures
        r is Ok,
        r matches Ok(s) ==> sink_frames(s) == Seq::<PageV>::empty() && sink_ok(s) && (sink_final_ok(
            s,
        ) ==> tiff_bytes_match(final(buf)@, sink_final_frames(s))),
{
    match tiff::encoder::TiffEncoder::new(std::io::Cursor::new(buf)) {
        Ok(enc) => Ok(
            TiffSink {
                enc: enc.with_compression(
                    tiff::encoder::Compression::Deflate(tiff::encoder::DeflateLevel::Balanced),
                ),
            },
        ),
        Err(_) => Err(RasterError::EncodeFailure),
    }
}

/// Relies on `TiffEncoder::new_image::<Gray8>`, `DirectoryEncoder::
/// write_tag` for the three resolution tags, and `ImageEncoder::
/// write_data`: one 8-bit gray frame of the page's geometry, resolution
/// and pixels is appended to the file.  On a healthy sink the push
/// succeeds exactly when the encoder accepts the page; a failure leaves
/// the partly written directory behind, losing health.  The page must
/// have area: the encoder refuses zero dimensions up front, and that
/// refusal too would leave a linked, partly written directory.
#[verifier::external_body]
pub(crate) fn sink_push_gray(s: &mut TiffSink<'_>, page: &Page) -> (r: bool)
    requires
        page.format == ContentFormat::Gray8,
        page.content@.len() == page.width * page.height,
        page.width > 0,
        page.height > 0,
    ensures
        sink_ok(*old(s)) ==> r == tiff_accepts(sink_frames(*old(s)), page@),
        r && sink_ok(*old(s)) ==> sink_frames(*final(s)) == sink_frames(*old(s)).push(page@)
            && sink_ok(*final(s)),
        !r ==> !sink_ok(*final(s)),
        sink_final_frames(*final(s)) == sink_final_frames(*old(s)),
        sink_final_ok(*final(s)) == sink_final_ok(*old(s)),
{
    let res = (|| -> tiff::TiffResult<()>
        {
            let mut img = s.enc.new_image::<tiff::encoder::colortype::Gray8>(
                page.width,
                page.height,
            )?;
            let unit = tiff::tags::ResolutionUnit::Inch.to_u16();
            img.encoder().write_tag(tiff::tags::Tag::ResolutionUnit, unit)?;
            let x = tiff::encoder::Rational { n: page.dpi_x, d: 1 };
            img.encoder().write_tag(tiff::tags::Tag::XResolution, x)?;
            let y = tiff::encoder::Rational { n: page.dpi_y, d: 1 };
            img.encoder().write_tag(tiff::tags::Tag::YResolution, y)?;
            img.write_data(&page.content)
        })();
    res.is_ok()
}

/// Relies on `TiffEncoder::new_image::<RGB8>`, `DirectoryEncoder::
/// write_tag` and `ImageEncoder::write_data`, as the gray push does.
#[verifier::external_body]
pub(crate) fn sink_push_rgb(s: &mut TiffSink<'_>, page: &Page) -> (r: bool)
    requires
        page.format == ContentFormat::Rgb8,
        page.content@.len() == 3 * page.width * page.height,
        page.width > 0,
        page.height > 0,
    ensures
        sink_ok(*old(s)) ==> r == tiff_accepts(sink_frames(*old(s)), page@),
        r && sink_ok(*old(s)) ==> sink_frames(*final(s)) == sink_frames(*old(s)).push(page@)
            && sink_ok(*final(s)),
        !r ==> !sink_ok(*final(s)),
        sink_final_frames(*final(s)) == sink_final_frames(*old(s)),
        sink_final_ok(*final(s)) == sink_final_ok(*old(s)),
{
    let res = (|| -> tiff::TiffResult<()>
        {
            let mut img = s.enc.new_image::<tiff::encoder::colortype::RGB8>(
                page.width,
                page.height,
            )?;
            let unit = tiff::tags::ResolutionUnit::Inch.to_u16();
            img.encoder().write_tag(tiff::tags::Tag::ResolutionUnit, unit)?;
            let x = tiff::encoder::Rational { n: page.dpi_x, d: 1 };
            img.encoder().write_tag(tiff::tags::Tag::XResolution, x)?;
            let y = tiff::encoder::Rational { n: page.dpi_y, d: 1 };
            img.encoder().write_tag(tiff::tags::Tag::YResolution, y)?;
            img.write_data(&page.content)
        })();
    res.is_ok()
}

/// Relies on dropping the encoder: every frame's directory was already
/// completed when its push returned, so dropping finishes nothing, and
/// the frames and health the sink ends with are the frames and health it
/// has now.
#[verifier::external_body]
pub(crate) fn sink_close(s: TiffSink<'_>) -> (r: bool)
    ensures
        r,
        r ==> sink_final_frames(s) == sink_frames(s) && sink_final_ok(s) == sink_ok(s),
{
    drop(s);
    true
}

/// The verified face of the encoder sink: frames go in one page at a
/// time, between opening the sink over an empty buffer and closing it,
/// after which the buffer holds the finished file — provided every push
/// succeeded.  A failed push poisons the sink: later pushes are refused,
/// and nothing is claimed of the buffer.
pub struct FrameSink<'a> {
    sink: TiffSink<'a>,
    ok: bool,
}

impl<'a> FrameSink<'a> {
    /// The frames pushed so far.
    pub closed spec fn frames(self) -> Seq<PageV> {
        sink_frames(self.sink)
    }

    /// Every push so far has succeeded.
    pub closed spec fn healthy(self) -> bool {
        self.ok && sink_ok(self.sink)
    }

    /// The frames the sink will have received when it is closed.
    pub closed spec fn final_frames(self) -> Seq<PageV> {
        sink_final_frames(self.sink)
    }

    /// Whether every push will have succeeded when the sink is closed.
    pub closed spec fn final_healthy(self) -> bool {
        sink_final_ok(self.sink)
    }

    /// Open a sink over an empty buffer.  When the sink is later closed
    /// with every push having succeeded, the buffer holds the finished
    /// file of the frames pushed by then.
    pub fn open(buf: &'a mut Vec<u8>) -> (s: FrameSink<'a>)
        requires
            old(buf)@.len() == 0,
        ensures
            s.frames() == Seq::<PageV>::empty(),
            s.healthy(),
            s.final_healthy() ==> tiff_bytes_match(final(buf)@, s.final_frames()),
    {
        let sink = match sink_open(buf) {
            Ok(sink) => sink,
            Err(_) => {
                proof {
                    assert(false);
                }
                unreached()
            },
        };
        FrameSink { sink, ok: true }
    }

    /// Append one page as one frame.  On a healthy sink this fails exactly
    /// when the page's content does not match its declared geometry and
    /// format, the page has no area, or the encoder does not accept the
    /// frame; a failure poisons the sink.
    pub fn push(&mut self, page: &Page) -> (r: Result<(), RasterError>)
        ensures
            old(self).healthy() ==> (r is Ok <==> page_encodable(page@) && tiff_accepts(
                old(self).frames(),
                page@,
            )),
            r is Ok && old(self).healthy() ==> final(self).healthy() && final(self).frames()
                == old(self).frames().push(page@),
            r is Err ==> !final(self).healthy(),
            r matches Err(e) ==> e == RasterError::EncodeFailure,
            final(self).final_frames() == old(self).final_frames(),
            final(self).final_healthy() == old(self).final_healthy(),
    {
        if !self.ok {
            return Err(RasterError::EncodeFailure);
        }
        proof {
            assert((page.width as int) * (page.height as int) <= 0xffffffff * 0xffffffff && 3 * (
            page.width as int) * (page.height as int) <= 3 * 0xffffffff * 0xffffffff && (
            page.width as int) * (page.height as int) >= 0) by (nonlinear_arith)
                requires page.width <= 0xffffffffu32 && page.height <= 0xffffffffu32;
            assert((page.width as int) * (page.height as int) * 3 == 3 * (page.width as int) * (
            page.height as int)) by (nonlinear_arith);
        }
        let len_expected: u128 = match page.format {
            ContentFormat::Gray8 => (page.width as u128) * (page.height as u128),
            ContentFormat::Rgb8 => 3 * (page.width as u128) * (page.height as u128),
        };
        if page.width == 0 || page.height == 0 || (page.content.len() as u128) != len_expected {
            self.ok = false;
            return Err(RasterError::EncodeFailure);
        }
        let accepted = match page.format {
            ContentFormat::Gray8 => sink_push_gray(&mut self.sink, page),
            ContentFormat::Rgb8 => sink_push_rgb(&mut self.sink, page),
        };
        if accepted {
            Ok(())
        } else {
            self.ok = false;
            Err(RasterError::EncodeFailure)
        }
    }

    /// Close the sink: if every push succeeded, the buffer it was opened
    /// over now holds the finished file of exactly the frames pushed.
    pub fn close(self) -> (r: bool)
        ensures
            r,
            r ==> self.final_frames() == self.frames() && (self.healthy()
                ==> self.final_healthy()),
    {
        sink_close(self.sink)
    }
}

/// Encode pages as the frames of one TIFF file, in order.  Succeeds
/// exactly when every page matches its declared geometry, has area, and
/// the encoder accepts every frame; the bytes returned are then the
/// finished file of exactly those frames.
pub fn encode_pages(pages: &Vec<Page>) -> (r: Result<Vec<u8>, RasterError>)
    ensures
        r is Ok <==> pages_encodable(pages@.map_values(|p: Page| p@)) && all_accepted(
            pages@.map_values(|p: Page| p@),
        ),
        r matches Ok(bytes) ==> tiff_bytes_match(bytes@, pages@.map_values(|p: Page| p@)),
        r matches Err(e) ==> e == RasterError::EncodeFailure,
{
    let ghost views = pages@.map_values(|p: Page| p@);
    let mut buf: Vec<u8> = Vec::new();
    let mut sink = FrameSink::open(&mut buf);
    let ghost target = sink.final_frames();
    let ghost target_healthy = sink.final_healthy();
    let n = pages.len();
    proof {
        assert(views.take(0) =~= Seq::<PageV>::empty());
    }
    for i in 0..n
        invariant
            n == pages@.len(),
            views == pages@.map_values(|p: Page| p@),
            sink.healthy(),
            sink.frames() == views.take(i as int),
            sink.final_frames() == target,
            sink.final_healthy() == target_healthy,
            forall|j: int| 0 <= j < i ==> page_encodable(#[trigger] views[j]) && tiff_accepts(
                views.take(j),
                views[j],
            ),
    {
        let p = &pages[i];
        match sink.push(p) {
            Ok(_) => {
                proof {
                    assert(views.take(i + 1) =~= views.take(i as int).push(views[i as int]));
                }
            },
            Err(_) => {
                proof {
                    assert(views[i as int] == pages@[i as int]@);
                    assert(!(page_encodable(views[i as int]) && tiff_accepts(
                        views.take(i as int),
                        views[i as int],
                    )));
                    assert(!(pages_encodable(views) && all_accepted(views)));
                }
                return Err(RasterError::EncodeFailure);
            },
        }
    }
    let closed = sink.close();
    proof {
        assert(closed);
        assert(views.take(n as int) =~= views);
        assert(pages_encodable(views));
        assert(all_accepted(views));
    }
    Ok(buf)
}

} // verus!
