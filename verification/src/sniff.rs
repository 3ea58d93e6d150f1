//! Format detection: classify a document by its first four bytes.
//!
//! The classification is single-shot: the dispatcher peeks at the first four
//! bytes of the body and selects a processing pipeline.  Checked in order,
//! first match wins; anything unrecognized is rejected as an unsupported
//! document format.

use vstd::prelude::*;

verus! {

/// The pipeline selected for a document, based on its leading bytes.
#[derive(Clone, Copy, Debug, PartialEq, Eq, Structural)]
pub enum DocumentFormat {
    /// `%PDF`: buffered to a file and handed to a PDF-capable printer path.
    Pdf,
    /// `PK\x03\x04` (ZIP container): buffered to a file and printed as XPS.
    Xps,
    /// `UNIR`: streamed through the URF raster pipeline.
    Urf,
    /// One of the six CUPS raster sync words: streamed through the CUPS
    /// raster pipeline.
    CupsRaster,
    /// Anything else: the job is rejected as format-not-supported.
    Unsupported,
}

/// What the four leading bytes of a document classify as.
pub open spec fn spec_sniff(h: Seq<u8>) -> DocumentFormat
    recommends
        h.len() == 4,
{
    if h[0] == 0x25u8 && h[1] == 0x50u8 && h[2] == 0x44u8 && h[3] == 0x46u8 {
        DocumentFormat::Pdf
    } else if h[0] == 0x50u8 && h[1] == 0x4bu8 && h[2] == 0x03u8 && h[3] == 0x04u8 {
        DocumentFormat::Xps
    } else if h[0] == 0x55u8 && h[1] == 0x4eu8 && h[2] == 0x49u8 && h[3] == 0x52u8 {
        DocumentFormat::Urf
    } else if spec_is_cups_sync_word(h) {
        DocumentFormat::CupsRaster
    } else {
        DocumentFormat::Unsupported
    }
}

/// The six CUPS raster sync words as the dispatch table lists them:
/// `RaSt`/`tSaR` (version 1), `RaS2`/`2SaR` (version 2), `RaS3`/`3Sar`
/// (version 3); the reversed forms mark the opposite byte order.
///
/// Note the last entry: the dispatch table carries `3Sar`, while a CUPS
/// reader expects version 3's little-endian sync word to be `3SaR`.  A
/// `3SaR` document is therefore rejected here as an unsupported format,
/// and a `3Sar` document is routed to the CUPS pipeline, which refuses it
/// as an invalid sync word.
pub open spec fn spec_is_cups_sync_word(h: Seq<u8>) -> bool
    recommends
        h.len() == 4,
{
    ||| (h[0] == 0x52u8 && h[1] == 0x61u8 && h[2] == 0x53u8 && h[3] == 0x74u8)
    ||| (h[0] == 0x74u8 && h[1] == 0x53u8 && h[2] == 0x61u8 && h[3] == 0x52u8)
    ||| (h[0] == 0x52u8 && h[1] == 0x61u8 && h[2] == 0x53u8 && h[3] == 0x32u8)
    ||| (h[0] == 0x32u8 && h[1] == 0x53u8 && h[2] == 0x61u8 && h[3] == 0x52u8)
    ||| (h[0] == 0x52u8 && h[1] == 0x61u8 && h[2] == 0x53u8 && h[3] == 0x33u8)
    ||| (h[0] == 0x33u8 && h[1] == 0x53u8 && h[2] == 0x61u8 && h[3] == 0x72u8)
}

/// Classify a document by its first four bytes.  Pure; the caller peeks the
/// bytes from the stream without discarding them.
pub fn sniff(h: &[u8]) -> (f: DocumentFormat)
    requires
        h@.len() == 4,
    ensures
        f == spec_sniff(h@),
{
    if h[0] == 0x25 && h[1] == 0x50 && h[2] == 0x44 && h[3] == 0x46 {
        DocumentFormat::Pdf
    } else if h[0] == 0x50 && h[1] == 0x4b && h[2] == 0x03 && h[3] == 0x04 {
        DocumentFormat::Xps
    } else if h[0] == 0x55 && h[1] == 0x4e && h[2] == 0x49 && h[3] == 0x52 {
        DocumentFormat::Urf
    } else if is_cups_sync_word(h) {
        DocumentFormat::CupsRaster
    } else {
        DocumentFormat::Unsupported
    }
}

/// Whether the four bytes are one of the six CUPS raster sync words.
pub fn is_cups_sync_word(h: &[u8]) -> (r: bool)
    requires
        h@.len() == 4,
    ensures
        r == spec_is_cups_sync_word(h@),
{
    (h[0] == 0x52 && h[1] == 0x61 && h[2] == 0x53 && h[3] == 0x74)
        || (h[0] == 0x74 && h[1] == 0x53 && h[2] == 0x61 && h[3] == 0x52)
        || (h[0] == 0x52 && h[1] == 0x61 && h[2] == 0x53 && h[3] == 0x32)
        || (h[0] == 0x32 && h[1] == 0x53 && h[2] == 0x61 && h[3] == 0x52)
        || (h[0] == 0x52 && h[1] == 0x61 && h[2] == 0x53 && h[3] == 0x33)
        || (h[0] == 0x33 && h[1] == 0x53 && h[2] == 0x61 && h[3] == 0x72)
}

/// The protocol status code a rejected format maps to: the client-error
/// code for an unsupported document format.
pub fn unsupported_format_status() -> (c: u16)
    ensures
        c == 0x040a,
{
    0x040a
}

} // verus!
