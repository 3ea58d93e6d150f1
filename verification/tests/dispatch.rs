//! Format dispatch from a document's first four bytes.

use ipp_sharing::sniff::{sniff, unsupported_format_status, DocumentFormat};

#[test]
fn urf_magic_selects_urf_pipeline() {
    assert_eq!(sniff(&[0x55, 0x4e, 0x49, 0x52]), DocumentFormat::Urf);
}

#[test]
fn pdf_magic_selects_pdf_pipeline() {
    assert_eq!(sniff(b"%PDF"), DocumentFormat::Pdf);
}

#[test]
fn zip_magic_selects_xps_pipeline() {
    assert_eq!(sniff(b"PK\x03\x04"), DocumentFormat::Xps);
}

#[test]
fn all_six_cups_magics_select_cups_pipeline() {
    for magic in [b"RaSt", b"tSaR", b"RaS2", b"2SaR", b"RaS3", b"3Sar"] {
        assert_eq!(sniff(magic), DocumentFormat::CupsRaster, "{:?}", magic);
    }
}

#[test]
fn anything_else_is_rejected() {
    for bytes in [&[0u8, 0, 0, 0], b"GIF8", b"\x89PNG", b"RaS4", b"unir", b"3SaR"] {
        assert_eq!(sniff(bytes), DocumentFormat::Unsupported, "{:?}", bytes);
    }
}

#[test]
fn rejected_format_maps_to_client_error_code() {
    assert_eq!(unsupported_format_status(), 0x040a);
}
