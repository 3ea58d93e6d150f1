//! The resolution domain: continuous DPI pairs instead of a finite table.

use ipp_sharing::attr::printer_resolution::{
    all_supported_resolution_by_win, get_resolution_by_ipp, IppResolution, ResolutionPack,
};
use ipp_sharing::advertise::urf_rs_values;

fn rpack(x: u32, y: u32, token: u64) -> ResolutionPack {
    ResolutionPack { cross_feed_dpi: x, feed_dpi: y, token }
}

#[test]
fn resolution_lookup_rejects_other_units() {
    let packs = vec![rpack(300, 300, 0), rpack(600, 600, 1)];
    // Unit code 4 is dots per centimeter: an automatic non-match even when
    // the numbers would agree.
    let key = IppResolution { cross_feed: 300, feed: 300, units: 4 };
    assert!(get_resolution_by_ipp(&packs, &key).is_none());
}

#[test]
fn resolution_lookup_matches_exact_dpi_pair() {
    let packs = vec![rpack(300, 300, 0), rpack(600, 300, 1), rpack(600, 600, 2)];
    let key = IppResolution::new_dpi(600, 300);
    assert_eq!(get_resolution_by_ipp(&packs, &key).unwrap().token, 1);
    let miss = IppResolution::new_dpi(300, 600);
    assert!(get_resolution_by_ipp(&packs, &miss).is_none());
}

#[test]
fn resolution_enumeration_keeps_device_order_without_dedup() {
    let packs = vec![rpack(300, 300, 0), rpack(300, 300, 1), rpack(600, 600, 2)];
    let keys = all_supported_resolution_by_win(&packs);
    assert_eq!(
        keys,
        vec![
            IppResolution::new_dpi(300, 300),
            IppResolution::new_dpi(300, 300),
            IppResolution::new_dpi(600, 600)
        ]
    );
}

#[test]
fn resolution_enumeration_skips_oversized_values() {
    let packs = vec![rpack(0x8000_0000, 300, 0), rpack(600, 600, 1)];
    let keys = all_supported_resolution_by_win(&packs);
    assert_eq!(keys, vec![IppResolution::new_dpi(600, 600)]);
}

#[test]
fn urf_resolution_values_are_sorted_and_deduplicated() {
    let res = vec![
        IppResolution::new_dpi(600, 300),
        IppResolution::new_dpi(300, 300),
        IppResolution::new_dpi(300, 600),
        IppResolution::new_dpi(1200, 1200),
    ];
    // Per-value maxima 600, 300, 600, 1200: the advertisement dedups.
    assert_eq!(urf_rs_values(&res), vec![300, 600, 1200]);
}

#[test]
fn urf_resolution_values_empty() {
    assert!(urf_rs_values(&Vec::new()).is_empty());
}
