//! Capability negotiation over the domain tables.

use ipp_sharing::attr::media::{all_supported_media, get_media_by_ipp, media_table, MEDIA_ISO_A4};
use ipp_sharing::attr::orientation::{
    OrientationMap, IPP_ORIENTATION_LANDSCAPE, IPP_ORIENTATION_PORTRAIT, ORIENTATION_LANDSCAPE,
    ORIENTATION_PORTRAIT,
};
use ipp_sharing::attr::print_color_mode::{PrintColorMap, COLOR_COLOR, COLOR_GRAYSCALE};
use ipp_sharing::attr::sides::{JobSidesMap, DUPLEX_ONE_SIDED, DUPLEX_TWO_SIDED_LONG_EDGE};
use ipp_sharing::capmap::{all_supported_num, all_supported_str, find_by_ipp_num, find_by_ipp_str,
    OptionPack};

fn pack(predefined: Option<u64>, token: u64) -> OptionPack {
    OptionPack { predefined, token }
}

#[test]
fn find_by_key_returns_matching_native_identity() {
    let t = media_table();
    let packs = vec![
        pack(Some(3), 0),
        pack(Some(MEDIA_ISO_A4), 1),
        pack(Some(MEDIA_ISO_A4), 2),
    ];
    let found = get_media_by_ipp(&t, &packs, "iso_a4_210x297mm").unwrap();
    assert_eq!(found.predefined, Some(MEDIA_ISO_A4));
    // The first matching pack wins.
    assert_eq!(found.token, 1);
}

#[test]
fn find_by_key_absent_key_is_none() {
    let t = media_table();
    let packs = vec![pack(Some(MEDIA_ISO_A4), 0), pack(Some(1), 1), pack(None, 2)];
    assert!(get_media_by_ipp(&t, &packs, "not-a-media-key").is_none());
    // Absent from the table and absent from the device look the same.
    assert!(get_media_by_ipp(&t, &packs, "iso_a5_148x210mm").is_none());
}

#[test]
fn find_by_key_ignores_packs_without_identity() {
    let t = PrintColorMap::bimap();
    let packs = vec![pack(None, 0), pack(Some(COLOR_GRAYSCALE), 1)];
    let found = find_by_ipp_str(&t, &packs, "grayscale").unwrap();
    assert_eq!(found.token, 1);
}

#[test]
fn all_supported_emits_one_key_per_matching_pack() {
    let t = media_table();
    // The same native identity twice yields the same key twice: no
    // deduplication, and device order is kept.
    let packs = vec![
        pack(Some(MEDIA_ISO_A4), 0),
        pack(None, 1),
        pack(Some(9999), 2),
        pack(Some(MEDIA_ISO_A4), 3),
        pack(Some(0), 4),
    ];
    let keys = all_supported_media(&t, &packs);
    assert_eq!(
        keys,
        vec![
            "iso_a4_210x297mm".to_string(),
            "iso_a4_210x297mm".to_string(),
            "iso_a0_841x1189mm".to_string()
        ]
    );
}

#[test]
fn all_supported_empty_device_yields_no_keys() {
    let t = media_table();
    let keys = all_supported_media(&t, &Vec::new());
    assert!(keys.is_empty());
}

#[test]
fn orientation_lookup_by_protocol_enum_value() {
    let t = OrientationMap::bimap();
    let packs = vec![
        pack(Some(ORIENTATION_LANDSCAPE), 0),
        pack(Some(ORIENTATION_PORTRAIT), 1),
    ];
    let found = find_by_ipp_num(&t, &packs, IPP_ORIENTATION_PORTRAIT).unwrap();
    assert_eq!(found.token, 1);
    assert!(find_by_ipp_num(&t, &packs, 7).is_none());
    let keys = all_supported_num(&t, &packs);
    assert_eq!(keys, vec![IPP_ORIENTATION_LANDSCAPE, IPP_ORIENTATION_PORTRAIT]);
}

#[test]
fn color_mode_table_round_trip() {
    let t = PrintColorMap::bimap();
    let packs = vec![pack(Some(COLOR_GRAYSCALE), 0), pack(Some(COLOR_COLOR), 1)];
    let keys = all_supported_str(&t, &packs);
    assert_eq!(keys, vec!["grayscale".to_string(), "color".to_string()]);
    assert_eq!(find_by_ipp_str(&t, &packs, "color").unwrap().token, 1);
    assert!(find_by_ipp_str(&t, &packs, "monochrome").is_none());
}

#[test]
fn sides_table_round_trip() {
    let t = JobSidesMap::bimap();
    let packs = vec![
        pack(Some(DUPLEX_TWO_SIDED_LONG_EDGE), 0),
        pack(Some(DUPLEX_ONE_SIDED), 1),
    ];
    let keys = all_supported_str(&t, &packs);
    assert_eq!(
        keys,
        vec!["two-sided-long-edge".to_string(), "one-sided".to_string()]
    );
    assert_eq!(find_by_ipp_str(&t, &packs, "one-sided").unwrap().token, 1);
}
