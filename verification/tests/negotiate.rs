//! Whole-job negotiation: requested values against device packs.

use ipp_sharing::attr::orientation::{IPP_ORIENTATION_LANDSCAPE, ORIENTATION_LANDSCAPE,
    ORIENTATION_PORTRAIT};
use ipp_sharing::attr::media::MEDIA_ISO_A4;
use ipp_sharing::attr::print_color_mode::{COLOR_COLOR, COLOR_GRAYSCALE};
use ipp_sharing::attr::printer_resolution::{IppResolution, ResolutionPack};
use ipp_sharing::attr::sides::DUPLEX_ONE_SIDED;
use ipp_sharing::capmap::OptionPack;
use ipp_sharing::print_options::{negotiate_options, DeviceCaps, DomainTables, JobRequest};

fn pack(predefined: Option<u64>, token: u64) -> OptionPack {
    OptionPack { predefined, token }
}

fn sample_caps() -> DeviceCaps {
    DeviceCaps {
        media_packs: vec![pack(Some(MEDIA_ISO_A4), 0), pack(Some(17), 1)],
        orientation_packs: vec![
            pack(Some(ORIENTATION_PORTRAIT), 0),
            pack(Some(ORIENTATION_LANDSCAPE), 1),
        ],
        color_packs: vec![pack(Some(COLOR_GRAYSCALE), 0), pack(Some(COLOR_COLOR), 1)],
        duplex_packs: vec![pack(Some(DUPLEX_ONE_SIDED), 0)],
        resolution_packs: vec![
            ResolutionPack { cross_feed_dpi: 300, feed_dpi: 300, token: 0 },
            ResolutionPack { cross_feed_dpi: 600, feed_dpi: 600, token: 1 },
        ],
    }
}

#[test]
fn negotiation_fills_every_requested_domain() {
    let tables = DomainTables::build();
    let caps = sample_caps();
    let request = JobRequest {
        media: "iso_a4_210x297mm".to_string(),
        orientation: Some(IPP_ORIENTATION_LANDSCAPE),
        print_color_mode: "color".to_string(),
        sides: "one-sided".to_string(),
        printer_resolution: Some(IppResolution::new_dpi(600, 600)),
        originating_user_name: "someone".to_string(),
    };
    let options = negotiate_options(&tables, &caps, &request);
    assert_eq!(options.media.unwrap().token, 0);
    assert_eq!(options.orientation.unwrap().token, 1);
    assert_eq!(options.output_color.unwrap().token, 1);
    assert_eq!(options.job_duplex.unwrap().token, 0);
    assert_eq!(options.resolution.unwrap().token, 1);
}

#[test]
fn negotiation_leaves_unmatched_domains_unset() {
    let tables = DomainTables::build();
    let caps = sample_caps();
    let request = JobRequest {
        // In the table, but no matching device pack.
        media: "iso_a5_148x210mm".to_string(),
        // Not requested at all.
        orientation: None,
        // Not a key of the table.
        print_color_mode: "sepia".to_string(),
        // In the table, but the device offers no such pack.
        sides: "two-sided-long-edge".to_string(),
        // Wrong unit code: an automatic non-match.
        printer_resolution: Some(IppResolution { cross_feed: 300, feed: 300, units: 4 }),
        originating_user_name: "someone".to_string(),
    };
    let options = negotiate_options(&tables, &caps, &request);
    assert!(options.media.is_none());
    assert!(options.orientation.is_none());
    assert!(options.output_color.is_none());
    assert!(options.job_duplex.is_none());
    assert!(options.resolution.is_none());
}
