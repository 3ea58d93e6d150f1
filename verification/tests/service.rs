//! Base path routing, configuration values and the advertising policy.

use ipp_sharing::advertise::{
    color_is_supported, media_default, pick_default, print_color_mode_default, pwg_document_types,
    resolution_default, sides_supported_with_fallback, supported_formats,
};
use ipp_sharing::attr::printer_resolution::IppResolution;
use ipp_sharing::config::{default_make_and_model, effective_port, OneOrMany};
use ipp_sharing::service::{dnssd_resource_path, format_basepath, path_matches};

#[test]
fn basepath_is_normalized_to_one_leading_slash() {
    assert_eq!(format_basepath(&b"printers/laser/".to_vec()), b"/printers/laser");
    assert_eq!(format_basepath(&b"/printers/laser".to_vec()), b"/printers/laser");
    assert_eq!(format_basepath(&b"/".to_vec()), b"/");
    assert_eq!(format_basepath(&b"".to_vec()), b"/");
}

#[test]
fn paths_match_the_base_itself_and_anything_under_it() {
    let base = format_basepath(&b"/ipp/print/".to_vec());
    assert!(path_matches(&base, &b"/ipp/print".to_vec()));
    assert!(path_matches(&base, &b"/ipp/print/queue".to_vec()));
    assert!(!path_matches(&base, &b"/ipp/printer".to_vec()));
    assert!(!path_matches(&base, &b"/ipp".to_vec()));
}

#[test]
fn dnssd_resource_path_drops_the_leading_slash() {
    assert_eq!(dnssd_resource_path(&b"/ipp/print".to_vec()), b"ipp/print");
    assert_eq!(dnssd_resource_path(&b"ipp/print".to_vec()), b"ipp/print");
}

#[test]
fn effective_port_prefers_the_first_address() {
    assert_eq!(effective_port(&OneOrMany::One(8631)), 8631);
    assert_eq!(effective_port(&OneOrMany::Many(vec![631, 8631])), 631);
    assert_eq!(effective_port(&OneOrMany::Many(Vec::new())), 631);
}

#[test]
fn one_or_many_flattens_to_a_vector() {
    assert_eq!(OneOrMany::One(7u16).into_vec(), vec![7]);
    assert_eq!(OneOrMany::Many(vec![1u16, 2]).into_vec(), vec![1, 2]);
}

#[test]
fn make_and_model_default_value() {
    assert_eq!(default_make_and_model(), "IppSharing via ippper");
}

#[test]
fn media_defaults_to_a4_when_offered() {
    let sup = vec!["na_letter_8.5x11in".to_string(), "iso_a4_210x297mm".to_string()];
    assert_eq!(media_default(&sup), Some("iso_a4_210x297mm".to_string()));
    let no_a4 = vec!["na_letter_8.5x11in".to_string()];
    assert_eq!(media_default(&no_a4), Some("na_letter_8.5x11in".to_string()));
    assert_eq!(media_default(&Vec::new()), None);
}

#[test]
fn color_mode_defaults_to_grayscale_when_offered() {
    let sup = vec!["color".to_string(), "grayscale".to_string()];
    assert_eq!(print_color_mode_default(&sup), Some("grayscale".to_string()));
    let only_color = vec!["color".to_string()];
    assert_eq!(print_color_mode_default(&only_color), Some("color".to_string()));
    assert!(color_is_supported(&sup));
    assert!(!color_is_supported(&vec!["grayscale".to_string()]));
}

#[test]
fn pick_default_is_preferred_else_first_else_none() {
    let sup = vec!["b".to_string(), "a".to_string()];
    assert_eq!(pick_default(&sup, "a"), Some("a".to_string()));
    assert_eq!(pick_default(&sup, "z"), Some("b".to_string()));
    assert_eq!(pick_default(&Vec::new(), "a"), None);
}

#[test]
fn sides_fall_back_to_one_sided_singleton() {
    assert_eq!(sides_supported_with_fallback(Vec::new()), vec!["one-sided".to_string()]);
    let offered = vec!["two-sided-long-edge".to_string()];
    assert_eq!(sides_supported_with_fallback(offered.clone()), offered);
}

#[test]
fn resolution_defaults_to_the_first_value() {
    let res = vec![IppResolution::new_dpi(600, 600), IppResolution::new_dpi(300, 300)];
    assert_eq!(resolution_default(&res), Some(IppResolution::new_dpi(600, 600)));
    assert_eq!(resolution_default(&Vec::new()), None);
}

#[test]
fn advertised_formats_and_preferred_format() {
    let (formats, preferred) = supported_formats(false);
    assert_eq!(
        formats,
        vec![
            "application/octet-stream".to_string(),
            "application/vnd.ms-xpsdocument".to_string(),
            "image/pwg-raster".to_string(),
            "image/urf".to_string()
        ]
    );
    assert_eq!(preferred, Some("application/vnd.ms-xpsdocument".to_string()));
    let (with_pdf, preferred_pdf) = supported_formats(true);
    assert_eq!(with_pdf[1], "application/pdf");
    assert_eq!(preferred_pdf, Some("application/pdf".to_string()));
}

#[test]
fn pwg_types_add_rgb_only_for_color_devices() {
    assert_eq!(pwg_document_types(false), vec!["sgray_8".to_string()]);
    assert_eq!(pwg_document_types(true), vec!["sgray_8".to_string(), "srgb_8".to_string()]);
}
