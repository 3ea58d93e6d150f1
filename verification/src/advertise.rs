//! The default-selection policy and the advertised capability lists.
//!
//! Applied only when advertising capabilities, never during per-job
//! negotiation: media defaults to the ISO A4 key if offered, else the
//! first supported key; color mode defaults to grayscale if offered, else
//! the first; sides falls back to a hardcoded one-sided singleton if the
//! device reports nothing.  Resolution values are deduplicated here — the
//! one place deduplication is applied — before being advertised.

use vstd::prelude::*;
use crate::attr::printer_resolution::IppResolution;

verus! {

/// Some entry of the list reads `key`.
pub open spec fn has_key(sup: Seq<String>, key: Seq<char>) -> bool {
    exists|i: int| 0 <= i < sup.len() && sup[i]@ == key
}

/// The default the advertising policy picks from a supported list: the
/// preferred key if offered, else the first key, else nothing.
pub fn pick_default(supported: &Vec<String>, preferred: &str) -> (r: Option<String>)
    ensures
        has_key(supported@, preferred@) ==> (r matches Some(s) && s@ == preferred@),
        !has_key(supported@, preferred@) && supported@.len() > 0 ==> (r matches Some(s) && s@
            == supported@[0]@),
        !has_key(supported@, preferred@) && supported@.len() == 0 ==> r is None,
{
    let n = supported.len();
    for i in 0..n
        invariant
            n == supported@.len(),
            forall|j: int| 0 <= j < i ==> (#[trigger] supported@[j])@ != preferred@,
    {
        let pref = preferred.to_owned();
        if supported[i] == pref {
            return Some(pref);
        }
    }
    if supported.len() > 0 {
        Some(supported[0].clone())
    } else {
        None
    }
}

/// The advertised media default: ISO A4 if offered, else the first
/// supported key, else nothing.
pub fn media_default(media_supported: &Vec<String>) -> (r: Option<String>)
    ensures
        has_key(media_supported@, "iso_a4_210x297mm"@) ==> (r matches Some(s) && s@
            == "iso_a4_210x297mm"@),
        !has_key(media_supported@, "iso_a4_210x297mm"@) && media_supported@.len() > 0 ==> (r matches
            Some(s) && s@ == media_supported@[0]@),
        !has_key(media_supported@, "iso_a4_210x297mm"@) && media_supported@.len() == 0 ==> r
            is None,
{
    pick_default(media_supported, "iso_a4_210x297mm")
}

/// The advertised color-mode default: grayscale if offered, else the first
/// supported key, else nothing.
pub fn print_color_mode_default(color_supported: &Vec<String>) -> (r: Option<String>)
    ensures
        has_key(color_supported@, "grayscale"@) ==> (r matches Some(s) && s@ == "grayscale"@),
        !has_key(color_supported@, "grayscale"@) && color_supported@.len() > 0 ==> (r matches Some(
            s,
        ) && s@ == color_supported@[0]@),
        !has_key(color_supported@, "grayscale"@) && color_supported@.len() == 0 ==> r is None,
{
    pick_default(color_supported, "grayscale")
}

/// Whether the device offers color output: the advertised color flag.
pub fn color_is_supported(color_supported: &Vec<String>) -> (r: bool)
    ensures
        r == has_key(color_supported@, "color"@),
{
    let n = color_supported.len();
    let color = "color".to_owned();
    for i in 0..n
        invariant
            n == color_supported@.len(),
            color@ == "color"@,
            forall|j: int| 0 <= j < i ==> (#[trigger] color_supported@[j])@ != "color"@,
    {
        if color_supported[i] == color {
            return true;
        }
    }
    false
}

/// The advertised sides list: what the device offers, or the hardcoded
/// one-sided singleton if it reports nothing.
pub fn sides_supported_with_fallback(sides: Vec<String>) -> (r: Vec<String>)
    ensures
        sides@.len() > 0 ==> r == sides,
        sides@.len() == 0 ==> r@.len() == 1 && r@[0]@ == "one-sided"@,
{
    if sides.len() > 0 {
        sides
    } else {
        let mut one: Vec<String> = Vec::new();
        one.push("one-sided".to_owned());
        one
    }
}

/// The advertised resolution default: the first supported value.
pub fn resolution_default(res: &Vec<IppResolution>) -> (r: Option<IppResolution>)
    ensures
        res@.len() > 0 ==> r == Some(res@[0]),
        res@.len() == 0 ==> r is None,
{
    if res.len() > 0 {
        Some(res[0])
    } else {
        None
    }
}

/// The larger axis of an advertised resolution.
pub open spec fn res_axis_max(r: IppResolution) -> i32 {
    if r.cross_feed >= r.feed {
        r.cross_feed
    } else {
        r.feed
    }
}

/// The distinct per-resolution maxima, ascending: the values named in the
/// URF resolution advertisement.  This is the one place capability values
/// are deduplicated.
pub fn urf_rs_values(res: &Vec<IppResolution>) -> (r: Vec<i32>)
    ensures
        forall|a: int, b: int| 0 <= a < b < r@.len() ==> r@[a] < r@[b],
        forall|x: i32|
            r@.contains(x) <==> exists|i: int|
                0 <= i < res@.len() && x == res_axis_max(#[trigger] res@[i]),
{
    let mut out: Vec<i32> = Vec::new();
    let n = res.len();
    for i in 0..n
        invariant
            n == res@.len(),
            forall|a: int, b: int| 0 <= a < b < out@.len() ==> out@[a] < out@[b],
            forall|x: i32|
                out@.contains(x) <==> exists|j: int|
                    0 <= j < i && x == res_axis_max(#[trigger] res@[j]),
    {
        let p = res[i];
        let v: i32 = if p.cross_feed >= p.feed {
            p.cross_feed
        } else {
            p.feed
        };
        let ghost out_before = out@;
        let m = out.len();
        let mut k: usize = 0;
        while k < m && out[k] < v
            invariant
                m == out@.len(),
                out@ == out_before,
                k <= m,
                i < res@.len(),
                v == res_axis_max(res@[i as int]),
                forall|j: int| 0 <= j < k ==> out@[j] < v,
            decreases m - k,
        {
            k = k + 1;
        }
        if k < m && out[k] == v {
            proof {
                assert(out@.contains(v));
                assert forall|x: i32|
                    out@.contains(x) <==> exists|j: int|
                        0 <= j < i + 1 && x == res_axis_max(#[trigger] res@[j]) by {
                    if out@.contains(x) {
                    } else {
                        if exists|j: int| 0 <= j < i + 1 && x == res_axis_max(#[trigger] res@[j]) {
                            let j = choose|j: int|
                                0 <= j < i + 1 && x == res_axis_max(#[trigger] res@[j]);
                            assert(j < i as int);
                        }
                    }
                }
            }
        } else {
            proof {
                assert(forall|j: int| 0 <= j < k ==> out@[j] < v);
                assert(k < m ==> out@[k as int] > v);
                assert(!out@.contains(v)) by {
                    if out@.contains(v) {
                        let w = choose|w: int| 0 <= w < out@.len() && out@[w] == v;
                        if w < k {
                        } else {
                            assert(out@[k as int] <= out@[w]);
                        }
                    }
                }
            }
            out.insert(k, v);
            proof {
                assert forall|a: int, b: int| 0 <= a < b < out@.len() implies out@[a] < out@[b] by {
                    if b < k {
                    } else if a < k && b == k {
                    } else if a < k && b > k {
                        assert(out@[b] == out_before[b - 1]);
                        assert(out_before[k as int] <= out_before[b - 1]) by {
                            if k as int == b - 1 {
                            } else {
                                assert(out_before[k as int] < out_before[b - 1]);
                            }
                        }
                    } else if a == k {
                        assert(out@[b] == out_before[b - 1]);
                        let ki = k as int;
                        assert(v < out_before[ki] || ki == b - 1 || out_before[ki] < out_before[b
                            - 1]);
                    } else {
                        assert(out@[a] == out_before[a - 1] && out@[b] == out_before[b - 1]);
                    }
                }
                assert forall|x: i32|
                    out@.contains(x) <==> exists|j: int|
                        0 <= j < i + 1 && x == res_axis_max(#[trigger] res@[j]) by {
                    if out@.contains(x) {
                        let w = choose|w: int| 0 <= w < out@.len() && out@[w] == x;
                        if w == k {
                            assert(x == res_axis_max(res@[i as int]));
                        } else if w < k {
                            assert(out_before[w] == x);
                            assert(out_before.contains(x));
                        } else {
                            assert(out_before[w - 1] == x);
                            assert(out_before.contains(x));
                        }
                    }
                    if exists|j: int| 0 <= j < i + 1 && x == res_axis_max(#[trigger] res@[j]) {
                        let j = choose|j: int|
                            0 <= j < i + 1 && x == res_axis_max(#[trigger] res@[j]);
                        if j == i as int {
                            assert(out@[k as int] == v);
                            assert(out@.contains(x));
                        } else {
                            assert(out_before.contains(x));
                            let w = choose|w: int|
                                0 <= w < out_before.len() && out_before[w] == x;
                            if w < k {
                                assert(out@[w] == x);
                            } else {
                                assert(out@[w + 1] == x);
                            }
                            assert(out@.contains(x));
                        }
                    }
                }
            }
        }
    }
    out
}

/// The advertised document formats, in order, and the preferred one.  The
/// octet-stream format leads; PDF is offered only when a PDF-capable
/// printing path was built in; the preferred format is the first
/// non-default entry.
pub fn supported_formats(pdf: bool) -> (r: (Vec<String>, Option<String>))
    ensures
        r.0@.len() == (if pdf {
            5int
        } else {
            4int
        }),
        r.0@[0]@ == "application/octet-stream"@,
        pdf ==> r.0@[1]@ == "application/pdf"@ && r.0@[2]@ == "application/vnd.ms-xpsdocument"@
            && r.0@[3]@ == "image/pwg-raster"@ && r.0@[4]@ == "image/urf"@,
        !pdf ==> r.0@[1]@ == "application/vnd.ms-xpsdocument"@ && r.0@[2]@ == "image/pwg-raster"@
            && r.0@[3]@ == "image/urf"@,
        r.1 matches Some(s) && s@ == r.0@[1]@,
{
    let mut v: Vec<String> = Vec::new();
    v.push("application/octet-stream".to_owned());
    if pdf {
        v.push("application/pdf".to_owned());
    }
    v.push("application/vnd.ms-xpsdocument".to_owned());
    v.push("image/pwg-raster".to_owned());
    v.push("image/urf".to_owned());
    let preferred = Some(v[1].clone());
    (v, preferred)
}

/// The advertised PWG raster document types: 8-bit gray always, 8-bit sRGB
/// when the device offers color.
pub fn pwg_document_types(color: bool) -> (r: Vec<String>)
    ensures
        r@.len() == (if color {
            2int
        } else {
            1int
        }),
        r@[0]@ == "sgray_8"@,
        color ==> r@[1]@ == "srgb_8"@,
{
    let mut v: Vec<String> = Vec::new();
    v.push("sgray_8".to_owned());
    if color {
        v.push("srgb_8".to_owned());
    }
    v
}

} // verus!
