//! Per-job negotiation: the requested protocol values are intersected with
//! the device-reported packs through the static tables, yielding at most
//! one pack per domain.
//!
//! Negotiation is synchronous and stateless across requests: the caller
//! enumerates the device's packs fresh for each job and hands them in as
//! plain values.  The negotiated bundle is built once and consumed once,
//! merged into a native print ticket by the caller.

use vstd::prelude::*;
use crate::attr::orientation::OrientationMap;
use crate::attr::print_color_mode::PrintColorMap;
use crate::attr::printer_resolution::{find_res_spec, get_resolution_by_ipp, IppResolution,
    ResolutionPack};
use crate::attr::media::{media_fwd, media_rev, media_table, get_media_by_ipp};
use crate::attr::sides::JobSidesMap;
use crate::capmap::{find_spec, find_by_ipp_num, find_by_ipp_str, OptionPack};
use crate::captable::{str_fwd, str_rev, num_fwd, NumKeyTable, StrKeyTable};

verus! {

/// The packs a device reports supporting, one vector per domain,
/// enumerated fresh for each negotiation and never cached across requests.
pub struct DeviceCaps {
    pub media_packs: Vec<OptionPack>,
    pub orientation_packs: Vec<OptionPack>,
    pub color_packs: Vec<OptionPack>,
    pub duplex_packs: Vec<OptionPack>,
    pub resolution_packs: Vec<ResolutionPack>,
}

/// The optional per-job attributes a document submission carries, already
/// parsed to plain values by the transport layer.
pub struct JobRequest {
    pub media: String,
    pub orientation: Option<u64>,
    pub print_color_mode: String,
    pub sides: String,
    pub printer_resolution: Option<IppResolution>,
    pub originating_user_name: String,
}

/// The negotiated bundle: at most one device pack per domain, for exactly
/// one job.
pub struct PrintOptions {
    pub media: Option<OptionPack>,
    pub orientation: Option<OptionPack>,
    pub output_color: Option<OptionPack>,
    pub job_duplex: Option<OptionPack>,
    pub resolution: Option<ResolutionPack>,
}

/// The four discrete-domain tables, built once per negotiation context and
/// read-only thereafter.
pub struct DomainTables {
    pub media: StrKeyTable,
    pub orientation: NumKeyTable,
    pub color: StrKeyTable,
    pub sides: StrKeyTable,
}

impl DomainTables {
    /// Build all four domain tables.
    pub fn build() -> (t: DomainTables)
        ensures
            str_fwd(t.media) == media_fwd(),
            str_rev(t.media) == media_rev(),
            num_fwd(t.orientation) == crate::attr::orientation::orientation_fwd(),
            str_fwd(t.color) == crate::attr::print_color_mode::color_fwd(),
            str_fwd(t.sides) == crate::attr::sides::sides_fwd(),
    {
        DomainTables {
            media: media_table(),
            orientation: OrientationMap::bimap(),
            color: PrintColorMap::bimap(),
            sides: JobSidesMap::bimap(),
        }
    }
}

/// Negotiate one job's options: each requested value is mapped through its
/// domain table and matched against the device's packs; an absent request,
/// a key outside the table and a key no pack matches all leave the domain
/// unset, and the device's packs are the sole authority throughout.
pub fn negotiate_options(tables: &DomainTables, caps: &DeviceCaps, req: &JobRequest) -> (r:
    PrintOptions)
    ensures
        r.media == find_spec(str_fwd(tables.media), caps.media_packs@, req.media@),
        r.orientation == (match req.orientation {
            Some(k) => find_spec(num_fwd(tables.orientation), caps.orientation_packs@, k),
            None => None::<OptionPack>,
        }),
        r.output_color == find_spec(
            str_fwd(tables.color),
            caps.color_packs@,
            req.print_color_mode@,
        ),
        r.job_duplex == find_spec(str_fwd(tables.sides), caps.duplex_packs@, req.sides@),
        r.resolution == (match req.printer_resolution {
            Some(k) => find_res_spec(caps.resolution_packs@, k),
            None => None::<ResolutionPack>,
        }),
{
    let media = get_media_by_ipp(&tables.media, &caps.media_packs, req.media.as_str());
    let orientation = match req.orientation {
        Some(k) => find_by_ipp_num(&tables.orientation, &caps.orientation_packs, k),
        None => None,
    };
    let output_color = find_by_ipp_str(
        &tables.color,
        &caps.color_packs,
        req.print_color_mode.as_str(),
    );
    let job_duplex = find_by_ipp_str(&tables.sides, &caps.duplex_packs, req.sides.as_str());
    let resolution = match &req.printer_resolution {
        Some(k) => get_resolution_by_ipp(&caps.resolution_packs, k),
        None => None,
    };
    PrintOptions { media, orientation, output_color, job_duplex, resolution }
}

} // verus!
