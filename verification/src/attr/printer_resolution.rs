//! The printer resolution domain.
//!
//! Resolution bypasses the bidirectional tables: native resolution packs
//! carry continuous (cross-feed, feed) DPI pairs, not a finite predefined
//! set.  Reverse lookup requires the request's unit to be dots per inch
//! (protocol unit code 3); any other unit is an automatic non-match.
//! Forward enumeration converts each device pack to an integer DPI pair
//! and exposes it directly as a protocol value.

use vstd::prelude::*;

verus! {

/// The protocol unit code for dots per inch.
pub const UNITS_DOTS_PER_INCH: i8 = 3;

/// A protocol resolution value: a (cross-feed, feed) pair in the unit
/// named by `units` (3 = dots per inch, 4 = dots per centimeter).
#[derive(Clone, Copy, Debug, PartialEq, Eq, Structural)]
pub struct IppResolution {
    pub cross_feed: i32,
    pub feed: i32,
    pub units: i8,
}

impl IppResolution {
    /// A resolution in dots per inch.
    pub fn new_dpi(cross_feed: i32, feed: i32) -> (r: IppResolution)
        ensures
            r == (IppResolution { cross_feed, feed, units: UNITS_DOTS_PER_INCH }),
    {
        IppResolution { cross_feed, feed, units: UNITS_DOTS_PER_INCH }
    }
}

/// A device-reported resolution pack: the native option's DPI pair plus an
/// opaque per-enumeration handle, as in `OptionPack`.
#[derive(Clone, Copy, Debug, PartialEq, Eq, Structural)]
pub struct ResolutionPack {
    pub cross_feed_dpi: u32,
    pub feed_dpi: u32,
    pub token: u64,
}

/// Whether a device pack's integer DPI pair equals the requested pair.
/// A pack whose DPI does not fit the protocol's signed values matches
/// nothing.
pub open spec fn res_matches(p: ResolutionPack, key: IppResolution) -> bool {
    key.cross_feed as int == p.cross_feed_dpi as int && key.feed as int == p.feed_dpi as int
}

/// The first pack whose DPI pair equals the request.
pub open spec fn first_res_match(packs: Seq<ResolutionPack>, key: IppResolution) -> Option<
    ResolutionPack,
>
    decreases packs.len(),
{
    if packs.len() == 0 {
        None
    } else if res_matches(packs[0], key) {
        Some(packs[0])
    } else {
        first_res_match(packs.skip(1), key)
    }
}

/// Reverse lookup for resolution: none whenever the request's unit is not
/// dots per inch; otherwise the first device pack whose integer
/// (cross-feed, feed) DPI pair equals the request.
pub open spec fn find_res_spec(packs: Seq<ResolutionPack>, key: IppResolution) -> Option<
    ResolutionPack,
> {
    if key.units != UNITS_DOTS_PER_INCH {
        None
    } else {
        first_res_match(packs, key)
    }
}

/// The protocol resolutions the device supports: each pack's DPI pair as a
/// dots-per-inch protocol value, in device order.  A pack whose DPI does
/// not fit the protocol's signed values is skipped.
pub open spec fn res_keys(packs: Seq<ResolutionPack>) -> Seq<IppResolution>
    decreases packs.len(),
{
    if packs.len() == 0 {
        Seq::empty()
    } else {
        let rest = res_keys(packs.skip(1));
        if packs[0].cross_feed_dpi <= 0x7fffffff && packs[0].feed_dpi <= 0x7fffffff {
            seq![
                IppResolution {
                    cross_feed: packs[0].cross_feed_dpi as i32,
                    feed: packs[0].feed_dpi as i32,
                    units: UNITS_DOTS_PER_INCH,
                },
            ] + rest
        } else {
            rest
        }
    }
}

/// Enumerate the device's resolutions as protocol dots-per-inch values.
pub fn all_supported_resolution_by_win(packs: &Vec<ResolutionPack>) -> (r: Vec<IppResolution>)
    ensures
        r@ == res_keys(packs@),
{
    let mut out: Vec<IppResolution> = Vec::new();
    let n = packs.len();
    proof {
        assert(packs@.skip(0) =~= packs@);
        assert(out@ + res_keys(packs@) =~= res_keys(packs@));
    }
    for i in 0..n
        invariant
            n == packs@.len(),
            out@ + res_keys(packs@.skip(i as int)) == res_keys(packs@),
    {
        proof {
            assert(packs@.skip(i as int)[0] == packs@[i as int]);
            assert(packs@.skip(i as int).skip(1) =~= packs@.skip(i as int + 1));
        }
        let p = packs[i];
        if p.cross_feed_dpi <= 0x7fffffff && p.feed_dpi <= 0x7fffffff {
            let ghost old_out = out@;
            out.push(IppResolution::new_dpi(p.cross_feed_dpi as i32, p.feed_dpi as i32));
            proof {
                assert(old_out + (seq![out@.last()] + res_keys(packs@.skip(i as int + 1))) =~= out@
                    + res_keys(packs@.skip(i as int + 1)));
            }
        }
    }
    proof {
        assert(packs@.skip(n as int) =~= Seq::<ResolutionPack>::empty());
        assert(out@ + Seq::<IppResolution>::empty() =~= out@);
    }
    out
}

/// The first device pack whose DPI pair equals the request, provided the
/// request is in dots per inch; none for any other unit.
pub fn get_resolution_by_ipp(packs: &Vec<ResolutionPack>, ipp_key: &IppResolution) -> (r: Option<
    ResolutionPack,
>)
    ensures
        r == find_res_spec(packs@, *ipp_key),
{
    if ipp_key.units != UNITS_DOTS_PER_INCH {
        return None;
    }
    let n = packs.len();
    proof {
        assert(packs@.skip(0) =~= packs@);
    }
    for i in 0..n
        invariant
            n == packs@.len(),
            ipp_key.units == UNITS_DOTS_PER_INCH,
            first_res_match(packs@, *ipp_key) == first_res_match(packs@.skip(i as int), *ipp_key),
    {
        proof {
            assert(packs@.skip(i as int)[0] == packs@[i as int]);
            assert(packs@.skip(i as int).skip(1) =~= packs@.skip(i as int + 1));
        }
        let p = packs[i];
        let hit = ipp_key.cross_feed >= 0 && ipp_key.feed >= 0 && p.cross_feed_dpi
            == ipp_key.cross_feed as u32 && p.feed_dpi == ipp_key.feed as u32;
        if hit {
            return Some(p);
        }
        proof {
            assert(!res_matches(packs@[i as int], *ipp_key));
        }
    }
    None
}

/// With the request in dots per inch and exactly one device pack whose DPI
/// pair equals it, the lookup returns that pack.
pub proof fn lemma_resolution_unique_match(packs: Seq<ResolutionPack>, key: IppResolution, w: int)
    requires
        key.units == UNITS_DOTS_PER_INCH,
        0 <= w < packs.len(),
        res_matches(packs[w], key),
        forall|j: int| 0 <= j < packs.len() && j != w ==> !res_matches(#[trigger] packs[j], key),
    ensures
        find_res_spec(packs, key) == Some(packs[w]),
    decreases packs.len(),
{
    if w == 0 {
    } else {
        assert(!res_matches(packs[0], key));
        assert(packs.skip(1)[w - 1] == packs[w]);
        assert forall|j: int| 0 <= j < packs.skip(1).len() && j != w - 1 implies !res_matches(
            #[trigger] packs.skip(1)[j],
            key,
        ) by {
            assert(packs.skip(1)[j] == packs[j + 1]);
        }
        lemma_resolution_unique_match(packs.skip(1), key, w - 1);
    }
}

/// A request in any unit other than dots per inch matches nothing.
pub proof fn lemma_resolution_wrong_unit(packs: Seq<ResolutionPack>, key: IppResolution)
    requires
        key.units != UNITS_DOTS_PER_INCH,
    ensures
        find_res_spec(packs, key) is None,
{
}

} // verus!
