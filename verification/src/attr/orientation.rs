//! The page orientation domain.
//!
//! The protocol carries orientation as a small enumeration; the numeric
//! enum values are the table keys.

use vstd::prelude::*;
use crate::captable::{num_fwd, num_rev, num_table_new, num_table_insert, NumKeyTable};

verus! {

/// Protocol enum value for portrait orientation.
pub const IPP_ORIENTATION_PORTRAIT: u64 = 3;

/// Protocol enum value for landscape orientation.
pub const IPP_ORIENTATION_LANDSCAPE: u64 = 4;

/// Protocol enum value for reverse-landscape orientation.
pub const IPP_ORIENTATION_REVERSE_LANDSCAPE: u64 = 5;

/// Protocol enum value for reverse-portrait orientation.
pub const IPP_ORIENTATION_REVERSE_PORTRAIT: u64 = 6;

/// Native identity of the portrait page orientation.
pub const ORIENTATION_PORTRAIT: u64 = 0;

/// Native identity of the landscape page orientation.
pub const ORIENTATION_LANDSCAPE: u64 = 1;

/// Native identity of the reverse-portrait page orientation.
pub const ORIENTATION_REVERSE_PORTRAIT: u64 = 2;

/// Native identity of the reverse-landscape page orientation.
pub const ORIENTATION_REVERSE_LANDSCAPE: u64 = 3;

/// The orientation table, protocol enum value to native identity.
pub open spec fn orientation_fwd() -> Map<u64, u64> {
    Map::<u64, u64>::empty().insert(IPP_ORIENTATION_PORTRAIT, ORIENTATION_PORTRAIT).insert(
        IPP_ORIENTATION_LANDSCAPE,
        ORIENTATION_LANDSCAPE,
    ).insert(IPP_ORIENTATION_REVERSE_PORTRAIT, ORIENTATION_REVERSE_PORTRAIT).insert(
        IPP_ORIENTATION_REVERSE_LANDSCAPE,
        ORIENTATION_REVERSE_LANDSCAPE,
    )
}

/// The orientation table, native identity to protocol enum value.
pub open spec fn orientation_rev() -> Map<u64, u64> {
    Map::<u64, u64>::empty().insert(ORIENTATION_PORTRAIT, IPP_ORIENTATION_PORTRAIT).insert(
        ORIENTATION_LANDSCAPE,
        IPP_ORIENTATION_LANDSCAPE,
    ).insert(ORIENTATION_REVERSE_PORTRAIT, IPP_ORIENTATION_REVERSE_PORTRAIT).insert(
        ORIENTATION_REVERSE_LANDSCAPE,
        IPP_ORIENTATION_REVERSE_LANDSCAPE,
    )
}

/// The page orientation capability domain.
pub struct OrientationMap;

impl OrientationMap {
    /// Build the domain's bidirectional table: the four protocol
    /// orientation enum values against the native page orientations.
    pub fn bimap() -> (t: NumKeyTable)
        ensures
            num_fwd(t) == orientation_fwd(),
            num_rev(t) == orientation_rev(),
    {
        let mut t = num_table_new();
        let ok1 = num_table_insert(&mut t, IPP_ORIENTATION_PORTRAIT, ORIENTATION_PORTRAIT);
        let ok2 = num_table_insert(&mut t, IPP_ORIENTATION_LANDSCAPE, ORIENTATION_LANDSCAPE);
        let ok3 = num_table_insert(
            &mut t,
            IPP_ORIENTATION_REVERSE_PORTRAIT,
            ORIENTATION_REVERSE_PORTRAIT,
        );
        let ok4 = num_table_insert(
            &mut t,
            IPP_ORIENTATION_REVERSE_LANDSCAPE,
            ORIENTATION_REVERSE_LANDSCAPE,
        );
        proof {
            assert(ok1 && ok2 && ok3 && ok4);
        }
        t
    }
}

} // verus!
