//! The sides (duplex) domain: one-sided and the two two-sided bindings.

use vstd::prelude::*;
use crate::captable::{str_fwd, str_rev, str_table_new, str_table_insert, StrKeyTable};

verus! {

/// Native identity of the one-sided duplex option.
pub const DUPLEX_ONE_SIDED: u64 = 0;

/// Native identity of the two-sided, long-edge-binding duplex option.
pub const DUPLEX_TWO_SIDED_LONG_EDGE: u64 = 1;

/// Native identity of the two-sided, short-edge-binding duplex option.
pub const DUPLEX_TWO_SIDED_SHORT_EDGE: u64 = 2;

/// The sides table, key to native identity.
pub open spec fn sides_fwd() -> Map<Seq<char>, u64> {
    Map::<Seq<char>, u64>::empty().insert("one-sided"@, DUPLEX_ONE_SIDED).insert(
        "two-sided-long-edge"@,
        DUPLEX_TWO_SIDED_LONG_EDGE,
    ).insert("two-sided-short-edge"@, DUPLEX_TWO_SIDED_SHORT_EDGE)
}

/// The sides table, native identity to key.
pub open spec fn sides_rev() -> Map<u64, Seq<char>> {
    Map::<u64, Seq<char>>::empty().insert(DUPLEX_ONE_SIDED, "one-sided"@).insert(
        DUPLEX_TWO_SIDED_LONG_EDGE,
        "two-sided-long-edge"@,
    ).insert(DUPLEX_TWO_SIDED_SHORT_EDGE, "two-sided-short-edge"@)
}

/// The job sides capability domain.
pub struct JobSidesMap;

impl JobSidesMap {
    /// Build the domain's bidirectional table: the three protocol sides
    /// keywords against the native duplex options.
    pub fn bimap() -> (t: StrKeyTable)
        ensures
            str_fwd(t) == sides_fwd(),
            str_rev(t) == sides_rev(),
    {
        proof {
            reveal_strlit("one-sided");
            reveal_strlit("two-sided-long-edge");
            reveal_strlit("two-sided-short-edge");
            assert("one-sided"@.len() == 9);
            assert("two-sided-long-edge"@.len() == 19);
            assert("two-sided-short-edge"@.len() == 20);
            assert("one-sided"@ != "two-sided-long-edge"@);
            assert("one-sided"@ != "two-sided-short-edge"@);
            assert("two-sided-long-edge"@ != "two-sided-short-edge"@);
        }
        let mut t = str_table_new();
        let ok1 = str_table_insert(&mut t, "one-sided", DUPLEX_ONE_SIDED);
        let ok2 = str_table_insert(&mut t, "two-sided-long-edge", DUPLEX_TWO_SIDED_LONG_EDGE);
        let ok3 = str_table_insert(&mut t, "two-sided-short-edge", DUPLEX_TWO_SIDED_SHORT_EDGE);
        proof {
            assert(ok1 && ok2 && ok3);
        }
        t
    }
}

} // verus!
