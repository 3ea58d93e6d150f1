//! The print-color-mode domain: monochrome, grayscale and color output.

use vstd::prelude::*;
use crate::captable::{str_fwd, str_rev, str_table_new, str_table_insert, StrKeyTable};

verus! {

/// Native identity of the monochrome page-output-color option.
pub const COLOR_MONOCHROME: u64 = 0;

/// Native identity of the grayscale page-output-color option.
pub const COLOR_GRAYSCALE: u64 = 1;

/// Native identity of the color page-output-color option.
pub const COLOR_COLOR: u64 = 2;

/// The print-color-mode table, key to native identity.
pub open spec fn color_fwd() -> Map<Seq<char>, u64> {
    Map::<Seq<char>, u64>::empty().insert("monochrome"@, COLOR_MONOCHROME).insert(
        "grayscale"@,
        COLOR_GRAYSCALE,
    ).insert("color"@, COLOR_COLOR)
}

/// The print-color-mode table, native identity to key.
pub open spec fn color_rev() -> Map<u64, Seq<char>> {
    Map::<u64, Seq<char>>::empty().insert(COLOR_MONOCHROME, "monochrome"@).insert(
        COLOR_GRAYSCALE,
        "grayscale"@,
    ).insert(COLOR_COLOR, "color"@)
}

/// The print-color-mode capability domain.
pub struct PrintColorMap;

impl PrintColorMap {
    /// Build the domain's bidirectional table: the three protocol
    /// print-color-mode keywords against the native page-output-color
    /// options.
    pub fn bimap() -> (t: StrKeyTable)
        ensures
            str_fwd(t) == color_fwd(),
            str_rev(t) == color_rev(),
    {
        proof {
            reveal_strlit("monochrome");
            reveal_strlit("grayscale");
            reveal_strlit("color");
            assert("monochrome"@.len() == 10);
            assert("grayscale"@.len() == 9);
            assert("color"@.len() == 5);
            assert("monochrome"@ != "grayscale"@);
            assert("monochrome"@ != "color"@);
            assert("grayscale"@ != "color"@);
        }
        let mut t = str_table_new();
        let ok1 = str_table_insert(&mut t, "monochrome", COLOR_MONOCHROME);
        let ok2 = str_table_insert(&mut t, "grayscale", COLOR_GRAYSCALE);
        let ok3 = str_table_insert(&mut t, "color", COLOR_COLOR);
        proof {
            assert(ok1 && ok2 && ok3);
        }
        t
    }
}

} // verus!
