//! Request routing for a per-device service: its base path and the paths
//! it answers for.
//!
//! Paths are handled as UTF-8 bytes; the separator is the single byte
//! `/`, so slicing on it never splits a multi-byte character.

use vstd::prelude::*;

verus! {

/// The path separator.
pub const SLASH: u8 = 47;

/// `s` without one leading slash, if it has one.
pub open spec fn strip_leading_slash(s: Seq<u8>) -> Seq<u8> {
    if s.len() > 0 && s[0] == SLASH {
        s.skip(1)
    } else {
        s
    }
}

/// `s` without one trailing slash, if it has one.
pub open spec fn strip_trailing_slash(s: Seq<u8>) -> Seq<u8> {
    if s.len() > 0 && s.last() == SLASH {
        s.drop_last()
    } else {
        s
    }
}

/// A configured base path, normalized: one leading slash and no trailing
/// slash.
pub open spec fn spec_format_basepath(s: Seq<u8>) -> Seq<u8> {
    seq![SLASH] + strip_trailing_slash(strip_leading_slash(s))
}

/// Normalize a configured base path: strip one leading and one trailing
/// slash, then prefix a slash.
pub fn format_basepath(s: &Vec<u8>) -> (r: Vec<u8>)
    ensures
        r@ == spec_format_basepath(s@),
{
    let from: usize = if s.len() > 0 && s[0] == SLASH {
        1
    } else {
        0
    };
    let stripped_len = s.len() - from;
    let to: usize = if stripped_len > 0 && s[s.len() - 1] == SLASH {
        s.len() - 1
    } else {
        s.len()
    };
    proof {
        let stripped = strip_leading_slash(s@);
        assert(stripped =~= s@.subrange(from as int, s@.len() as int));
        assert(strip_trailing_slash(stripped) =~= s@.subrange(from as int, to as int));
    }
    let mut r: Vec<u8> = Vec::new();
    r.push(SLASH);
    let mut j = from;
    proof {
        assert(r@ =~= seq![SLASH] + s@.subrange(from as int, from as int));
    }
    while j < to
        invariant
            from <= j <= to <= s@.len(),
            r@ == seq![SLASH] + s@.subrange(from as int, j as int),
        decreases to - j,
    {
        let x = s[j];
        r.push(x);
        j = j + 1;
        proof {
            assert((seq![SLASH] + s@.subrange(from as int, j - 1)).push(s@[j - 1]) =~= seq![SLASH]
                + s@.subrange(from as int, j as int));
        }
    }
    r
}

/// The paths a service answers for: its base path itself, and anything
/// under it.
pub open spec fn spec_path_matches(base: Seq<u8>, path: Seq<u8>) -> bool {
    &&& path.len() >= base.len()
    &&& path.take(base.len() as int) == base
    &&& (path.len() == base.len() || path[base.len() as int] == SLASH)
}

/// Whether a request path falls under the service's normalized base path.
pub fn path_matches(base: &Vec<u8>, path: &Vec<u8>) -> (r: bool)
    ensures
        r == spec_path_matches(base@, path@),
{
    let blen = base.len();
    if path.len() < blen {
        return false;
    }
    let mut i: usize = 0;
    while i < blen
        invariant
            i <= blen,
            blen == base@.len() <= path@.len(),
            forall|j: int| 0 <= j < i ==> base@[j] == path@[j],
        decreases blen - i,
    {
        if base[i] != path[i] {
            proof {
                assert(path@.take(blen as int)[i as int] != base@[i as int]);
            }
            return false;
        }
        i = i + 1;
    }
    proof {
        assert(path@.take(blen as int) =~= base@);
    }
    path.len() == blen || path[blen] == SLASH
}

/// The resource-path value a discovery record advertises: the base path
/// without its leading slash.
pub fn dnssd_resource_path(basepath: &Vec<u8>) -> (r: Vec<u8>)
    ensures
        r@ == strip_leading_slash(basepath@),
{
    let from: usize = if basepath.len() > 0 && basepath[0] == SLASH {
        1
    } else {
        0
    };
    let mut r: Vec<u8> = Vec::new();
    let mut j = from;
    let n = basepath.len();
    proof {
        assert(strip_leading_slash(basepath@) =~= basepath@.subrange(from as int, n as int));
        assert(r@ =~= basepath@.subrange(from as int, from as int));
    }
    while j < n
        invariant
            from <= j <= n == basepath@.len(),
            r@ == basepath@.subrange(from as int, j as int),
        decreases n - j,
    {
        let x = basepath[j];
        r.push(x);
        j = j + 1;
        proof {
            assert(basepath@.subrange(from as int, j - 1).push(basepath@[j - 1]) =~= basepath@
                .subrange(from as int, j as int));
        }
    }
    r
}

} // verus!
