//! Capability lookups over a bidirectional table and a set of device packs.
//!
//! Two operations are shared by every discrete capability domain:
//!
//! * forward lookup with a device filter (`find_by_ipp_*`): map a protocol
//!   key to a native identity through the table, then return the first
//!   device-offered pack carrying that identity;
//! * reverse enumeration (`all_supported_*`): for each device-offered pack,
//!   map its native identity back to a protocol key if the table has a
//!   reverse entry, preserving device enumeration order and without
//!   deduplicating.
//!
//! The table encodes only what the two vocabularies have in common; the
//! device remains the sole authority on what it actually offers.

use vstd::prelude::*;
use crate::captable::{str_fwd, str_rev, num_fwd, num_rev, str_table_get, str_table_get_rev,
    num_table_get, num_table_get_rev, StrKeyTable, NumKeyTable};

verus! {

/// A concrete option instance reported by the device for one domain.
///
/// `predefined` is the pack's native identity, when the pack corresponds to
/// a predefined option name; packs without one never match a table entry.
/// `token` is an opaque per-enumeration handle with which the caller can
/// recover the underlying native pack object; the lookups only pass it
/// through.
#[derive(Clone, Copy, Debug, PartialEq, Eq)]
pub struct OptionPack {
    pub predefined: Option<u64>,
    pub token: u64,
}

/// The first pack in `packs` whose native identity is `native`.
pub open spec fn first_match(packs: Seq<OptionPack>, native: u64) -> Option<OptionPack>
    decreases packs.len(),
{
    if packs.len() == 0 {
        None
    } else if packs[0].predefined == Some(native) {
        Some(packs[0])
    } else {
        first_match(packs.skip(1), native)
    }
}

/// Forward lookup: key to native identity through `fwd`, then the first
/// matching device pack.  None both for a key outside the table and for a
/// key no device pack matches; callers never distinguish the two causes.
pub open spec fn find_spec<K>(fwd: Map<K, u64>, packs: Seq<OptionPack>, key: K) -> Option<
    OptionPack,
> {
    if fwd.contains_key(key) {
        first_match(packs, fwd[key])
    } else {
        None
    }
}

/// Reverse enumeration: the keys of the packs whose native identity has a
/// reverse entry in `rev`, in device enumeration order, not deduplicated.
pub open spec fn supported_keys<K>(rev: Map<u64, K>, packs: Seq<OptionPack>) -> Seq<K>
    decreases packs.len(),
{
    if packs.len() == 0 {
        Seq::empty()
    } else {
        let rest = supported_keys(rev, packs.skip(1));
        match packs[0].predefined {
            Some(n) => if rev.contains_key(n) {
                seq![rev[n]] + rest
            } else {
                rest
            },
            None => rest,
        }
    }
}

/// How many packs have a native identity with a reverse entry in `rev`.
pub open spec fn count_supported<K>(rev: Map<u64, K>, packs: Seq<OptionPack>) -> nat
    decreases packs.len(),
{
    if packs.len() == 0 {
        0
    } else {
        let rest = count_supported(rev, packs.skip(1));
        match packs[0].predefined {
            Some(n) => if rev.contains_key(n) {
                rest + 1
            } else {
                rest
            },
            None => rest,
        }
    }
}

/// Forward lookup with a device filter, for string-keyed domains.
pub fn find_by_ipp_str(t: &StrKeyTable, packs: &Vec<OptionPack>, key: &str) -> (r: Option<
    OptionPack,
>)
    ensures
        r == find_spec(str_fwd(*t), packs@, key@),
{
    let native = match str_table_get(t, key) {
        Some(n) => n,
        None => {
            return None;
        },
    };
    find_first_pack(packs, native)
}

/// Forward lookup with a device filter, for numeric-keyed domains.
pub fn find_by_ipp_num(t: &NumKeyTable, packs: &Vec<OptionPack>, key: u64) -> (r: Option<
    OptionPack,
>)
    ensures
        r == find_spec(num_fwd(*t), packs@, key),
{
    let native = match num_table_get(t, key) {
        Some(n) => n,
        None => {
            return None;
        },
    };
    find_first_pack(packs, native)
}

/// The first device pack whose native identity is `native`.
pub fn find_first_pack(packs: &Vec<OptionPack>, native: u64) -> (r: Option<OptionPack>)
    ensures
        r == first_match(packs@, native),
{
    let n = packs.len();
    proof {
        assert(packs@.skip(0) =~= packs@);
    }
    for i in 0..n
        invariant
            n == packs@.len(),
            first_match(packs@, native) == first_match(packs@.skip(i as int), native),
    {
        let p = packs[i];
        let matches_native = match p.predefined {
            Some(m) => m == native,
            None => false,
        };
        proof {
            assert(packs@.skip(i as int)[0] == packs@[i as int]);
            assert(packs@.skip(i as int).skip(1) =~= packs@.skip(i as int + 1));
        }
        if matches_native {
            return Some(p);
        }
    }
    None
}

/// Reverse enumeration for string-keyed domains: emits one key per matching
/// pack, in device order, without deduplication.
pub fn all_supported_str(t: &StrKeyTable, packs: &Vec<OptionPack>) -> (r: Vec<String>)
    ensures
        r@.map_values(|s: String| s@) == supported_keys(str_rev(*t), packs@),
{
    let mut out: Vec<String> = Vec::new();
    let n = packs.len();
    proof {
        assert(packs@.skip(0) =~= packs@);
        assert(out@.map_values(|s: String| s@) + supported_keys(str_rev(*t), packs@)
            =~= supported_keys(str_rev(*t), packs@));
    }
    for i in 0..n
        invariant
            n == packs@.len(),
            out@.map_values(|s: String| s@) + supported_keys(str_rev(*t), packs@.skip(i as int))
                == supported_keys(str_rev(*t), packs@),
    {
        proof {
            assert(packs@.skip(i as int)[0] == packs@[i as int]);
            assert(packs@.skip(i as int).skip(1) =~= packs@.skip(i as int + 1));
        }
        let p = packs[i];
        if let Some(native) = p.predefined {
            if let Some(key) = str_table_get_rev(t, native) {
                let ghost old_out = out@;
                out.push(key);
                proof {
                    assert(out@.map_values(|s: String| s@) =~= old_out.map_values(|s: String| s@)
                        + seq![str_rev(*t)[native]]);
                    assert(old_out.map_values(|s: String| s@) + (seq![str_rev(*t)[native]]
                        + supported_keys(str_rev(*t), packs@.skip(i as int + 1))) =~= out@.map_values(
                        |s: String| s@,
                    ) + supported_keys(str_rev(*t), packs@.skip(i as int + 1)));
                }
            }
        }
    }
    proof {
        assert(packs@.skip(n as int) =~= Seq::<OptionPack>::empty());
        assert(out@.map_values(|s: String| s@) + Seq::<Seq<char>>::empty() =~= out@.map_values(
            |s: String| s@,
        ));
    }
    out
}

/// Reverse enumeration for numeric-keyed domains.
pub fn all_supported_num(t: &NumKeyTable, packs: &Vec<OptionPack>) -> (r: Vec<u64>)
    ensures
        r@ == supported_keys(num_rev(*t), packs@),
{
    let mut out: Vec<u64> = Vec::new();
    let n = packs.len();
    proof {
        assert(packs@.skip(0) =~= packs@);
        assert(out@ + supported_keys(num_rev(*t), packs@) =~= supported_keys(num_rev(*t), packs@));
    }
    for i in 0..n
        invariant
            n == packs@.len(),
            out@ + supported_keys(num_rev(*t), packs@.skip(i as int)) == supported_keys(
                num_rev(*t),
                packs@,
            ),
    {
        proof {
            assert(packs@.skip(i as int)[0] == packs@[i as int]);
            assert(packs@.skip(i as int).skip(1) =~= packs@.skip(i as int + 1));
        }
        let p = packs[i];
        if let Some(native) = p.predefined {
            if let Some(key) = num_table_get_rev(t, native) {
                let ghost old_out = out@;
                out.push(key);
                proof {
                    assert(old_out + (seq![num_rev(*t)[native]] + supported_keys(
                        num_rev(*t),
                        packs@.skip(i as int + 1),
                    )) =~= out@ + supported_keys(num_rev(*t), packs@.skip(i as int + 1)));
                }
            }
        }
    }
    proof {
        assert(packs@.skip(n as int) =~= Seq::<OptionPack>::empty());
        assert(out@ + Seq::<u64>::empty() =~= out@);
    }
    out
}

/// For every key in the table, a forward lookup returns a pack whose native
/// identity is exactly the table's mapped value, whenever a matching pack is
/// present.
pub proof fn lemma_find_by_key_matches<K>(fwd: Map<K, u64>, packs: Seq<OptionPack>, key: K)
    requires
        fwd.contains_key(key),
        exists|i: int| 0 <= i < packs.len() && packs[i].predefined == Some(fwd[key]),
    ensures
        find_spec(fwd, packs, key) matches Some(p) && p.predefined == Some(fwd[key]),
    decreases packs.len(),
{
    let native = fwd[key];
    let i = choose|i: int| 0 <= i < packs.len() && packs[i].predefined == Some(native);
    if packs[0].predefined == Some(native) {
    } else {
        assert(packs.skip(1)[i - 1] == packs[i]);
        lemma_find_by_key_matches(fwd, packs.skip(1), key);
    }
}

/// A key absent from the table finds nothing, whatever the device offers.
pub proof fn lemma_find_by_key_absent<K>(fwd: Map<K, u64>, packs: Seq<OptionPack>, key: K)
    requires
        !fwd.contains_key(key),
    ensures
        find_spec(fwd, packs, key) is None,
{
}

/// Whether one pack makes the reverse enumeration emit `key`.
pub open spec fn pack_emits<K>(rev: Map<u64, K>, p: OptionPack, key: K) -> bool {
    match p.predefined {
        Some(n) => rev.contains_key(n) && rev[n] == key,
        None => false,
    }
}

/// Reverse enumeration emits a key iff some pack carries a native identity
/// the table maps back to that key.
pub proof fn lemma_all_supported_iff<K>(rev: Map<u64, K>, packs: Seq<OptionPack>, key: K)
    ensures
        supported_keys(rev, packs).contains(key) <==> exists|i: int|
            0 <= i < packs.len() && pack_emits(rev, packs[i], key),
    decreases packs.len(),
{
    if packs.len() == 0 {
    } else {
        lemma_all_supported_iff(rev, packs.skip(1), key);
        let rest = supported_keys(rev, packs.skip(1));
        let emitted = supported_keys(rev, packs);
        assert forall|j: int| 0 <= j < packs.skip(1).len() implies packs.skip(1)[j] == packs[j + 1]
        by {}
        if emitted.contains(key) {
            match packs[0].predefined {
                Some(n) => {
                    if rev.contains_key(n) {
                        assert(emitted == seq![rev[n]] + rest);
                        if rev[n] == key {
                            assert(pack_emits(rev, packs[0], key));
                        } else {
                            let w = choose|w: int| 0 <= w < emitted.len() && emitted[w] == key;
                            assert(rest[w - 1] == key);
                            assert(rest.contains(key));
                        }
                    }
                },
                None => {},
            }
        }
        if exists|i: int| 0 <= i < packs.len() && pack_emits(rev, packs[i], key) {
            let i = choose|i: int| 0 <= i < packs.len() && pack_emits(rev, packs[i], key);
            if i == 0 {
                let n = packs[0].predefined->Some_0;
                assert(emitted == seq![rev[n]] + rest);
                assert(emitted[0] == key);
                assert(emitted.contains(key));
            } else {
                assert(packs.skip(1)[i - 1] == packs[i]);
                assert(rest.contains(key));
                let w = choose|w: int| 0 <= w < rest.len() && rest[w] == key;
                match packs[0].predefined {
                    Some(n) => {
                        if rev.contains_key(n) {
                            assert(emitted == seq![rev[n]] + rest);
                            assert(emitted[w + 1] == key);
                            assert(emitted.contains(key));
                        }
                    },
                    None => {},
                }
            }
        }
    }
}

/// The number of keys emitted equals the number of packs whose native
/// identity has a reverse entry: repeated identities yield repeated keys.
pub proof fn lemma_all_supported_count<K>(rev: Map<u64, K>, packs: Seq<OptionPack>)
    ensures
        supported_keys(rev, packs).len() == count_supported(rev, packs),
    decreases packs.len(),
{
    if packs.len() == 0 {
    } else {
        lemma_all_supported_count(rev, packs.skip(1));
    }
}

} // verus!
