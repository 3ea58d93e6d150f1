//! Bidirectional capability tables.
//!
//! Each capability domain keeps a one-to-one association between a
//! protocol-facing key and a native option identity.  The association is held
//! in a `bimap::BiHashMap`; this module declares the two monomorphic table
//! shapes the domains use (string keys and numeric keys) and the trusted
//! wrappers around the `bimap` operations the lookups rely on.  Contracts are
//! stated over two mathematical maps per table: the forward map (key to
//! native identity) and the reverse map (native identity to key).

use vstd::prelude::*;

verus! {

/// A bidirectional table from protocol string keys to native option
/// identities.  `bimap::BiHashMap` keeps the two directions consistent;
/// Verus sees the table only through `str_fwd` and `str_rev`.
#[verifier::external_body]
pub struct StrKeyTable {
    inner: bimap::BiHashMap<String, u64>,
}

/// A bidirectional table from numeric protocol keys (protocol enum values)
/// to native option identities.
#[verifier::external_body]
pub struct NumKeyTable {
    inner: bimap::BiHashMap<u64, u64>,
}

/// The forward direction of a string-keyed table: protocol key to native
/// identity.
pub uninterp spec fn str_fwd(t: StrKeyTable) -> Map<Seq<char>, u64>;

/// The reverse direction of a string-keyed table: native identity to
/// protocol key.
pub uninterp spec fn str_rev(t: StrKeyTable) -> Map<u64, Seq<char>>;

/// The forward direction of a numeric-keyed table.
pub uninterp spec fn num_fwd(t: NumKeyTable) -> Map<u64, u64>;

/// The reverse direction of a numeric-keyed table.
pub uninterp spec fn num_rev(t: NumKeyTable) -> Map<u64, u64>;

/// Both directions of a string-keyed table are empty.
pub open spec fn str_table_empty(t: StrKeyTable) -> bool {
    str_fwd(t) == Map::<Seq<char>, u64>::empty() && str_rev(t) == Map::<u64, Seq<char>>::empty()
}

/// Relies on `bimap::BiHashMap::new`: a new bimap contains no pairs.
#[verifier::external_body]
pub fn str_table_new() -> (t: StrKeyTable)
    ensures
        str_table_empty(t),
{
    StrKeyTable { inner: bimap::BiHashMap::new() }
}

/// Relies on `bimap::BiHashMap::insert_no_overwrite`: the pair is inserted
/// on both sides iff neither the key nor the value is already present;
/// otherwise the map is left unchanged and the pair is returned as an error.
#[verifier::external_body]
pub fn str_table_insert(t: &mut StrKeyTable, key: &str, native: u64) -> (r: bool)
    ensures
        r == (!str_fwd(*old(t)).contains_key(key@) && !str_rev(*old(t)).contains_key(native)),
        r ==> str_fwd(*final(t)) == str_fwd(*old(t)).insert(key@, native) && str_rev(*final(t))
            == str_rev(*old(t)).insert(native, key@),
        !r ==> str_fwd(*final(t)) == str_fwd(*old(t)) && str_rev(*final(t)) == str_rev(*old(t)),
{
    t.inner.insert_no_overwrite(key.to_owned(), native).is_ok()
}

/// Relies on `bimap::BiHashMap::get_by_left`: returns the right value paired
/// with the key, if the key is present.
#[verifier::external_body]
pub fn str_table_get(t: &StrKeyTable, key: &str) -> (r: Option<u64>)
    ensures
        r == (if str_fwd(*t).contains_key(key@) {
            Some(str_fwd(*t)[key@])
        } else {
            None::<u64>
        }),
{
    t.inner.get_by_left(key).copied()
}

/// Relies on `bimap::BiHashMap::get_by_right`: returns the left value paired
/// with the given right value, if that value is present.
#[verifier::external_body]
pub fn str_table_get_rev(t: &StrKeyTable, native: u64) -> (r: Option<String>)
    ensures
        match r {
            Some(key) => str_rev(*t).contains_key(native) && key@ == str_rev(*t)[native],
            None => !str_rev(*t).contains_key(native),
        },
{
    t.inner.get_by_right(&native).cloned()
}

/// Both directions of a numeric-keyed table are empty.
pub open spec fn num_table_empty(t: NumKeyTable) -> bool {
    num_fwd(t) == Map::<u64, u64>::empty() && num_rev(t) == Map::<u64, u64>::empty()
}

/// Relies on `bimap::BiHashMap::new`: a new bimap contains no pairs.
#[verifier::external_body]
pub fn num_table_new() -> (t: NumKeyTable)
    ensures
        num_table_empty(t),
{
    NumKeyTable { inner: bimap::BiHashMap::new() }
}

/// Relies on `bimap::BiHashMap::insert_no_overwrite`: the pair is inserted
/// on both sides iff neither the key nor the value is already present;
/// otherwise the map is left unchanged and the pair is returned as an error.
#[verifier::external_body]
pub fn num_table_insert(t: &mut NumKeyTable, key: u64, native: u64) -> (r: bool)
    ensures
        r == (!num_fwd(*old(t)).contains_key(key) && !num_rev(*old(t)).contains_key(native)),
        r ==> num_fwd(*final(t)) == num_fwd(*old(t)).insert(key, native) && num_rev(*final(t))
            == num_rev(*old(t)).insert(native, key),
        !r ==> num_fwd(*final(t)) == num_fwd(*old(t)) && num_rev(*final(t)) == num_rev(*old(t)),
{
    t.inner.insert_no_overwrite(key, native).is_ok()
}

/// Relies on `bimap::BiHashMap::get_by_left`: returns the right value paired
/// with the key, if the key is present.
#[verifier::external_body]
pub fn num_table_get(t: &NumKeyTable, key: u64) -> (r: Option<u64>)
    ensures
        r == (if num_fwd(*t).contains_key(key) {
            Some(num_fwd(*t)[key])
        } else {
            None::<u64>
        }),
{
    t.inner.get_by_left(&key).copied()
}

/// Relies on `bimap::BiHashMap::get_by_right`: returns the left value paired
/// with the given right value, if that value is present.
#[verifier::external_body]
pub fn num_table_get_rev(t: &NumKeyTable, native: u64) -> (r: Option<u64>)
    ensures
        r == (if num_rev(*t).contains_key(native) {
            Some(num_rev(*t)[native])
        } else {
            None::<u64>
        }),
{
    t.inner.get_by_right(&native).copied()
}

} // verus!
