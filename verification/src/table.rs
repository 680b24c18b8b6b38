//! The hash table that the registry and the window list are built on.

use vstd::prelude::*;

verus! {

/// A hash table from numbers to numbers, `bevy_utils::HashMap`.
#[verifier::external_body]
pub struct IdTable {
    map: bevy_utils::HashMap<u64, u64>,
}

/// The entries that a table holds.
pub uninterp spec fn id_entries(table: IdTable) -> Map<u64, u64>;

/// The entries of an empty table.
pub open spec fn no_ids() -> Map<u64, u64> {
    Map::empty()
}

/// `HashMap::default`: a table without entries.
#[verifier::external_body]
pub(crate) fn ids_new() -> (fresh: IdTable)
    ensures
        id_entries(fresh) == no_ids(),
{
    IdTable { map: bevy_utils::HashMap::default() }
}

/// `HashMap::get`: the number stored under `key`, if there is one. The
/// table is not changed.
#[verifier::external_body]
pub(crate) fn ids_get(table: &IdTable, key: u64) -> (r: Option<u64>)
    ensures
        r == (if id_entries(*table).contains_key(key) {
            Some(id_entries(*table)[key])
        } else {
            None
        }),
{
    table.map.get(&key).copied()
}

/// `HashMap::insert`: afterwards `key` maps to `value`, whether or not the
/// table had an entry for `key`; no other entry changes.
#[verifier::external_body]
pub(crate) fn ids_insert(table: &mut IdTable, key: u64, value: u64)
    ensures
        id_entries(*final(table)) == id_entries(*old(table)).insert(key, value),
{
    table.map.insert(key, value);
}

/// `HashMap::remove`: takes the entry for `key` out of the table and
/// returns its number, or returns nothing where there was none; no other
/// entry changes.
#[verifier::external_body]
pub(crate) fn ids_remove(table: &mut IdTable, key: u64) -> (r: Option<u64>)
    ensures
        id_entries(*final(table)) == id_entries(*old(table)).remove(key),
        r == (if id_entries(*old(table)).contains_key(key) {
            Some(id_entries(*old(table))[key])
        } else {
            None
        }),
{
    table.map.remove(&key)
}

} // verus!
