//! Coordinate-keyed tables, and the table of the positions that clients
//! report, held in the sharded concurrent map of the `dashmap` crate.
//!
//! The map itself is not verified. What is taken on trust of it is written
//! down here, once for each of its methods that the library calls: a
//! table behaves as the map that [`entries_of`] gives for it. The library
//! changes a table only through a unique reference, so nothing else
//! touches the table while a call is under way.

use vstd::prelude::*;
use dashmap::DashMap;

verus! {

/// `dashmap::DashMap`, of which nothing inside is looked at.
#[verifier::external_type_specification]
#[verifier::external_body]
#[verifier::reject_recursive_types(K)]
#[verifier::reject_recursive_types(V)]
#[verifier::reject_recursive_types(S)]
pub struct ExDashMap<K, V, S>(DashMap<K, V, S>);

/// A key of a table: three signed coordinates.
pub type Key = (i32, i32, i32);

/// A table from keys to 32-bit values.
pub type Table = DashMap<(i32, i32, i32), u32>;

/// What a table holds: the value stored under each key.
pub uninterp spec fn entries_of(m: DashMap<(i32, i32, i32), u32>) -> Map<(i32, i32, i32), u32>;

/// The contents of a table that holds nothing.
pub open spec fn no_entries() -> Map<Key, u32> {
    Map::empty()
}

/// `DashMap::new`: a table that holds nothing.
#[verifier::external_body]
pub(crate) fn table_new() -> (m: Table)
    ensures
        entries_of(m) == no_entries(),
{
    DashMap::new()
}

/// `DashMap::get`: the value stored under `key`, if there is one. The
/// table is left as it was.
#[verifier::external_body]
pub(crate) fn table_get(m: &Table, key: Key) -> (value: Option<u32>)
    ensures
        value == (if entries_of(*m).contains_key(key) {
            Some(entries_of(*m)[key])
        } else {
            None
        }),
{
    m.get(&key).map(|entry| *entry.value())
}

/// `DashMap::insert`: `value` is stored under `key`, replacing what was
/// there; every other key keeps its value.
#[verifier::external_body]
pub(crate) fn table_insert(m: &mut Table, key: Key, value: u32)
    ensures
        entries_of(*final(m)) == entries_of(*old(m)).insert(key, value),
{
    m.insert(key, value);
}

/// `DashMap::remove`: `key` no longer has a value; every other key keeps
/// its value.
#[verifier::external_body]
pub(crate) fn table_remove(m: &mut Table, key: Key)
    ensures
        entries_of(*final(m)) == entries_of(*old(m)).remove(key),
{
    m.remove(&key);
}

/// `DashMap::iter`: every entry of the table exactly once, in an order
/// that the table does not fix.
#[verifier::external_body]
pub(crate) fn table_entries(m: &Table) -> (list: Vec<(Key, u32)>)
    ensures
        forall|i: int|
            0 <= i < list@.len() ==> entries_of(*m).contains_key(#[trigger] list@[i].0)
                && entries_of(*m)[list@[i].0] == list@[i].1,
        forall|k: Key|
            entries_of(*m).contains_key(k) ==> exists|i: int|
                0 <= i < list@.len() && (#[trigger] list@[i]).0 == k,
        forall|i: int, j: int|
            0 <= i < j < list@.len() ==> (#[trigger] list@[i]).0 != (#[trigger] list@[j]).0,
{
    m.iter().map(|entry| (*entry.key(), *entry.value())).collect()
}

/// A table from client identifiers to positions, each position the bit
/// patterns of three floats.
pub type Cameras = DashMap<u128, (u32, u32, u32)>;

/// What a table of positions holds: the position stored under each
/// identifier.
pub uninterp spec fn cameras_of(m: DashMap<u128, (u32, u32, u32)>) -> Map<u128, (u32, u32, u32)>;

/// The contents of a table of positions that holds nothing.
pub open spec fn no_cameras() -> Map<u128, (u32, u32, u32)> {
    Map::empty()
}

/// `DashMap::new`: a table of positions that holds nothing.
#[verifier::external_body]
pub(crate) fn cameras_new() -> (m: Cameras)
    ensures
        cameras_of(m) == no_cameras(),
{
    DashMap::new()
}

/// `DashMap::get`: the position stored under `id`, if there is one. The
/// table is left as it was.
#[verifier::external_body]
pub(crate) fn cameras_get(m: &Cameras, id: u128) -> (position: Option<(u32, u32, u32)>)
    ensures
        position == (if cameras_of(*m).contains_key(id) {
            Some(cameras_of(*m)[id])
        } else {
            None
        }),
{
    m.get(&id).map(|entry| *entry.value())
}

/// `DashMap::insert`: `position` is stored under `id`, replacing what was
/// there; every other identifier keeps its position.
#[verifier::external_body]
pub(crate) fn cameras_insert(m: &mut Cameras, id: u128, position: (u32, u32, u32))
    ensures
        cameras_of(*final(m)) == cameras_of(*old(m)).insert(id, position),
{
    m.insert(id, position);
}

} // verus!
