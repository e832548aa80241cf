//! The three blobs that a world is kept in: the override store as a flat
//! run of sixteen-byte records, the seed and the kind of world as decimal
//! text.
//!
//! A record is four little-endian words: the voxel's x, y and z, each as
//! the word that stands for the signed number, and the block.

use vstd::prelude::*;
use crate::chunk::{ChunkSystem, Tier};
use crate::table::{entries_of, table_entries, table_insert, table_new, Key, Table};
use crate::wire::{
    decimal, decimal_value, format_decimal, get_u32, le4, lemma_signed_unsigned,
    lemma_word_at_le4, parse_decimal, put_u32, signed, to_signed, to_unsigned, unsigned, word_at,
};

verus! {

/// An entry of the override store: a voxel's key and the block there.
pub type Entry = ((i32, i32, i32), u32);

/// The blobs of one world.
pub struct WorldFiles {
    /// The override store.
    pub udm: Vec<u8>,
    /// The seed, in decimal.
    pub seed: Vec<u8>,
    /// The kind of world, in decimal.
    pub pt: Vec<u8>,
}

/// The sixteen bytes of an entry.
pub open spec fn record(e: Entry) -> Seq<u8> {
    le4(unsigned(e.0.0)) + le4(unsigned(e.0.1)) + le4(unsigned(e.0.2)) + le4(e.1)
}

/// The entry that record number `n` of a blob holds.
pub open spec fn record_at(bytes: Seq<u8>, n: int) -> Entry {
    (
        (
            signed(word_at(bytes, 16 * n)),
            signed(word_at(bytes, 16 * n + 4)),
            signed(word_at(bytes, 16 * n + 8)),
        ),
        word_at(bytes, 16 * n + 12),
    )
}

/// The blob of a list of entries: their records, one after the other.
pub open spec fn encode_entries(entries: Seq<Entry>) -> Seq<u8>
    decreases entries.len(),
{
    if entries.len() == 0 {
        Seq::empty()
    } else {
        encode_entries(entries.drop_last()) + record(entries.last())
    }
}

/// The entries that a blob lists, if it is a whole number of records.
pub open spec fn decode_entries(bytes: Seq<u8>) -> Option<Seq<Entry>> {
    if bytes.len() % 16 == 0 {
        Some(Seq::new((bytes.len() / 16) as nat, |n: int| record_at(bytes, n)))
    } else {
        None
    }
}

/// The store that a list of entries fills: where a key is listed more
/// than once, the last listing counts.
pub open spec fn entries_map(entries: Seq<Entry>) -> Map<Key, u32>
    decreases entries.len(),
{
    if entries.len() == 0 {
        Map::empty()
    } else {
        entries_map(entries.drop_last()).insert(entries.last().0, entries.last().1)
    }
}

/// The store that a blob holds, if it is a whole number of records.
pub open spec fn blob_map(bytes: Seq<u8>) -> Option<Map<Key, u32>> {
    match decode_entries(bytes) {
        Some(entries) => Some(entries_map(entries)),
        None => None,
    }
}

/// The store that a blob holds, and the empty store for a blob that is
/// damaged.
pub open spec fn blob_map_or_empty(bytes: Seq<u8>) -> Map<Key, u32> {
    match blob_map(bytes) {
        Some(m) => m,
        None => Map::empty(),
    }
}

/// The number that a text holds, and `fallback` for a text that holds
/// none.
pub open spec fn decimal_or(text: Seq<u8>, fallback: u32) -> u32 {
    match decimal_value(text) {
        Some(n) => n,
        None => fallback,
    }
}

/// The kind of world that a text holds: the number it writes where that
/// fits a byte, else 0.
pub open spec fn planet_type_of(text: Seq<u8>) -> u8 {
    match decimal_value(text) {
        Some(n) => if n <= 255 {
            n as u8
        } else {
            0
        },
        None => 0,
    }
}

/// A blob has sixteen bytes for each entry.
pub proof fn lemma_encode_len(entries: Seq<Entry>)
    ensures
        encode_entries(entries).len() == 16 * entries.len(),
    decreases entries.len(),
{
    if entries.len() > 0 {
        lemma_encode_len(entries.drop_last());
    }
}

/// A record holds the entry it was made of.
pub proof fn lemma_record_at_record(before: Seq<u8>, e: Entry, n: int)
    requires
        before.len() == 16 * n,
        n >= 0,
    ensures
        record_at(before + record(e), n) == e,
{
    let a = le4(unsigned(e.0.0));
    let b = le4(unsigned(e.0.1));
    let c = le4(unsigned(e.0.2));
    let d = le4(e.1);
    let none = Seq::<u8>::empty();
    lemma_word_at_le4(before, unsigned(e.0.0), b + c + d);
    lemma_word_at_le4(before + a, unsigned(e.0.1), c + d);
    lemma_word_at_le4(before + a + b, unsigned(e.0.2), d);
    lemma_word_at_le4(before + a + b + c, e.1, none);
    lemma_signed_unsigned(e.0.0, 0);
    lemma_signed_unsigned(e.0.1, 0);
    lemma_signed_unsigned(e.0.2, 0);
}

/// Record number `n` of the blob of a list holds entry number `n` of the
/// list.
pub proof fn lemma_record_found(entries: Seq<Entry>, n: int)
    requires
        0 <= n < entries.len(),
    ensures
        record_at(encode_entries(entries), n) == entries[n],
    decreases entries.len(),
{
    let head = entries.drop_last();
    lemma_encode_len(entries);
    if n == entries.len() - 1 {
        lemma_record_at_record(encode_entries(head), entries.last(), n);
    } else {
        lemma_record_found(head, n);
    }
}

/// Reading back the blob of a list of entries gives the list.
pub proof fn lemma_decode_encode(entries: Seq<Entry>)
    ensures
        decode_entries(encode_entries(entries)) == Some(entries),
        blob_map(encode_entries(entries)) == Some(entries_map(entries)),
{
    let blob = encode_entries(entries);
    lemma_encode_len(entries);
    let back = Seq::new((blob.len() / 16) as nat, |n: int| record_at(blob, n));
    assert forall|n: int| 0 <= n < entries.len() implies back[n] == entries[n] by {
        lemma_record_found(entries, n);
    }
    assert(back =~= entries);
}

/// What the first `n` entries of a list without repeated keys fill a
/// store with: each of their keys with its value, and no other key.
pub proof fn lemma_entries_map_of_listing(list: Seq<Entry>, n: int)
    requires
        0 <= n <= list.len(),
        forall|i: int, j: int| 0 <= i < j < list.len() ==> (#[trigger] list[i]).0 != (#[trigger] list[j]).0,
    ensures
        forall|i: int|
            0 <= i < n ==> entries_map(list.take(n)).contains_key((#[trigger] list[i]).0)
                && entries_map(list.take(n))[list[i].0] == list[i].1,
        forall|k: Key|
            entries_map(list.take(n)).contains_key(k) ==> exists|i: int|
                0 <= i < n && (#[trigger] list[i]).0 == k,
    decreases n,
{
    if n > 0 {
        lemma_entries_map_of_listing(list, n - 1);
        assert(list.take(n).drop_last() == list.take(n - 1));
        assert(list.take(n).last() == list[n - 1]);
        let before = entries_map(list.take(n - 1));
        let now = entries_map(list.take(n));
        assert(now == before.insert(list[n - 1].0, list[n - 1].1));
        assert forall|i: int| 0 <= i < n implies now.contains_key((#[trigger] list[i]).0)
            && now[list[i].0] == list[i].1 by {
            if i < n - 1 {
                assert(list[i].0 != list[n - 1].0);
            }
        }
        assert forall|k: Key| now.contains_key(k) implies exists|i: int|
            0 <= i < n && (#[trigger] list[i]).0 == k by {
            if k == list[n - 1].0 {
                assert(list[n - 1].0 == k);
            } else {
                assert(before.contains_key(k));
                let i = choose|i: int| 0 <= i < n - 1 && (#[trigger] list[i]).0 == k;
                assert(list[i].0 == k);
            }
        }
    } else {
        assert(list.take(0).len() == 0);
    }
}

/// The blob of a list of entries.
pub fn encode_overrides(entries: &Vec<Entry>) -> (blob: Vec<u8>)
    ensures
        blob@ == encode_entries(entries@),
{
    let mut blob: Vec<u8> = Vec::new();
    let mut i: usize = 0;
    while i < entries.len()
        invariant
            i <= entries@.len(),
            blob@ == encode_entries(entries@.take(i as int)),
        decreases entries@.len() - i,
    {
        let e = entries[i];
        put_u32(&mut blob, to_unsigned(e.0.0));
        put_u32(&mut blob, to_unsigned(e.0.1));
        put_u32(&mut blob, to_unsigned(e.0.2));
        put_u32(&mut blob, e.1);
        proof {
            let head = entries@.take(i as int + 1);
            assert(head.drop_last() == entries@.take(i as int));
        }
        i = i + 1;
    }
    assert(entries@.take(i as int) == entries@);
    blob
}

/// The entries that a blob lists; `None` for a blob that is not a whole
/// number of records.
pub fn decode_overrides(blob: &Vec<u8>) -> (entries: Option<Vec<Entry>>)
    ensures
        match entries {
            Some(list) => decode_entries(blob@) == Some(list@),
            None => decode_entries(blob@).is_none(),
        },
{
    if blob.len() % 16 != 0 {
        return None;
    }
    let count: usize = blob.len() / 16;
    let mut list: Vec<Entry> = Vec::new();
    let mut n: usize = 0;
    while n < count
        invariant
            n <= count,
            count == blob@.len() / 16,
            blob@.len() % 16 == 0,
            blob@.len() <= usize::MAX,
            list@.len() == n,
            forall|t: int| 0 <= t < n ==> #[trigger] list@[t] == record_at(blob@, t),
        decreases count - n,
    {
        let at: usize = 16 * n;
        let x = to_signed(get_u32(blob, at));
        let y = to_signed(get_u32(blob, at + 4));
        let z = to_signed(get_u32(blob, at + 8));
        let block = get_u32(blob, at + 12);
        list.push(((x, y, z), block));
        n = n + 1;
    }
    Some(list)
}

/// A table filled from a list of entries, the later of two listings of a
/// key winning.
pub fn table_of(list: &Vec<Entry>) -> (table: Table)
    ensures
        entries_of(table) == entries_map(list@),
{
    let mut table = table_new();
    let mut i: usize = 0;
    while i < list.len()
        invariant
            i <= list@.len(),
            entries_of(table) == entries_map(list@.take(i as int)),
        decreases list@.len() - i,
    {
        let e = list[i];
        table_insert(&mut table, e.0, e.1);
        proof {
            let head = list@.take(i as int + 1);
            assert(head.drop_last() == list@.take(i as int));
        }
        i = i + 1;
    }
    assert(list@.take(i as int) == list@);
    table
}

impl ChunkSystem {
    /// The override store as a blob. The order of its records is not
    /// fixed; the store it holds is.
    pub fn world_blob(&self) -> (blob: Vec<u8>)
        ensures
            blob_map(blob@) == Some(self.overrides()),
    {
        let list = table_entries(&self.userdatamap);
        proof {
            lemma_entries_map_of_listing(list@, list@.len() as int);
            assert(list@.take(list@.len() as int) == list@);
            lemma_decode_encode(list@);
        }
        encode_overrides(&list)
    }

    /// The three blobs of the world as it stands.
    pub fn save_current_world(&self) -> (files: WorldFiles)
        ensures
            blob_map(files.udm@) == Some(self.overrides()),
            files.seed@ == decimal(self.spec_seed() as nat),
            files.pt@ == decimal(self.spec_planet_type() as nat),
    {
        WorldFiles {
            udm: self.world_blob(),
            seed: format_decimal(self.currentseed),
            pt: format_decimal(self.planet_type as u32),
        }
    }

    /// Replaces the override store by the one that a blob holds, or by
    /// the empty store where the blob is damaged. Nothing is queued.
    pub fn load_overrides(&mut self, blob: &Vec<u8>) -> (sound: bool)
        requires
            old(self).wf(),
        ensures
            final(self).wf(),
            old(self).same_but_blocks(final(self)),
            forall|t: Tier| final(self).pending(t) == old(self).pending(t),
            sound == blob_map(blob@).is_some(),
            final(self).overrides() == blob_map_or_empty(blob@),
    {
        match decode_overrides(blob) {
            Some(list) => {
                self.userdatamap = table_of(&list);
                true
            },
            None => {
                self.userdatamap = table_new();
                false
            },
        }
    }

    /// Starts the world that three blobs describe, with a pool of the
    /// radius that was there: the pool is bare afterwards, and the
    /// override store is the one that the blob holds. Damaged blobs give
    /// way to defaults: an empty override store, seed zero, and the first
    /// kind of world.
    pub fn load_world(&mut self, files: &WorldFiles)
        ensures
            final(self).wf(),
            final(self).is_bare(
                old(self).spec_radius(),
                decimal_or(files.seed@, 0),
                planet_type_of(files.pt@),
            ),
            final(self).overrides() == blob_map_or_empty(files.udm@),
    {
        let seed = match parse_decimal(&files.seed) {
            Some(n) => n,
            None => 0,
        };
        let planet_type: u8 = match parse_decimal(&files.pt) {
            Some(n) => if n <= 255 {
                n as u8
            } else {
                0
            },
            None => 0,
        };
        let radius = self.radius;
        self.reset(radius, seed, planet_type);
        self.load_overrides(&files.udm);
    }
}

/// An edit survives saving and loading: take a store in which a block has
/// been put at a voxel, list its entries in any order, each once, and
/// write the list as a blob; the store read back from the blob holds that
/// block at that voxel, and is the store that was written.
pub proof fn lemma_edit_survives_reload(
    overrides: Map<Key, u32>,
    spot: Key,
    block: u32,
    list: Seq<Entry>,
)
    requires
        forall|i: int, j: int| 0 <= i < j < list.len() ==> (#[trigger] list[i]).0 != (#[trigger] list[j]).0,
        forall|i: int|
            0 <= i < list.len() ==> overrides.insert(spot, block).contains_key(
                (#[trigger] list[i]).0,
            ) && overrides.insert(spot, block)[list[i].0] == list[i].1,
        forall|k: Key|
            overrides.insert(spot, block).contains_key(k) ==> exists|i: int|
                0 <= i < list.len() && (#[trigger] list[i]).0 == k,
    ensures
        blob_map(encode_entries(list)) == Some(overrides.insert(spot, block)),
        blob_map_or_empty(encode_entries(list)).contains_key(spot),
        blob_map_or_empty(encode_entries(list))[spot] == block,
{
    lemma_entries_map_of_listing(list, list.len() as int);
    assert(list.take(list.len() as int) == list);
    lemma_decode_encode(list);
}

} // verus!
