//! The store: a mapping from keys to values, kept in one shard or partitioned over several.

use vstd::prelude::*;
use vstd::hash_map::StringHashMap;
use vstd::slice::slice_to_vec;
use crate::hash::{shard_index, shard_of};

verus! {

/// What a store holds: the value of every key that was set.
pub type Contents = Map<Seq<char>, Seq<u8>>;

/// The answer to a lookup of `key` in `contents`.
pub open spec fn lookup(contents: Contents, key: Seq<char>) -> Option<Seq<u8>> {
    if contents.contains_key(key) {
        Some(contents[key])
    } else {
        None
    }
}

/// The view of an optional value.
pub open spec fn value_view(value: Option<Vec<u8>>) -> Option<Seq<u8>> {
    match value {
        Some(v) => Some(v@),
        None => None,
    }
}

/// What every store offers, whether it is a single mapping or a partitioned one. A handler
/// written against this trait works with either.
pub trait Store {
    /// What the store holds.
    spec fn contents(&self) -> Contents;

    /// The store's internal invariant.
    spec fn valid(&self) -> bool;

    /// A copy of the value of `key`, or `None` if the key was never set.
    fn get(&self, key: &str) -> (value: Option<Vec<u8>>)
        requires
            self.valid(),
        ensures
            value_view(value) == lookup(self.contents(), key@),
    ;

    /// Stores a copy of `value` under `key` and returns the value that the key had before.
    fn set(&mut self, key: &str, value: &[u8]) -> (previous: Option<Vec<u8>>)
        requires
            old(self).valid(),
        ensures
            final(self).valid(),
            final(self).contents() == old(self).contents().insert(key@, value@),
            value_view(previous) == lookup(old(self).contents(), key@),
    ;
}

/// One independent mapping from keys to values. A whole store may be a single shard.
pub struct Shard {
    map: StringHashMap<Vec<u8>>,
}

impl View for Shard {
    type V = Contents;

    closed spec fn view(&self) -> Contents {
        Map::new(|k: Seq<char>| self.map@.contains_key(k), |k: Seq<char>| self.map@[k]@)
    }
}

impl Shard {
    /// An empty shard.
    pub fn new() -> (shard: Shard)
        ensures
            shard@ == Map::<Seq<char>, Seq<u8>>::empty(),
    {
        Shard { map: StringHashMap::new() }
    }

    /// A copy of the value of `key`, or `None` if the key was never set.
    pub fn get(&self, key: &str) -> (value: Option<Vec<u8>>)
        ensures
            value_view(value) == lookup(self@, key@),
    {
        match self.map.get(key) {
            Some(stored) => Some(stored.clone()),
            None => None,
        }
    }

    /// Stores a copy of `value` under `key` and returns the value that the key had before.
    pub fn set(&mut self, key: &str, value: &[u8]) -> (previous: Option<Vec<u8>>)
        ensures
            final(self)@ == old(self)@.insert(key@, value@),
            value_view(previous) == lookup(old(self)@, key@),
    {
        let previous = self.get(key);
        self.map.insert(key.to_owned(), slice_to_vec(value));
        previous
    }
}

impl Store for Shard {
    open spec fn contents(&self) -> Contents {
        self@
    }

    open spec fn valid(&self) -> bool {
        true
    }

    fn get(&self, key: &str) -> (value: Option<Vec<u8>>) {
        Shard::get(self, key)
    }

    fn set(&mut self, key: &str, value: &[u8]) -> (previous: Option<Vec<u8>>) {
        Shard::set(self, key, value)
    }
}

/// The contents of a partitioned store: a key is looked up in the shard of its hash.
pub open spec fn merged(shards: Seq<Contents>) -> Contents {
    Map::new(
        |k: Seq<char>| shards[shard_of(k, shards.len())].contains_key(k),
        |k: Seq<char>| shards[shard_of(k, shards.len())][k],
    )
}

/// Whether there is at least one shard and every key is held by the shard of its hash.
pub open spec fn placed(shards: Seq<Contents>) -> bool {
    &&& shards.len() > 0
    &&& forall|i: int, k: Seq<char>|
        0 <= i < shards.len() && #[trigger] shards[i].contains_key(k) ==> shard_of(
            k,
            shards.len(),
        ) == i
}

/// The shards after a set: the shard of the key holds the new value, the others are as they
/// were.
pub open spec fn set_in(shards: Seq<Contents>, key: Seq<char>, value: Seq<u8>) -> Seq<Contents> {
    let home = shard_of(key, shards.len());
    shards.update(home, shards[home].insert(key, value))
}

/// A store partitioned into a fixed number of shards. A key lives in the shard that its hash
/// selects, and nowhere else.
pub struct ShardedDb {
    shards: Vec<Shard>,
}

impl View for ShardedDb {
    type V = Contents;

    open spec fn view(&self) -> Contents {
        merged(self.shards())
    }
}

impl ShardedDb {
    /// What each shard holds.
    pub closed spec fn shards(&self) -> Seq<Contents> {
        Seq::new(self.shards.len() as nat, |i: int| self.shards[i]@)
    }

    /// The number of shards, fixed when the store is made.
    pub open spec fn num_shards(&self) -> nat {
        self.shards().len()
    }

    /// The store's invariant: it has at least one shard, and every key is held by the shard
    /// of its hash.
    pub open spec fn well_formed(&self) -> bool {
        placed(self.shards())
    }

    /// The number of shards.
    pub fn shard_count(&self) -> (count: usize)
        ensures
            count == self.num_shards(),
    {
        self.shards.len()
    }

    /// Takes the store apart into its shards, in order, so that each can be put under a
    /// lock of its own. The shard of a key is then `shard_index` of the key and their number.
    pub fn into_shards(self) -> (shards: Vec<Shard>)
        ensures
            shards@.len() == self.num_shards(),
            forall|i: int| 0 <= i < shards@.len() ==> (#[trigger] shards@[i])@ == self.shards()[i],
    {
        self.shards
    }

    /// A copy of the value of `key`, or `None` if the key was never set.
    pub fn get(&self, key: &str) -> (value: Option<Vec<u8>>)
        requires
            self.well_formed(),
        ensures
            value_view(value) == lookup(self@, key@),
    {
        let index: usize = shard_index(key, self.shards.len());
        self.shards[index].get(key)
    }

    /// Stores a copy of `value` under `key` and returns the value that the key had before.
    /// Only the key's own shard changes.
    pub fn set(&mut self, key: &str, value: &[u8]) -> (previous: Option<Vec<u8>>)
        requires
            old(self).well_formed(),
        ensures
            final(self).well_formed(),
            final(self).shards() == set_in(old(self).shards(), key@, value@),
            final(self)@ == old(self)@.insert(key@, value@),
            value_view(previous) == lookup(old(self)@, key@),
    {
        let index: usize = shard_index(key, self.shards.len());
        let previous = self.shards[index].set(key, value);
        assert(self@ =~= old(self)@.insert(key@, value@));
        previous
    }
}

impl Store for ShardedDb {
    open spec fn contents(&self) -> Contents {
        self@
    }

    open spec fn valid(&self) -> bool {
        self.well_formed()
    }

    fn get(&self, key: &str) -> (value: Option<Vec<u8>>) {
        ShardedDb::get(self, key)
    }

    fn set(&mut self, key: &str, value: &[u8]) -> (previous: Option<Vec<u8>>) {
        ShardedDb::set(self, key, value)
    }
}

/// Makes an empty store of `num_shards` shards.
pub fn new_sharded_db(num_shards: usize) -> (db: ShardedDb)
    requires
        num_shards >= 1,
    ensures
        db.well_formed(),
        db.shards() == Seq::new(num_shards as nat, |i: int| Map::<Seq<char>, Seq<u8>>::empty()),
        db@ == Map::<Seq<char>, Seq<u8>>::empty(),
{
    let mut shards: Vec<Shard> = Vec::new();
    let mut i: usize = 0;
    while i < num_shards
        invariant
            i <= num_shards,
            shards.len() == i,
            forall|j: int| 0 <= j < i ==> (#[trigger] shards[j])@ == Map::<Seq<char>, Seq<u8>>::empty(),
        decreases num_shards - i,
    {
        shards.push(Shard::new());
        i = i + 1;
    }
    ShardedDb { shards }
}

} // verus!
