//! What holds of every store, stated over its contents.

use vstd::prelude::*;
use crate::hash::shard_of;
use crate::store::{lookup, merged, placed, set_in, Contents};

verus! {

/// The contents after a sequence of sets, each a key with its value, done in order.
pub open spec fn after_sets(contents: Contents, writes: Seq<(Seq<char>, Seq<u8>)>) -> Contents
    decreases writes.len(),
{
    if writes.len() == 0 {
        contents
    } else {
        after_sets(contents, writes.drop_last()).insert(writes.last().0, writes.last().1)
    }
}

/// Sets on other keys leave the value of a key as it was.
pub proof fn lemma_other_sets_keep(
    contents: Contents,
    writes: Seq<(Seq<char>, Seq<u8>)>,
    key: Seq<char>,
)
    requires
        forall|j: int| 0 <= j < writes.len() ==> (#[trigger] writes[j]).0 != key,
    ensures
        lookup(after_sets(contents, writes), key) == lookup(contents, key),
    decreases writes.len(),
{
    if writes.len() > 0 {
        lemma_other_sets_keep(contents, writes.drop_last(), key);
    }
}

/// Read your write: after a key was set to a value, a get of the key gives that value, as
/// long as no later set was on the same key.
pub proof fn law_read_your_write(
    contents: Contents,
    key: Seq<char>,
    value: Seq<u8>,
    later: Seq<(Seq<char>, Seq<u8>)>,
)
    requires
        forall|j: int| 0 <= j < later.len() ==> (#[trigger] later[j]).0 != key,
    ensures
        lookup(after_sets(contents.insert(key, value), later), key) == Some(value),
{
    lemma_other_sets_keep(contents.insert(key, value), later, key);
}

/// Absence: in a store that started empty, a key that was never set has no value.
pub proof fn law_absent_until_set(writes: Seq<(Seq<char>, Seq<u8>)>, key: Seq<char>)
    requires
        forall|j: int| 0 <= j < writes.len() ==> (#[trigger] writes[j]).0 != key,
    ensures
        lookup(after_sets(Map::empty(), writes), key) is None,
{
    lemma_other_sets_keep(Map::empty(), writes, key);
}

/// Overwrite returns previous: a second set of a key finds the first value there, which is
/// what it returns, and a get after it gives the second value.
pub proof fn law_overwrite_returns_previous(
    contents: Contents,
    key: Seq<char>,
    first: Seq<u8>,
    second: Seq<u8>,
)
    ensures
        lookup(contents.insert(key, first), key) == Some(first),
        lookup(contents.insert(key, first).insert(key, second), key) == Some(second),
{
}

/// A get on a partitioned store reads the shard of its key and no other.
pub proof fn law_get_reads_one_shard(shards: Seq<Contents>, key: Seq<char>)
    requires
        shards.len() > 0,
    ensures
        lookup(merged(shards), key) == lookup(shards[shard_of(key, shards.len())], key),
{
}

/// A set on a partitioned store is an insert into its contents, and keeps every key in the
/// shard of its hash.
pub proof fn law_set_in_is_insert(shards: Seq<Contents>, key: Seq<char>, value: Seq<u8>)
    requires
        placed(shards),
    ensures
        placed(set_in(shards, key, value)),
        merged(set_in(shards, key, value)) == merged(shards).insert(key, value),
{
}

/// Shard independence: a set touches the shard of its key and no other, so two sets on keys
/// of different shards do not meet, and come to the same whichever is done first.
pub proof fn law_shard_independence(
    shards: Seq<Contents>,
    key_a: Seq<char>,
    value_a: Seq<u8>,
    key_b: Seq<char>,
    value_b: Seq<u8>,
)
    requires
        shards.len() > 0,
        shard_of(key_a, shards.len()) != shard_of(key_b, shards.len()),
    ensures
        forall|i: int|
            0 <= i < shards.len() && i != shard_of(key_a, shards.len()) ==> set_in(
                shards,
                key_a,
                value_a,
            )[i] == shards[i],
        set_in(set_in(shards, key_a, value_a), key_b, value_b) == set_in(
            set_in(shards, key_b, value_b),
            key_a,
            value_a,
        ),
{
}

} // verus!
