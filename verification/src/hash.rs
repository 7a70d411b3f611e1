//! Deterministic hashing of keys, and the choice of a shard from a hash.

use vstd::prelude::*;

verus! {

/// The offset basis of the 64-bit FNV-1a hash.
pub const FNV_OFFSET_BASIS: u64 = 0xcbf2_9ce4_8422_2325;

/// The prime of the 64-bit FNV-1a hash.
pub const FNV_PRIME: u64 = 0x0000_0100_0000_01b3;

/// One round of FNV-1a: xor the byte into the state, then multiply by the prime modulo 2^64.
pub open spec fn fnv1a_step(state: u64, byte: u8) -> u64 {
    (((state ^ (byte as u64)) as int * FNV_PRIME as int) % 0x1_0000_0000_0000_0000) as u64
}

/// The 64-bit FNV-1a hash of a byte sequence.
pub open spec fn fnv1a(bytes: Seq<u8>) -> u64
    decreases bytes.len(),
{
    if bytes.len() == 0 {
        FNV_OFFSET_BASIS
    } else {
        fnv1a_step(fnv1a(bytes.drop_last()), bytes.last())
    }
}

/// Hashes a byte slice with 64-bit FNV-1a.
pub fn hash_bytes(bytes: &[u8]) -> (h: u64)
    ensures
        h == fnv1a(bytes@),
{
    let mut h: u64 = FNV_OFFSET_BASIS;
    let mut i: usize = 0;
    while i < bytes.len()
        invariant
            i <= bytes.len(),
            h == fnv1a(bytes@.take(i as int)),
        decreases bytes.len() - i,
    {
        let b: u8 = bytes[i];
        assert(bytes@.take(i + 1).drop_last() =~= bytes@.take(i as int));
        h = (h ^ (b as u64)).wrapping_mul(FNV_PRIME);
        i = i + 1;
    }
    assert(bytes@.take(i as int) =~= bytes@);
    h
}

/// The hash of a key: 64-bit FNV-1a over the key's UTF-8 bytes.
pub open spec fn key_hash(key: Seq<char>) -> u64 {
    fnv1a(vstd::utf8::encode_utf8(key))
}

/// The shard that holds a key in a store of `num_shards` shards: the key's hash modulo the
/// number of shards.
pub open spec fn shard_of(key: Seq<char>, num_shards: nat) -> int
    recommends
        num_shards > 0,
{
    key_hash(key) as int % num_shards as int
}

/// Hashes a key.
pub fn hash_key(key: &str) -> (h: u64)
    ensures
        h == key_hash(key@),
{
    hash_bytes(key.as_bytes())
}

/// Picks the shard of a key among `num_shards` shards.
pub fn shard_index(key: &str, num_shards: usize) -> (index: usize)
    requires
        num_shards > 0,
    ensures
        index == shard_of(key@, num_shards as nat),
        index < num_shards,
{
    let h: u64 = hash_key(key);
    let n: u64 = num_shards as u64;
    (h % n) as usize
}

} // verus!
