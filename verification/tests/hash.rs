use kvcore::hash::{hash_bytes, hash_key, shard_index, FNV_OFFSET_BASIS, FNV_PRIME};

#[test]
fn hash_of_nothing_is_the_offset_basis() {
    assert_eq!(hash_bytes(b""), 0xcbf2_9ce4_8422_2325);
    assert_eq!(hash_bytes(b""), FNV_OFFSET_BASIS);
    assert_eq!(hash_key(""), FNV_OFFSET_BASIS);
}

#[test]
fn hash_of_one_byte_is_one_round() {
    let expected = (FNV_OFFSET_BASIS ^ 0x61).wrapping_mul(FNV_PRIME);
    assert_eq!(hash_bytes(b"a"), expected);
    assert_eq!(hash_bytes(b"a"), 0xaf63_dc4c_8601_ec8c);
}

#[test]
fn hash_matches_known_vectors() {
    assert_eq!(hash_bytes(b"b"), 0xaf63_df4c_8601_f1a5);
    assert_eq!(hash_bytes(b"foobar"), 0x8594_4171_f739_67e8);
    assert_eq!(hash_key("foobar"), 0x8594_4171_f739_67e8);
}

#[test]
fn hash_of_a_key_is_over_its_utf8_bytes() {
    let key = "cl\u{e9}";
    assert_eq!(hash_key(key), hash_bytes(&[0x63, 0x6c, 0xc3, 0xa9]));
}

#[test]
fn shard_index_is_hash_modulo_shards() {
    assert_eq!(shard_index("a", 1), 0);
    assert_eq!(shard_index("a", 2), 0);
    assert_eq!(shard_index("b", 2), 1);
    assert_eq!(shard_index("foobar", 7), (0x8594_4171_f739_67e8u64 % 7) as usize);
    for shards in 1..40usize {
        assert!(shard_index("some key", shards) < shards);
        assert_eq!(shard_index("some key", shards), shard_index("some key", shards));
    }
}
