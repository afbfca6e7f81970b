//! Storage key hashers against the outside digest primitives.

use wasm_executor::hashing::{
    blake2_128, blake2_256, twox_128, twox_256, twox_64, Blake2_128, Blake2_256, StorageHasher,
    Twox128, Twox256, Twox64Concat,
};

#[test]
fn test_twox_64_concat() {
    let r = Twox64Concat::hash(b"foo");
    assert_eq!(r.split_at(8), (&twox_128(b"foo")[..8], &b"foo"[..]))
}

#[test]
fn twox_64_of_empty_input() {
    // XXH64 of the empty input under seed zero, little-endian.
    assert_eq!(twox_64(b""), vec![0x99, 0xe9, 0xd8, 0x51, 0x37, 0xdb, 0x46, 0xef]);
}

#[test]
fn twox_digest_lengths_and_prefixes() {
    let h64 = twox_64(b"abc");
    let h128 = twox_128(b"abc");
    let h256 = twox_256(b"abc");
    assert_eq!(h64.len(), 8);
    assert_eq!(h128.len(), 16);
    assert_eq!(h256.len(), 32);
    assert_eq!(&h128[..8], &h64[..]);
    assert_eq!(&h256[..16], &h128[..]);
    // Distinct inputs hash apart.
    assert_ne!(twox_128(b"abc"), twox_128(b"abd"));
}

#[test]
fn blake2_digest_lengths() {
    assert_eq!(blake2_128(b"").len(), 16);
    assert_eq!(blake2_256(b"").len(), 32);
    assert_ne!(blake2_128(b"abc"), blake2_128(b"abd"));
    // The digest is not the input handed back.
    assert_ne!(blake2_128(b"0123456789abcdef"), b"0123456789abcdef".to_vec());
}

#[test]
fn blake2_256_of_empty_input() {
    // BLAKE2b with 32-byte output of the empty input.
    let expected: Vec<u8> = vec![
        0x0e, 0x57, 0x51, 0xc0, 0x26, 0xe5, 0x43, 0xb2, 0xe8, 0xab, 0x2e, 0xb0, 0x60, 0x99,
        0xda, 0xa1, 0xd1, 0xe5, 0xdf, 0x47, 0x77, 0x8f, 0x77, 0x87, 0xfa, 0xab, 0x45, 0xcd,
        0xf1, 0x2f, 0xe3, 0xa8,
    ];
    assert_eq!(blake2_256(b""), expected);
}

#[test]
fn hasher_impls_agree_with_free_functions() {
    assert_eq!(Blake2_128::hash(b"x"), blake2_128(b"x"));
    assert_eq!(Blake2_256::hash(b"x"), blake2_256(b"x"));
    assert_eq!(Twox128::hash(b"x"), twox_128(b"x"));
    assert_eq!(Twox256::hash(b"x"), twox_256(b"x"));
}
