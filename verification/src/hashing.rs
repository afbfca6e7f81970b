//! Storage key hashers: the fixed family of hash functions storage keys
//! are hashed with. The two digest primitives — XXH64 and BLAKE2b — are
//! outside collaborators; the hashers themselves are compositions over
//! them.

use vstd::prelude::*;
use vstd::bytes::{spec_u64_to_le_bytes, u64_to_le_bytes, lemma_auto_spec_u64_to_from_le_bytes};
use blake2::Digest;

verus! {

/// The 64-bit XXH64 digest of `data` under `seed`: a function of the seed
/// and the bytes alone.
pub uninterp spec fn xxhash64_of(seed: u64, data: Seq<u8>) -> u64;

/// The 16-byte BLAKE2b digest of `data`: a function of the bytes alone.
pub uninterp spec fn blake2b128_of(data: Seq<u8>) -> Seq<u8>;

/// The 32-byte BLAKE2b digest of `data`: a function of the bytes alone.
pub uninterp spec fn blake2b256_of(data: Seq<u8>) -> Seq<u8>;

/// Relies on twox_hash::XxHash64::oneshot: the XXH64 digest of the bytes
/// under the seed, depending on the seed and bytes alone.
#[verifier::external_body]
fn xxhash64(seed: u64, data: &[u8]) -> (r: u64)
    ensures
        r == xxhash64_of(seed, data@),
{
    twox_hash::XxHash64::oneshot(seed, data)
}

/// Relies on blake2::Blake2b128 through the digest interface: the BLAKE2b
/// digest with 16-byte output, depending on the bytes alone.
#[verifier::external_body]
fn blake2b_128(data: &[u8]) -> (r: Vec<u8>)
    ensures
        r@ == blake2b128_of(data@),
        r@.len() == 16,
{
    blake2::Blake2b128::digest(data).as_slice().to_vec()
}

/// Relies on blake2::Blake2b256 through the digest interface: the BLAKE2b
/// digest with 32-byte output, depending on the bytes alone.
#[verifier::external_body]
fn blake2b_256(data: &[u8]) -> (r: Vec<u8>)
    ensures
        r@ == blake2b256_of(data@),
        r@.len() == 32,
{
    blake2::Blake2b256::digest(data).as_slice().to_vec()
}

/// The eight-byte twox digest: XXH64 under seed zero, little-endian.
pub open spec fn spec_twox_64(data: Seq<u8>) -> Seq<u8> {
    spec_u64_to_le_bytes(xxhash64_of(0, data))
}

/// The sixteen-byte twox digest: XXH64 under seeds zero and one,
/// little-endian, concatenated.
pub open spec fn spec_twox_128(data: Seq<u8>) -> Seq<u8> {
    spec_u64_to_le_bytes(xxhash64_of(0, data)) + spec_u64_to_le_bytes(xxhash64_of(1, data))
}

/// The thirty-two-byte twox digest: XXH64 under seeds zero through three,
/// little-endian, concatenated.
pub open spec fn spec_twox_256(data: Seq<u8>) -> Seq<u8> {
    spec_u64_to_le_bytes(xxhash64_of(0, data)) + spec_u64_to_le_bytes(xxhash64_of(1, data))
        + spec_u64_to_le_bytes(xxhash64_of(2, data)) + spec_u64_to_le_bytes(
        xxhash64_of(3, data),
    )
}

/// The eight-byte twox digest of `data`.
pub fn twox_64(data: &[u8]) -> (r: Vec<u8>)
    ensures
        r@ == spec_twox_64(data@),
        r@.len() == 8,
{
    let r = u64_to_le_bytes(xxhash64(0, data));
    r
}

/// The sixteen-byte twox digest of `data`.
pub fn twox_128(data: &[u8]) -> (r: Vec<u8>)
    ensures
        r@ == spec_twox_128(data@),
        r@.len() == 16,
{
    let mut r = u64_to_le_bytes(xxhash64(0, data));
    let mut second = u64_to_le_bytes(xxhash64(1, data));
    r.append(&mut second);
    r
}

/// The thirty-two-byte twox digest of `data`.
pub fn twox_256(data: &[u8]) -> (r: Vec<u8>)
    ensures
        r@ == spec_twox_256(data@),
        r@.len() == 32,
{
    let mut r = u64_to_le_bytes(xxhash64(0, data));
    let mut second = u64_to_le_bytes(xxhash64(1, data));
    r.append(&mut second);
    let mut third = u64_to_le_bytes(xxhash64(2, data));
    r.append(&mut third);
    let mut fourth = u64_to_le_bytes(xxhash64(3, data));
    r.append(&mut fourth);
    proof {
        assert(r@ =~= spec_twox_256(data@));
    }
    r
}

/// The sixteen-byte BLAKE2b digest of `data`.
pub fn blake2_128(data: &[u8]) -> (r: Vec<u8>)
    ensures
        r@ == blake2b128_of(data@),
        r@.len() == 16,
{
    blake2b_128(data)
}

/// The thirty-two-byte BLAKE2b digest of `data`.
pub fn blake2_256(data: &[u8]) -> (r: Vec<u8>)
    ensures
        r@ == blake2b256_of(data@),
        r@.len() == 32,
{
    blake2b_256(data)
}

/// Law: the eight-byte twox digest is exactly the first half of the
/// sixteen-byte one, for every input.
pub proof fn lemma_twox_64_is_twox_128_prefix(data: Seq<u8>)
    ensures
        spec_twox_64(data) == spec_twox_128(data).subrange(0, 8),
{
    lemma_auto_spec_u64_to_from_le_bytes();
    assert(spec_twox_128(data).subrange(0, 8) =~= spec_twox_64(data));
}

/// A way of hashing storage keys.
pub trait StorageHasher {
    /// The exact bytes the hasher produces for the given key.
    spec fn spec_hash(x: Seq<u8>) -> Seq<u8>;

    /// Hash a storage key.
    fn hash(x: &[u8]) -> (r: Vec<u8>)
        ensures
            r@ == Self::spec_hash(x@),
    ;
}

/// Hashes a storage key as the eight-byte twox digest of the key followed
/// by the key itself, keeping the key recoverable from the hash.
pub struct Twox64Concat;

impl StorageHasher for Twox64Concat {
    open spec fn spec_hash(x: Seq<u8>) -> Seq<u8> {
        spec_twox_64(x) + x
    }

    fn hash(x: &[u8]) -> (r: Vec<u8>) {
        let mut r = twox_64(x);
        let mut key = vstd::slice::slice_to_vec(x);
        r.append(&mut key);
        r
    }
}

/// Hashes a storage key with the sixteen-byte BLAKE2b digest.
pub struct Blake2_128;

impl StorageHasher for Blake2_128 {
    open spec fn spec_hash(x: Seq<u8>) -> Seq<u8> {
        blake2b128_of(x)
    }

    fn hash(x: &[u8]) -> (r: Vec<u8>) {
        blake2_128(x)
    }
}

/// Hashes a storage key with the thirty-two-byte BLAKE2b digest.
pub struct Blake2_256;

impl StorageHasher for Blake2_256 {
    open spec fn spec_hash(x: Seq<u8>) -> Seq<u8> {
        blake2b256_of(x)
    }

    fn hash(x: &[u8]) -> (r: Vec<u8>) {
        blake2_256(x)
    }
}

/// Hashes a storage key with the sixteen-byte twox digest.
pub struct Twox128;

impl StorageHasher for Twox128 {
    open spec fn spec_hash(x: Seq<u8>) -> Seq<u8> {
        spec_twox_128(x)
    }

    fn hash(x: &[u8]) -> (r: Vec<u8>) {
        twox_128(x)
    }
}

/// Hashes a storage key with the thirty-two-byte twox digest.
pub struct Twox256;

impl StorageHasher for Twox256 {
    open spec fn spec_hash(x: Seq<u8>) -> Seq<u8> {
        spec_twox_256(x)
    }

    fn hash(x: &[u8]) -> (r: Vec<u8>) {
        twox_256(x)
    }
}

} // verus!
