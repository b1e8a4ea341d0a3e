//! Hash function primitives.
//!
//! A hash function's effective security depends on its use: digital
//! signatures need collision resistance (roughly half the digest
//! length), while MACs, key derivation and random-bit generation need
//! only pre-image resistance (roughly the full digest length). Both
//! bounds are therefore recorded per identifier at definition time;
//! nothing is derived when an assessment runs.

use vstd::prelude::*;

verus! {

/// A hash function with its declared resistance bounds.
///
/// The catalog below fixes one instance per recognised function;
/// instances are compared field by field. An identifier a standard
/// does not recognise is classified as non-compliant unconditionally.
#[derive(Clone, Copy, Debug, PartialEq, Eq, Structural, Hash)]
pub struct HashFn {
    /// Stable identifier of the hash function.
    pub id: u16,
    /// Collision resistance bound in bits.
    pub collision_resistance: u16,
    /// Pre-image resistance bound in bits.
    pub pre_image_resistance: u16,
}

/// The distinguished instance an unrecognised name maps to, so that
/// assessment can still report non-compliance uniformly.
pub open spec fn spec_hash_not_supported() -> HashFn {
    HashFn { id: 0, collision_resistance: 0, pre_image_resistance: 0 }
}

/// A placeholder for a hash function outside the catalog.
#[verifier::when_used_as_spec(spec_hash_not_supported)]
pub fn hash_not_supported() -> (hash: HashFn)
    ensures
        hash == spec_hash_not_supported(),
{
    HashFn { id: 0, collision_resistance: 0, pre_image_resistance: 0 }
}

/// The catalog instance for SHA-1.
pub open spec fn spec_sha1() -> HashFn {
    HashFn { id: 1, collision_resistance: 80, pre_image_resistance: 80 }
}

/// SHA-1. Both bounds are recorded at 80 bits: practical collision
/// attacks exist and the function is fully retired, so the catalog
/// credits it with no more strength under either resistance model.
#[verifier::when_used_as_spec(spec_sha1)]
pub fn sha1() -> (hash: HashFn)
    ensures
        hash == spec_sha1(),
{
    HashFn { id: 1, collision_resistance: 80, pre_image_resistance: 80 }
}

/// The catalog instance for SHA-224.
pub open spec fn spec_sha224() -> HashFn {
    HashFn { id: 2, collision_resistance: 112, pre_image_resistance: 224 }
}

/// SHA-224.
#[verifier::when_used_as_spec(spec_sha224)]
pub fn sha224() -> (hash: HashFn)
    ensures
        hash == spec_sha224(),
{
    HashFn { id: 2, collision_resistance: 112, pre_image_resistance: 224 }
}

/// The catalog instance for SHA-256.
pub open spec fn spec_sha256() -> HashFn {
    HashFn { id: 3, collision_resistance: 128, pre_image_resistance: 256 }
}

/// SHA-256.
#[verifier::when_used_as_spec(spec_sha256)]
pub fn sha256() -> (hash: HashFn)
    ensures
        hash == spec_sha256(),
{
    HashFn { id: 3, collision_resistance: 128, pre_image_resistance: 256 }
}

/// The catalog instance for SHA-384.
pub open spec fn spec_sha384() -> HashFn {
    HashFn { id: 4, collision_resistance: 192, pre_image_resistance: 384 }
}

/// SHA-384.
#[verifier::when_used_as_spec(spec_sha384)]
pub fn sha384() -> (hash: HashFn)
    ensures
        hash == spec_sha384(),
{
    HashFn { id: 4, collision_resistance: 192, pre_image_resistance: 384 }
}

/// The catalog instance for SHA-512.
pub open spec fn spec_sha512() -> HashFn {
    HashFn { id: 5, collision_resistance: 256, pre_image_resistance: 512 }
}

/// SHA-512.
#[verifier::when_used_as_spec(spec_sha512)]
pub fn sha512() -> (hash: HashFn)
    ensures
        hash == spec_sha512(),
{
    HashFn { id: 5, collision_resistance: 256, pre_image_resistance: 512 }
}

/// The catalog instance for SHA-512/224.
pub open spec fn spec_sha512_224() -> HashFn {
    HashFn { id: 6, collision_resistance: 112, pre_image_resistance: 224 }
}

/// SHA-512/224, the truncation of SHA-512 to a 224-bit digest.
#[verifier::when_used_as_spec(spec_sha512_224)]
pub fn sha512_224() -> (hash: HashFn)
    ensures
        hash == spec_sha512_224(),
{
    HashFn { id: 6, collision_resistance: 112, pre_image_resistance: 224 }
}

/// The catalog instance for SHA-512/256.
pub open spec fn spec_sha512_256() -> HashFn {
    HashFn { id: 7, collision_resistance: 128, pre_image_resistance: 256 }
}

/// SHA-512/256, the truncation of SHA-512 to a 256-bit digest.
#[verifier::when_used_as_spec(spec_sha512_256)]
pub fn sha512_256() -> (hash: HashFn)
    ensures
        hash == spec_sha512_256(),
{
    HashFn { id: 7, collision_resistance: 128, pre_image_resistance: 256 }
}

/// The catalog instance for SHA3-224.
pub open spec fn spec_sha3_224() -> HashFn {
    HashFn { id: 8, collision_resistance: 112, pre_image_resistance: 224 }
}

/// SHA3-224.
#[verifier::when_used_as_spec(spec_sha3_224)]
pub fn sha3_224() -> (hash: HashFn)
    ensures
        hash == spec_sha3_224(),
{
    HashFn { id: 8, collision_resistance: 112, pre_image_resistance: 224 }
}

/// The catalog instance for SHA3-256.
pub open spec fn spec_sha3_256() -> HashFn {
    HashFn { id: 9, collision_resistance: 128, pre_image_resistance: 256 }
}

/// SHA3-256.
#[verifier::when_used_as_spec(spec_sha3_256)]
pub fn sha3_256() -> (hash: HashFn)
    ensures
        hash == spec_sha3_256(),
{
    HashFn { id: 9, collision_resistance: 128, pre_image_resistance: 256 }
}

/// The catalog instance for SHA3-384.
pub open spec fn spec_sha3_384() -> HashFn {
    HashFn { id: 10, collision_resistance: 192, pre_image_resistance: 384 }
}

/// SHA3-384.
#[verifier::when_used_as_spec(spec_sha3_384)]
pub fn sha3_384() -> (hash: HashFn)
    ensures
        hash == spec_sha3_384(),
{
    HashFn { id: 10, collision_resistance: 192, pre_image_resistance: 384 }
}

/// The catalog instance for SHA3-512.
pub open spec fn spec_sha3_512() -> HashFn {
    HashFn { id: 11, collision_resistance: 256, pre_image_resistance: 512 }
}

/// SHA3-512.
#[verifier::when_used_as_spec(spec_sha3_512)]
pub fn sha3_512() -> (hash: HashFn)
    ensures
        hash == spec_sha3_512(),
{
    HashFn { id: 11, collision_resistance: 256, pre_image_resistance: 512 }
}

/// The catalog instance for BLAKE2b with a 256-bit digest.
pub open spec fn spec_blake2b_256() -> HashFn {
    HashFn { id: 12, collision_resistance: 128, pre_image_resistance: 256 }
}

/// BLAKE2b with a 256-bit digest.
#[verifier::when_used_as_spec(spec_blake2b_256)]
pub fn blake2b_256() -> (hash: HashFn)
    ensures
        hash == spec_blake2b_256(),
{
    HashFn { id: 12, collision_resistance: 128, pre_image_resistance: 256 }
}

/// The catalog instance for BLAKE2b with a 384-bit digest.
pub open spec fn spec_blake2b_384() -> HashFn {
    HashFn { id: 13, collision_resistance: 192, pre_image_resistance: 384 }
}

/// BLAKE2b with a 384-bit digest.
#[verifier::when_used_as_spec(spec_blake2b_384)]
pub fn blake2b_384() -> (hash: HashFn)
    ensures
        hash == spec_blake2b_384(),
{
    HashFn { id: 13, collision_resistance: 192, pre_image_resistance: 384 }
}

/// The catalog instance for BLAKE2b with a 512-bit digest.
pub open spec fn spec_blake2b_512() -> HashFn {
    HashFn { id: 14, collision_resistance: 256, pre_image_resistance: 512 }
}

/// BLAKE2b with a 512-bit digest.
#[verifier::when_used_as_spec(spec_blake2b_512)]
pub fn blake2b_512() -> (hash: HashFn)
    ensures
        hash == spec_blake2b_512(),
{
    HashFn { id: 14, collision_resistance: 256, pre_image_resistance: 512 }
}

/// The catalog instance for BLAKE2s with a 256-bit digest.
pub open spec fn spec_blake2s_256() -> HashFn {
    HashFn { id: 15, collision_resistance: 128, pre_image_resistance: 256 }
}

/// BLAKE2s with a 256-bit digest.
#[verifier::when_used_as_spec(spec_blake2s_256)]
pub fn blake2s_256() -> (hash: HashFn)
    ensures
        hash == spec_blake2s_256(),
{
    HashFn { id: 15, collision_resistance: 128, pre_image_resistance: 256 }
}

/// The catalog instance for MD4.
pub open spec fn spec_md4() -> HashFn {
    HashFn { id: 16, collision_resistance: 64, pre_image_resistance: 128 }
}

/// MD4, long broken; kept so certificates that still name it can be
/// assessed.
#[verifier::when_used_as_spec(spec_md4)]
pub fn md4() -> (hash: HashFn)
    ensures
        hash == spec_md4(),
{
    HashFn { id: 16, collision_resistance: 64, pre_image_resistance: 128 }
}

/// The catalog instance for MD5.
pub open spec fn spec_md5() -> HashFn {
    HashFn { id: 17, collision_resistance: 64, pre_image_resistance: 128 }
}

/// MD5, long broken; kept so certificates that still name it can be
/// assessed.
#[verifier::when_used_as_spec(spec_md5)]
pub fn md5() -> (hash: HashFn)
    ensures
        hash == spec_md5(),
{
    HashFn { id: 17, collision_resistance: 64, pre_image_resistance: 128 }
}

/// The catalog instance for RIPEMD-160.
pub open spec fn spec_ripemd160() -> HashFn {
    HashFn { id: 18, collision_resistance: 80, pre_image_resistance: 160 }
}

/// RIPEMD-160.
#[verifier::when_used_as_spec(spec_ripemd160)]
pub fn ripemd160() -> (hash: HashFn)
    ensures
        hash == spec_ripemd160(),
{
    HashFn { id: 18, collision_resistance: 80, pre_image_resistance: 160 }
}

/// The catalog instance for SHAKE128 with its nominal 128-bit output.
pub open spec fn spec_shake128() -> HashFn {
    HashFn { id: 19, collision_resistance: 64, pre_image_resistance: 128 }
}

/// SHAKE128 with its nominal 128-bit output length.
#[verifier::when_used_as_spec(spec_shake128)]
pub fn shake128() -> (hash: HashFn)
    ensures
        hash == spec_shake128(),
{
    HashFn { id: 19, collision_resistance: 64, pre_image_resistance: 128 }
}

/// The catalog instance for SHAKE256 with its nominal 256-bit output.
pub open spec fn spec_shake256() -> HashFn {
    HashFn { id: 20, collision_resistance: 128, pre_image_resistance: 256 }
}

/// SHAKE256 with its nominal 256-bit output length.
#[verifier::when_used_as_spec(spec_shake256)]
pub fn shake256() -> (hash: HashFn)
    ensures
        hash == spec_shake256(),
{
    HashFn { id: 20, collision_resistance: 128, pre_image_resistance: 256 }
}

} // verus!
