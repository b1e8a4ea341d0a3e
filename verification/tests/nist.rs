use wardstone::context::Context;
use wardstone::ffc;
use wardstone::hash;
use wardstone::nist;
use wardstone::symmetric;

#[test]
fn ffc_1024_160() {
    let ctx = Context::default();
    assert_eq!(nist::validate_ffc(&ctx, &ffc::ffc_1024_160()), Err(ffc::ffc_2048_224()));
}

#[test]
fn ffc_2048_224() {
    let ctx = Context::default();
    assert_eq!(nist::validate_ffc(&ctx, &ffc::ffc_2048_224()), Ok(ffc::ffc_2048_224()));
}

#[test]
fn ffc_3072_256() {
    let ctx = Context::default();
    assert_eq!(nist::validate_ffc(&ctx, &ffc::ffc_3072_256()), Ok(ffc::ffc_3072_256()));
}

#[test]
fn ffc_7680_384() {
    let ctx = Context::default();
    assert_eq!(nist::validate_ffc(&ctx, &ffc::ffc_7680_384()), Ok(ffc::ffc_7680_384()));
}

#[test]
fn ffc_15360_512() {
    let ctx = Context::default();
    assert_eq!(nist::validate_ffc(&ctx, &ffc::ffc_15360_512()), Ok(ffc::ffc_15360_512()));
}

#[test]
fn ffc_mismatched_pair() {
    let ctx = Context::default();
    let key = ffc::Ffc { l: 4096, n: 160 };
    assert_eq!(nist::validate_ffc(&ctx, &key), Err(ffc::ffc_2048_224()));
}

#[test]
fn ffc_cutover_edge() {
    let key = ffc::ffc_2048_224();
    let at = Context::new(0, 2031);
    let after = Context::new(0, 2032);
    assert_eq!(nist::validate_ffc(&at, &key), Ok(ffc::ffc_2048_224()));
    assert_eq!(nist::validate_ffc(&after, &key), Err(ffc::ffc_3072_256()));
}

#[test]
fn blake2b_256_collision_resistance() {
    let ctx = Context::default();
    assert_eq!(nist::validate_hash(&ctx, &hash::blake2b_256()), Err(hash::sha256()));
}

#[test]
fn blake2b_384_collision_resistance() {
    let ctx = Context::default();
    assert_eq!(nist::validate_hash(&ctx, &hash::blake2b_384()), Err(hash::sha256()));
}

#[test]
fn blake2b_512_collision_resistance() {
    let ctx = Context::default();
    assert_eq!(nist::validate_hash(&ctx, &hash::blake2b_512()), Err(hash::sha256()));
}

#[test]
fn blake2s_256_collision_resistance() {
    let ctx = Context::default();
    assert_eq!(nist::validate_hash(&ctx, &hash::blake2s_256()), Err(hash::sha256()));
}

#[test]
fn md4_collision_resistance() {
    let ctx = Context::default();
    assert_eq!(nist::validate_hash(&ctx, &hash::md4()), Err(hash::sha256()));
}

#[test]
fn md5_collision_resistance() {
    let ctx = Context::default();
    assert_eq!(nist::validate_hash(&ctx, &hash::md5()), Err(hash::sha256()));
}

#[test]
fn ripemd160_collision_resistance() {
    let ctx = Context::default();
    assert_eq!(nist::validate_hash(&ctx, &hash::ripemd160()), Err(hash::sha256()));
}

#[test]
fn sha1_collision_resistance() {
    let ctx = Context::default();
    assert_eq!(nist::validate_hash(&ctx, &hash::sha1()), Err(hash::sha224()));
}

#[test]
fn sha224_collision_resistance() {
    let ctx = Context::default();
    assert_eq!(nist::validate_hash(&ctx, &hash::sha224()), Ok(hash::sha224()));
}

#[test]
fn sha256_collision_resistance() {
    let ctx = Context::default();
    assert_eq!(nist::validate_hash(&ctx, &hash::sha256()), Ok(hash::sha256()));
}

#[test]
fn sha384_collision_resistance() {
    let ctx = Context::default();
    assert_eq!(nist::validate_hash(&ctx, &hash::sha384()), Ok(hash::sha384()));
}

#[test]
fn sha3_224_collision_resistance() {
    let ctx = Context::default();
    assert_eq!(nist::validate_hash(&ctx, &hash::sha3_224()), Ok(hash::sha224()));
}

#[test]
fn sha3_256_collision_resistance() {
    let ctx = Context::default();
    assert_eq!(nist::validate_hash(&ctx, &hash::sha3_256()), Ok(hash::sha256()));
}

#[test]
fn sha3_384_collision_resistance() {
    let ctx = Context::default();
    assert_eq!(nist::validate_hash(&ctx, &hash::sha3_384()), Ok(hash::sha384()));
}

#[test]
fn sha3_512_collision_resistance() {
    let ctx = Context::default();
    assert_eq!(nist::validate_hash(&ctx, &hash::sha3_512()), Ok(hash::sha512()));
}

#[test]
fn sha512_collision_resistance() {
    let ctx = Context::default();
    assert_eq!(nist::validate_hash(&ctx, &hash::sha512()), Ok(hash::sha512()));
}

#[test]
fn sha512_224_collision_resistance() {
    let ctx = Context::default();
    assert_eq!(nist::validate_hash(&ctx, &hash::sha512_224()), Ok(hash::sha224()));
}

#[test]
fn sha512_256_collision_resistance() {
    let ctx = Context::default();
    assert_eq!(nist::validate_hash(&ctx, &hash::sha512_256()), Ok(hash::sha256()));
}

#[test]
fn shake128_collision_resistance() {
    let ctx = Context::default();
    assert_eq!(nist::validate_hash(&ctx, &hash::shake128()), Err(hash::sha256()));
}

#[test]
fn shake256_collision_resistance() {
    let ctx = Context::default();
    assert_eq!(nist::validate_hash(&ctx, &hash::shake256()), Err(hash::sha256()));
}

#[test]
fn blake2b_256_pre_image_resistance() {
    let ctx = Context::default();
    assert_eq!(nist::validate_hash_based(&ctx, &hash::blake2b_256()), Err(hash::sha224()));
}

#[test]
fn blake2b_384_pre_image_resistance() {
    let ctx = Context::default();
    assert_eq!(nist::validate_hash_based(&ctx, &hash::blake2b_384()), Err(hash::sha224()));
}

#[test]
fn blake2b_512_pre_image_resistance() {
    let ctx = Context::default();
    assert_eq!(nist::validate_hash_based(&ctx, &hash::blake2b_512()), Err(hash::sha224()));
}

#[test]
fn blake2s_256_pre_image_resistance() {
    let ctx = Context::default();
    assert_eq!(nist::validate_hash_based(&ctx, &hash::blake2s_256()), Err(hash::sha224()));
}

#[test]
fn md4_pre_image_resistance() {
    let ctx = Context::default();
    assert_eq!(nist::validate_hash_based(&ctx, &hash::md4()), Err(hash::sha224()));
}

#[test]
fn md5_pre_image_resistance() {
    let ctx = Context::default();
    assert_eq!(nist::validate_hash_based(&ctx, &hash::md5()), Err(hash::sha224()));
}

#[test]
fn ripemd160_pre_image_resistance() {
    let ctx = Context::default();
    assert_eq!(nist::validate_hash_based(&ctx, &hash::ripemd160()), Err(hash::sha224()));
}

#[test]
fn sha1_pre_image_resistance() {
    let ctx = Context::default();
    assert_eq!(nist::validate_hash_based(&ctx, &hash::sha1()), Err(hash::sha224()));
}

#[test]
fn sha224_pre_image_resistance() {
    let ctx = Context::default();
    assert_eq!(nist::validate_hash_based(&ctx, &hash::sha224()), Ok(hash::sha224()));
}

#[test]
fn sha256_pre_image_resistance() {
    let ctx = Context::default();
    assert_eq!(nist::validate_hash_based(&ctx, &hash::sha256()), Ok(hash::sha256()));
}

#[test]
fn sha384_pre_image_resistance() {
    let ctx = Context::default();
    assert_eq!(nist::validate_hash_based(&ctx, &hash::sha384()), Ok(hash::sha384()));
}

#[test]
fn sha3_224_pre_image_resistance() {
    let ctx = Context::default();
    assert_eq!(nist::validate_hash_based(&ctx, &hash::sha3_224()), Ok(hash::sha224()));
}

#[test]
fn sha3_256_pre_image_resistance() {
    let ctx = Context::default();
    assert_eq!(nist::validate_hash_based(&ctx, &hash::sha3_256()), Ok(hash::sha256()));
}

#[test]
fn sha3_384_pre_image_resistance() {
    let ctx = Context::default();
    assert_eq!(nist::validate_hash_based(&ctx, &hash::sha3_384()), Ok(hash::sha384()));
}

#[test]
fn sha3_512_pre_image_resistance() {
    let ctx = Context::default();
    assert_eq!(nist::validate_hash_based(&ctx, &hash::sha3_512()), Ok(hash::sha512()));
}

#[test]
fn sha512_pre_image_resistance() {
    let ctx = Context::default();
    assert_eq!(nist::validate_hash_based(&ctx, &hash::sha512()), Ok(hash::sha512()));
}

#[test]
fn sha512_224_pre_image_resistance() {
    let ctx = Context::default();
    assert_eq!(nist::validate_hash_based(&ctx, &hash::sha512_224()), Ok(hash::sha224()));
}

#[test]
fn sha512_256_pre_image_resistance() {
    let ctx = Context::default();
    assert_eq!(nist::validate_hash_based(&ctx, &hash::sha512_256()), Ok(hash::sha256()));
}

#[test]
fn shake128_pre_image_resistance() {
    let ctx = Context::default();
    assert_eq!(nist::validate_hash_based(&ctx, &hash::shake128()), Err(hash::sha224()));
}

#[test]
fn shake256_pre_image_resistance() {
    let ctx = Context::default();
    assert_eq!(nist::validate_hash_based(&ctx, &hash::shake256()), Err(hash::sha224()));
}

#[test]
fn hash_floor_raises_recommendation() {
    let ctx = Context::new(192, 2023);
    assert_eq!(nist::validate_hash(&ctx, &hash::sha256()), Ok(hash::sha384()));
    let ctx = Context::new(255, 2023);
    assert_eq!(nist::validate_hash(&ctx, &hash::sha256()), Ok(hash::sha512()));
}

#[test]
fn hash_cutover_edge() {
    // SHA-224's collision bound sits exactly on the retiring boundary.
    let at = Context::new(0, 2031);
    let after = Context::new(0, 2032);
    assert_eq!(nist::validate_hash(&at, &hash::sha224()), Ok(hash::sha224()));
    assert_eq!(nist::validate_hash(&after, &hash::sha224()), Err(hash::sha256()));
}

#[test]
fn hash_below_minimum_recommendation_moves_after_cutover() {
    let at = Context::new(0, 2031);
    let after = Context::new(0, 2032);
    assert_eq!(nist::validate_hash(&at, &hash::sha1()), Err(hash::sha224()));
    assert_eq!(nist::validate_hash(&after, &hash::sha1()), Err(hash::sha256()));
}

#[test]
fn hash_based_cutover_edge() {
    // A floor of 120 bits puts SHA-1's effective measure in the
    // retiring pre-image band.
    let at = Context::new(120, 2031);
    let after = Context::new(120, 2032);
    assert_eq!(nist::validate_hash_based(&at, &hash::sha1()), Ok(hash::sha224()));
    assert_eq!(nist::validate_hash_based(&after, &hash::sha1()), Err(hash::sha224()));
}

#[test]
fn unspecified_hash_ignores_year() {
    let ctx = Context::new(0, 2040);
    assert_eq!(nist::validate_hash(&ctx, &hash::md5()), Err(hash::sha256()));
    assert_eq!(nist::validate_hash_based(&ctx, &hash::md5()), Err(hash::sha224()));
}

#[test]
fn unsupported_hash_placeholder_is_non_compliant() {
    let ctx = Context::default();
    assert_eq!(nist::validate_hash(&ctx, &hash::hash_not_supported()), Err(hash::sha256()));
    assert_eq!(nist::validate_hash_based(&ctx, &hash::hash_not_supported()), Err(hash::sha224()));
}

#[test]
fn two_key_tdea() {
    let ctx = Context::default();
    assert_eq!(nist::validate_symmetric(&ctx, &symmetric::tdea2()), Err(symmetric::aes128()));
}

#[test]
fn three_key_tdea() {
    let ctx = Context::default();
    assert_eq!(nist::validate_symmetric(&ctx, &symmetric::tdea3()), Ok(symmetric::aes128()));
}

#[test]
fn aes128() {
    let ctx = Context::default();
    assert_eq!(nist::validate_symmetric(&ctx, &symmetric::aes128()), Ok(symmetric::aes128()));
}

#[test]
fn aes192() {
    let ctx = Context::default();
    assert_eq!(nist::validate_symmetric(&ctx, &symmetric::aes192()), Ok(symmetric::aes192()));
}

#[test]
fn aes256() {
    let ctx = Context::default();
    assert_eq!(nist::validate_symmetric(&ctx, &symmetric::aes256()), Ok(symmetric::aes256()));
}

#[test]
fn three_key_tdea_cutover_edge() {
    let key = symmetric::tdea3();
    let at = Context::new(0, 2023);
    let after = Context::new(0, 2024);
    assert_eq!(nist::validate_symmetric(&at, &key), Ok(symmetric::aes128()));
    assert_eq!(nist::validate_symmetric(&after, &key), Err(symmetric::aes128()));
}

#[test]
fn symmetric_ignores_floor() {
    let ctx = Context::new(256, 2023);
    assert_eq!(nist::validate_symmetric(&ctx, &symmetric::aes128()), Ok(symmetric::aes128()));
}

#[test]
fn unspecified_symmetric_is_non_compliant() {
    let ctx = Context::default();
    let cipher = symmetric::Symmetric { id: 999, security: 256 };
    assert_eq!(nist::validate_symmetric(&ctx, &cipher), Err(symmetric::aes128()));
}
