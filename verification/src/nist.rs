//! Assessment against the NIST SP 800-57 Part 1 Revision 5 standard.
//!
//! Each operation classifies a primitive with the same tiered shape:
//! compute the classifying measure, reject identifiers the standard
//! does not specify, locate the unique tier whose range contains the
//! measure, and apply the tier's cutover year at a retiring boundary.
//! Tier ranges are closed below and open above except the topmost,
//! which is unbounded, so the tiers partition the whole domain. The
//! verdict always carries the matched tier's canonical instance,
//! whether or not the input is compliant — a compliant but unusual
//! primitive is normalised to its tier's representative.

use vstd::prelude::*;
use crate::context::Context;
use crate::ffc::{Ffc, ffc_2048_224, ffc_3072_256, ffc_7680_384, ffc_15360_512};
use crate::hash::{
    HashFn, sha1, sha224, sha256, sha384, sha512, sha512_224, sha512_256, sha3_224, sha3_256,
    sha3_384, sha3_512,
};
use crate::standard::recommendation;
use crate::symmetric::{Symmetric, tdea2, tdea3, aes128, aes192, aes256};

verus! {

/// The year after which borderline 112-bit tiers are retired.
pub const CUTOFF_YEAR: u16 = 2031;

/// The earlier retirement year of three-key triple DES, per
/// SP 800-131A Revision 2.
pub const CUTOFF_YEAR_3TDEA: u16 = 2023;

/// The measure a context-aware lookup classifies by: the larger of
/// the caller's floor and the primitive's own strength, so that an
/// explicit floor can push the effective requirement into a higher
/// tier than the primitive alone would reach.
pub open spec fn spec_effective_security(ctx: Context, strength: u16) -> u16 {
    if ctx.security >= strength {
        ctx.security
    } else {
        strength
    }
}

fn effective_security(ctx: &Context, strength: u16) -> (s: u16)
    ensures
        s == spec_effective_security(*ctx, strength),
{
    if ctx.security >= strength {
        ctx.security
    } else {
        strength
    }
}

/// Whether the standard specifies the hash function with this
/// identifier at all. An unspecified function is non-compliant
/// unconditionally and never benefits from a cutover grace period.
pub open spec fn spec_specified_hash(id: u16) -> bool {
    ||| id == sha1().id
    ||| id == sha224().id
    ||| id == sha256().id
    ||| id == sha384().id
    ||| id == sha512().id
    ||| id == sha512_224().id
    ||| id == sha512_256().id
    ||| id == sha3_224().id
    ||| id == sha3_256().id
    ||| id == sha3_384().id
    ||| id == sha3_512().id
}

fn specified_hash(id: u16) -> (specified: bool)
    ensures
        specified == spec_specified_hash(id),
{
    id == sha1().id || id == sha224().id || id == sha256().id || id == sha384().id
        || id == sha512().id || id == sha512_224().id || id == sha512_256().id
        || id == sha3_224().id || id == sha3_256().id || id == sha3_384().id
        || id == sha3_512().id
}

/// Whether the standard specifies the symmetric cipher with this
/// identifier at all.
pub open spec fn spec_specified_symmetric(id: u16) -> bool {
    ||| id == tdea2().id
    ||| id == tdea3().id
    ||| id == aes128().id
    ||| id == aes192().id
    ||| id == aes256().id
}

fn specified_symmetric(id: u16) -> (specified: bool)
    ensures
        specified == spec_specified_symmetric(id),
{
    id == tdea2().id || id == tdea3().id || id == aes128().id || id == aes192().id
        || id == aes256().id
}

/// The year a borderline 112-bit symmetric cipher is retired after:
/// three-key triple DES leaves earlier than the rest of its tier.
pub open spec fn spec_symmetric_cutoff(key: Symmetric) -> u16 {
    if key.id == tdea3().id {
        CUTOFF_YEAR_3TDEA
    } else {
        CUTOFF_YEAR
    }
}

/// The verdict of [`validate_ffc`].
pub open spec fn spec_validate_ffc(ctx: Context, key: Ffc) -> Result<Ffc, Ffc> {
    if key.l <= 2047 && key.n <= 223 {
        Err(ffc_2048_224())
    } else if key.l == 2048 && key.n == 224 {
        if ctx.year > CUTOFF_YEAR {
            Err(ffc_3072_256())
        } else {
            Ok(ffc_2048_224())
        }
    } else if 2049 <= key.l && key.l <= 3072 && 225 <= key.n && key.n <= 256 {
        Ok(ffc_3072_256())
    } else if 3073 <= key.l && key.l <= 7680 && 257 <= key.n && key.n <= 384 {
        Ok(ffc_7680_384())
    } else if key.l >= 7681 && key.n >= 385 {
        Ok(ffc_15360_512())
    } else {
        Err(ffc_2048_224())
    }
}

/// Validates a finite field cryptography primitive — DSA and key
/// establishment algorithms such as Diffie-Hellman and MQV — against
/// pages 54-55 of the standard.
///
/// If the key is not compliant, the `Err` verdict carries the
/// recommended replacement. If it is compliant, the `Ok` verdict
/// carries the generic parameter sizes of the matched tier, which may
/// name larger keys than the input when the context demands more.
pub fn validate_ffc(ctx: &Context, key: &Ffc) -> (verdict: Result<Ffc, Ffc>)
    ensures
        verdict == spec_validate_ffc(*ctx, *key),
{
    if key.l <= 2047 && key.n <= 223 {
        Err(ffc_2048_224())
    } else if key.l == 2048 && key.n == 224 {
        if ctx.year > CUTOFF_YEAR {
            Err(ffc_3072_256())
        } else {
            Ok(ffc_2048_224())
        }
    } else if 2049 <= key.l && key.l <= 3072 && 225 <= key.n && key.n <= 256 {
        Ok(ffc_3072_256())
    } else if 3073 <= key.l && key.l <= 7680 && 257 <= key.n && key.n <= 384 {
        Ok(ffc_7680_384())
    } else if key.l >= 7681 && key.n >= 385 {
        Ok(ffc_15360_512())
    } else {
        Err(ffc_2048_224())
    }
}

/// The verdict of [`validate_hash`].
pub open spec fn spec_validate_hash(ctx: Context, hash: HashFn) -> Result<HashFn, HashFn> {
    if spec_specified_hash(hash.id) {
        let security = spec_effective_security(ctx, hash.collision_resistance);
        if security <= 111 {
            if ctx.year > CUTOFF_YEAR {
                Err(sha256())
            } else {
                Err(sha224())
            }
        } else if security == 112 {
            if ctx.year > CUTOFF_YEAR {
                Err(sha256())
            } else {
                Ok(sha224())
            }
        } else if security <= 128 {
            Ok(sha256())
        } else if security <= 192 {
            Ok(sha384())
        } else {
            Ok(sha512())
        }
    } else {
        Err(sha256())
    }
}

/// Validates a hash function against page 56 of the standard, for
/// applications that require collision resistance, such as digital
/// signatures. For applications that primarily require pre-image
/// resistance — MACs, key derivation, random bit generation — use
/// [`validate_hash_based`].
///
/// If the function is not compliant, the `Err` verdict carries the
/// recommended replacement. If it is compliant, the `Ok` verdict
/// carries the matched tier's representative, which may differ from
/// the input: evaluating SHA3-256 recommends SHA-256, though a switch
/// would hardly be warranted. The default recommendations come from
/// the SHA-2 family, which is generally not advised for hashing
/// secrets given its lack of resistance to length extension attacks.
pub fn validate_hash(ctx: &Context, hash: &HashFn) -> (verdict: Result<HashFn, HashFn>)
    ensures
        verdict == spec_validate_hash(*ctx, *hash),
{
    if specified_hash(hash.id) {
        let security = effective_security(ctx, hash.collision_resistance);
        if security <= 111 {
            if ctx.year > CUTOFF_YEAR {
                Err(sha256())
            } else {
                Err(sha224())
            }
        } else if security == 112 {
            if ctx.year > CUTOFF_YEAR {
                Err(sha256())
            } else {
                Ok(sha224())
            }
        } else if security <= 128 {
            Ok(sha256())
        } else if security <= 192 {
            Ok(sha384())
        } else {
            Ok(sha512())
        }
    } else {
        Err(sha256())
    }
}

/// The verdict of [`validate_hash_based`].
pub open spec fn spec_validate_hash_based(ctx: Context, hash: HashFn) -> Result<HashFn, HashFn> {
    if spec_specified_hash(hash.id) {
        let security = spec_effective_security(ctx, hash.pre_image_resistance);
        if security <= 111 {
            Err(sha224())
        } else if security <= 127 {
            if ctx.year > CUTOFF_YEAR {
                Err(sha224())
            } else {
                Ok(sha224())
            }
        } else if security <= 224 {
            Ok(sha224())
        } else if security <= 256 {
            Ok(sha256())
        } else if security <= 394 {
            Ok(sha384())
        } else {
            Ok(sha512())
        }
    } else {
        Err(sha224())
    }
}

/// Validates a hash function against page 56 of the standard, for
/// applications that primarily require pre-image resistance: message
/// authentication codes, key derivation functions and random bit
/// generation. For applications that require collision resistance,
/// such as digital signatures, use [`validate_hash`].
///
/// The verdict carries the matched tier's representative exactly as
/// [`validate_hash`]'s does.
pub fn validate_hash_based(ctx: &Context, hash: &HashFn) -> (verdict: Result<HashFn, HashFn>)
    ensures
        verdict == spec_validate_hash_based(*ctx, *hash),
{
    if specified_hash(hash.id) {
        let security = effective_security(ctx, hash.pre_image_resistance);
        if security <= 111 {
            Err(sha224())
        } else if security <= 127 {
            if ctx.year > CUTOFF_YEAR {
                Err(sha224())
            } else {
                Ok(sha224())
            }
        } else if security <= 224 {
            Ok(sha224())
        } else if security <= 256 {
            Ok(sha256())
        } else if security <= 394 {
            Ok(sha384())
        } else {
            Ok(sha512())
        }
    } else {
        Err(sha224())
    }
}

/// The verdict of [`validate_symmetric`].
pub open spec fn spec_validate_symmetric(ctx: Context, key: Symmetric) -> Result<
    Symmetric,
    Symmetric,
> {
    if spec_specified_symmetric(key.id) {
        if key.security <= 111 {
            Err(aes128())
        } else if key.security == 112 {
            if ctx.year > spec_symmetric_cutoff(key) {
                Err(aes128())
            } else {
                Ok(aes128())
            }
        } else if key.security <= 128 {
            Ok(aes128())
        } else if key.security <= 192 {
            Ok(aes192())
        } else {
            Ok(aes256())
        }
    } else {
        Err(aes128())
    }
}

/// Validates a symmetric cipher against pages 54-55 of the standard.
///
/// If the cipher is not compliant, the `Err` verdict carries the
/// recommended replacement; otherwise the `Ok` verdict carries the
/// matched tier's representative. Three-key triple DES sits in the
/// borderline 112-bit tier but retires on the earlier schedule of
/// SP 800-131A Revision 2.
pub fn validate_symmetric(ctx: &Context, key: &Symmetric) -> (verdict: Result<
    Symmetric,
    Symmetric,
>)
    ensures
        verdict == spec_validate_symmetric(*ctx, *key),
{
    if specified_symmetric(key.id) {
        if key.security <= 111 {
            Err(aes128())
        } else if key.security == 112 {
            let cutoff = if key.id == tdea3().id {
                CUTOFF_YEAR_3TDEA
            } else {
                CUTOFF_YEAR
            };
            if ctx.year > cutoff {
                Err(aes128())
            } else {
                Ok(aes128())
            }
        } else if key.security <= 128 {
            Ok(aes128())
        } else if key.security <= 192 {
            Ok(aes192())
        } else {
            Ok(aes256())
        }
    } else {
        Err(aes128())
    }
}

/// Containment of a strength measure in one of the ordered tiers
/// shared by the symmetric and collision-resistance tables: below the
/// minimum, the retiring 112-bit boundary, then the 128-, 192- and
/// 256-bit tiers. Each range is closed below and open above except
/// the topmost, which is unbounded.
pub open spec fn strength_tier_contains(tier: int, strength: u16) -> bool {
    if tier == 0 {
        strength <= 111
    } else if tier == 1 {
        strength == 112
    } else if tier == 2 {
        113 <= strength <= 128
    } else if tier == 3 {
        129 <= strength <= 192
    } else if tier == 4 {
        strength >= 193
    } else {
        false
    }
}

/// The strength tiers partition their whole domain: every measure
/// falls in one tier and no measure falls in two, so a tier lookup is
/// total and unambiguous.
pub proof fn lemma_strength_tiers_partition(strength: u16)
    ensures
        exists|tier: int| 0 <= tier < 5 && strength_tier_contains(tier, strength),
        forall|t1: int, t2: int|
            strength_tier_contains(t1, strength) && strength_tier_contains(t2, strength) ==> t1
                == t2,
{
    if strength <= 111 {
        assert(strength_tier_contains(0, strength));
    } else if strength == 112 {
        assert(strength_tier_contains(1, strength));
    } else if strength <= 128 {
        assert(strength_tier_contains(2, strength));
    } else if strength <= 192 {
        assert(strength_tier_contains(3, strength));
    } else {
        assert(strength_tier_contains(4, strength));
    }
}

/// Containment of a strength measure in one of the ordered tiers of
/// the pre-image-resistance table.
pub open spec fn pre_image_tier_contains(tier: int, strength: u16) -> bool {
    if tier == 0 {
        strength <= 111
    } else if tier == 1 {
        112 <= strength <= 127
    } else if tier == 2 {
        128 <= strength <= 224
    } else if tier == 3 {
        225 <= strength <= 256
    } else if tier == 4 {
        257 <= strength <= 394
    } else if tier == 5 {
        strength >= 395
    } else {
        false
    }
}

/// The pre-image tiers partition their whole domain as the strength
/// tiers do.
pub proof fn lemma_pre_image_tiers_partition(strength: u16)
    ensures
        exists|tier: int| 0 <= tier < 6 && pre_image_tier_contains(tier, strength),
        forall|t1: int, t2: int|
            pre_image_tier_contains(t1, strength) && pre_image_tier_contains(t2, strength) ==> t1
                == t2,
{
    if strength <= 111 {
        assert(pre_image_tier_contains(0, strength));
    } else if strength <= 127 {
        assert(pre_image_tier_contains(1, strength));
    } else if strength <= 224 {
        assert(pre_image_tier_contains(2, strength));
    } else if strength <= 256 {
        assert(pre_image_tier_contains(3, strength));
    } else if strength <= 394 {
        assert(pre_image_tier_contains(4, strength));
    } else {
        assert(pre_image_tier_contains(5, strength));
    }
}

/// Containment of a finite field key in one of the named tiers of the
/// finite field table, which classifies by the pair of sizes rather
/// than a single measure.
pub open spec fn ffc_tier_contains(tier: int, key: Ffc) -> bool {
    if tier == 0 {
        key.l <= 2047 && key.n <= 223
    } else if tier == 1 {
        key.l == 2048 && key.n == 224
    } else if tier == 2 {
        2049 <= key.l <= 3072 && 225 <= key.n <= 256
    } else if tier == 3 {
        3073 <= key.l <= 7680 && 257 <= key.n <= 384
    } else if tier == 4 {
        key.l >= 7681 && key.n >= 385
    } else {
        false
    }
}

/// No finite field key lies in two named tiers, and a pair of sizes
/// outside every named tier — a mismatched pair — is assessed as
/// below the minimum: the assessment is total over all size pairs.
pub proof fn lemma_ffc_tiers_exclusive(ctx: Context, key: Ffc)
    ensures
        forall|t1: int, t2: int|
            ffc_tier_contains(t1, key) && ffc_tier_contains(t2, key) ==> t1 == t2,
        (forall|tier: int| !ffc_tier_contains(tier, key)) ==> spec_validate_ffc(ctx, key)
            == Err::<Ffc, Ffc>(ffc_2048_224()),
{
    if forall|tier: int| !ffc_tier_contains(tier, key) {
        assert(!ffc_tier_contains(0, key));
        assert(!ffc_tier_contains(1, key));
        assert(!ffc_tier_contains(2, key));
        assert(!ffc_tier_contains(3, key));
        assert(!ffc_tier_contains(4, key));
    }
}

/// The finite field verdict is the matched tier's own row: the named
/// tiers map to their canonical parameter sizes, with the cutover
/// applied at the retiring boundary tier.
pub proof fn lemma_ffc_tier_verdict(ctx: Context, key: Ffc)
    ensures
        ffc_tier_contains(0, key) ==> spec_validate_ffc(ctx, key) == Err::<Ffc, Ffc>(
            ffc_2048_224(),
        ),
        ffc_tier_contains(1, key) && ctx.year <= CUTOFF_YEAR ==> spec_validate_ffc(ctx, key)
            == Ok::<Ffc, Ffc>(ffc_2048_224()),
        ffc_tier_contains(1, key) && ctx.year > CUTOFF_YEAR ==> spec_validate_ffc(ctx, key)
            == Err::<Ffc, Ffc>(ffc_3072_256()),
        ffc_tier_contains(2, key) ==> spec_validate_ffc(ctx, key) == Ok::<Ffc, Ffc>(
            ffc_3072_256(),
        ),
        ffc_tier_contains(3, key) ==> spec_validate_ffc(ctx, key) == Ok::<Ffc, Ffc>(
            ffc_7680_384(),
        ),
        ffc_tier_contains(4, key) ==> spec_validate_ffc(ctx, key) == Ok::<Ffc, Ffc>(
            ffc_15360_512(),
        ),
{
}

/// The symmetric verdict for a specified cipher is the matched tier's
/// own row, with each cipher's own cutover applied at the retiring
/// boundary tier.
pub proof fn lemma_symmetric_tier_verdict(ctx: Context, key: Symmetric)
    requires
        spec_specified_symmetric(key.id),
    ensures
        strength_tier_contains(0, key.security) ==> spec_validate_symmetric(ctx, key) == Err::<
            Symmetric,
            Symmetric,
        >(aes128()),
        strength_tier_contains(1, key.security) && ctx.year <= spec_symmetric_cutoff(key)
            ==> spec_validate_symmetric(ctx, key) == Ok::<Symmetric, Symmetric>(aes128()),
        strength_tier_contains(1, key.security) && ctx.year > spec_symmetric_cutoff(key)
            ==> spec_validate_symmetric(ctx, key) == Err::<Symmetric, Symmetric>(aes128()),
        strength_tier_contains(2, key.security) ==> spec_validate_symmetric(ctx, key) == Ok::<
            Symmetric,
            Symmetric,
        >(aes128()),
        strength_tier_contains(3, key.security) ==> spec_validate_symmetric(ctx, key) == Ok::<
            Symmetric,
            Symmetric,
        >(aes192()),
        strength_tier_contains(4, key.security) ==> spec_validate_symmetric(ctx, key) == Ok::<
            Symmetric,
            Symmetric,
        >(aes256()),
{
}

/// The collision-resistance verdict for a specified hash function is
/// the row of the tier containing its effective measure; below the
/// minimum and at the retiring boundary the recommendation itself
/// depends on the year.
pub proof fn lemma_hash_tier_verdict(ctx: Context, hash: HashFn)
    requires
        spec_specified_hash(hash.id),
    ensures
        strength_tier_contains(0, spec_effective_security(ctx, hash.collision_resistance))
            && ctx.year <= CUTOFF_YEAR ==> spec_validate_hash(ctx, hash) == Err::<HashFn, HashFn>(
            sha224(),
        ),
        strength_tier_contains(0, spec_effective_security(ctx, hash.collision_resistance))
            && ctx.year > CUTOFF_YEAR ==> spec_validate_hash(ctx, hash) == Err::<HashFn, HashFn>(
            sha256(),
        ),
        strength_tier_contains(1, spec_effective_security(ctx, hash.collision_resistance))
            && ctx.year <= CUTOFF_YEAR ==> spec_validate_hash(ctx, hash) == Ok::<HashFn, HashFn>(
            sha224(),
        ),
        strength_tier_contains(1, spec_effective_security(ctx, hash.collision_resistance))
            && ctx.year > CUTOFF_YEAR ==> spec_validate_hash(ctx, hash) == Err::<HashFn, HashFn>(
            sha256(),
        ),
        strength_tier_contains(2, spec_effective_security(ctx, hash.collision_resistance))
            ==> spec_validate_hash(ctx, hash) == Ok::<HashFn, HashFn>(sha256()),
        strength_tier_contains(3, spec_effective_security(ctx, hash.collision_resistance))
            ==> spec_validate_hash(ctx, hash) == Ok::<HashFn, HashFn>(sha384()),
        strength_tier_contains(4, spec_effective_security(ctx, hash.collision_resistance))
            ==> spec_validate_hash(ctx, hash) == Ok::<HashFn, HashFn>(sha512()),
{
}

/// The pre-image-resistance verdict for a specified hash function is
/// the row of the pre-image tier containing its effective measure.
pub proof fn lemma_hash_based_tier_verdict(ctx: Context, hash: HashFn)
    requires
        spec_specified_hash(hash.id),
    ensures
        pre_image_tier_contains(0, spec_effective_security(ctx, hash.pre_image_resistance))
            ==> spec_validate_hash_based(ctx, hash) == Err::<HashFn, HashFn>(sha224()),
        pre_image_tier_contains(1, spec_effective_security(ctx, hash.pre_image_resistance))
            && ctx.year <= CUTOFF_YEAR ==> spec_validate_hash_based(ctx, hash) == Ok::<
            HashFn,
            HashFn,
        >(sha224()),
        pre_image_tier_contains(1, spec_effective_security(ctx, hash.pre_image_resistance))
            && ctx.year > CUTOFF_YEAR ==> spec_validate_hash_based(ctx, hash) == Err::<
            HashFn,
            HashFn,
        >(sha224()),
        pre_image_tier_contains(2, spec_effective_security(ctx, hash.pre_image_resistance))
            ==> spec_validate_hash_based(ctx, hash) == Ok::<HashFn, HashFn>(sha224()),
        pre_image_tier_contains(3, spec_effective_security(ctx, hash.pre_image_resistance))
            ==> spec_validate_hash_based(ctx, hash) == Ok::<HashFn, HashFn>(sha256()),
        pre_image_tier_contains(4, spec_effective_security(ctx, hash.pre_image_resistance))
            ==> spec_validate_hash_based(ctx, hash) == Ok::<HashFn, HashFn>(sha384()),
        pre_image_tier_contains(5, spec_effective_security(ctx, hash.pre_image_resistance))
            ==> spec_validate_hash_based(ctx, hash) == Ok::<HashFn, HashFn>(sha512()),
{
}

/// Any two results that assess the same key under the same context
/// agree: the verdict is a pure function of its inputs.
pub proof fn lemma_validate_ffc_deterministic(
    ctx: Context,
    key: Ffc,
    r1: Result<Ffc, Ffc>,
    r2: Result<Ffc, Ffc>,
)
    requires
        r1 == spec_validate_ffc(ctx, key),
        r2 == spec_validate_ffc(ctx, key),
    ensures
        r1 == r2,
{
}

/// As [`lemma_validate_ffc_deterministic`], for the collision
/// resistance assessment.
pub proof fn lemma_validate_hash_deterministic(
    ctx: Context,
    hash: HashFn,
    r1: Result<HashFn, HashFn>,
    r2: Result<HashFn, HashFn>,
)
    requires
        r1 == spec_validate_hash(ctx, hash),
        r2 == spec_validate_hash(ctx, hash),
    ensures
        r1 == r2,
{
}

/// As [`lemma_validate_ffc_deterministic`], for the pre-image
/// resistance assessment.
pub proof fn lemma_validate_hash_based_deterministic(
    ctx: Context,
    hash: HashFn,
    r1: Result<HashFn, HashFn>,
    r2: Result<HashFn, HashFn>,
)
    requires
        r1 == spec_validate_hash_based(ctx, hash),
        r2 == spec_validate_hash_based(ctx, hash),
    ensures
        r1 == r2,
{
}

/// As [`lemma_validate_ffc_deterministic`], for the symmetric cipher
/// assessment.
pub proof fn lemma_validate_symmetric_deterministic(
    ctx: Context,
    key: Symmetric,
    r1: Result<Symmetric, Symmetric>,
    r2: Result<Symmetric, Symmetric>,
)
    requires
        r1 == spec_validate_symmetric(ctx, key),
        r2 == spec_validate_symmetric(ctx, key),
    ensures
        r1 == r2,
{
}

/// The finite field assessment classifies by the key's sizes and the
/// year alone: the caller's security floor never changes its verdict.
pub proof fn lemma_ffc_ignores_floor(c1: Context, c2: Context, key: Ffc)
    requires
        c1.year == c2.year,
    ensures
        spec_validate_ffc(c1, key) == spec_validate_ffc(c2, key),
{
}

/// The symmetric assessment classifies by the cipher's declared
/// strength and the year alone: the caller's security floor never
/// changes its verdict.
pub proof fn lemma_symmetric_ignores_floor(c1: Context, c2: Context, key: Symmetric)
    requires
        c1.year == c2.year,
    ensures
        spec_validate_symmetric(c1, key) == spec_validate_symmetric(c2, key),
{
}

/// Raising the caller's floor with the year held fixed never hurts a
/// hash function that still clears the new floor — its verdict is
/// unchanged — and never lowers the tier of the recommended
/// alternative.
pub proof fn lemma_hash_monotonic_in_floor(lo: Context, hi: Context, hash: HashFn)
    requires
        lo.year == hi.year,
        lo.security <= hi.security,
    ensures
        hash.collision_resistance >= hi.security ==> spec_validate_hash(lo, hash)
            == spec_validate_hash(hi, hash),
        recommendation(spec_validate_hash(lo, hash)).collision_resistance <= recommendation(
            spec_validate_hash(hi, hash),
        ).collision_resistance,
{
}

/// As [`lemma_hash_monotonic_in_floor`], for the pre-image
/// resistance assessment.
pub proof fn lemma_hash_based_monotonic_in_floor(lo: Context, hi: Context, hash: HashFn)
    requires
        lo.year == hi.year,
        lo.security <= hi.security,
    ensures
        hash.pre_image_resistance >= hi.security ==> spec_validate_hash_based(lo, hash)
            == spec_validate_hash_based(hi, hash),
        recommendation(spec_validate_hash_based(lo, hash)).pre_image_resistance <= recommendation(
            spec_validate_hash_based(hi, hash),
        ).pre_image_resistance,
{
}

/// At its cutover year a borderline 2048/224-bit finite field key is
/// still compliant; one year later it is not, and the next tier up is
/// recommended.
pub proof fn lemma_ffc_cutover_edge(at: Context, after: Context, key: Ffc)
    requires
        key.l == 2048,
        key.n == 224,
        at.year == CUTOFF_YEAR,
        after.year == CUTOFF_YEAR + 1,
    ensures
        spec_validate_ffc(at, key) == Ok::<Ffc, Ffc>(ffc_2048_224()),
        spec_validate_ffc(after, key) == Err::<Ffc, Ffc>(ffc_3072_256()),
{
}

/// At its cutover year a borderline 112-bit symmetric cipher is still
/// compliant; one year later it is not. The cutover is the cipher's
/// own: earlier for three-key triple DES than for the rest of its
/// tier.
pub proof fn lemma_symmetric_cutover_edge(at: Context, after: Context, key: Symmetric)
    requires
        spec_specified_symmetric(key.id),
        key.security == 112,
        at.year == spec_symmetric_cutoff(key),
        after.year == spec_symmetric_cutoff(key) + 1,
    ensures
        spec_validate_symmetric(at, key) == Ok::<Symmetric, Symmetric>(aes128()),
        spec_validate_symmetric(after, key) == Err::<Symmetric, Symmetric>(aes128()),
{
}

/// At the cutover year a hash function whose effective collision
/// measure sits exactly on the retiring boundary is still compliant;
/// one year later it is not, and the recommendation moves up a tier.
pub proof fn lemma_hash_cutover_edge(at: Context, after: Context, hash: HashFn)
    requires
        spec_specified_hash(hash.id),
        spec_effective_security(at, hash.collision_resistance) == 112,
        at.year == CUTOFF_YEAR,
        after.security == at.security,
        after.year == CUTOFF_YEAR + 1,
    ensures
        spec_validate_hash(at, hash) == Ok::<HashFn, HashFn>(sha224()),
        spec_validate_hash(after, hash) == Err::<HashFn, HashFn>(sha256()),
{
}

/// As [`lemma_hash_cutover_edge`], for the pre-image table, whose
/// retiring band spans the measures between 112 and 127 bits.
pub proof fn lemma_hash_based_cutover_edge(at: Context, after: Context, hash: HashFn)
    requires
        spec_specified_hash(hash.id),
        112 <= spec_effective_security(at, hash.pre_image_resistance) <= 127,
        at.year == CUTOFF_YEAR,
        after.security == at.security,
        after.year == CUTOFF_YEAR + 1,
    ensures
        spec_validate_hash_based(at, hash) == Ok::<HashFn, HashFn>(sha224()),
        spec_validate_hash_based(after, hash) == Err::<HashFn, HashFn>(sha224()),
{
}

} // verus!

