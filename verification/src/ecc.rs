//! Elliptic curve cryptography primitives.

use vstd::prelude::*;

verus! {

/// A named elliptic curve.
///
/// A curve's security is intrinsic to its definition, so instances
/// carry the bit size of the underlying field, fixed when the curve
/// was standardised. The catalog below names common curves; equality
/// is field by field.
#[derive(Clone, Copy, Debug, PartialEq, Eq, Structural, Hash)]
pub struct Ecc {
    /// Stable identifier of the curve.
    pub id: u16,
    /// Bit size of the underlying field.
    pub f: u16,
}

/// The distinguished instance an unrecognised curve name maps to, so
/// that assessment can still report non-compliance uniformly.
pub open spec fn spec_ecc_not_supported() -> Ecc {
    Ecc { id: 0, f: 0 }
}

/// A placeholder for a curve outside the catalog.
#[verifier::when_used_as_spec(spec_ecc_not_supported)]
pub fn ecc_not_supported() -> (curve: Ecc)
    ensures
        curve == spec_ecc_not_supported(),
{
    Ecc { id: 0, f: 0 }
}

/// The catalog instance for NIST P-256, also known as prime256v1 or
/// secp256r1.
pub open spec fn spec_p256() -> Ecc {
    Ecc { id: 1, f: 256 }
}

/// NIST P-256.
#[verifier::when_used_as_spec(spec_p256)]
pub fn p256() -> (curve: Ecc)
    ensures
        curve == spec_p256(),
{
    Ecc { id: 1, f: 256 }
}

/// The catalog instance for NIST P-384, also known as secp384r1.
pub open spec fn spec_p384() -> Ecc {
    Ecc { id: 2, f: 384 }
}

/// NIST P-384.
#[verifier::when_used_as_spec(spec_p384)]
pub fn p384() -> (curve: Ecc)
    ensures
        curve == spec_p384(),
{
    Ecc { id: 2, f: 384 }
}

/// The catalog instance for NIST P-521, also known as secp521r1.
pub open spec fn spec_p521() -> Ecc {
    Ecc { id: 3, f: 521 }
}

/// NIST P-521.
#[verifier::when_used_as_spec(spec_p521)]
pub fn p521() -> (curve: Ecc)
    ensures
        curve == spec_p521(),
{
    Ecc { id: 3, f: 521 }
}

/// The catalog instance for secp256k1.
pub open spec fn spec_secp256k1() -> Ecc {
    Ecc { id: 4, f: 256 }
}

/// secp256k1.
#[verifier::when_used_as_spec(spec_secp256k1)]
pub fn secp256k1() -> (curve: Ecc)
    ensures
        curve == spec_secp256k1(),
{
    Ecc { id: 4, f: 256 }
}

/// The catalog instance for Ed25519.
pub open spec fn spec_ed25519() -> Ecc {
    Ecc { id: 5, f: 256 }
}

/// Ed25519, the Edwards form signature curve over Curve25519.
#[verifier::when_used_as_spec(spec_ed25519)]
pub fn ed25519() -> (curve: Ecc)
    ensures
        curve == spec_ed25519(),
{
    Ecc { id: 5, f: 256 }
}

/// The catalog instance for Ed448.
pub open spec fn spec_ed448() -> Ecc {
    Ecc { id: 6, f: 448 }
}

/// Ed448, the Edwards form signature curve over Curve448.
#[verifier::when_used_as_spec(spec_ed448)]
pub fn ed448() -> (curve: Ecc)
    ensures
        curve == spec_ed448(),
{
    Ecc { id: 6, f: 448 }
}

/// The catalog instance for brainpoolP256r1.
pub open spec fn spec_brainpool_p256r1() -> Ecc {
    Ecc { id: 7, f: 256 }
}

/// brainpoolP256r1.
#[verifier::when_used_as_spec(spec_brainpool_p256r1)]
pub fn brainpool_p256r1() -> (curve: Ecc)
    ensures
        curve == spec_brainpool_p256r1(),
{
    Ecc { id: 7, f: 256 }
}

} // verus!
