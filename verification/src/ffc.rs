//! Finite field cryptography primitives, such as DSA keys and the
//! groups used by Diffie-Hellman and MQV key establishment.

use vstd::prelude::*;

verus! {

/// A finite field primitive, classified by the pair of its field and
/// subgroup sizes rather than by a derived scalar.
///
/// The catalog below names the sizes standards recommend; arbitrary
/// pairs can also be assessed, since certificates may carry unusual
/// parameters.
#[derive(Clone, Copy, Debug, PartialEq, Eq, Structural, Hash)]
pub struct Ffc {
    /// Bit length of the field (the public key size).
    pub l: u16,
    /// Bit length of the subgroup order (the private key size).
    pub n: u16,
}

impl Ffc {
    /// A structurally sensible instance: the subgroup order cannot
    /// exceed the field size.
    pub open spec fn wf(self) -> bool {
        self.n <= self.l
    }
}

/// The catalog instance for a 1024-bit field with a 160-bit subgroup.
pub open spec fn spec_ffc_1024_160() -> Ffc {
    Ffc { l: 1024, n: 160 }
}

/// Finite field parameters of legacy 1024/160-bit size.
#[verifier::when_used_as_spec(spec_ffc_1024_160)]
pub fn ffc_1024_160() -> (key: Ffc)
    ensures
        key == spec_ffc_1024_160(),
        key.wf(),
{
    Ffc { l: 1024, n: 160 }
}

/// The catalog instance for a 2048-bit field with a 224-bit subgroup.
pub open spec fn spec_ffc_2048_224() -> Ffc {
    Ffc { l: 2048, n: 224 }
}

/// Finite field parameters of 2048/224-bit size.
#[verifier::when_used_as_spec(spec_ffc_2048_224)]
pub fn ffc_2048_224() -> (key: Ffc)
    ensures
        key == spec_ffc_2048_224(),
        key.wf(),
{
    Ffc { l: 2048, n: 224 }
}

/// The catalog instance for a 3072-bit field with a 256-bit subgroup.
pub open spec fn spec_ffc_3072_256() -> Ffc {
    Ffc { l: 3072, n: 256 }
}

/// Finite field parameters of 3072/256-bit size.
#[verifier::when_used_as_spec(spec_ffc_3072_256)]
pub fn ffc_3072_256() -> (key: Ffc)
    ensures
        key == spec_ffc_3072_256(),
        key.wf(),
{
    Ffc { l: 3072, n: 256 }
}

/// The catalog instance for a 7680-bit field with a 384-bit subgroup.
pub open spec fn spec_ffc_7680_384() -> Ffc {
    Ffc { l: 7680, n: 384 }
}

/// Finite field parameters of 7680/384-bit size.
#[verifier::when_used_as_spec(spec_ffc_7680_384)]
pub fn ffc_7680_384() -> (key: Ffc)
    ensures
        key == spec_ffc_7680_384(),
        key.wf(),
{
    Ffc { l: 7680, n: 384 }
}

/// The catalog instance for a 15360-bit field with a 512-bit subgroup.
pub open spec fn spec_ffc_15360_512() -> Ffc {
    Ffc { l: 15360, n: 512 }
}

/// Finite field parameters of 15360/512-bit size.
#[verifier::when_used_as_spec(spec_ffc_15360_512)]
pub fn ffc_15360_512() -> (key: Ffc)
    ensures
        key == spec_ffc_15360_512(),
        key.wf(),
{
    Ffc { l: 15360, n: 512 }
}

} // verus!
