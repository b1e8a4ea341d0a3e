//! Integer factorisation cryptography primitives, such as RSA keys.

use vstd::prelude::*;

verus! {

/// An integer factorisation primitive, classified by its modulus size
/// alone. Any positive size is structurally legal; standards decide
/// what they accept.
#[derive(Clone, Copy, Debug, PartialEq, Eq, Structural, Hash)]
pub struct Ifc {
    /// Bit length of the modulus.
    pub k: u16,
}

/// The catalog instance for a 2048-bit modulus.
pub open spec fn spec_ifc_2048() -> Ifc {
    Ifc { k: 2048 }
}

/// A 2048-bit modulus.
#[verifier::when_used_as_spec(spec_ifc_2048)]
pub fn ifc_2048() -> (key: Ifc)
    ensures
        key == spec_ifc_2048(),
{
    Ifc { k: 2048 }
}

/// The catalog instance for a 3072-bit modulus.
pub open spec fn spec_ifc_3072() -> Ifc {
    Ifc { k: 3072 }
}

/// A 3072-bit modulus.
#[verifier::when_used_as_spec(spec_ifc_3072)]
pub fn ifc_3072() -> (key: Ifc)
    ensures
        key == spec_ifc_3072(),
{
    Ifc { k: 3072 }
}

} // verus!
