//! A tagged union over the asymmetric key families, used to dispatch a
//! key of unknown family to the matching assessment operation.

use vstd::prelude::*;
use crate::ecc::Ecc;
use crate::ffc::Ffc;
use crate::ifc::Ifc;

verus! {

/// An asymmetric key of one of the three supported families. It
/// carries no state beyond the wrapped key: wrapping and unwrapping
/// are lossless in both directions.
#[derive(Clone, Copy, Debug, PartialEq, Eq, Structural, Hash)]
pub enum Asymmetric {
    /// An elliptic curve key.
    Ecc(Ecc),
    /// An integer factorisation key.
    Ifc(Ifc),
    /// A finite field key.
    Ffc(Ffc),
}

impl Asymmetric {
    /// The wrapped elliptic curve key, if this is one.
    pub open spec fn spec_ecc(self) -> Option<Ecc> {
        match self {
            Asymmetric::Ecc(key) => Some(key),
            _ => None,
        }
    }

    /// Unwraps an elliptic curve key. Wrapping then unwrapping gives
    /// the key back unchanged.
    #[verifier::when_used_as_spec(spec_ecc)]
    pub fn ecc(self) -> (key: Option<Ecc>)
        ensures
            key == self.spec_ecc(),
            forall|inner: Ecc| self == Asymmetric::Ecc(inner) ==> key == Some(inner),
    {
        match self {
            Asymmetric::Ecc(key) => Some(key),
            _ => None,
        }
    }

    /// The wrapped integer factorisation key, if this is one.
    pub open spec fn spec_ifc(self) -> Option<Ifc> {
        match self {
            Asymmetric::Ifc(key) => Some(key),
            _ => None,
        }
    }

    /// Unwraps an integer factorisation key. Wrapping then unwrapping
    /// gives the key back unchanged.
    #[verifier::when_used_as_spec(spec_ifc)]
    pub fn ifc(self) -> (key: Option<Ifc>)
        ensures
            key == self.spec_ifc(),
            forall|inner: Ifc| self == Asymmetric::Ifc(inner) ==> key == Some(inner),
    {
        match self {
            Asymmetric::Ifc(key) => Some(key),
            _ => None,
        }
    }

    /// The wrapped finite field key, if this is one.
    pub open spec fn spec_ffc(self) -> Option<Ffc> {
        match self {
            Asymmetric::Ffc(key) => Some(key),
            _ => None,
        }
    }

    /// Unwraps a finite field key. Wrapping then unwrapping gives the
    /// key back unchanged.
    #[verifier::when_used_as_spec(spec_ffc)]
    pub fn ffc(self) -> (key: Option<Ffc>)
        ensures
            key == self.spec_ffc(),
            forall|inner: Ffc| self == Asymmetric::Ffc(inner) ==> key == Some(inner),
    {
        match self {
            Asymmetric::Ffc(key) => Some(key),
            _ => None,
        }
    }
}

/// Conversion between a family and the union loses nothing: wrapping
/// a key of any family and unwrapping it again yields the original,
/// and a union value unwraps in exactly one family.
pub proof fn lemma_asymmetric_round_trip(ecc: Ecc, ifc: Ifc, ffc: Ffc)
    ensures
        Asymmetric::Ecc(ecc).spec_ecc() == Some(ecc),
        Asymmetric::Ifc(ifc).spec_ifc() == Some(ifc),
        Asymmetric::Ffc(ffc).spec_ffc() == Some(ffc),
        Asymmetric::Ecc(ecc).spec_ifc() is None && Asymmetric::Ecc(ecc).spec_ffc() is None,
        Asymmetric::Ifc(ifc).spec_ecc() is None && Asymmetric::Ifc(ifc).spec_ffc() is None,
        Asymmetric::Ffc(ffc).spec_ecc() is None && Asymmetric::Ffc(ffc).spec_ifc() is None,
{
}

} // verus!
