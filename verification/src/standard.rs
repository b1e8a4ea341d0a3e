//! The contract every standard implements: one assessment operation
//! per primitive family, each a pure function from a context and a
//! primitive to a verdict carrying a canonical recommendation.

use vstd::prelude::*;
use crate::asymmetric::Asymmetric;
use crate::context::Context;
use crate::ecc::Ecc;
use crate::ffc::Ffc;
use crate::hash::HashFn;
use crate::ifc::Ifc;
use crate::symmetric::Symmetric;

verus! {

/// The recommendation a verdict carries: the canonical primitive of
/// the matched tier, present whether the input was found compliant or
/// not.
pub open spec fn recommendation<T>(verdict: Result<T, T>) -> T {
    match verdict {
        Ok(alternative) => alternative,
        Err(alternative) => alternative,
    }
}

/// A cryptographic standard or research publication.
///
/// Each operation assesses one primitive family. A verdict is
/// `Ok` when the primitive meets the standard's bar for the given
/// context and `Err` when it does not; either way it carries the
/// canonical instance of the tier the primitive was classified into,
/// which need not equal the input.
pub trait Standard {
    /// The verdict this standard returns for an elliptic curve key.
    spec fn ecc_verdict(ctx: Context, key: Ecc) -> Result<Ecc, Ecc>;

    /// The verdict this standard returns for a finite field key.
    spec fn ffc_verdict(ctx: Context, key: Ffc) -> Result<Ffc, Ffc>;

    /// The verdict this standard returns for an integer factorisation
    /// key.
    spec fn ifc_verdict(ctx: Context, key: Ifc) -> Result<Ifc, Ifc>;

    /// The verdict this standard returns for a hash function.
    spec fn hash_verdict(ctx: Context, hash: HashFn) -> Result<HashFn, HashFn>;

    /// The verdict this standard returns for a symmetric cipher.
    spec fn symmetric_verdict(ctx: Context, key: Symmetric) -> Result<Symmetric, Symmetric>;

    /// Assesses an elliptic curve key.
    fn validate_ecc(ctx: Context, key: Ecc) -> (verdict: Result<Ecc, Ecc>)
        ensures
            verdict == Self::ecc_verdict(ctx, key),
    ;

    /// Assesses a finite field key.
    fn validate_ffc(ctx: Context, key: Ffc) -> (verdict: Result<Ffc, Ffc>)
        ensures
            verdict == Self::ffc_verdict(ctx, key),
    ;

    /// Assesses an integer factorisation key.
    fn validate_ifc(ctx: Context, key: Ifc) -> (verdict: Result<Ifc, Ifc>)
        ensures
            verdict == Self::ifc_verdict(ctx, key),
    ;

    /// Assesses a hash function.
    fn validate_hash(ctx: Context, hash: HashFn) -> (verdict: Result<HashFn, HashFn>)
        ensures
            verdict == Self::hash_verdict(ctx, hash),
    ;

    /// Assesses a symmetric cipher.
    fn validate_symmetric(ctx: Context, key: Symmetric) -> (verdict: Result<Symmetric, Symmetric>)
        ensures
            verdict == Self::symmetric_verdict(ctx, key),
    ;

    /// Assesses an asymmetric key by dispatching to the operation of
    /// its family and wrapping the family's canonical recommendation
    /// back into the union: the verdict and its recommendation are
    /// exactly those of the wrapped key's own family.
    fn validate_asymmetric(ctx: Context, key: Asymmetric) -> (verdict: Result<
        Asymmetric,
        Asymmetric,
    >)
        ensures
            (match key {
                Asymmetric::Ecc(inner) => verdict == (match Self::ecc_verdict(ctx, inner) {
                    Ok(alternative) => Ok::<Asymmetric, Asymmetric>(Asymmetric::Ecc(alternative)),
                    Err(alternative) => Err::<Asymmetric, Asymmetric>(Asymmetric::Ecc(alternative)),
                }),
                Asymmetric::Ifc(inner) => verdict == (match Self::ifc_verdict(ctx, inner) {
                    Ok(alternative) => Ok::<Asymmetric, Asymmetric>(Asymmetric::Ifc(alternative)),
                    Err(alternative) => Err::<Asymmetric, Asymmetric>(Asymmetric::Ifc(alternative)),
                }),
                Asymmetric::Ffc(inner) => verdict == (match Self::ffc_verdict(ctx, inner) {
                    Ok(alternative) => Ok::<Asymmetric, Asymmetric>(Asymmetric::Ffc(alternative)),
                    Err(alternative) => Err::<Asymmetric, Asymmetric>(Asymmetric::Ffc(alternative)),
                }),
            }),
    {
        match key {
            Asymmetric::Ecc(inner) => match Self::validate_ecc(ctx, inner) {
                Ok(alternative) => Ok(Asymmetric::Ecc(alternative)),
                Err(alternative) => Err(Asymmetric::Ecc(alternative)),
            },
            Asymmetric::Ifc(inner) => match Self::validate_ifc(ctx, inner) {
                Ok(alternative) => Ok(Asymmetric::Ifc(alternative)),
                Err(alternative) => Err(Asymmetric::Ifc(alternative)),
            },
            Asymmetric::Ffc(inner) => match Self::validate_ffc(ctx, inner) {
                Ok(alternative) => Ok(Asymmetric::Ffc(alternative)),
                Err(alternative) => Err(Asymmetric::Ffc(alternative)),
            },
        }
    }
}

/// Splits a verdict for the foreign-function boundary into the
/// canonical recommendation and the numeric compliance code: 1 for a
/// compliant primitive, 0 for a non-compliant one. Missing arguments
/// at that boundary are signalled by a distinct sentinel before any
/// assessment runs, so the argument-error and policy-verdict channels
/// never mix.
pub fn verdict_parts<T>(verdict: Result<T, T>) -> (parts: (T, i32))
    ensures
        parts.0 == recommendation(verdict),
        (match verdict {
            Ok(_) => parts.1 == 1,
            Err(_) => parts.1 == 0,
        }),
{
    match verdict {
        Ok(alternative) => (alternative, 1),
        Err(alternative) => (alternative, 0),
    }
}

} // verus!
