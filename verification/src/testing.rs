//! A permissive baseline standard.

use vstd::prelude::*;
use crate::context::Context;
use crate::ecc::Ecc;
use crate::ffc::Ffc;
use crate::hash::HashFn;
use crate::ifc::Ifc;
use crate::standard::Standard;
use crate::symmetric::Symmetric;

verus! {

/// A standard that finds every primitive compliant and recommends the
/// primitive it was given. It carries no policy of its own and exists
/// to decouple higher layers' tests from any real tier table.
#[derive(Clone, Copy, Debug)]
pub struct Testing;

impl Standard for Testing {
    open spec fn ecc_verdict(ctx: Context, key: Ecc) -> Result<Ecc, Ecc> {
        Ok(key)
    }

    open spec fn ffc_verdict(ctx: Context, key: Ffc) -> Result<Ffc, Ffc> {
        Ok(key)
    }

    open spec fn ifc_verdict(ctx: Context, key: Ifc) -> Result<Ifc, Ifc> {
        Ok(key)
    }

    open spec fn hash_verdict(ctx: Context, hash: HashFn) -> Result<HashFn, HashFn> {
        Ok(hash)
    }

    open spec fn symmetric_verdict(ctx: Context, key: Symmetric) -> Result<Symmetric, Symmetric> {
        Ok(key)
    }

    #[allow(unused_variables)]
    fn validate_ecc(ctx: Context, key: Ecc) -> (verdict: Result<Ecc, Ecc>) {
        Ok(key)
    }

    #[allow(unused_variables)]
    fn validate_ffc(ctx: Context, key: Ffc) -> (verdict: Result<Ffc, Ffc>) {
        Ok(key)
    }

    #[allow(unused_variables)]
    fn validate_ifc(ctx: Context, key: Ifc) -> (verdict: Result<Ifc, Ifc>) {
        Ok(key)
    }

    #[allow(unused_variables)]
    fn validate_hash(ctx: Context, hash: HashFn) -> (verdict: Result<HashFn, HashFn>) {
        Ok(hash)
    }

    #[allow(unused_variables)]
    fn validate_symmetric(ctx: Context, key: Symmetric) -> (verdict: Result<Symmetric, Symmetric>) {
        Ok(key)
    }
}

} // verus!
