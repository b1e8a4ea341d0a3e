//! Assess whether a cryptographic primitive meets the security bar set
//! by a named standard, for a caller-supplied security floor and
//! reference year.
//!
//! The crate models primitives (elliptic-curve, finite-field,
//! integer-factorisation, hash and symmetric instances) as plain value
//! types, carries the caller's requirements in a [`context::Context`],
//! and classifies a primitive against a standard's ordered tier tables.
//! Every assessment returns a verdict carrying the canonical primitive
//! the standard recommends for the matching tier, whether or not the
//! input is compliant.

pub mod asymmetric;
pub mod context;
pub mod ecc;
pub mod ffc;
pub mod hash;
pub mod ifc;
pub mod nist;
pub mod standard;
pub mod symmetric;
pub mod testing;
