//! Symmetric cipher primitives.

use vstd::prelude::*;

verus! {

/// A symmetric cipher with a declared security strength.
///
/// The strength is stated directly at definition time, not derived
/// from key length, so ciphers whose effective strength falls short of
/// their key size (such as two-key triple DES) can be represented
/// faithfully. The catalog below fixes one instance per recognised
/// cipher; instances are compared field by field.
#[derive(Clone, Copy, Debug, PartialEq, Eq, Structural, Hash)]
pub struct Symmetric {
    /// Stable identifier of the cipher.
    pub id: u16,
    /// Declared security strength in bits.
    pub security: u16,
}

/// The catalog instance for two-key triple DES.
pub open spec fn spec_tdea2() -> Symmetric {
    Symmetric { id: 1, security: 95 }
}

/// Two-key triple DES. Its effective strength is well below its key
/// size because of meet-in-the-middle style attacks.
#[verifier::when_used_as_spec(spec_tdea2)]
pub fn tdea2() -> (cipher: Symmetric)
    ensures
        cipher == spec_tdea2(),
{
    Symmetric { id: 1, security: 95 }
}

/// The catalog instance for three-key triple DES.
pub open spec fn spec_tdea3() -> Symmetric {
    Symmetric { id: 2, security: 112 }
}

/// Three-key triple DES, deprecated on an earlier schedule than other
/// 112-bit primitives.
#[verifier::when_used_as_spec(spec_tdea3)]
pub fn tdea3() -> (cipher: Symmetric)
    ensures
        cipher == spec_tdea3(),
{
    Symmetric { id: 2, security: 112 }
}

/// The catalog instance for AES with a 128-bit key.
pub open spec fn spec_aes128() -> Symmetric {
    Symmetric { id: 3, security: 128 }
}

/// AES with a 128-bit key.
#[verifier::when_used_as_spec(spec_aes128)]
pub fn aes128() -> (cipher: Symmetric)
    ensures
        cipher == spec_aes128(),
{
    Symmetric { id: 3, security: 128 }
}

/// The catalog instance for AES with a 192-bit key.
pub open spec fn spec_aes192() -> Symmetric {
    Symmetric { id: 4, security: 192 }
}

/// AES with a 192-bit key.
#[verifier::when_used_as_spec(spec_aes192)]
pub fn aes192() -> (cipher: Symmetric)
    ensures
        cipher == spec_aes192(),
{
    Symmetric { id: 4, security: 192 }
}

/// The catalog instance for AES with a 256-bit key.
pub open spec fn spec_aes256() -> Symmetric {
    Symmetric { id: 5, security: 256 }
}

/// AES with a 256-bit key.
#[verifier::when_used_as_spec(spec_aes256)]
pub fn aes256() -> (cipher: Symmetric)
    ensures
        cipher == spec_aes256(),
{
    Symmetric { id: 5, security: 256 }
}

} // verus!
