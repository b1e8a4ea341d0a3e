//! The context an assessment runs against: the minimum security
//! strength the caller will accept and the calendar year standards
//! compare their cutover dates with.

use vstd::prelude::*;

verus! {

/// The default minimum security strength, in bits. Zero means the
/// caller imposes no floor of their own, so a primitive is measured by
/// its intrinsic strength alone.
pub const DEFAULT_SECURITY: u16 = 0;

/// The default reference year against which deprecation cutovers are
/// evaluated.
pub const DEFAULT_YEAR: u16 = 2023;

/// An immutable description of the caller's requirements: the minimum
/// acceptable security strength in bits and the reference year used to
/// evaluate a standard's deprecation cutovers.
///
/// A year outside a standard's known range never triggers that
/// standard's cutover logic: years at or below a cutover count as
/// "before" it, later years as "after".
#[derive(Clone, Copy, Debug, PartialEq, Eq, Structural)]
pub struct Context {
    /// The minimum security strength the caller requires, in bits.
    pub security: u16,
    /// The calendar year deprecation cutovers are compared with.
    pub year: u16,
}

impl Context {
    /// Creates a context from a security floor and a reference year.
    pub fn new(security: u16, year: u16) -> (ctx: Self)
        ensures
            ctx.security == security,
            ctx.year == year,
    {
        Self { security, year }
    }

    /// The minimum security strength this context requires, in bits.
    pub fn security(&self) -> (security: u16)
        ensures
            security == self.security,
    {
        self.security
    }

    /// The reference year this context evaluates cutovers against.
    pub fn year(&self) -> (year: u16)
        ensures
            year == self.year,
    {
        self.year
    }
}

impl Default for Context {
    /// A context with no security floor of its own, evaluated at the
    /// default reference year.
    fn default() -> (ctx: Self)
        ensures
            ctx.security == DEFAULT_SECURITY,
            ctx.year == DEFAULT_YEAR,
    {
        Self { security: DEFAULT_SECURITY, year: DEFAULT_YEAR }
    }
}

} // verus!
