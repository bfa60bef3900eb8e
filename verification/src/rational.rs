//! Exact signed rationals: numerator/denominator pairs as the engine
//! stores them.
//!
//! A rational tag value is two integers. The boundary passes both through
//! untouched in each direction and never reduces the fraction: a value set
//! as 16/10 reads back as exactly 16/10, never as 8/5.

use vstd::prelude::*;

verus! {

/// A signed rational value: the numerator and denominator exactly as the
/// engine stores them, never reduced.
#[derive(Clone, Copy, Debug, PartialEq, Eq, Hash, Structural)]
pub struct Rational {
    pub numer: i32,
    pub denom: i32,
}

impl Rational {
    /// Build a rational from its raw parts, kept exactly as given.
    pub fn new_raw(numer: i32, denom: i32) -> (r: Rational)
        ensures
            r == (Rational { numer, denom }),
    {
        Rational { numer, denom }
    }

    /// The numerator, exactly as stored.
    pub fn numer(&self) -> (r: i32)
        ensures
            r == self.numer,
    {
        self.numer
    }

    /// The denominator, exactly as stored.
    pub fn denom(&self) -> (r: i32)
        ensures
            r == self.denom,
    {
        self.denom
    }
}

/// Decision half of the rational getters: the engine reports presence with
/// a boolean sentinel and leaves the two integers in out-parameters. A zero
/// sentinel means the value is absent — the integers are then meaningless
/// and are not looked at. A present value carries exactly the reported
/// pair, unreduced.
pub fn rational_from_reply(found: i32, numer: i32, denom: i32) -> (r: Option<Rational>)
    ensures
        found == 0 ==> r is None,
        found != 0 ==> r == Some(Rational { numer, denom }),
{
    match found {
        0 => None,
        _ => Some(Rational { numer, denom }),
    }
}

/// Encode half of the rational setter: the two integers handed to the
/// engine are exactly the ones stored in the value, unreduced.
pub fn rational_to_parts(value: &Rational) -> (r: (i32, i32))
    ensures
        r == (value.numer, value.denom),
{
    (value.numer, value.denom)
}

/// Law: a rational that crosses the boundary out and back is identical.
/// The setter hands the engine exactly the stored pair, and a getter that
/// reports that pair yields exactly the value that was set — in particular
/// the fraction is never reduced on either leg.
pub proof fn lemma_rational_precision(value: Rational)
    ensures
        (Rational { numer: value.numer, denom: value.denom }) == value,
        value.numer == 16 && value.denom == 10 ==> value != (Rational { numer: 8, denom: 5 }),
{
}

} // verus!
