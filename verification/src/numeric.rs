//! Non-negative rational quantities: spreads, volumes and percentages.

use vstd::prelude::*;

verus! {

/// A non-negative rational number, held as numerator over denominator.
/// Spreads, minimum volumes, validity windows and balance percentages are
/// all values of this type; the type itself makes negativity unrepresentable,
/// and well-formedness asks only that the denominator is not zero.
#[derive(Clone, Copy, Debug, PartialEq, Eq, Structural)]
pub struct MmNumber {
    pub numer: u64,
    pub denom: u64,
}

impl MmNumber {
    /// A denominator of zero denotes no number at all.
    pub open spec fn wf(&self) -> bool {
        self.denom > 0
    }

    /// The rational `numer / denom`.
    pub fn new(numer: u64, denom: u64) -> (r: Self)
        requires
            denom > 0,
        ensures
            r.wf(),
            r.numer == numer,
            r.denom == denom,
    {
        MmNumber { numer, denom }
    }

    /// The rational zero.
    pub fn zero() -> (r: Self)
        ensures
            r.wf(),
            r.numer == 0,
            r.denom == 1,
    {
        MmNumber { numer: 0, denom: 1 }
    }

    /// True exactly when the value denotes zero.
    pub fn is_zero(&self) -> (r: bool)
        requires
            self.wf(),
        ensures
            r == (self.numer == 0),
    {
        self.numer == 0
    }
}

} // verus!
