//! Traits shared by the bill records.

use vstd::prelude::*;

verus! {

/// `chrono::NaiveDateTime`, carried through unchanged: the rules never look
/// inside a time stamp.
#[verifier::external_type_specification]
#[verifier::external_body]
pub struct ExNaiveDateTime(chrono::NaiveDateTime);

/// A bill that totals its own fees.
pub trait FeeCalculator {
    /// The totals stay within the machine range of a `Decimal`.
    spec fn fee_fits(&self) -> bool;

    /// Sets the totals of the bill from its fees.
    fn fee_calculate(&mut self)
        requires
            old(self).fee_fits(),
    ;
}

} // verus!
