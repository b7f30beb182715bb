//! A numeric work amount: progress as a single ordered counter.

use crate::work::{AddError, Work};
use vstd::prelude::*;

verus! {

/// Progress measured by a plain `u64` counter.
///
/// Proportional scaling computes `done / sub_total * parent_total` by
/// integer arithmetic with the division last, so the quotient is the floor
/// of the exact ratio.  The rounding loss this causes over many small
/// increments is bounded by the exact-remainder push a child tracker
/// performs when it reaches its own total.
#[derive(Clone, Copy, Debug, PartialEq, Eq, Structural)]
pub struct NumericWork(pub u64);

impl NumericWork {
    /// A numeric amount of `value` units.
    pub fn new(value: u64) -> (r: NumericWork)
        ensures
            r.0 == value,
    {
        NumericWork(value)
    }

    /// The raw number of units.
    pub fn value(&self) -> (r: u64)
        ensures
            r == self.0,
    {
        self.0
    }
}

impl From<u64> for NumericWork {
    fn from(value: u64) -> (r: NumericWork) {
        NumericWork(value)
    }
}

impl vstd::std_specs::convert::FromSpecImpl<u64> for NumericWork {
    open spec fn obeys_from_spec() -> bool {
        true
    }

    open spec fn from_spec(value: u64) -> NumericWork {
        NumericWork(value)
    }
}

impl From<u32> for NumericWork {
    fn from(value: u32) -> (r: NumericWork) {
        NumericWork(value as u64)
    }
}

impl vstd::std_specs::convert::FromSpecImpl<u32> for NumericWork {
    open spec fn obeys_from_spec() -> bool {
        true
    }

    open spec fn from_spec(value: u32) -> NumericWork {
        NumericWork(value as u64)
    }
}

impl Work for NumericWork {
    open spec fn wf(&self) -> bool {
        true
    }

    open spec fn le_spec(&self, other: &NumericWork) -> bool {
        self.0 <= other.0
    }

    open spec fn is_zero_spec(&self) -> bool {
        self.0 == 0
    }

    open spec fn can_add_spec(&self, rhs: &NumericWork) -> bool {
        self.0 + rhs.0 <= u64::MAX
    }

    open spec fn add_rel(a: NumericWork, b: NumericWork, r: NumericWork) -> bool {
        r.0 == a.0 + b.0
    }

    open spec fn sub_rel(a: NumericWork, b: NumericWork, r: NumericWork) -> bool {
        r.0 == a.0 - b.0
    }

    open spec fn min_spec(a: NumericWork, b: NumericWork) -> NumericWork {
        if a.0 < b.0 {
            a
        } else {
            b
        }
    }

    open spec fn accrue_rel(
        completed: NumericWork,
        amount: NumericWork,
        total: NumericWork,
        r: NumericWork,
    ) -> bool {
        r.0 == if completed.0 + amount.0 <= total.0 {
            completed.0 + amount.0
        } else {
            total.0 as int
        }
    }

    open spec fn proportional_rel(
        done: NumericWork,
        of_total_sub_work: NumericWork,
        of_parent_work: NumericWork,
        r: NumericWork,
    ) -> bool {
        let q = (done.0 * of_parent_work.0) / (of_total_sub_work.0 as int);
        r.0 == if q <= u64::MAX {
            q
        } else {
            u64::MAX as int
        }
    }

    proof fn lemma_zero_least(x: NumericWork, z: NumericWork) {
    }

    proof fn lemma_le_trans(x: NumericWork, y: NumericWork, z: NumericWork) {
    }

    fn zero() -> (r: NumericWork) {
        NumericWork(0)
    }

    fn is_zero(&self) -> (r: bool) {
        self.0 == 0
    }

    fn le(&self, other: &NumericWork) -> (r: bool) {
        self.0 <= other.0
    }

    fn add(self, rhs: NumericWork) -> (r: Result<NumericWork, AddError>) {
        if u64::MAX - self.0 >= rhs.0 {
            Ok(NumericWork(self.0 + rhs.0))
        } else {
            Err(AddError::out_of_range())
        }
    }

    fn sub(&self, rhs: &NumericWork) -> (r: NumericWork) {
        NumericWork(self.0 - rhs.0)
    }

    fn min<'a>(a: &'a NumericWork, b: &'a NumericWork) -> (r: &'a NumericWork) {
        if a.0 < b.0 {
            a
        } else {
            b
        }
    }

    fn accrue(&self, amount: &NumericWork, total: &NumericWork) -> (r: NumericWork) {
        if amount.0 <= total.0 - self.0 {
            NumericWork(self.0 + amount.0)
        } else {
            NumericWork(total.0)
        }
    }

    fn parent_work_done_when(
        done: &NumericWork,
        of_total_sub_work: &NumericWork,
        of_parent_work: &NumericWork,
    ) -> (r: NumericWork) {
        proof {
            let d = done.0 as int;
            let p = of_parent_work.0 as int;
            assert(d * p <= 0xffff_ffff_ffff_ffff * 0xffff_ffff_ffff_ffff) by (nonlinear_arith)
                requires
                    0 <= d <= 0xffff_ffff_ffff_ffff,
                    0 <= p <= 0xffff_ffff_ffff_ffff,
            ;
        }
        let prod: u128 = (done.0 as u128) * (of_parent_work.0 as u128);
        let q: u128 = prod / (of_total_sub_work.0 as u128);
        if q <= u64::MAX as u128 {
            NumericWork(q as u64)
        } else {
            NumericWork(u64::MAX)
        }
    }
}

} // verus!
