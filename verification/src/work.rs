//! The unit-agnostic "amount of work" abstraction.
//!
//! A [`Work`] value measures progress.  The trait supplies a zero, a fallible
//! strict combination, subtraction, an ordering used for overshoot and
//! completion checks, a structural minimum, a clamped accrual used by the
//! trackers, and the proportional scaling that maps progress on one scale
//! onto another scale.
//!
//! Because a concrete unit may represent an amount by a container whose
//! element order is irrelevant, the contracts describe results through
//! relations (`add_rel`, `sub_rel`, ...) that pin the result down up to that
//! representation, together with the ordering `le_spec`.

pub mod numeric;
pub mod set_work;

use vstd::prelude::*;
use vstd::string::StringExecFns;

verus! {

/// Raised when strictly combining two work amounts is structurally invalid,
/// such as unioning two sets of milestones that overlap.
#[derive(Debug)]
pub struct AddError {
    /// Human-readable diagnostic for the rejected combination.
    pub msg: String,
}

/// Two work amounts measure the same progress when each is at most the other.
pub open spec fn work_eqv<W: Work>(a: W, b: W) -> bool {
    a.le_spec(&b) && b.le_spec(&a)
}

/// An amount of work, abstracted over the concrete unit.
pub trait Work: Sized {
    /// Well-formedness of a value of this unit.
    spec fn wf(&self) -> bool;

    /// The ordering used for overshoot and completion checks:
    /// `self` measures at most as much progress as `other`.
    spec fn le_spec(&self, other: &Self) -> bool;

    /// Whether this amount is the empty, no-progress value.
    spec fn is_zero_spec(&self) -> bool;

    /// Whether `self` and `rhs` can be strictly combined.
    spec fn can_add_spec(&self, rhs: &Self) -> bool;

    /// `r` is the strict combination of `a` and `b`.
    spec fn add_rel(a: Self, b: Self, r: Self) -> bool;

    /// `r` is what remains of `a` after taking `b` out.
    spec fn sub_rel(a: Self, b: Self, r: Self) -> bool;

    /// The structural minimum of `a` and `b`.
    spec fn min_spec(a: Self, b: Self) -> Self;

    /// `r` is `completed` advanced by `amount`, clamped to `total`.
    ///
    /// This is the tracker-level increment: it is total, idempotent for
    /// discrete one-time milestones, and silently drops whatever part of
    /// `amount` does not fit below `total` (the "at most 100%" clamp).
    spec fn accrue_rel(completed: Self, amount: Self, total: Self, r: Self) -> bool;

    /// `r` is `done`, expressed on the scale `of_total_sub_work`, mapped onto
    /// the scale `of_parent_work`.
    spec fn proportional_rel(done: Self, of_total_sub_work: Self, of_parent_work: Self, r: Self) -> bool;

    /// The empty amount is below every well-formed amount, and the ordering
    /// is reflexive.
    proof fn lemma_zero_least(x: Self, z: Self)
        requires
            x.wf(),
            z.wf(),
            z.is_zero_spec(),
        ensures
            z.le_spec(&x),
            x.le_spec(&x),
    ;

    /// The ordering is transitive.
    proof fn lemma_le_trans(x: Self, y: Self, z: Self)
        requires
            x.wf(),
            y.wf(),
            z.wf(),
            x.le_spec(&y),
            y.le_spec(&z),
        ensures
            x.le_spec(&z),
    ;

    /// The empty, no-progress value.
    fn zero() -> (r: Self)
        ensures
            r.wf(),
            r.is_zero_spec(),
    ;

    /// Equality with zero.
    fn is_zero(&self) -> (r: bool)
        requires
            self.wf(),
        ensures
            r == self.is_zero_spec(),
    ;

    /// The ordering check.
    fn le(&self, other: &Self) -> (r: bool)
        requires
            self.wf(),
            other.wf(),
        ensures
            r == self.le_spec(other),
    ;

    /// Strict combination; fails when the two amounts overlap structurally.
    fn add(self, rhs: Self) -> (r: Result<Self, AddError>)
        requires
            self.wf(),
            rhs.wf(),
        ensures
            r is Ok <==> self.can_add_spec(&rhs),
            r is Ok ==> Self::add_rel(self, rhs, r->Ok_0) && r->Ok_0.wf(),
    ;

    /// Subtraction; callers guarantee `rhs <= self`.
    fn sub(&self, rhs: &Self) -> (r: Self)
        requires
            self.wf(),
            rhs.wf(),
            rhs.le_spec(self),
        ensures
            Self::sub_rel(*self, *rhs, r),
            r.wf(),
            r.le_spec(self),
            r.is_zero_spec() <==> self.le_spec(rhs),
    ;

    /// The structural minimum.
    fn min<'a>(a: &'a Self, b: &'a Self) -> (r: &'a Self)
        requires
            a.wf(),
            b.wf(),
        ensures
            *r == Self::min_spec(*a, *b),
            r.wf(),
    ;

    /// The tracker-level increment: advance `self` by `amount`, clamped to
    /// `total`.  The result never falls below `self` and never exceeds
    /// `total`; handing it the exact remainder `total - self` yields `total`.
    fn accrue(&self, amount: &Self, total: &Self) -> (r: Self)
        requires
            self.wf(),
            amount.wf(),
            total.wf(),
            self.le_spec(total),
        ensures
            Self::accrue_rel(*self, *amount, *total, r),
            r.wf(),
            self.le_spec(&r),
            r.le_spec(total),
            Self::sub_rel(*total, *self, *amount) ==> total.le_spec(&r),
    ;

    /// Proportional scaling: the share of `of_parent_work` earned by `done`
    /// units of progress on a scale whose total is `of_total_sub_work`.
    fn parent_work_done_when(done: &Self, of_total_sub_work: &Self, of_parent_work: &Self) -> (r: Self)
        requires
            done.wf(),
            of_total_sub_work.wf(),
            of_parent_work.wf(),
            !of_total_sub_work.is_zero_spec(),
        ensures
            Self::proportional_rel(*done, *of_total_sub_work, *of_parent_work, r),
            r.wf(),
    ;
}

impl AddError {
    /// An `AddError` whose diagnostic names the overlapping combination.
    pub fn overlap() -> (e: AddError)
        ensures
            e.msg@ == "an element of the combined amount is already present"@,
    {
        AddError { msg: String::from_str("an element of the combined amount is already present") }
    }

    /// An `AddError` whose diagnostic names a combination past the machine range.
    pub fn out_of_range() -> (e: AddError)
        ensures
            e.msg@ == "the combined amount exceeds the representable range"@,
    {
        AddError { msg: String::from_str("the combined amount exceeds the representable range") }
    }
}

} // verus!
