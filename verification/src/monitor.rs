//! The tracker interface: a total amount of work, an accumulated completed
//! amount, increments with an "at most 100%" clamp, and the closing protocol.

pub mod callback;
pub mod sub;

use crate::error::CloseError;
use crate::monitor::sub::ChildMonitor;
use crate::work::Work;
use vstd::prelude::*;

verus! {

/// The callback sink: the sole integration point with reporting
/// collaborators (printing, metrics emission, logging).
///
/// A sink is invoked with `(&total, &completed)` after every increment and
/// only consumes the two amounts; it cannot touch the monitor, which is
/// exclusively borrowed during the increment.  The trait promises nothing,
/// so no proof of the library rests on what an implementation does.
pub trait ProgressSink<W: Work> {
    /// Consume one progress report.
    fn notify(&self, total: &W, completed: &W);
}

/// A progress monitor tracks an amount of work which must be completed.
///
/// Every implementation follows the same increment rule: as long as the
/// monitor is open, `worked(amount)` advances the completed amount by
/// `amount`, clamped to the total (`Work::accrue_rel`), and never decreases
/// it.  A closed monitor rejects further increments: they leave it unchanged.
///
/// The closing protocol: `close()` succeeds exactly when the remaining work
/// is zero, or when the monitor was already closed (a second close is
/// idempotent).  A failed close leaves the monitor open, so the caller may
/// submit the missing work and retry.
pub trait ProgressMonitor<W: Work>: Sized {
    /// The well-formedness invariant every operation preserves.
    spec fn inv(&self) -> bool;

    /// The total amount of work.
    spec fn total_spec(&self) -> W;

    /// The amount of work completed so far.
    spec fn completed_spec(&self) -> W;

    /// Whether the monitor has been closed successfully.
    spec fn is_closed_spec(&self) -> bool;

    /// What an implementation guarantees about `worked` beyond the shared
    /// increment rule, such as how a child propagates into its parent.
    spec fn worked_post(pre: Self, post: Self, amount: W) -> bool;

    /// What an implementation guarantees about `close` beyond the shared
    /// closing protocol: which parts of the state stay untouched.
    spec fn close_post(pre: Self, post: Self) -> bool;

    /// The invariant bounds the completed amount by the total.
    proof fn lemma_inv(&self)
        requires
            self.inv(),
        ensures
            self.total_spec().wf(),
            self.completed_spec().wf(),
            self.completed_spec().le_spec(&self.total_spec()),
    ;

    /// Report `amount` of work as done.  Never fails: overshooting the total
    /// clamps to the total, and an increment on a closed monitor is rejected
    /// by leaving the state unchanged.
    fn worked(&mut self, amount: W)
        requires
            old(self).inv(),
            amount.wf(),
        ensures
            final(self).inv(),
            final(self).total_spec() == old(self).total_spec(),
            final(self).is_closed_spec() == old(self).is_closed_spec(),
            old(self).is_closed_spec() ==> final(self).completed_spec() == old(
                self,
            ).completed_spec(),
            !old(self).is_closed_spec() ==> W::accrue_rel(
                old(self).completed_spec(),
                amount,
                old(self).total_spec(),
                final(self).completed_spec(),
            ),
            !old(self).is_closed_spec() ==> old(self).completed_spec().le_spec(
                &final(self).completed_spec(),
            ),
            Self::worked_post(*old(self), *final(self), amount),
    ;

    /// The total amount of work.
    fn total(&self) -> (r: &W)
        requires
            self.inv(),
        ensures
            *r == self.total_spec(),
    ;

    /// The amount of work completed.
    fn completed(&self) -> (r: &W)
        requires
            self.inv(),
        ensures
            *r == self.completed_spec(),
    ;

    /// The amount of work remaining.
    fn remaining(&self) -> (r: W)
        requires
            self.inv(),
        ensures
            W::sub_rel(self.total_spec(), self.completed_spec(), r),
            r.wf(),
            r.is_zero_spec() <==> self.total_spec().le_spec(&self.completed_spec()),
    ;

    /// Whether the monitor has been closed successfully.
    fn is_closed(&self) -> (r: bool)
        requires
            self.inv(),
        ensures
            r == self.is_closed_spec(),
    ;

    /// If you are done with your work, close this monitor.
    ///
    /// Succeeds exactly when no work remains (or the monitor was already
    /// closed); a failure reports the tracker's name and leaves it open.
    fn close(&mut self) -> (r: Result<(), CloseError>)
        requires
            old(self).inv(),
        ensures
            final(self).inv(),
            final(self).total_spec() == old(self).total_spec(),
            final(self).completed_spec() == old(self).completed_spec(),
            r is Ok <==> (old(self).is_closed_spec() || old(self).total_spec().le_spec(
                &old(self).completed_spec(),
            )),
            final(self).is_closed_spec() == (r is Ok),
            Self::close_post(*old(self), *final(self)),
    ;
}

/// A progress monitor that can delegate a slice of its remaining work to a
/// child monitor.
///
/// Spawning consumes the parent: the child holds it exclusively for its whole
/// lifetime, so no other handle can reach the parent while the child lives.
/// The parent comes back through [`ChildMonitor::into_parent`].
pub trait ProgressMonitorDivision<W: Work>: ProgressMonitor<W> {
    /// Delegate `parent_work` of this monitor's remaining work to a new child
    /// monitor whose own scale is `sub_work`.
    ///
    /// The caller must make sure that `parent_work` does not exceed the
    /// remaining work: violating that is a contract breach, not a runtime
    /// condition, so it is a precondition rather than an error.
    fn new_child(self, name: String, parent_work: W, sub_work: W) -> (c: ChildMonitor<W, Self>)
        requires
            self.inv(),
            !self.is_closed_spec(),
            parent_work.wf(),
            sub_work.wf(),
            exists|rem: W|
                W::sub_rel(self.total_spec(), self.completed_spec(), rem) && rem.wf()
                    && parent_work.le_spec(&rem),
        ensures
            c.inv(),
            c.parent == self,
            c.name == name,
            c.parent_work == parent_work,
            c.sub_work == sub_work,
            c.sub_work_completed.is_zero_spec(),
            c.parent_work_submitted.is_zero_spec(),
            !c.is_closed_spec(),
    ;
}

/// Monotonicity and bound law: for every well-formed monitor, the completed
/// amount lies between zero and the total.  Together with the contract of
/// `worked`, which never decreases the completed amount and re-establishes
/// the invariant, this holds after every call in any sequence of increments.
pub proof fn lemma_completed_bounded<W: Work, M: ProgressMonitor<W>>(m: &M, z: W)
    requires
        m.inv(),
        z.wf(),
        z.is_zero_spec(),
    ensures
        z.le_spec(&m.completed_spec()),
        m.completed_spec().le_spec(&m.total_spec()),
{
    m.lemma_inv();
    W::lemma_zero_least(m.completed_spec(), z);
}

} // verus!
