//! The child monitor: a nested tracker that exclusively owns its parent and
//! proportionally advances it.

use crate::error::CloseError;
use crate::monitor::{ProgressMonitor, ProgressMonitorDivision};
use crate::work::{work_eqv, Work};
use vstd::prelude::*;

verus! {

/// A child monitor takes exclusive ownership of a parent monitor.
/// It monitors a subset of its parent's total work, named `parent_work`.
/// This monitor's own scale is declared by `sub_work` and can be arbitrary.
/// A child monitor, as a root monitor, tracks its own progress; see
/// `sub_work_completed`.  Whenever work is done in a child monitor, the
/// parent's progress is increased by a proportional amount.
///
/// As long as the child is not yet finished, each increment pushes the
/// proportional share of the delegated slice into the parent.  The increment
/// that brings the child to its own total instead pushes the exact remainder
/// `parent_work - parent_work_submitted`: proportional scaling may round, and
/// the remainder push guarantees that the parent ends up credited with
/// precisely `parent_work`.
///
/// Because the child owns the parent, no other handle can increment the
/// parent while the child lives: a parent has at most one live child at a
/// time, enforced by ownership rather than by a runtime check.  The parent
/// comes back through [`ChildMonitor::into_parent`].
pub struct ChildMonitor<W: Work, P: ProgressMonitor<W>> {
    /// Diagnostic name of the child.
    pub name: String,
    /// The parent progress monitor, held exclusively for the child's lifetime.
    pub parent: P,
    /// How much work of the parent is handled by this child.
    pub parent_work: W,
    /// The child's own scale for the work taken from the parent.
    pub sub_work: W,
    /// How much of `sub_work` was completed.
    pub sub_work_completed: W,
    /// The cumulative amount already pushed into the parent; equals
    /// `parent_work` once this child reaches its own total.
    pub parent_work_submitted: W,
    /// Whether the child has been closed successfully.
    pub closed: bool,
}

impl<W: Work, P: ProgressMonitor<W>> ChildMonitor<W, P> {
    /// A fresh child monitor over `parent`, responsible for `parent_work` of
    /// the parent's scale and counting its own progress against `sub_work`.
    pub fn new(name: String, parent: P, parent_work: W, sub_work: W) -> (c: ChildMonitor<W, P>)
        requires
            parent.inv(),
            !parent.is_closed_spec(),
            parent_work.wf(),
            sub_work.wf(),
        ensures
            c.inv(),
            c.name == name,
            c.parent == parent,
            c.parent_work == parent_work,
            c.sub_work == sub_work,
            c.sub_work_completed.is_zero_spec(),
            c.parent_work_submitted.is_zero_spec(),
            !c.closed,
    {
        let done = W::zero();
        let submitted = W::zero();
        proof {
            W::lemma_zero_least(sub_work, done);
            W::lemma_zero_least(parent_work, submitted);
        }
        ChildMonitor {
            name,
            parent,
            parent_work,
            sub_work,
            sub_work_completed: done,
            parent_work_submitted: submitted,
            closed: false,
        }
    }

    /// Diagnostic name of the child.
    pub fn name(&self) -> (r: &str)
        ensures
            r@ == self.name@,
    {
        self.name.as_str()
    }

    /// What one increment pushed into the parent: `d` is the proportional
    /// share of the delegated slice while the child is unfinished, and the
    /// exact remainder of the slice on the increment that finishes the child.
    pub open spec fn delta_holds(pre: Self, post: Self, amount: W, d: W) -> bool {
        &&& d.wf()
        &&& if pre.sub_work.le_spec(&post.sub_work_completed) {
            W::sub_rel(pre.parent_work, pre.parent_work_submitted, d)
        } else {
            W::proportional_rel(
                W::min_spec(amount, pre.sub_work),
                pre.sub_work,
                pre.parent_work,
                d,
            )
        }
        &&& P::worked_post(pre.parent, post.parent, d)
        &&& W::accrue_rel(
            pre.parent.completed_spec(),
            d,
            pre.parent.total_spec(),
            post.parent.completed_spec(),
        )
        &&& post.parent.total_spec() == pre.parent.total_spec()
        &&& post.parent.is_closed_spec() == pre.parent.is_closed_spec()
        &&& W::accrue_rel(pre.parent_work_submitted, d, pre.parent_work, post.parent_work_submitted)
        &&& (pre.sub_work.le_spec(&post.sub_work_completed) ==> pre.parent_work.le_spec(
            &post.parent_work_submitted,
        ))
    }

    /// Dispose of the child and hand the exclusively held parent back.
    ///
    /// This applies the closing protocol: if the caller never closed the
    /// child, it is closed implicitly here; a failure of that implicit close
    /// is non-fatal for a child, so the parent is returned either way.
    pub fn into_parent(self) -> (p: P)
        requires
            self.inv(),
        ensures
            p == self.parent,
    {
        let mut c = self;
        if !c.closed {
            let _ = c.close();
        }
        c.parent
    }
}

impl<W: Work, P: ProgressMonitor<W>> ProgressMonitor<W> for ChildMonitor<W, P> {
    open spec fn inv(&self) -> bool {
        &&& self.sub_work.wf()
        &&& self.sub_work_completed.wf()
        &&& self.parent_work.wf()
        &&& self.parent_work_submitted.wf()
        &&& self.sub_work_completed.le_spec(&self.sub_work)
        &&& self.parent_work_submitted.le_spec(&self.parent_work)
        &&& self.parent.inv()
        &&& !self.parent.is_closed_spec()
    }

    open spec fn total_spec(&self) -> W {
        self.sub_work
    }

    open spec fn completed_spec(&self) -> W {
        self.sub_work_completed
    }

    open spec fn is_closed_spec(&self) -> bool {
        self.closed
    }

    open spec fn worked_post(pre: ChildMonitor<W, P>, post: ChildMonitor<W, P>, amount: W) -> bool {
        if pre.closed {
            post == pre
        } else {
            &&& post.name == pre.name
            &&& post.sub_work == pre.sub_work
            &&& post.parent_work == pre.parent_work
            &&& post.closed == pre.closed
            &&& exists|d: W| Self::delta_holds(pre, post, amount, d)
        }
    }

    open spec fn close_post(pre: ChildMonitor<W, P>, post: ChildMonitor<W, P>) -> bool {
        &&& post.name == pre.name
        &&& post.parent == pre.parent
        &&& post.parent_work == pre.parent_work
        &&& post.sub_work == pre.sub_work
        &&& post.sub_work_completed == pre.sub_work_completed
        &&& post.parent_work_submitted == pre.parent_work_submitted
    }

    proof fn lemma_inv(&self) {
    }

    fn worked(&mut self, amount: W) {
        if self.closed {
            return ;
        }
        let ghost pre = *old(self);
        let done = self.sub_work_completed.accrue(&amount, &self.sub_work);
        self.sub_work_completed = done;
        let local_left = self.sub_work.sub(&self.sub_work_completed);
        let finished = local_left.is_zero();
        if !finished {
            proof {
                if self.sub_work.is_zero_spec() {
                    W::lemma_zero_least(self.sub_work_completed, self.sub_work);
                }
            }
            let clamped = W::min(&amount, &self.sub_work);
            let delta = W::parent_work_done_when(clamped, &self.sub_work, &self.parent_work);
            let ghost gdelta = delta;
            let submitted = self.parent_work_submitted.accrue(&delta, &self.parent_work);
            self.parent.worked(delta);
            self.parent_work_submitted = submitted;
            proof {
                assert(Self::delta_holds(pre, *self, amount, gdelta));
            }
        } else {
            let remainder = self.parent_work.sub(&self.parent_work_submitted);
            let ghost gremainder = remainder;
            let submitted = self.parent_work_submitted.accrue(&remainder, &self.parent_work);
            self.parent.worked(remainder);
            self.parent_work_submitted = submitted;
            proof {
                assert(Self::delta_holds(pre, *self, amount, gremainder));
            }
        }
    }

    fn total(&self) -> (r: &W) {
        &self.sub_work
    }

    fn completed(&self) -> (r: &W) {
        &self.sub_work_completed
    }

    fn remaining(&self) -> (r: W) {
        self.sub_work.sub(&self.sub_work_completed)
    }

    fn is_closed(&self) -> (r: bool) {
        self.closed
    }

    fn close(&mut self) -> (r: Result<(), CloseError>) {
        if self.closed {
            return Ok(());
        }
        let left = self.sub_work.sub(&self.sub_work_completed);
        if left.is_zero() {
            self.closed = true;
            Ok(())
        } else {
            Err(CloseError::remaining_work(self.name.as_str()))
        }
    }
}

impl<W: Work, P: ProgressMonitor<W>> ProgressMonitorDivision<W> for ChildMonitor<W, P> {
    fn new_child(self, name: String, parent_work: W, sub_work: W) -> (c: ChildMonitor<
        W,
        ChildMonitor<W, P>,
    >) {
        ChildMonitor::new(name, self, parent_work, sub_work)
    }
}

/// Exact delegation law: the increment that brings a child to its own total
/// leaves the cumulative amount submitted to the parent exactly equal to the
/// delegated slice `parent_work` — never more, never less — even though the
/// proportional shares pushed along the way may have rounded down.
pub proof fn lemma_exact_delegation<W: Work, P: ProgressMonitor<W>>(
    pre: ChildMonitor<W, P>,
    post: ChildMonitor<W, P>,
    amount: W,
)
    requires
        pre.inv(),
        post.inv(),
        amount.wf(),
        !pre.is_closed_spec(),
        <ChildMonitor<W, P> as ProgressMonitor<W>>::worked_post(pre, post, amount),
        pre.sub_work.le_spec(&post.sub_work_completed),
    ensures
        work_eqv(post.parent_work_submitted, post.parent_work),
{
    let d = choose|d: W| ChildMonitor::<W, P>::delta_holds(pre, post, amount, d);
    assert(pre.parent_work.le_spec(&post.parent_work_submitted));
}

} // verus!
