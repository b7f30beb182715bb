//! The root progress monitor, reporting through a callback.

use crate::error::CloseError;
use crate::monitor::sub::ChildMonitor;
use crate::monitor::{ProgressMonitor, ProgressMonitorDivision, ProgressSink};
use crate::work::Work;
use vstd::prelude::*;

verus! {

/// The root tracker: owns a total and an accumulated completed amount, and
/// invokes a callback sink with `(&total, &completed)` after every increment.
pub struct CallbackProgressMonitor<W: Work, C: ProgressSink<W>> {
    /// Diagnostic name of the tracker.
    pub name: String,
    /// The total amount of work.
    pub work: W,
    /// The amount of work completed so far.
    pub work_done: W,
    /// Invoked with `(&total, &completed)` after every increment.
    pub callback: C,
    /// Whether the tracker has been closed successfully.
    pub closed: bool,
}

impl<W: Work, C: ProgressSink<W>> CallbackProgressMonitor<W, C> {
    /// A fresh tracker for `work` units in total, starting at zero completed.
    pub fn new(name: String, work: W, callback: C) -> (m: CallbackProgressMonitor<W, C>)
        requires
            work.wf(),
        ensures
            m.inv(),
            m.name == name,
            m.work == work,
            m.work_done.is_zero_spec(),
            m.callback == callback,
            !m.closed,
    {
        let done = W::zero();
        proof {
            W::lemma_zero_least(work, done);
        }
        CallbackProgressMonitor { name, work, work_done: done, callback, closed: false }
    }
}

impl<W: Work, C: ProgressSink<W>> ProgressMonitor<W> for CallbackProgressMonitor<W, C> {
    open spec fn inv(&self) -> bool {
        &&& self.work.wf()
        &&& self.work_done.wf()
        &&& self.work_done.le_spec(&self.work)
    }

    open spec fn total_spec(&self) -> W {
        self.work
    }

    open spec fn completed_spec(&self) -> W {
        self.work_done
    }

    open spec fn is_closed_spec(&self) -> bool {
        self.closed
    }

    open spec fn worked_post(
        pre: CallbackProgressMonitor<W, C>,
        post: CallbackProgressMonitor<W, C>,
        amount: W,
    ) -> bool {
        &&& post.name == pre.name
        &&& post.work == pre.work
        &&& post.callback == pre.callback
        &&& post.closed == pre.closed
        &&& pre.closed ==> post.work_done == pre.work_done
    }

    open spec fn close_post(
        pre: CallbackProgressMonitor<W, C>,
        post: CallbackProgressMonitor<W, C>,
    ) -> bool {
        &&& post.name == pre.name
        &&& post.work == pre.work
        &&& post.work_done == pre.work_done
        &&& post.callback == pre.callback
    }

    proof fn lemma_inv(&self) {
    }

    fn worked(&mut self, amount: W) {
        if self.closed {
            return ;
        }
        let done = self.work_done.accrue(&amount, &self.work);
        self.work_done = done;
        self.callback.notify(&self.work, &self.work_done);
    }

    fn total(&self) -> (r: &W) {
        &self.work
    }

    fn completed(&self) -> (r: &W) {
        &self.work_done
    }

    fn remaining(&self) -> (r: W) {
        self.work.sub(&self.work_done)
    }

    fn is_closed(&self) -> (r: bool) {
        self.closed
    }

    fn close(&mut self) -> (r: Result<(), CloseError>) {
        if self.closed {
            return Ok(());
        }
        let left = self.work.sub(&self.work_done);
        if left.is_zero() {
            self.closed = true;
            Ok(())
        } else {
            Err(CloseError::remaining_work(self.name.as_str()))
        }
    }
}

impl<W: Work, C: ProgressSink<W>> ProgressMonitorDivision<W> for CallbackProgressMonitor<W, C> {
    fn new_child(self, name: String, parent_work: W, sub_work: W) -> (c: ChildMonitor<
        W,
        CallbackProgressMonitor<W, C>,
    >) {
        ChildMonitor::new(name, self, parent_work, sub_work)
    }
}

} // verus!
