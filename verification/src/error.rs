//! The error raised when a tracker is closed with unaccounted work.

use vstd::prelude::*;
use vstd::string::StringExecFns;

verus! {

/// Returned by `close()` when the tracker still has remaining work.
///
/// The error is recoverable: the caller may submit the missing work and retry
/// the close, or propagate the failure upward.
#[derive(Debug)]
pub struct CloseError {
    /// Human-readable diagnostic naming the tracker that was closed too early.
    pub msg: String,
}

impl CloseError {
    /// A `CloseError` whose diagnostic names the tracker that still had
    /// remaining work when it was closed.
    pub fn remaining_work(name: &str) -> (e: CloseError)
        ensures
            e.msg@ == "work is still remaining at close for progress monitor "@ + name@,
    {
        CloseError {
            msg: String::from_str("work is still remaining at close for progress monitor ").concat(
                name,
            ),
        }
    }
}

} // verus!
