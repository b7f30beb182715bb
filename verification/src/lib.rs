//! Hierarchical progress tracking.
//!
//! A root tracker owns a total amount of work and accumulates completed work;
//! a child tracker takes exclusive ownership of its parent for its lifetime,
//! counts progress on its own scale, and pushes a proportional share of the
//! delegated parent work into the parent on every increment.  When a child
//! reaches its own total it pushes the exact remainder of its delegated slice,
//! so that rounding in the proportional scaling can never leave the parent
//! short.  Amounts are abstracted by the [`work::Work`] trait, with a numeric
//! counter and a set of distinct milestones as the two concrete units.

pub mod error;
pub mod monitor;
pub mod prelude;
pub mod work;

use vstd::prelude::*;

verus! {

/// Example milestone labels for set-based work amounts.
#[derive(Clone, Copy, Debug, PartialEq, Eq, Structural)]
pub enum MyWork {
    ResourcesLoaded,
    ConnectionEstablished,
    SystemInitialized,
}

impl crate::work::set_work::Label for MyWork {
    fn same(&self, other: &MyWork) -> (r: bool) {
        *self == *other
    }
}

} // verus!
