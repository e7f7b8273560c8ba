//! The reconcilers: from a rule or a policy to the objects that the cluster
//! is to hold for it.

use vstd::prelude::*;

pub mod objects;
pub mod policy;
pub mod rule;

verus! {

/// What the controller does with an object once it has been reconciled.
#[derive(Clone, Copy, Debug, PartialEq, Eq, Structural)]
pub enum Action {
    /// Nothing, until the object or one that it owns changes.
    AwaitChange,
    /// Reconcile it again after so many seconds.
    Requeue(u64),
}

/// Seconds after which a failed reconciliation is tried again.
pub const REQUEUE_AFTER_SECONDS: u64 = 3;

/// What the controller does after a reconciliation has failed: whatever the
/// error, it tries again after three seconds.
pub fn error_policy(error: &str) -> (action: Action)
    ensures
        action == Action::Requeue(3),
{
    Action::Requeue(REQUEUE_AFTER_SECONDS)
}

/// What the controller does after a reconciliation has succeeded.
pub fn success_policy() -> (action: Action)
    ensures
        action == Action::AwaitChange,
{
    Action::AwaitChange
}

} // verus!
