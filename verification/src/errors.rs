//! The error taxonomy of the load generator.
//!
//! Every failure is treated as non-recoverable at its boundary: there is no
//! retry or backoff layer. The background loop turns any of these into a
//! process exit; the trigger endpoint turns them into a failure response.

use vstd::prelude::*;

verus! {

/// One error kind per control boundary.
#[derive(Clone, Copy, Debug, PartialEq, Eq, Structural)]
pub enum GenError {
    /// A stream declaration failed after the (tolerated) delete; fatal to startup.
    Provisioning,
    /// A selection policy has nothing to choose from; fatal, the loop cannot progress.
    NoTargetsConfigured,
    /// The broker rejected a publish or the channel failed during one.
    Publish,
    /// No channel could be obtained from the shared connection or pool.
    PoolExhaustionOrConnect,
    /// A stream weight outside the allowed range was supplied at setup.
    InvalidWeight,
}

impl GenError {
    /// A short human-readable account of the error, for process output.
    pub fn describe(&self) -> (r: &'static str)
        ensures
            *self is Provisioning ==> r@ == "stream declaration failed"@,
            *self is NoTargetsConfigured ==> r@ == "no target streams configured"@,
            *self is Publish ==> r@ == "publish rejected by the broker"@,
            *self is PoolExhaustionOrConnect ==> r@ == "no broker channel available"@,
            *self is InvalidWeight ==> r@ == "stream weight must be at least 1"@,
    {
        match self {
            GenError::Provisioning => "stream declaration failed",
            GenError::NoTargetsConfigured => "no target streams configured",
            GenError::Publish => "publish rejected by the broker",
            GenError::PoolExhaustionOrConnect => "no broker channel available",
            GenError::InvalidWeight => "stream weight must be at least 1",
        }
    }
}

} // verus!
