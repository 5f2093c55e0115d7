use vstd::prelude::*;

use crate::database::ConnectionPool;

verus! {

/// A failure while executing the readiness probe: connection refused,
/// authentication failure, timeout, or pool exhaustion. Callers only need
/// "reachable" versus "not reachable", so sub-causes are not distinguished.
#[derive(Clone, Copy, Debug, PartialEq, Eq, Structural)]
pub struct DatabaseError;

/// The transport-level outcome of one probe round-trip against the store:
/// either the probe query came back, or its execution failed.
#[derive(Clone, Copy, Debug, PartialEq, Eq, Structural)]
pub enum ProbeOutcome {
    Reached,
    Unreached,
}

/// What a probe reports for a given round-trip outcome: reaching the store
/// is success, anything else is one undifferentiated [`DatabaseError`].
pub open spec fn spec_probe_result(outcome: ProbeOutcome) -> Result<(), DatabaseError> {
    match outcome {
        ProbeOutcome::Reached => Ok(()),
        ProbeOutcome::Unreached => Err(DatabaseError),
    }
}

/// The abstract capability "can check database health".
///
/// The transport layer performs the probe's round-trip and hands the outcome
/// back; an implementation turns that outcome into the typed probe result.
/// Exactly one implementation is bound at composition time, but the registry
/// and the HTTP surface depend only on this interface, so a test double can
/// be substituted without touching either.
pub trait HealthCheckRepository {
    /// One probe attempt: no retry, and success exactly when the store was
    /// reached.
    fn interpret_probe(&self, outcome: ProbeOutcome) -> (r: Result<(), DatabaseError>)
        ensures
            r == spec_probe_result(outcome),
    ;
}

/// The single trivial, side-effect-free statement a readiness probe issues.
pub fn probe_statement() -> (s: &'static str)
    ensures
        s@ == "SELECT 1"@,
{
    "SELECT 1"
}

/// The one concrete [`HealthCheckRepository`], bound at construction time to
/// the [`ConnectionPool`] its probes run against. It shares the pool, it does
/// not own it.
pub struct HealthCheckRepositoryImpl {
    pool: ConnectionPool,
}

impl HealthCheckRepositoryImpl {
    /// The pool this repository probes.
    pub closed spec fn spec_pool(&self) -> ConnectionPool {
        self.pool
    }

    pub fn new(pool: ConnectionPool) -> (repo: Self)
        ensures
            repo.spec_pool() == pool,
    {
        HealthCheckRepositoryImpl { pool }
    }

    /// The pool to issue [`probe_statement`] against.
    pub fn pool(&self) -> (r: &ConnectionPool)
        ensures
            *r == self.spec_pool(),
    {
        &self.pool
    }
}

impl HealthCheckRepository for HealthCheckRepositoryImpl {
    fn interpret_probe(&self, outcome: ProbeOutcome) -> (r: Result<(), DatabaseError>)
        ensures
            r == spec_probe_result(outcome),
    {
        match outcome {
            ProbeOutcome::Reached => Ok(()),
            ProbeOutcome::Unreached => Err(DatabaseError),
        }
    }
}

} // verus!
