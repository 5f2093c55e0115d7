use vstd::prelude::*;

use crate::repository::DatabaseError;
use crate::repository::ProbeOutcome;
use crate::repository::spec_probe_result;

verus! {

/// The wire-level status the readiness endpoint answers with for a given
/// probe result: 200 when the store was reachable, 500 otherwise.
pub open spec fn spec_db_status(probe: Result<(), DatabaseError>) -> u16 {
    match probe {
        Ok(_) => 200u16,
        Err(_) => 500u16,
    }
}

/// The wire-level status the liveness endpoint answers with. It is a
/// constant: liveness depends on nothing.
pub open spec fn spec_liveness_status() -> u16 {
    200u16
}

/// The liveness endpoint: no dependencies, no I/O, and success on every call,
/// whatever the state of the backing store.
pub fn health_check() -> (status: u16)
    ensures
        status == spec_liveness_status(),
        status == 200,
{
    200
}

/// The readiness endpoint's sole translation point from the typed probe
/// result to a wire-level status: 200 exactly on success, 500 exactly on a
/// [`DatabaseError`]. It takes this request's probe result alone, so the
/// answer cannot depend on any earlier request.
pub fn health_check_db(probe: Result<(), DatabaseError>) -> (status: u16)
    ensures
        status == spec_db_status(probe),
        probe is Ok <==> status == 200,
        probe is Err <==> status == 500,
{
    match probe {
        Ok(_) => 200,
        Err(_) => 500,
    }
}

/// Concurrent readiness requests are independent: each request's status is a
/// function of its own probe outcome alone, so when two probes — in whatever
/// order, or interleaved — both reach the store, both requests answer 200,
/// and a probe that fails turns only its own request's answer to 500.
pub proof fn lemma_probes_independent(first: ProbeOutcome, second: ProbeOutcome)
    ensures
        first is Reached && second is Reached ==> spec_db_status(spec_probe_result(first))
            == 200 && spec_db_status(spec_probe_result(second)) == 200,
        spec_db_status(spec_probe_result(first)) == 500 <==> first is Unreached,
        spec_db_status(spec_probe_result(second)) == 500 <==> second is Unreached,
{
}

/// Liveness is independent of readiness: whatever one probe of the store
/// returned — even a failure that turns the readiness answer to 500 — the
/// liveness endpoint's answer stays 200.
pub proof fn lemma_liveness_unaffected_by_store(probe: Result<(), DatabaseError>)
    ensures
        spec_liveness_status() == 200,
        spec_db_status(probe) == 500 ==> spec_liveness_status() == 200,
{
}

} // verus!
