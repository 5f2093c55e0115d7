use vstd::prelude::*;

use std::sync::Arc;

use crate::database::ConnectionPool;
use crate::repository::HealthCheckRepositoryImpl;

verus! {

/// Relies on std's `Arc::clone`: the clone is another handle to the same
/// allocation, so it carries the same value.
#[verifier::external_body]
fn share_arc<T>(a: &Arc<T>) -> (r: Arc<T>)
    ensures
        r == *a,
{
    Arc::clone(a)
}

/// The composition root: constructs the concrete repository implementation
/// once, at process start, and hands out shared handles to it.
///
/// Immutable after construction. A clone shares the same underlying
/// capability instances; it does not re-resolve them.
pub struct AppRegistry {
    health_check_repository: Arc<HealthCheckRepositoryImpl>,
}

impl AppRegistry {
    /// The one repository instance the registry resolved at construction.
    pub closed spec fn spec_repository(&self) -> HealthCheckRepositoryImpl {
        *self.health_check_repository
    }

    /// Resolve every capability exactly once: construct the concrete
    /// repository bound to a clone of the given pool, and store one shared
    /// handle to it.
    pub fn new(pool: ConnectionPool) -> (registry: Self)
        ensures
            registry.spec_repository().spec_pool() == pool,
    {
        let health_check_repository = Arc::new(HealthCheckRepositoryImpl::new(pool.clone()));
        AppRegistry { health_check_repository }
    }

    /// A shared handle to the stored health-check repository.
    ///
    /// Every call returns a handle to the same underlying instance that
    /// [`AppRegistry::new`] constructed: a reference-count increment, never a
    /// re-resolution. So any two calls, however far apart, return handles to
    /// one repository, probing one pool.
    pub fn health_check_repository(&self) -> (r: Arc<HealthCheckRepositoryImpl>)
        ensures
            *r == self.spec_repository(),
    {
        share_arc(&self.health_check_repository)
    }
}

impl Clone for AppRegistry {
    /// The clone shares the same underlying capability instances.
    fn clone(&self) -> (r: Self)
        ensures
            r == *self,
    {
        AppRegistry { health_check_repository: share_arc(&self.health_check_repository) }
    }
}

} // verus!
