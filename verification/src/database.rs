use vstd::prelude::*;

use crate::config::DatabaseConfig;

verus! {

/// A handle to one driver-level pool of database connections.
///
/// Holds sqlx's `PgPool`, a shared set of pooled connections whose type Verus
/// cannot declare (its `Database` bound cannot be stated here), so the whole
/// handle is opaque. The field is public so that the transport layer can run
/// queries against the driver pool; the verified logic never looks inside.
#[verifier::external_body]
pub struct PoolHandle {
    pub pg: sqlx::PgPool,
}

/// Relies on sqlx's `Clone` for `Pool`: the clone is a new handle tied to the
/// same shared connection pool, not a second pool.
#[verifier::external_body]
fn share_pool(h: &PoolHandle) -> (r: PoolHandle)
    ensures
        r == *h,
{
    PoolHandle { pg: h.pg.clone() }
}

/// The connection settings of a pool, as plain values: what the adapter
/// carries from a [`DatabaseConfig`] into the driver.
pub struct ConnectOptions {
    pub host: String,
    pub port: u16,
    pub username: String,
    pub password: String,
    pub database: String,
}

/// The settings `opts` are exactly those that `cfg` declares.
pub open spec fn options_match(opts: ConnectOptions, cfg: DatabaseConfig) -> bool {
    &&& opts.host@ == cfg.host@
    &&& opts.port == cfg.port
    &&& opts.username@ == cfg.username@
    &&& opts.password@ == cfg.password@
    &&& opts.database@ == cfg.database@
}

/// Translate a [`DatabaseConfig`] into connection settings, field for field.
/// No validation happens here: a malformed value is rejected at
/// actual-connection time, not at construction time.
pub fn make_pg_connect_options(cfg: &DatabaseConfig) -> (opts: ConnectOptions)
    ensures
        options_match(opts, *cfg),
{
    ConnectOptions {
        host: cfg.host.clone(),
        port: cfg.port,
        username: cfg.username.clone(),
        password: cfg.password.clone(),
        database: cfg.database.clone(),
    }
}

/// Relies on sqlx's `PoolOptions::connect_lazy_with`: it builds a pool that
/// establishes connections only as needed, so the call performs no network
/// I/O and cannot fail; a misconfigured pool only surfaces an error when a
/// query is first issued. Lifetime and idle reaping are switched off so that
/// construction allocates bookkeeping and nothing else — with them on, the
/// driver would spawn a background task here. The body converts the plain
/// settings into the driver's option builders, field for field.
#[verifier::external_body]
fn pg_connect_lazy(opts: &ConnectOptions) -> (h: PoolHandle) {
    PoolHandle {
        pg: sqlx::postgres::PgPoolOptions::new()
            .max_lifetime(None::<std::time::Duration>)
            .idle_timeout(None::<std::time::Duration>)
            .connect_lazy_with(
                sqlx::postgres::PgConnectOptions::new()
                    .host(opts.host.as_str())
                    .port(opts.port)
                    .username(opts.username.as_str())
                    .password(opts.password.as_str())
                    .database(opts.database.as_str()),
            ),
    }
}

/// A shareable handle to one pooled set of database connections.
///
/// Every clone refers to the same underlying pool. The handle remembers, at
/// the specification level, the settings it was constructed from.
pub struct ConnectionPool {
    inner: PoolHandle,
    options: Ghost<ConnectOptions>,
}

impl ConnectionPool {
    /// The driver-level pool this handle wraps.
    pub closed spec fn spec_inner(&self) -> PoolHandle {
        self.inner
    }

    /// The settings the pool was constructed from.
    pub closed spec fn spec_options(&self) -> ConnectOptions {
        self.options@
    }

    /// The wrapped driver pool, for the transport layer to run queries on.
    pub fn inner_ref(&self) -> (r: &PoolHandle)
        ensures
            *r == self.spec_inner(),
    {
        &self.inner
    }
}

impl Clone for ConnectionPool {
    /// The clone is a second handle to the same pool, with the same settings.
    fn clone(&self) -> (r: Self)
        ensures
            r == *self,
    {
        ConnectionPool { inner: share_pool(&self.inner), options: self.options }
    }
}

/// Turn declarative settings into a lazily-initialized pool. Construction
/// never fails and never blocks: the first connection attempt is deferred
/// until a query is issued.
pub fn connect_database_with(cfg: &DatabaseConfig) -> (pool: ConnectionPool)
    ensures
        options_match(pool.spec_options(), *cfg),
{
    let opts = make_pg_connect_options(cfg);
    let inner = pg_connect_lazy(&opts);
    ConnectionPool { inner, options: Ghost(opts) }
}

} // verus!
