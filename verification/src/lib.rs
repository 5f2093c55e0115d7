//! A minimal health-reporting service core: a configuration-to-pool adapter,
//! a composition root handing out shared repository capabilities, and the
//! status logic behind a liveness and a readiness endpoint.

use vstd::prelude::*;

mod config;
mod database;
mod http;
mod registry;
mod repository;

pub use config::DatabaseConfig;
pub use database::ConnectOptions;
pub use database::ConnectionPool;
pub use database::PoolHandle;
pub use database::connect_database_with;
pub use database::make_pg_connect_options;
pub use database::options_match;
pub use http::health_check;
pub use http::health_check_db;
pub use http::lemma_liveness_unaffected_by_store;
pub use http::lemma_probes_independent;
pub use http::spec_db_status;
pub use http::spec_liveness_status;
pub use registry::AppRegistry;
pub use repository::DatabaseError;
pub use repository::HealthCheckRepository;
pub use repository::HealthCheckRepositoryImpl;
pub use repository::ProbeOutcome;
pub use repository::probe_statement;
pub use repository::spec_probe_result;

