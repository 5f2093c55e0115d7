use vstd::prelude::*;

verus! {

/// Declarative settings for reaching the backing relational store.
///
/// An immutable value created once at process start; it is consumed by the
/// connection adapter and never validated here: a malformed value only
/// surfaces an error when a connection is first attempted.
pub struct DatabaseConfig {
    pub host: String,
    pub port: u16,
    pub username: String,
    pub password: String,
    pub database: String,
}

impl DatabaseConfig {
    pub fn new(
        host: String,
        port: u16,
        username: String,
        password: String,
        database: String,
    ) -> (cfg: DatabaseConfig)
        ensures
            cfg.host@ == host@,
            cfg.port == port,
            cfg.username@ == username@,
            cfg.password@ == password@,
            cfg.database@ == database@,
    {
        DatabaseConfig { host, port, username, password, database }
    }
}

} // verus!
