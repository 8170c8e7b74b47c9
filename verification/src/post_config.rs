//! Startup configuration of the content service: store and cache connection
//! parameters with their pool bounds, the listener address, and the log
//! level. The pool bounds are ordered; a configuration that asks for a
//! minimum above the maximum must not start.
use vstd::prelude::*;

verus! {

/// Relational-store connection parameters with pool sizing.
pub struct Database {
    pub user: String,
    pub password: String,
    pub name: String,
    pub port: u64,
    pub host: String,
    pub url: String,
    pub min_pool_connection: u32,
    pub max_pool_connection: u32,
}

/// Listener address of the service.
pub struct Apps {
    pub address: String,
}

/// Cache-backend connection parameters with pool sizing.
pub struct Redis {
    pub host: String,
    pub min_pool_connection: u32,
    pub max_pool_connection: u32,
}

/// Log-level selection.
pub struct Logger {
    log: String,
}

impl Logger {
    /// Wraps the level name.
    pub fn new(log: String) -> (r: Logger)
        ensures
            r.spec_level() == log@,
    {
        Logger { log }
    }

    /// The configured level name.
    pub closed spec fn spec_level(&self) -> Seq<char> {
        self.log@
    }

    /// Reads the level name.
    pub fn level(&self) -> (r: &String)
        ensures
            r@ == self.spec_level(),
    {
        &self.log
    }
}

/// The content service's whole configuration.
pub struct PostAppConfig {
    pub apps: Apps,
    pub database: Database,
    pub redis: Redis,
    pub logger: Logger,
}

impl PostAppConfig {
    /// Whether every connection target is present and both pools are sized
    /// consistently. A process must not start otherwise.
    pub fn validate(&self) -> (r: bool)
        ensures
            r == (self.database.url@.len() > 0 && self.redis.host@.len() > 0
                && self.apps.address@.len() > 0 && self.database.min_pool_connection
                <= self.database.max_pool_connection && self.redis.min_pool_connection
                <= self.redis.max_pool_connection),
    {
        !self.database.url.as_str().is_empty() && !self.redis.host.as_str().is_empty()
            && !self.apps.address.as_str().is_empty() && self.database.min_pool_connection
            <= self.database.max_pool_connection && self.redis.min_pool_connection
            <= self.redis.max_pool_connection
    }
}

} // verus!
