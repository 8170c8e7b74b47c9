//! Startup configuration of the auth service, as plain validated data. The
//! values are loaded outside the library; validation here is what decides
//! whether the process may start. The signing secret is handled separately by
//! the codec constructor, which refuses an empty one.
use vstd::prelude::*;

verus! {

/// Relational-store connection parameters.
pub struct Database {
    pub user: String,
    pub password: String,
    pub name: String,
    pub port: u64,
    pub host: String,
    pub url: String,
}

/// Listener parameters of the service itself.
pub struct Apps {
    port: u64,
}

impl Apps {
    /// Wraps the listener port.
    pub fn new(port: u64) -> (r: Apps)
        ensures
            r.spec_port() == port,
    {
        Apps { port }
    }

    /// The configured listener port.
    pub closed spec fn spec_port(&self) -> u64 {
        self.port
    }

    /// Reads the listener port.
    pub fn port(&self) -> (r: u64)
        ensures
            r == self.spec_port(),
    {
        self.port
    }
}

/// Cache-backend connection parameters.
pub struct Redis {
    pub host: String,
}

/// Message-broker connection parameters.
pub struct RabbitMq {
    pub url: String,
}

/// Log-level selection.
pub struct Logger {
    log: String,
}

impl Logger {
    /// Wraps the level name.
    pub fn new(log: String) -> (r: Logger)
        ensures
            r.spec_level() == log@,
    {
        Logger { log }
    }

    /// The configured level name.
    pub closed spec fn spec_level(&self) -> Seq<char> {
        self.log@
    }

    /// Reads the level name.
    pub fn level(&self) -> (r: &String)
        ensures
            r@ == self.spec_level(),
    {
        &self.log
    }
}

/// The auth service's whole configuration.
pub struct UserAppConfig {
    pub apps: Apps,
    pub database: Database,
    pub redis: Redis,
    pub rabbitmq: RabbitMq,
    pub logger: Logger,
}

impl UserAppConfig {
    /// Whether every connection target is present. A process must not start
    /// on an incomplete configuration.
    pub fn validate(&self) -> (r: bool)
        ensures
            r == (self.database.url@.len() > 0 && self.redis.host@.len() > 0
                && self.rabbitmq.url@.len() > 0),
    {
        !self.database.url.as_str().is_empty() && !self.redis.host.as_str().is_empty()
            && !self.rabbitmq.url.as_str().is_empty()
    }
}

} // verus!
