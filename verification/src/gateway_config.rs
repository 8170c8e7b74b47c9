//! Startup configuration of the REST gateway: the event-broker host, the
//! address of the RPC backend it forwards to, and the log level.
use vstd::prelude::*;

verus! {

/// Event-broker connection parameters.
pub struct Kafka {
    pub host: String,
}

/// Address of the RPC backend.
pub struct Grpc {
    pub url: String,
}

/// Log-level selection.
pub struct Logger {
    log: String,
}

impl Logger {
    /// Wraps the level name.
    pub fn new(log: String) -> (r: Logger)
        ensures
            r.spec_level() == log@,
    {
        Logger { log }
    }

    /// The configured level name.
    pub closed spec fn spec_level(&self) -> Seq<char> {
        self.log@
    }

    /// Reads the level name.
    pub fn level(&self) -> (r: &String)
        ensures
            r@ == self.spec_level(),
    {
        &self.log
    }
}

/// The gateway's whole configuration.
pub struct PostGatewayAppConfig {
    pub logger: Logger,
    pub grpc: Grpc,
    pub kafka: Kafka,
}

impl PostGatewayAppConfig {
    /// Whether every connection target is present. A process must not start
    /// on an incomplete configuration.
    pub fn validate(&self) -> (r: bool)
        ensures
            r == (self.grpc.url@.len() > 0 && self.kafka.host@.len() > 0),
    {
        !self.grpc.url.as_str().is_empty() && !self.kafka.host.as_str().is_empty()
    }
}

} // verus!
