//! Verified core of a token-based authentication subsystem: a signed-token
//! codec with fixed validity windows, a durable refresh-token store, a
//! single-slot access-token cache, the login/refresh orchestration over them,
//! and the cross-service identity verifier that consults the cache.

pub mod byteseq;
pub mod cache;
pub mod codec;
pub mod config;
pub mod errors;
pub mod gateway_config;
pub mod identity;
pub mod logmask;
pub mod password;
pub mod post_config;
pub mod service;
pub mod store;
pub mod types;
pub mod wire;
