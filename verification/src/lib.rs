//! Credential and endpoint configuration for a brokerage REST API client.
//!
//! The crate resolves which base URL the client speaks to (a sandbox
//! endpoint by default) and holds the access token in a wrapper that
//! resists accidental disclosure through debug printing or logging.

pub mod secret;
pub mod tradier;
