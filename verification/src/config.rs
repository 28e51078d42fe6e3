//! Configuration records for the batch publisher.
//!
//! The configuration is loaded once, outside the library, and handed in as
//! plain values; every run owns exactly one `Config` for its lifetime.

use vstd::prelude::*;

verus! {

/// Root configuration record: everything lives under the broker section.
#[derive(Clone, Debug)]
pub struct Config {
    pub pulsar: PulsarConfig,
}

/// Broker connection and run parameters.
#[derive(Clone, Debug)]
pub struct PulsarConfig {
    pub hostname: String,
    pub port: u16,
    pub tenant: String,
    pub namespace: String,
    pub topic: String,
    pub token: Option<String>,
    pub oauth: Option<OAuth>,
    /// File to read messages from to send
    pub filename: String,
}

/// OAuth2 client-credentials descriptor.
#[derive(Clone, Debug)]
pub struct OAuth {
    pub client_id: String,
    pub client_secret: String,
    pub client_email: String,
    pub issuer_url: String,
    pub audience: String,
}

} // verus!
