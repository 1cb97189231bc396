//! Endpoint and credential configuration for the Tradier REST API.
//!
//! A [`TradierRestApiConfig`] pairs the base URL the client will speak to
//! with the access token, held in a [`SecretToken`]. It is built either
//! from explicit parts ([`TradierRestApiConfig::new`]) or from the value
//! of the access-token environment variable
//! ([`TradierRestApiConfig::load_from_env`]).

use crate::secret::SecretToken;
use vstd::prelude::*;

verus! {

/// The base URL of the sandbox (non-production) API, used as the default
/// endpoint so that a credential is never pointed at a live trading
/// environment without an explicit override.
pub open spec fn default_endpoint_spec() -> Seq<char> {
    "https://sandbox.tradier.com/v1/"@
}

/// Returns the default (sandbox) base URL.
pub fn default_endpoint() -> (r: String)
    ensures
        r@ == default_endpoint_spec(),
{
    String::from_str("https://sandbox.tradier.com/v1/")
}

/// The name of the environment variable that holds the access token.
pub open spec fn access_token_var_spec() -> Seq<char> {
    "TRADIER_API_ACCESS_TOKEN"@
}

/// Returns the name of the environment variable that holds the access
/// token, for the caller that performs the lookup.
pub fn access_token_var() -> (r: String)
    ensures
        r@ == access_token_var_spec(),
{
    String::from_str("TRADIER_API_ACCESS_TOKEN")
}

/// A failure to build the configuration.
#[derive(Clone, Copy, Debug, PartialEq, Eq, Structural)]
pub enum ConfigError {
    /// The access-token variable is not set (or holds an empty value),
    /// so no credential is available.
    MissingCredential,
}

impl ConfigError {
    /// The description of this error. It names the missing variable and
    /// never echoes credential contents: it is one fixed text per variant.
    pub open spec fn message_spec(&self) -> Seq<char> {
        "missing environment variable TRADIER_API_ACCESS_TOKEN"@
    }

    /// Describes the error, naming the expected environment variable.
    pub fn message(&self) -> (m: String)
        ensures
            m@ == self.message_spec(),
    {
        String::from_str("missing environment variable TRADIER_API_ACCESS_TOKEN")
    }
}

/// Configuration for the Tradier REST API: the endpoint to speak to and
/// the access token, held in a secret handle.
#[derive(Debug)]
pub struct TradierRestApiConfig {
    /// The base URL that API requests are directed to.
    pub endpoint: String,
    /// The bearer credential, observable only through
    /// [`SecretToken::expose_secret`].
    pub access_token: SecretToken,
}

impl TradierRestApiConfig {
    /// A configuration is well formed when both its endpoint and its
    /// token are non-empty; construction establishes this.
    pub open spec fn wf(&self) -> bool {
        self.endpoint@.len() > 0 && self.access_token@.len() > 0
    }

    /// Creates a configuration from explicit parts, for callers that do
    /// not read the environment. The parts are taken as given: the
    /// endpoint undergoes no validation beyond non-emptiness.
    pub fn new(endpoint: String, access_token: SecretToken) -> (r: Self)
        requires
            endpoint@.len() > 0,
            access_token@.len() > 0,
        ensures
            r.endpoint@ == endpoint@,
            r.access_token == access_token,
            r.wf(),
    {
        TradierRestApiConfig { endpoint, access_token }
    }

    /// Builds the configuration from the value of the access-token
    /// variable, as the caller looked it up in the process environment
    /// (after merging a `.env`-style developer file, if it keeps one).
    ///
    /// With a non-empty value the result pairs the wrapped token with the
    /// default sandbox endpoint. With the variable unset — or set to an
    /// empty value, which cannot satisfy the credential invariant — it
    /// fails with [`ConfigError::MissingCredential`] and no configuration
    /// is produced.
    pub fn load_from_env(token_lookup: Option<String>) -> (r: Result<Self, ConfigError>)
        ensures
            match r {
                Ok(c) => {
                    &&& token_lookup is Some
                    &&& token_lookup->0@.len() > 0
                    &&& c.endpoint@ == default_endpoint_spec()
                    &&& c.access_token@ == token_lookup->0@
                    &&& c.wf()
                },
                Err(e) => {
                    &&& token_lookup is None || token_lookup->0@.len() == 0
                    &&& e == ConfigError::MissingCredential
                },
            },
    {
        match token_lookup {
            None => Err(ConfigError::MissingCredential),
            Some(token) => {
                if token.as_str().is_empty() {
                    Err(ConfigError::MissingCredential)
                } else {
                    proof {
                        reveal_strlit("https://sandbox.tradier.com/v1/");
                    }
                    Ok(Self::new(default_endpoint(), SecretToken::wrap(token)))
                }
            },
        }
    }

    /// Replaces the endpoint, e.g. to leave the default sandbox for the
    /// production environment. The change is immediate and the stored
    /// credential is untouched.
    pub fn set_endpoint(&mut self, endpoint: String)
        requires
            endpoint@.len() > 0,
            old(self).wf(),
        ensures
            final(self).endpoint@ == endpoint@,
            final(self).access_token == old(self).access_token,
            final(self).wf(),
    {
        self.endpoint = endpoint;
    }
}

} // verus!
