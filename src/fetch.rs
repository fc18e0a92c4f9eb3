use vstd::prelude::*;
use crate::provider::Provider;

verus! {

/// Why a fetch produced no weather record.
#[derive(Clone, Debug, PartialEq, Eq)]
pub enum FetchError {
    /// The request never got an answer: transport, DNS or TLS failure.
    NetworkError(String),
    /// The provider answered with a status outside `200..=299`.
    HttpStatusError(u16),
    /// The body was not a record of the provider's schema.
    DecodeError(String),
}

/// Why the widget cannot start.
#[derive(Clone, Copy, Debug, PartialEq, Eq, Structural)]
pub enum ConfigError {
    /// No API key was configured.
    MissingConfiguration,
}

pub open spec fn is_success_status(status: u16) -> bool {
    200 <= status <= 299
}

/// Accepts a 2xx response and turns any other status into `HttpStatusError`.
pub fn check_status(status: u16) -> (r: Result<(), FetchError>)
    ensures
        is_success_status(status) <==> r is Ok,
        !is_success_status(status) ==> r == Err::<(), FetchError>(FetchError::HttpStatusError(status)),
{
    if 200 <= status && status <= 299 {
        Ok(())
    } else {
        Err(FetchError::HttpStatusError(status))
    }
}

/// A provider together with the API key that every request carries.
#[derive(Clone, Debug, PartialEq, Eq)]
pub struct FetchClient {
    provider: Provider,
    api_key: String,
}

impl FetchClient {
    pub closed spec fn provider_spec(&self) -> Provider {
        self.provider
    }

    pub closed spec fn key_spec(&self) -> Seq<char> {
        self.api_key@
    }

    /// The URL of the one request made for the place named `query`.
    pub open spec fn url_spec(&self, query: Seq<char>) -> Seq<char> {
        self.provider_spec().url_spec(query, self.key_spec())
    }

    /// A client for `provider`, if an API key was configured. A missing or
    /// empty key is `MissingConfiguration`.
    pub fn new(provider: Provider, api_key: Option<String>) -> (r: Result<FetchClient, ConfigError>)
        ensures
            match api_key {
                Some(k) => k@.len() > 0 ==> (r matches Ok(c) && c.provider_spec() == provider
                    && c.key_spec() == k@),
                None => true,
            },
            (api_key is None || api_key->0@.len() == 0) ==> r == Err::<FetchClient, ConfigError>(
                ConfigError::MissingConfiguration,
            ),
    {
        match api_key {
            Some(k) => {
                if k.as_str().is_empty() {
                    Err(ConfigError::MissingConfiguration)
                } else {
                    Ok(FetchClient { provider, api_key: k })
                }
            },
            None => Err(ConfigError::MissingConfiguration),
        }
    }

    pub fn provider(&self) -> (r: &Provider)
        ensures
            *r == self.provider_spec(),
    {
        &self.provider
    }

    /// The request URL for the place named `query`.
    pub fn url_for(&self, query: &str) -> (r: String)
        ensures
            r@ == self.url_spec(query@),
    {
        self.provider.request_url(query, self.api_key.as_str())
    }
}

} // verus!
