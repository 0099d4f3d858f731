//! The credentials the fetch routines need, loaded once at startup and
//! passed in explicitly. An absent credential is a configuration error at
//! the moment a fetch that needs it is planned -- never a crash deep inside
//! a request handler.

use vstd::prelude::*;

use crate::errors::FetchError;

verus! {

/// The credentials read from the process environment at startup. `None`
/// records that the variable was absent; the error is raised only when a
/// fetch actually needs the credential.
pub struct Config {
    /// The bearer token for the social-timeline provider.
    pub timeline_bearer: Option<String>,
    /// The API key for the quote provider.
    pub quote_api_key: Option<String>,
}

/// The bearer token for a timeline fetch, or the configuration error when
/// it was never supplied.
pub fn timeline_credential(config: &Config) -> (r: Result<String, FetchError>)
    ensures
        config.timeline_bearer matches Some(b) ==> (r matches Ok(c) && c@ == b@),
        config.timeline_bearer is None ==> r == Err::<String, FetchError>(
            FetchError::Configuration,
        ),
{
    match &config.timeline_bearer {
        Some(b) => Ok(b.clone()),
        None => Err(FetchError::Configuration),
    }
}

/// The API key for a quote fetch, or the configuration error when it was
/// never supplied.
pub fn quote_credential(config: &Config) -> (r: Result<String, FetchError>)
    ensures
        config.quote_api_key matches Some(k) ==> (r matches Ok(c) && c@ == k@),
        config.quote_api_key is None ==> r == Err::<String, FetchError>(
            FetchError::Configuration,
        ),
{
    match &config.quote_api_key {
        Some(k) => Ok(k.clone()),
        None => Err(FetchError::Configuration),
    }
}

} // verus!
