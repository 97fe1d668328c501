//! The stored configuration a request is built from, and validation of the
//! values a user supplies when setting it up.

use vstd::prelude::*;
use vstd::string::StringExecFns;
use crate::text::str_is_empty;

verus! {

/// The persisted configuration: the service's base URL and the bearer token.
pub struct Data {
    pub host: String,
    pub credentials: String,
}

/// Why a configuration input was rejected.
#[derive(Clone, Copy, Debug, PartialEq, Eq, Structural)]
pub enum ConfigError {
    InvalidHost,
    MissingToken,
}

/// Whether `url::Url::parse` accepts a string as an absolute URL. A fixed
/// function of the characters alone.
pub uninterp spec fn is_parseable_url(s: Seq<char>) -> bool;

/// Relies on url::Url::parse: deterministic syntax check of an absolute URL.
#[verifier::external_body]
fn url_parses(s: &str) -> (r: bool)
    ensures
        r == is_parseable_url(s@),
{
    url::Url::parse(s).is_ok()
}

/// The host offered when the user leaves the prompt blank.
pub open spec fn default_host() -> Seq<char> {
    "http://localhost:8000/api/v1"@
}

/// Validates the host and token a user supplied for the setup operation:
/// a blank host falls back to the default, a non-blank host must parse as a
/// URL, and the token must be non-empty.
pub fn validate_config_input(host_input: &str, token_input: &str) -> (r: Result<Data, ConfigError>)
    ensures
        r == Err::<Data, ConfigError>(ConfigError::InvalidHost) <==> host_input@.len() > 0
            && !is_parseable_url(host_input@),
        r == Err::<Data, ConfigError>(ConfigError::MissingToken) <==> (host_input@.len() == 0
            || is_parseable_url(host_input@)) && token_input@.len() == 0,
        r matches Ok(d) ==> d.credentials@ == token_input@ && d.host@ == (if host_input@.len()
            == 0 {
            default_host()
        } else {
            host_input@
        }),
{
    if !str_is_empty(host_input) && !url_parses(host_input) {
        return Err(ConfigError::InvalidHost);
    }
    if str_is_empty(token_input) {
        return Err(ConfigError::MissingToken);
    }
    let host = if str_is_empty(host_input) {
        String::from_str("http://localhost:8000/api/v1")
    } else {
        String::from_str(host_input)
    };
    Ok(Data { host, credentials: String::from_str(token_input) })
}

} // verus!
