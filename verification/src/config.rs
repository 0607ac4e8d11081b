//! Startup configuration: the bot cannot run without an authentication token.

use vstd::prelude::*;

verus! {

/// Why startup configuration was rejected.
pub enum ConfigError {
    /// No authentication token was supplied.
    MissingToken,
}

/// Text reported when the token is absent.
pub open spec fn missing_token_text() -> Seq<char> {
    "BOT_TOKEN not found in environment variables"@
}

impl ConfigError {
    /// A human-readable description of the error.
    pub fn message(&self) -> (r: String)
        ensures
            self is MissingToken ==> r@ == missing_token_text(),
    {
        match self {
            ConfigError::MissingToken => "BOT_TOKEN not found in environment variables".to_owned(),
        }
    }
}

/// Accepts the authentication token exactly when one was supplied; a missing
/// token is a fatal startup condition, reported so that the caller can stop
/// before any network activity.
pub fn require_token(token: Option<String>) -> (r: Result<String, ConfigError>)
    ensures
        token is Some <==> r is Ok,
        token matches Some(t) ==> (r matches Ok(v) && v@ == t@),
        token is None ==> (r matches Err(e) && e is MissingToken),
{
    match token {
        Some(t) => Ok(t),
        None => Err(ConfigError::MissingToken),
    }
}

} // verus!
