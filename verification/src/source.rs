use vstd::prelude::*;

use crate::errors::OAuthError;

verus! {

/// The designated environment variable naming the credential file's path.
pub const CREDENTIALS_ENV_VAR: &'static str = "GOOGLE_APPLICATION_CREDENTIALS";

/// The credential source's first decision: an absent path designation is a
/// configuration error, not a silent fallback; a present one is taken
/// verbatim as the file path to read.
pub fn credentials_path(env_value: Option<String>) -> (r: Result<String, OAuthError>)
    ensures
        match env_value {
            Some(p) => r matches Ok(q) && q@ == p@,
            None => r matches Err(OAuthError::MissingCredentials),
        },
{
    match env_value {
        Some(p) => Ok(p),
        None => Err(OAuthError::MissingCredentials),
    }
}

} // verus!
