use vstd::prelude::*;

verus! {

/// Every failure of the credential-refresh subsystem, returned to the
/// immediate caller as a typed result; no retry happens inside the library.
#[derive(Debug)]
pub enum OAuthError {
    /// The environment does not designate a credential file.
    MissingCredentials,
    /// The credential file could not be read.
    LoadCredentials(String),
    /// The credential file does not deserialize into an identity.
    ParseCredentials(String),
    /// The identity's private key is not in a recognized format.
    InvalidKeyFormat,
    /// The private key was rejected when signing an assertion.
    InvalidRsaKey,
    /// The outbound exchange request could not be constructed.
    HttpError(String),
    /// The transport failed to execute the exchange (network-level).
    RequestToken(String),
    /// The server explicitly refused the exchange, with the status it sent.
    RetrieveCredentials(u16),
    /// The exchange succeeded but its body does not hold a token.
    ParseToken(String),
    /// An unrecognized failure, preserving the underlying message.
    Unknown(String),
}

} // verus!
