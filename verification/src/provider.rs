//! The bindings to the outside crates that the token flow calls: credential
//! deserialization, key validation and request signing through the OAuth
//! provider library, and the exchange-body parse through the JSON library.
//! Each item here is trusted; its contract states what the outside code
//! does and Verus believes it. No call here consults hidden mutable state:
//! the signing handle is built fresh for each call, so the provider's
//! internal token cache stays empty and its time conversions (which panic
//! on out-of-range instants) are never reached.

use vstd::prelude::*;

use crate::identity::IdentityDescriptor;
use crate::signer::PendingExchange;
use tame_oauth::gcp::{ServiceAccountAccess, ServiceAccountInfo, TokenOrRequest};

verus! {

#[verifier::external_type_specification]
#[verifier::external_body]
#[verifier::reject_recursive_types(T)]
pub struct ExRequest<T>(http::Request<T>);

/// What deserializing the credential file yields: the private key, the
/// principal identifier and the token endpoint, or nothing when the data
/// does not parse. A function of the file contents alone.
pub uninterp spec fn parsed_identity(data: Seq<char>) -> Option<(Seq<char>, Seq<char>, Seq<char>)>;

/// Whether the provider accepts a private key's format (its PEM framing and
/// base64 body). A function of the key text alone.
pub uninterp spec fn key_accepted(private_key: Seq<char>) -> bool;

/// Whether the cryptography library loads the decoded key as an RSA signing
/// key. A function of the key text alone.
pub uninterp spec fn key_signable(private_key: Seq<char>) -> bool;

/// Whether the request builder accepts the token endpoint text as a URI.
/// A function of the text alone.
pub uninterp spec fn uri_ok(uri: Seq<char>) -> bool;

/// The correlation token (scope hash) the provider derives for a scope set:
/// a deterministic digest of the joined scopes.
pub uninterp spec fn scope_hash_of(scopes: Seq<Seq<char>>) -> u64;

/// What the exchange-response body parses to: the access token and the
/// validity duration in seconds, or nothing when the body does not hold a
/// token grant. A function of the body bytes alone.
pub uninterp spec fn parsed_token(body: Seq<u8>) -> Option<(Seq<char>, i64)>;

/// Construction of the exchange request failed.
pub enum SignFailure {
    /// The request builder refused the request.
    Http(String),
    /// The signing key was rejected by the cryptography library.
    InvalidRsaKey,
    /// Any other failure, with its message.
    Other(String),
}

/// Relies on tame_oauth::gcp::ServiceAccountInfo::deserialize: a JSON parse
/// of the credential data, deciding and yielding the identity fields as a
/// function of the data alone; its error carries the parse diagnostic.
#[verifier::external_body]
pub(crate) fn deserialize_identity(data: &str) -> (r: Result<IdentityDescriptor, String>)
    ensures
        r is Ok <==> parsed_identity(data@) is Some,
        r matches Ok(id) ==> parsed_identity(data@) == Some(
            (id.private_key@, id.client_email@, id.token_uri@),
        ),
{
    match ServiceAccountInfo::deserialize(data) {
        Ok(info) => Ok(IdentityDescriptor {
            private_key: info.private_key,
            client_email: info.client_email,
            token_uri: info.token_uri,
        }),
        Err(e) => Err(format!("{}", e)),
    }
}

/// Relies on tame_oauth::gcp::ServiceAccountAccess::new: it accepts or
/// refuses the private key's format (PEM framing and base64 body) as a
/// function of the key text alone, and otherwise only stores the identity.
#[verifier::external_body]
pub(crate) fn validate_key(identity: &IdentityDescriptor) -> (r: bool)
    ensures
        r == key_accepted(identity.private_key@),
{
    let info = ServiceAccountInfo {
        private_key: identity.private_key.clone(),
        client_email: identity.client_email.clone(),
        token_uri: identity.token_uri.clone(),
    };
    ServiceAccountAccess::new(info).is_ok()
}

/// Relies on tame_oauth::gcp::ServiceAccountAccess::new and get_token,
/// called on a handle built fresh for this signing. With the provider's
/// internal cache empty, get_token consults no held token (so no expiry
/// conversion runs) and signs an exchange request whose correlation token
/// is the deterministic hash of the scopes. Its header and claim
/// serializations cannot fail, so an accepted key the cryptography library
/// cannot load is reported exactly as the signing-key error, and a
/// request-builder error can arise only of the token endpoint text.
#[verifier::external_body]
pub(crate) fn sign_token_request(identity: &IdentityDescriptor, scopes: &Vec<String>) -> (r: Result<
    PendingExchange,
    SignFailure,
>)
    ensures
        r matches Ok(p) ==> p.correlation == scope_hash_of(scopes.deep_view()),
        !key_accepted(identity.private_key@) ==> r is Err,
        (key_accepted(identity.private_key@) && !key_signable(identity.private_key@))
            ==> r matches Err(SignFailure::InvalidRsaKey),
        r matches Err(SignFailure::Http(_)) ==> !uri_ok(identity.token_uri@),
{
    let (private_key, client_email) = (identity.private_key.clone(), identity.client_email.clone());
    let info = ServiceAccountInfo { private_key, client_email, token_uri: identity.token_uri.clone() };
    let access = ServiceAccountAccess::new(info).map_err(|e| SignFailure::Other(format!("{}", e)))?;
    match access.get_token(scopes.iter()) {
        Ok(TokenOrRequest::Request { request, scope_hash, .. }) => Ok(PendingExchange {
            request,
            correlation: scope_hash,
        }),
        Ok(TokenOrRequest::Token(_)) => Err(SignFailure::Other("held token on a fresh handle".to_owned())),
        Err(tame_oauth::Error::Http(e)) => Err(SignFailure::Http(format!("{}", e))),
        Err(tame_oauth::Error::InvalidRsaKey) => Err(SignFailure::InvalidRsaKey),
        Err(e) => Err(SignFailure::Other(format!("{}", e))),
    }
}

/// Relies on serde_json: whether the body parses as a token grant, and the
/// grant's access token and validity duration, are functions of the bytes
/// alone. The fields read are the token schema's: `access_token` and
/// `token_type` as strings, `expires_in` as an integer number of seconds.
#[verifier::external_body]
pub(crate) fn parse_exchange_body(body: &Vec<u8>) -> (r: Option<(String, i64)>)
    ensures
        match r {
            Some(g) => parsed_token(body@) == Some((g.0@, g.1)),
            None => parsed_token(body@) is None,
        },
{
    let value: serde_json::Value = serde_json::from_slice(body).ok()?;
    let access_token = value.get("access_token")?.as_str()?.to_owned();
    value.get("token_type")?.as_str()?;
    let expires_in = value.get("expires_in")?.as_i64()?;
    Some((access_token, expires_in))
}

} // verus!
