use vstd::prelude::*;

use crate::errors::OAuthError;
use crate::identity::{IdentityDescriptor, IdentityView};
use crate::provider::{
    deserialize_identity, key_accepted, key_signable, parse_exchange_body, parsed_identity,
    parsed_token, scope_hash_of, sign_token_request, uri_ok, validate_key, SignFailure,
};
use crate::scopes::{effective_scopes, effective_scopes_spec, opt_view};
use crate::token::{Token, TokenView};
use std::collections::HashMap;

verus! {

broadcast use vstd::std_specs::hash::group_hash_axioms;

/// An immutable, fully formed outbound exchange request, plus the opaque
/// correlation token that ties the raw response back to the scope set the
/// request was signed for. Created by the signer, consumed within one
/// request cycle, never persisted.
pub struct PendingExchange {
    /// The signed request the caller's transport executes.
    pub request: http::Request<Vec<u8>>,
    /// The correlation token (scope hash), threaded unchanged through the
    /// exchange and handed back to `finalize`.
    pub correlation: u64,
}

/// The two-variant outcome of a token request: an unexpired token already
/// held, or a signed exchange request for the caller to execute.
pub enum TokenDecision {
    /// An unexpired token for this scope set, returned with no side effect.
    Cached(Token),
    /// No valid cached token; execute this exchange and feed the raw
    /// response to `finalize`.
    Pending(PendingExchange),
}

/// The transport-level exchange response the signer's parser consumes:
/// the HTTP status and the body bytes.
pub struct RawResponse {
    /// The response status code.
    pub status: u16,
    /// The response body.
    pub body: Vec<u8>,
}

impl RawResponse {
    /// A transport-level response carries a real HTTP status code; nothing
    /// else can come off the wire.
    pub open spec fn wf(&self) -> bool {
        100 <= self.status < 600
    }

    /// Whether the status is a success status.
    pub open spec fn is_success(&self) -> bool {
        200 <= self.status < 300
    }
}

/// A freshly exchanged grant can be turned into a token that is valid at
/// `now`: a non-empty credential, a strictly positive validity duration,
/// and an absolute expiry instant that stays in range.
pub open spec fn usable_grant(grant: (Seq<char>, i64), now: i64) -> bool {
    &&& grant.0.len() > 0
    &&& grant.1 > 0
    &&& now + grant.1 <= i64::MAX
}

/// Mathematical model of a signer: its identity, its effective scope set,
/// the cache of finalized tokens keyed by correlation token, and the
/// correlation token of the most recent finalized exchange.
pub ghost struct SignerView {
    pub identity: IdentityView,
    pub scopes: Seq<Seq<char>>,
    pub cache: Map<u64, TokenView>,
    pub correlation: Option<u64>,
}

impl SignerView {
    /// The cached token for the active correlation token, if any exchange
    /// has been finalized.
    pub open spec fn current_token(self) -> Option<TokenView> {
        match self.correlation {
            Some(c) => if self.cache.contains_key(c) {
                Some(self.cache[c])
            } else {
                None
            },
            None => None,
        }
    }

    /// Whether the cache can answer a token request at `now` directly.
    pub open spec fn has_valid(self, now: i64) -> bool {
        match self.current_token() {
            Some(t) => t.valid_at(now),
            None => false,
        }
    }
}

/// Holds the parsed identity plus the requested permission scopes; answers
/// each token request from its cache when the cached token is still valid,
/// and otherwise produces a signed exchange request whose finalized
/// response refills the cache. The cache here is the only one: each signing
/// runs against a fresh provider handle, so no token ever sits in hidden
/// provider state.
pub struct Signer {
    identity: IdentityDescriptor,
    scopes: Vec<String>,
    cache: HashMap<u64, Token>,
    correlation: Option<u64>,
}

impl View for Signer {
    type V = SignerView;

    closed spec fn view(&self) -> SignerView {
        SignerView {
            identity: self.identity@,
            scopes: self.scopes.deep_view(),
            cache: self.cache@.map_values(|t: Token| t@),
            correlation: self.correlation,
        }
    }
}

impl Signer {
    /// Builds a signer from a parsed identity, validating the key format
    /// up front so a bad key never surfaces mid-request, and applying the
    /// default scope policy when no scopes are supplied.
    pub fn from_identity(identity: IdentityDescriptor, scopes: Option<&String>) -> (r: Result<
        Signer,
        OAuthError,
    >)
        ensures
            !key_accepted(identity.private_key@) <==> r matches Err(OAuthError::InvalidKeyFormat),
            key_accepted(identity.private_key@) ==> (r matches Ok(s) && s@.identity == identity@
                && s@.scopes == effective_scopes_spec(opt_view(scopes)) && s@.cache == Map::<
                u64,
                TokenView,
            >::empty() && s@.correlation is None),
    {
        if !validate_key(&identity) {
            return Err(OAuthError::InvalidKeyFormat);
        }
        let scope_list = effective_scopes(scopes);
        let signer = Signer {
            identity,
            scopes: scope_list,
            cache: HashMap::new(),
            correlation: None,
        };
        proof {
            assert(signer@.cache =~= Map::<u64, TokenView>::empty());
        }
        Ok(signer)
    }

    /// Builds a signer straight from the credential file contents: parses
    /// the identity, then validates the key as `from_identity` does.
    pub fn from_credentials(data: &str, scopes: Option<&String>) -> (r: Result<Signer, OAuthError>)
        ensures
            match parsed_identity(data@) {
                Some(id) => if key_accepted(id.0) {
                    r matches Ok(s) && s@.identity.private_key == id.0
                        && s@.identity.client_email == id.1 && s@.identity.token_uri == id.2
                        && s@.scopes == effective_scopes_spec(opt_view(scopes)) && s@.cache
                        == Map::<u64, TokenView>::empty() && s@.correlation is None
                } else {
                    r matches Err(OAuthError::InvalidKeyFormat)
                },
                None => r matches Err(OAuthError::ParseCredentials(_)),
            },
            r matches Err(OAuthError::ParseCredentials(_)) ==> parsed_identity(data@) is None,
    {
        let identity = match deserialize_identity(data) {
            Ok(id) => id,
            Err(msg) => {
                return Err(OAuthError::ParseCredentials(msg));
            },
        };
        Signer::from_identity(identity, scopes)
    }

    /// The token finalized for `correlation`, if one is cached.
    pub fn cached_token(&self, correlation: u64) -> (r: Option<&Token>)
        ensures
            match r {
                Some(t) => self@.cache.contains_key(correlation) && self@.cache[correlation]
                    == t@,
                None => !self@.cache.contains_key(correlation),
            },
    {
        self.cache.get(&correlation)
    }

    /// The effective scope set, in order, verbatim.
    pub fn scopes(&self) -> (r: &Vec<String>)
        ensures
            r.deep_view() == self@.scopes,
    {
        &self.scopes
    }

    /// Inspects the cache: returns the cached token when it is still valid
    /// at `now` (no side effect), and otherwise signs an exchange request
    /// for the effective scope set against a fresh provider handle. Never
    /// returns an expired token. A key whose format passed construction but
    /// which the cryptography library cannot load fails here as the
    /// signing-key error, and a request-builder failure can arise only of
    /// the token endpoint text.
    pub fn get_token(&self, now: i64) -> (r: Result<TokenDecision, OAuthError>)
        ensures
            self@.has_valid(now) ==> (r matches Ok(TokenDecision::Cached(t)) && Some(t@)
                == self@.current_token()),
            r matches Ok(TokenDecision::Cached(t)) ==> t@.valid_at(now),
            r matches Ok(TokenDecision::Pending(p)) ==> !self@.has_valid(now) && p.correlation
                == scope_hash_of(self@.scopes),
            r matches Err(e) ==> !self@.has_valid(now) && (e matches OAuthError::HttpError(_)
                || e matches OAuthError::InvalidRsaKey || e matches OAuthError::Unknown(_)),
            (!self@.has_valid(now) && key_accepted(self@.identity.private_key) && !key_signable(
                self@.identity.private_key,
            )) ==> r matches Err(OAuthError::InvalidRsaKey),
            r matches Err(OAuthError::HttpError(_)) ==> !uri_ok(self@.identity.token_uri),
    {
        if let Some(c) = self.correlation {
            if let Some(t) = self.cache.get(&c) {
                if t.valid_at(now) {
                    return Ok(TokenDecision::Cached(t.duplicate()));
                }
            }
        }
        match sign_token_request(&self.identity, &self.scopes) {
            Ok(p) => Ok(TokenDecision::Pending(p)),
            Err(SignFailure::Http(m)) => Err(OAuthError::HttpError(m)),
            Err(SignFailure::InvalidRsaKey) => Err(OAuthError::InvalidRsaKey),
            Err(SignFailure::Other(m)) => Err(OAuthError::Unknown(m)),
        }
    }

    /// Consumes the raw exchange response for `correlation` at instant
    /// `now`: a non-success status is the server's explicit refusal; a
    /// success body that holds no usable grant (no token fields, an empty
    /// credential, a non-positive validity, or an expiry out of range) is
    /// a response-parse failure; otherwise the grant's absolute expiry is
    /// computed here, the finalized token — valid at `now` — is stored in
    /// the cache under `correlation`, replacing any prior entry for it and
    /// touching no other, and returned. On any failure the signer is left
    /// exactly as it was.
    pub fn finalize(&mut self, correlation: u64, raw: RawResponse, now: i64) -> (r: Result<
        Token,
        OAuthError,
    >)
        requires
            raw.wf(),
        ensures
            !raw.is_success() ==> (r matches Err(OAuthError::RetrieveCredentials(s)) && s
                == raw.status),
            raw.is_success() ==> match parsed_token(raw.body@) {
                Some(grant) => if usable_grant(grant, now) {
                    r matches Ok(t) && t@.access_token == grant.0 && t@.expires_at == Some(
                        (now + grant.1) as i64,
                    )
                } else {
                    r matches Err(OAuthError::ParseToken(_))
                },
                None => r matches Err(OAuthError::ParseToken(_)),
            },
            r matches Ok(t) ==> t@.valid_at(now) && final(self)@.identity == old(self)@.identity
                && final(self)@.scopes == old(self)@.scopes
                && final(self)@.correlation == Some(correlation)
                && final(self)@.cache == old(self)@.cache.insert(correlation, t@)
                && final(self)@.current_token() == Some(t@),
            r is Err ==> final(self)@ == old(self)@,
    {
        if !(raw.status >= 200 && raw.status < 300) {
            return Err(OAuthError::RetrieveCredentials(raw.status));
        }
        let (access_token, expires_in) = match parse_exchange_body(&raw.body) {
            Some(g) => g,
            None => {
                return Err(OAuthError::ParseToken("the body holds no token grant".to_owned()));
            },
        };
        if access_token.as_str().is_empty() || expires_in <= 0 || now > i64::MAX - expires_in {
            return Err(
                OAuthError::ParseToken("the token grant is empty, stale or out of range".to_owned()),
            );
        }
        let token = Token { access_token, expires_at: Some(now + expires_in) };
        let result = token.duplicate();
        self.cache.insert(correlation, token);
        self.correlation = Some(correlation);
        proof {
            assert(self@.cache =~= old(self)@.cache.insert(correlation, result@));
        }
        Ok(result)
    }
}

/// Law: a finalized exchange leaves its token as the signer's current one,
/// so an immediately following token request, at any instant at which that
/// token is still valid, is answered from the cache with the same value.
pub proof fn lemma_finalized_token_is_cached(
    pre: SignerView,
    post: SignerView,
    correlation: u64,
    t: TokenView,
    now: i64,
)
    requires
        post.correlation == Some(correlation),
        post.cache == pre.cache.insert(correlation, t),
        t.valid_at(now),
    ensures
        post.current_token() == Some(t),
        post.has_valid(now),
{
}

/// Law: a token request leaves the signer untouched, so with no exchange
/// in between, two immediately successive requests answered from the cache
/// return tokens with identical value, both valid at that instant.
pub proof fn lemma_successive_cache_hits_agree(
    s: SignerView,
    now: i64,
    t1: TokenView,
    t2: TokenView,
)
    requires
        s.has_valid(now),
        Some(t1) == s.current_token(),
        Some(t2) == s.current_token(),
    ensures
        t1 == t2,
        t1.valid_at(now),
{
}

/// Law: finalizing an exchange for one correlation token never disturbs
/// the cached entry of any other: every other key keeps exactly the token
/// it had, and gains none.
pub proof fn lemma_finalize_preserves_other_entries(
    pre: SignerView,
    post: SignerView,
    correlation: u64,
    t: TokenView,
    k: u64,
)
    requires
        post.cache == pre.cache.insert(correlation, t),
        k != correlation,
    ensures
        post.cache.contains_key(k) == pre.cache.contains_key(k),
        pre.cache.contains_key(k) ==> post.cache[k] == pre.cache[k],
{
}

} // verus!
