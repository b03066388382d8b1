use vstd::prelude::*;

verus! {

/// Mathematical model of a bearer token: the credential characters and the
/// absolute expiry instant, in seconds since the epoch.
pub ghost struct TokenView {
    pub access_token: Seq<char>,
    pub expires_at: Option<i64>,
}

impl TokenView {
    /// A token is usable at `now` when it carries a non-empty credential and
    /// an expiry instant strictly in the future. A token without an expiry
    /// instant is never handed out.
    pub open spec fn valid_at(self, now: i64) -> bool {
        &&& self.access_token.len() > 0
        &&& match self.expires_at {
            Some(ts) => now < ts,
            None => false,
        }
    }
}

/// A bearer credential plus its expiry timestamp, as produced by a finalized
/// token exchange.
#[derive(Debug)]
pub struct Token {
    /// The credential string presented in API requests.
    pub access_token: String,
    /// Seconds since the epoch at which the credential stops being usable,
    /// if the issuer stated one.
    pub expires_at: Option<i64>,
}

impl View for Token {
    type V = TokenView;

    open spec fn view(&self) -> TokenView {
        TokenView { access_token: self.access_token@, expires_at: self.expires_at }
    }
}

impl Token {
    /// Expiry check: the signer consults this before deciding cache hit
    /// versus cache miss, so no expired token is ever returned.
    pub fn valid_at(&self, now: i64) -> (r: bool)
        ensures
            r == self@.valid_at(now),
    {
        if self.access_token.as_str().is_empty() {
            return false;
        }
        match self.expires_at {
            Some(ts) => now < ts,
            None => false,
        }
    }

    /// An owned copy with the same model.
    pub fn duplicate(&self) -> (r: Token)
        ensures
            r@ == self@,
    {
        Token { access_token: self.access_token.clone(), expires_at: self.expires_at }
    }
}

} // verus!
