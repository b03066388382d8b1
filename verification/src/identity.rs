use vstd::prelude::*;

verus! {

/// Mathematical model of a service identity.
pub ghost struct IdentityView {
    pub private_key: Seq<char>,
    pub client_email: Seq<char>,
    pub token_uri: Seq<char>,
}

/// Parsed representation of a service identity: the principal identifier,
/// the private signing key, and the token endpoint of the issuing
/// authority. Immutable once loaded.
#[derive(Debug)]
pub struct IdentityDescriptor {
    /// The private signing key, in PEM-framed form.
    pub private_key: String,
    /// The unique principal identifier, the issuer of signed assertions.
    pub client_email: String,
    /// The endpoint the token exchange is sent to.
    pub token_uri: String,
}

impl View for IdentityDescriptor {
    type V = IdentityView;

    open spec fn view(&self) -> IdentityView {
        IdentityView {
            private_key: self.private_key@,
            client_email: self.client_email@,
            token_uri: self.token_uri@,
        }
    }
}

} // verus!
