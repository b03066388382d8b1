//! Credential refresh for a service-account identity: loads identity
//! material, tracks token expiry, and drives the token exchange with the
//! issuing authority, returning either a cached bearer token or a signed
//! exchange request for the caller's transport to execute.

pub mod errors;
pub mod identity;
pub mod provider;
pub mod scopes;
pub mod signer;
pub mod source;
pub mod token;
