//! The claims carried in a JSON Web Token.
//!
//! Cryptographic verification of tokens is not the proxy's business: the
//! auth microservice answers the verify sub-request. The record of the
//! claims and the issuer the proxy expects live here.

use vstd::prelude::*;

verus! {

/// The default issuer in a JSON Web Token.
pub const DEFAULT_ISSUER: &'static str = "pathfinder";

/// The validated fields of a JSON Web Token.
#[derive(Debug)]
pub struct Claims {
    /// The token's issuer.
    pub iss: String,
    /// The token's expiry, as seconds of the Unix epoch.
    pub exp: i64,
}

} // verus!
