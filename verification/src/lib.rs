//! The verified core of a vehicle-maintenance record service: a bearer-token
//! authentication gate placed in front of every protected route.
//!
//! The request gate ([`gate::jwt_auth`]) extracts the token from the
//! `Authorization` header, the verifier ([`verify::verify_id_token`]) checks
//! it against the issuer's published signing keys — key lookup by key id,
//! RS256 signature, expiry, audience and issuer — and an email-verification
//! policy decides whether the request may reach its handler.  Every function
//! carries a contract that pins its result down to a mathematical model of
//! the whole pipeline; the calls into the token and JSON crates stand behind
//! a handful of trusted wrappers in [`jwks`].

pub mod claims;
pub mod errors;
pub mod gate;
pub mod jwks;
pub mod models;
pub mod verify;

use vstd::prelude::*;

verus! {

/// Process-wide authentication configuration: the audience (tenant/project
/// identifier) every token must name, and whether a verified email address
/// is required before a request may pass the request gate.
pub struct AuthPolicy {
    pub expected_audience: String,
    pub require_email_verification: bool,
}

impl AuthPolicy {
    pub fn new(expected_audience: String, require_email_verification: bool) -> (r: AuthPolicy)
        ensures
            r.expected_audience@ == expected_audience@,
            r.require_email_verification == require_email_verification,
    {
        AuthPolicy { expected_audience, require_email_verification }
    }
}

} // verus!
