use vstd::prelude::*;

verus! {

/// The cause of a failed claims validation: the signature (or the token's
/// payload) did not check out, the token had expired, or the audience or
/// issuer named in the token was not the expected one.  Externally all four
/// collapse into one response code; the cause is kept for server-side logs.
#[derive(Clone, Copy, Debug, PartialEq, Eq, Structural)]
pub enum ClaimsFault {
    Signature,
    Expired,
    Audience,
    Issuer,
}

/// Why verification of a bearer token failed.  Each step of the verifier
/// reports its own variant; at the response boundary they all become the
/// one generic invalid-token response.
#[derive(Clone, Copy, Debug, PartialEq, Eq, Structural)]
pub enum VerifyError {
    /// The token is not well formed, or its header names no key id.
    MalformedToken,
    /// The signing key set could not be fetched or could not be decoded.
    KeySetUnavailable,
    /// The token's key id is not in the fetched key set.
    UnknownKey,
    /// The key material found for the key id cannot be parsed into a key.
    InvalidKeyMaterial,
    /// The signature or the standard claims did not validate.
    ClaimsInvalid(ClaimsFault),
}

/// An HTTP error response: a status code and a machine-readable code plus a
/// human-readable message for the JSON body.
pub struct AppError {
    pub status_code: u16,
    pub code: String,
    pub message: String,
}

/// The mathematical content of an [`AppError`].
pub ghost struct AppErrorView {
    pub status_code: u16,
    pub code: Seq<char>,
    pub message: Seq<char>,
}

impl View for AppError {
    type V = AppErrorView;

    open spec fn view(&self) -> AppErrorView {
        AppErrorView {
            status_code: self.status_code,
            code: self.code@,
            message: self.message@,
        }
    }
}

impl AppError {
    pub fn new(status_code: u16, code: String, message: String) -> (r: AppError)
        ensures
            r@ == (AppErrorView { status_code, code: code@, message: message@ }),
    {
        AppError { status_code, code, message }
    }
}

/// All authentication failures are answered with this status.
pub open spec fn spec_status_unauthorized() -> u16 {
    401
}

/// The response sent when the request carries no authorization header.
pub open spec fn spec_missing_header_error() -> AppErrorView {
    AppErrorView {
        status_code: spec_status_unauthorized(),
        code: "auth/missing-authorization-header"@,
        message: "Authorization header is missing."@,
    }
}

/// The response sent when the authorization header is not text or does not
/// carry the bearer prefix.
pub open spec fn spec_invalid_header_error() -> AppErrorView {
    AppErrorView {
        status_code: spec_status_unauthorized(),
        code: "auth/invalid-authorization-header"@,
        message: "Authorization header is invalid. It should start with 'Bearer'."@,
    }
}

/// The response sent when token verification failed, whatever the cause.
pub open spec fn spec_invalid_token_error() -> AppErrorView {
    AppErrorView {
        status_code: spec_status_unauthorized(),
        code: "auth/invalid-token"@,
        message: "Failed to verify the token."@,
    }
}

/// The response sent when the policy requires a verified email address and
/// the token says the address is not verified.
pub open spec fn spec_email_not_verified_error() -> AppErrorView {
    AppErrorView {
        status_code: spec_status_unauthorized(),
        code: "auth/email-not-verified"@,
        message: "Email is not verified."@,
    }
}

pub fn missing_header_error() -> (r: AppError)
    ensures
        r@ == spec_missing_header_error(),
{
    AppError::new(
        401,
        String::from_str("auth/missing-authorization-header"),
        String::from_str("Authorization header is missing."),
    )
}

pub fn invalid_header_error() -> (r: AppError)
    ensures
        r@ == spec_invalid_header_error(),
{
    AppError::new(
        401,
        String::from_str("auth/invalid-authorization-header"),
        String::from_str("Authorization header is invalid. It should start with 'Bearer'."),
    )
}

pub fn invalid_token_error() -> (r: AppError)
    ensures
        r@ == spec_invalid_token_error(),
{
    AppError::new(
        401,
        String::from_str("auth/invalid-token"),
        String::from_str("Failed to verify the token."),
    )
}

pub fn email_not_verified_error() -> (r: AppError)
    ensures
        r@ == spec_email_not_verified_error(),
{
    AppError::new(
        401,
        String::from_str("auth/email-not-verified"),
        String::from_str("Email is not verified."),
    )
}

} // verus!
