use vstd::prelude::*;

use crate::claims::{Claims, ClaimsView};
use crate::errors::{
    email_not_verified_error, invalid_header_error, invalid_token_error, missing_header_error,
    spec_email_not_verified_error, spec_invalid_header_error, spec_invalid_token_error,
    spec_missing_header_error, AppError, AppErrorView, VerifyError,
};
use crate::verify::{opt_body_view, spec_verify_id_token, verify_id_token};
use crate::AuthPolicy;

verus! {

/// Whether a byte may appear in the text of a header value: the visible
/// ASCII range, space, or horizontal tab.
pub open spec fn is_header_text_byte(b: u8) -> bool {
    (32 <= b && b < 127) || b == 9
}

/// Whether a header value is valid text throughout.
pub open spec fn is_header_text(h: Seq<u8>) -> bool {
    forall|i: int| 0 <= i < h.len() ==> is_header_text_byte(#[trigger] h[i])
}

/// The bytes of the literal `"Bearer "` that a well-formed authorization
/// header must start with; [`lemma_bearer_prefix_is_literal`] ties the
/// numbers to the literal.
pub open spec fn spec_bearer_prefix() -> Seq<u8> {
    seq![66u8, 101u8, 97u8, 114u8, 101u8, 114u8, 32u8]
}

/// Law: the prefix bytes are exactly the characters of `"Bearer "`.
pub proof fn lemma_bearer_prefix_is_literal()
    ensures
        spec_bearer_prefix() == "Bearer "@.map_values(|c: char| c as u8),
{
    reveal_strlit("Bearer ");
    assert(spec_bearer_prefix() =~= "Bearer "@.map_values(|c: char| c as u8));
}

/// Whether a header value starts with the bearer prefix.
pub open spec fn has_bearer_prefix(h: Seq<u8>) -> bool {
    h.len() >= 7 && h.subrange(0, 7) == spec_bearer_prefix()
}

/// The characters that a sequence of ASCII bytes spells.
pub open spec fn ascii_chars_of(bytes: Seq<u8>) -> Seq<char> {
    bytes.map_values(|b: u8| b as char)
}

/// The raw token: what stands after the bearer prefix, as text.
pub open spec fn spec_token_text(h: Seq<u8>) -> Seq<char> {
    ascii_chars_of(h.skip(7))
}

/// Relies on core::str::from_utf8: bytes below 128 are valid UTF-8 and
/// decode to the characters with the same values; the precondition rules
/// everything else out, so the error arm is never taken.
#[verifier::external_body]
fn ascii_bytes_to_string(bytes: &Vec<u8>) -> (r: String)
    requires
        forall|i: int| 0 <= i < bytes@.len() ==> bytes@[i] < 128,
    ensures
        r@ == ascii_chars_of(bytes@),
{
    match core::str::from_utf8(bytes.as_slice()) {
        Ok(s) => s.to_string(),
        Err(_) => String::new(),
    }
}

/// What extracting the raw token from the authorization header returns: the
/// token text when the header is present, is text, and starts with the
/// bearer prefix; and otherwise the response the request gate answers with.
pub open spec fn spec_extract_bearer_token(h: Option<Seq<u8>>) -> Result<Seq<char>, AppErrorView> {
    match h {
        None => Err(spec_missing_header_error()),
        Some(hb) => if !is_header_text(hb) {
            Err(spec_invalid_header_error())
        } else if !has_bearer_prefix(hb) {
            Err(spec_invalid_header_error())
        } else {
            Ok(spec_token_text(hb))
        },
    }
}

pub open spec fn extract_result_view(r: Result<String, AppError>) -> Result<
    Seq<char>,
    AppErrorView,
> {
    match r {
        Ok(s) => Ok(s@),
        Err(e) => Err(e@),
    }
}

/// Takes the raw token out of the authorization header: the header must be
/// present, must be text, and must start with `"Bearer "`; what follows the
/// prefix is the token.
pub fn extract_bearer_token(authorization: Option<&Vec<u8>>) -> (r: Result<String, AppError>)
    ensures
        extract_result_view(r) == spec_extract_bearer_token(opt_body_view(authorization)),
{
    let h = match authorization {
        Some(h) => h,
        None => {
            return Err(missing_header_error());
        },
    };
    let mut i: usize = 0;
    while i < h.len()
        invariant
            i <= h@.len(),
            opt_body_view(authorization) == Some(h@),
            forall|j: int| 0 <= j < i ==> is_header_text_byte(#[trigger] h@[j]),
        decreases h@.len() - i,
    {
        let b = h[i];
        if !((b >= 32 && b < 127) || b == 9) {
            proof {
                assert(!is_header_text_byte(h@[i as int]));
            }
            return Err(invalid_header_error());
        }
        i = i + 1;
    }
    if h.len() < 7 {
        return Err(invalid_header_error());
    }
    if !(h[0] == 66 && h[1] == 101 && h[2] == 97 && h[3] == 114 && h[4] == 101 && h[5] == 114
        && h[6] == 32) {
        proof {
            assert(!has_bearer_prefix(h@)) by {
                if h@.subrange(0, 7) == spec_bearer_prefix() {
                    assert(h@[0] == h@.subrange(0, 7)[0]);
                    assert(h@[1] == h@.subrange(0, 7)[1]);
                    assert(h@[2] == h@.subrange(0, 7)[2]);
                    assert(h@[3] == h@.subrange(0, 7)[3]);
                    assert(h@[4] == h@.subrange(0, 7)[4]);
                    assert(h@[5] == h@.subrange(0, 7)[5]);
                    assert(h@[6] == h@.subrange(0, 7)[6]);
                }
            }
        }
        return Err(invalid_header_error());
    }
    proof {
        assert(h@.subrange(0, 7) =~= spec_bearer_prefix());
    }
    let mut token_bytes: Vec<u8> = Vec::new();
    let mut j: usize = 7;
    while j < h.len()
        invariant
            7 <= j <= h@.len(),
            token_bytes@ =~= h@.subrange(7, j as int),
            is_header_text(h@),
        decreases h@.len() - j,
    {
        token_bytes.push(h[j]);
        j = j + 1;
    }
    proof {
        assert(token_bytes@ =~= h@.skip(7));
    }
    let token = ascii_bytes_to_string(&token_bytes);
    Ok(token)
}

/// What the email-verification policy makes of a verified claim set: the
/// claims pass through unchanged unless a verified email address is
/// required and the token says the address is not verified.
pub open spec fn spec_apply_email_policy(c: ClaimsView, require_email_verification: bool) -> Result<
    ClaimsView,
    AppErrorView,
> {
    if require_email_verification && !c.email_verified {
        Err(spec_email_not_verified_error())
    } else {
        Ok(c)
    }
}

pub open spec fn gate_result_view(r: Result<Claims, AppError>) -> Result<
    ClaimsView,
    AppErrorView,
> {
    match r {
        Ok(c) => Ok(c@),
        Err(e) => Err(e@),
    }
}

/// Enforces the email-verification policy on a verified claim set.
pub fn apply_email_policy(claims: Claims, require_email_verification: bool) -> (r: Result<
    Claims,
    AppError,
>)
    ensures
        gate_result_view(r) == spec_apply_email_policy(claims@, require_email_verification),
{
    if require_email_verification && !claims.email_verified {
        Err(email_not_verified_error())
    } else {
        Ok(claims)
    }
}

/// What the whole gate answers: the verified claims when the header carries
/// a token that verifies and meets the email policy, and otherwise one of
/// the four rejection responses.  Every verification failure collapses into
/// the one invalid-token response; the cause stays server side.
pub open spec fn spec_jwt_auth(
    authorization: Option<Seq<u8>>,
    jwks_body: Option<Seq<u8>>,
    now: u64,
    audience: Seq<char>,
    require_email_verification: bool,
) -> Result<ClaimsView, AppErrorView> {
    match spec_extract_bearer_token(authorization) {
        Err(e) => Err(e),
        Ok(token) => match spec_verify_id_token(token, jwks_body, now, audience) {
            Err(_) => Err(spec_invalid_token_error()),
            Ok(c) => spec_apply_email_policy(c, require_email_verification),
        },
    }
}

/// The authentication gate, run before every protected handler.  Extracts
/// the bearer token from the authorization header, verifies it against the
/// fetched key set, and enforces the email policy.  On success the caller
/// forwards the request and attaches `claims.sub` to it; on failure it
/// answers with the returned response and the handler never runs.
/// `jwks_body` is the body of the key-set fetch (or `None` when the fetch
/// failed) and `now` the current time in seconds since the Unix epoch.
pub fn jwt_auth(
    authorization: Option<&Vec<u8>>,
    jwks_body: Option<&Vec<u8>>,
    now: u64,
    policy: &AuthPolicy,
) -> (r: Result<Claims, AppError>)
    ensures
        gate_result_view(r) == spec_jwt_auth(
            opt_body_view(authorization),
            opt_body_view(jwks_body),
            now,
            policy.expected_audience@,
            policy.require_email_verification,
        ),
{
    let token = match extract_bearer_token(authorization) {
        Ok(t) => t,
        Err(e) => {
            return Err(e);
        },
    };
    let claims = match verify_id_token(
        token.as_str(),
        jwks_body,
        now,
        policy.expected_audience.as_str(),
    ) {
        Ok(c) => c,
        Err(_) => {
            return Err(invalid_token_error());
        },
    };
    apply_email_policy(claims, policy.require_email_verification)
}

/// Law: a request without an authorization header is answered with the
/// missing-header response; it is never forwarded, whatever the key set,
/// the time or the policy.
pub proof fn lemma_gate_missing_header(
    jwks_body: Option<Seq<u8>>,
    now: u64,
    audience: Seq<char>,
    require_email_verification: bool,
)
    ensures
        spec_jwt_auth(None, jwks_body, now, audience, require_email_verification) == Err::<
            ClaimsView,
            AppErrorView,
        >(spec_missing_header_error()),
{
}

/// Law: a request whose authorization header is not text, or does not
/// start with `"Bearer "`, is answered with the invalid-header response;
/// it is never forwarded.
pub proof fn lemma_gate_invalid_header(
    h: Seq<u8>,
    jwks_body: Option<Seq<u8>>,
    now: u64,
    audience: Seq<char>,
    require_email_verification: bool,
)
    requires
        !is_header_text(h) || !has_bearer_prefix(h),
    ensures
        spec_jwt_auth(Some(h), jwks_body, now, audience, require_email_verification) == Err::<
            ClaimsView,
            AppErrorView,
        >(spec_invalid_header_error()),
{
}

/// Law: whenever verification of the extracted token fails — malformed
/// token, unavailable key set, unknown key, bad key material, bad
/// signature, expiry, audience or issuer — the request gate answers with the one
/// invalid-token response, leaking no finer cause.
pub proof fn lemma_gate_rejects_failed_verification(
    h: Seq<u8>,
    jwks_body: Option<Seq<u8>>,
    now: u64,
    audience: Seq<char>,
    require_email_verification: bool,
)
    requires
        is_header_text(h),
        has_bearer_prefix(h),
        spec_verify_id_token(spec_token_text(h), jwks_body, now, audience) is Err,
    ensures
        spec_jwt_auth(Some(h), jwks_body, now, audience, require_email_verification) == Err::<
            ClaimsView,
            AppErrorView,
        >(spec_invalid_token_error()),
{
}

/// Law: for a token that verifies, the email policy alone decides.  When a
/// verified email address is required and the token says it is not
/// verified, the request gate answers with the email-not-verified response; in
/// every other case the request is forwarded with the claim set unchanged.
pub proof fn lemma_gate_email_policy(
    h: Seq<u8>,
    jwks_body: Option<Seq<u8>>,
    now: u64,
    audience: Seq<char>,
    require_email_verification: bool,
    c: ClaimsView,
)
    requires
        is_header_text(h),
        has_bearer_prefix(h),
        spec_verify_id_token(spec_token_text(h), jwks_body, now, audience) == Ok::<
            ClaimsView,
            VerifyError,
        >(c),
    ensures
        require_email_verification && !c.email_verified ==> spec_jwt_auth(
            Some(h),
            jwks_body,
            now,
            audience,
            require_email_verification,
        ) == Err::<ClaimsView, AppErrorView>(spec_email_not_verified_error()),
        !(require_email_verification && !c.email_verified) ==> spec_jwt_auth(
            Some(h),
            jwks_body,
            now,
            audience,
            require_email_verification,
        ) == Ok::<ClaimsView, AppErrorView>(c),
{
}

/// Law: the request gate forwards a request exactly when an authorization header
/// is present, is text, starts with `"Bearer "`, carries a token that
/// verifies against the key set and the audience, and the claim set meets
/// the email policy; and what it forwards is that verified claim set.
pub proof fn lemma_gate_forwards_iff_valid(
    authorization: Option<Seq<u8>>,
    jwks_body: Option<Seq<u8>>,
    now: u64,
    audience: Seq<char>,
    require_email_verification: bool,
)
    ensures
        spec_jwt_auth(authorization, jwks_body, now, audience, require_email_verification) is Ok
            <==> ({
            &&& authorization matches Some(h)
            &&& is_header_text(h)
            &&& has_bearer_prefix(h)
            &&& spec_verify_id_token(spec_token_text(h), jwks_body, now, audience) matches Ok(c)
            &&& (require_email_verification ==> c.email_verified)
        }),
        spec_jwt_auth(authorization, jwks_body, now, audience, require_email_verification) matches
            Ok(c) ==> (authorization matches Some(h) && spec_verify_id_token(
            spec_token_text(h),
            jwks_body,
            now,
            audience,
        ) == Ok::<ClaimsView, VerifyError>(c)),
{
}

} // verus!
