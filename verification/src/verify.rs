use vstd::prelude::*;

use crate::claims::{expected_issuer, spec_expected_issuer, Claims, ClaimsView};
use crate::errors::{ClaimsFault, VerifyError};
use crate::jwks::{
    decode_header_kid, decode_rs256, jwk_set_of, parse_jwk_set, rs256_payload_of, rsa_key_parses,
    rsa_key_parseable, token_key_id_of, SigningKey, SigningKeyView,
};

verus! {

/// The view of a whole key list.
pub open spec fn keys_view(keys: Seq<SigningKey>) -> Seq<SigningKeyView> {
    keys.map_values(|k: SigningKey| k@)
}

/// The first key of the list published under the given key id, if any.
pub open spec fn spec_find_signing_key(keys: Seq<SigningKeyView>, kid: Seq<char>) -> Option<
    SigningKeyView,
>
    decreases keys.len(),
{
    if keys.len() == 0 {
        None
    } else if keys[0].kid == kid {
        Some(keys[0])
    } else {
        spec_find_signing_key(keys.drop_first(), kid)
    }
}

/// Finds the first key published under the given key id and returns its
/// index in the list.
fn find_signing_key(keys: &Vec<SigningKey>, kid: &String) -> (r: Option<usize>)
    ensures
        match r {
            Some(i) => i < keys@.len() && spec_find_signing_key(keys_view(keys@), kid@) == Some(
                keys@[i as int]@,
            ),
            None => spec_find_signing_key(keys_view(keys@), kid@) is None,
        },
{
    let ghost kv = keys_view(keys@);
    proof {
        assert(kv.skip(0) =~= kv);
    }
    let mut i: usize = 0;
    while i < keys.len()
        invariant
            i <= keys@.len(),
            kv == keys_view(keys@),
            spec_find_signing_key(kv, kid@) == spec_find_signing_key(kv.skip(i as int), kid@),
        decreases keys@.len() - i,
    {
        assert(kv.skip(i as int)[0] == kv[i as int]);
        if keys[i].kid.eq(kid) {
            return Some(i);
        }
        assert(kv.skip(i as int).drop_first() =~= kv.skip(i + 1));
        i = i + 1;
    }
    assert(kv.skip(i as int).len() == 0);
    None
}

/// Whether a claim set passes the checks this library makes itself: the
/// token has not lapsed, it is meant for the expected audience, and it was
/// minted by the issuer derived from that audience.
pub open spec fn spec_validate_claims(c: ClaimsView, now: u64, project_id: Seq<char>) -> Result<
    ClaimsView,
    VerifyError,
> {
    if c.exp <= now {
        Err(VerifyError::ClaimsInvalid(ClaimsFault::Expired))
    } else if c.aud != project_id {
        Err(VerifyError::ClaimsInvalid(ClaimsFault::Audience))
    } else if c.iss != spec_expected_issuer(project_id) {
        Err(VerifyError::ClaimsInvalid(ClaimsFault::Issuer))
    } else {
        Ok(c)
    }
}

/// What verifying a bearer token returns: the claim set when the token's
/// header names a key of the fetched key set, the key parses, the RS256
/// signature verifies, and the claims pass [`spec_validate_claims`]; and
/// otherwise the error of the first step that fails.
pub open spec fn spec_verify_id_token(
    token: Seq<char>,
    jwks_body: Option<Seq<u8>>,
    now: u64,
    project_id: Seq<char>,
) -> Result<ClaimsView, VerifyError> {
    match token_key_id_of(token) {
        None => Err(VerifyError::MalformedToken),
        Some(kid) => match jwks_body {
            None => Err(VerifyError::KeySetUnavailable),
            Some(body) => match jwk_set_of(body) {
                None => Err(VerifyError::KeySetUnavailable),
                Some(keys) => match spec_find_signing_key(keys, kid) {
                    None => Err(VerifyError::UnknownKey),
                    Some(key) => if !rsa_key_parseable(key.modulus, key.exponent) {
                        Err(VerifyError::InvalidKeyMaterial)
                    } else {
                        match rs256_payload_of(token, key.modulus, key.exponent) {
                            None => Err(VerifyError::ClaimsInvalid(ClaimsFault::Signature)),
                            Some(c) => spec_validate_claims(c, now, project_id),
                        }
                    },
                },
            },
        },
    }
}

pub open spec fn opt_body_view(b: Option<&Vec<u8>>) -> Option<Seq<u8>> {
    match b {
        Some(v) => Some(v@),
        None => None,
    }
}

pub open spec fn verify_result_view(r: Result<Claims, VerifyError>) -> Result<
    ClaimsView,
    VerifyError,
> {
    match r {
        Ok(c) => Ok(c@),
        Err(e) => Err(e),
    }
}

/// Verifies a bearer token against the fetched signing key set and the
/// expected audience: reads the key id from the token's header, looks the
/// key up, checks the RS256 signature, and then checks expiry, audience and
/// issuer.  `jwks_body` is the body of the key-set fetch, or `None` when
/// the fetch itself failed; `now` is the verification time in seconds since
/// the Unix epoch.  Each failing step reports its own error, exactly as
/// [`spec_verify_id_token`] lays down.
pub fn verify_id_token(
    token: &str,
    jwks_body: Option<&Vec<u8>>,
    now: u64,
    project_id: &str,
) -> (r: Result<Claims, VerifyError>)
    ensures
        verify_result_view(r) == spec_verify_id_token(
            token@,
            opt_body_view(jwks_body),
            now,
            project_id@,
        ),
{
    let kid = match decode_header_kid(token) {
        Some(k) => k,
        None => {
            return Err(VerifyError::MalformedToken);
        },
    };
    let body = match jwks_body {
        Some(b) => b,
        None => {
            return Err(VerifyError::KeySetUnavailable);
        },
    };
    let keys = match parse_jwk_set(body) {
        Some(k) => k,
        None => {
            return Err(VerifyError::KeySetUnavailable);
        },
    };
    let idx = match find_signing_key(&keys, &kid) {
        Some(i) => i,
        None => {
            return Err(VerifyError::UnknownKey);
        },
    };
    let key = &keys[idx];
    if !rsa_key_parses(key.modulus.as_str(), key.exponent.as_str()) {
        return Err(VerifyError::InvalidKeyMaterial);
    }
    let c = match decode_rs256(token, key.modulus.as_str(), key.exponent.as_str()) {
        Some(c) => c,
        None => {
            return Err(VerifyError::ClaimsInvalid(ClaimsFault::Signature));
        },
    };
    if c.exp <= now {
        return Err(VerifyError::ClaimsInvalid(ClaimsFault::Expired));
    }
    let expected_aud = String::from_str(project_id);
    if !c.aud.eq(&expected_aud) {
        return Err(VerifyError::ClaimsInvalid(ClaimsFault::Audience));
    }
    let expected_iss = expected_issuer(project_id);
    if !c.iss.eq(&expected_iss) {
        return Err(VerifyError::ClaimsInvalid(ClaimsFault::Issuer));
    }
    Ok(c)
}

/// Law: verification is idempotent.  Any two verifications of the same
/// token against the same key-set bytes, time and audience return the same
/// claims, or the same error.
pub proof fn lemma_verify_id_token_deterministic(
    token: Seq<char>,
    jwks_body: Option<Seq<u8>>,
    now: u64,
    project_id: Seq<char>,
    r1: Result<ClaimsView, VerifyError>,
    r2: Result<ClaimsView, VerifyError>,
)
    requires
        r1 == spec_verify_id_token(token, jwks_body, now, project_id),
        r2 == spec_verify_id_token(token, jwks_body, now, project_id),
    ensures
        r1 == r2,
{
}

/// Law: a token whose header names a key id that is not in the fetched key
/// set fails verification, with the unknown-key error.
pub proof fn lemma_unknown_key_rejected(
    token: Seq<char>,
    body: Seq<u8>,
    now: u64,
    project_id: Seq<char>,
    kid: Seq<char>,
)
    requires
        token_key_id_of(token) == Some(kid),
        jwk_set_of(body) matches Some(keys) && spec_find_signing_key(keys, kid) is None,
    ensures
        spec_verify_id_token(token, Some(body), now, project_id) == Err::<
            ClaimsView,
            VerifyError,
        >(VerifyError::UnknownKey),
{
}

/// Law: a correctly signed token whose expiry is not in the future fails
/// verification with an expiry cause, whatever its other claims say.
pub proof fn lemma_expired_token_rejected(
    token: Seq<char>,
    body: Seq<u8>,
    now: u64,
    project_id: Seq<char>,
    kid: Seq<char>,
    key: SigningKeyView,
    c: ClaimsView,
)
    requires
        token_key_id_of(token) == Some(kid),
        jwk_set_of(body) matches Some(keys) && spec_find_signing_key(keys, kid) == Some(key),
        rsa_key_parseable(key.modulus, key.exponent),
        rs256_payload_of(token, key.modulus, key.exponent) == Some(c),
        c.exp <= now,
    ensures
        spec_verify_id_token(token, Some(body), now, project_id) == Err::<
            ClaimsView,
            VerifyError,
        >(VerifyError::ClaimsInvalid(ClaimsFault::Expired)),
{
}

/// Law: a correctly signed, unexpired token whose audience or issuer does
/// not match the expected audience fails verification, naming the first of
/// the two that is wrong.
pub proof fn lemma_wrong_audience_or_issuer_rejected(
    token: Seq<char>,
    body: Seq<u8>,
    now: u64,
    project_id: Seq<char>,
    kid: Seq<char>,
    key: SigningKeyView,
    c: ClaimsView,
)
    requires
        token_key_id_of(token) == Some(kid),
        jwk_set_of(body) matches Some(keys) && spec_find_signing_key(keys, kid) == Some(key),
        rsa_key_parseable(key.modulus, key.exponent),
        rs256_payload_of(token, key.modulus, key.exponent) == Some(c),
        c.exp > now,
        c.aud != project_id || c.iss != spec_expected_issuer(project_id),
    ensures
        spec_verify_id_token(token, Some(body), now, project_id) == Err::<
            ClaimsView,
            VerifyError,
        >(
            VerifyError::ClaimsInvalid(
                if c.aud != project_id {
                    ClaimsFault::Audience
                } else {
                    ClaimsFault::Issuer
                },
            ),
        ),
{
}

/// Law: a claim set that verification lets through meets the policy — it
/// has not lapsed, it names the expected audience, and it was minted by the
/// issuer derived from that audience.
pub proof fn lemma_verified_claims_meet_policy(
    token: Seq<char>,
    jwks_body: Option<Seq<u8>>,
    now: u64,
    project_id: Seq<char>,
    c: ClaimsView,
)
    requires
        spec_verify_id_token(token, jwks_body, now, project_id) == Ok::<
            ClaimsView,
            VerifyError,
        >(c),
    ensures
        c.exp > now,
        c.aud == project_id,
        c.iss == spec_expected_issuer(project_id),
{
}

} // verus!
