use vstd::prelude::*;

use crate::claims::{Claims, ClaimsView};

verus! {

/// One public signing key of the issuer's key set: the key id it is
/// published under and the RSA public-key components, both still in the
/// base64url form in which the key set carries them.
pub struct SigningKey {
    pub kid: String,
    pub modulus: String,
    pub exponent: String,
}

/// The mathematical content of a [`SigningKey`].
pub ghost struct SigningKeyView {
    pub kid: Seq<char>,
    pub modulus: Seq<char>,
    pub exponent: Seq<char>,
}

impl View for SigningKey {
    type V = SigningKeyView;

    open spec fn view(&self) -> SigningKeyView {
        SigningKeyView { kid: self.kid@, modulus: self.modulus@, exponent: self.exponent@ }
    }
}

/// The key id named by the header of the given token, if the token is well
/// formed and its header names one.
pub uninterp spec fn token_key_id_of(token: Seq<char>) -> Option<Seq<char>>;

/// The signing keys that the given bytes decode to, if they are a JSON Web
/// Key Set document of RSA keys, each published under a key id.
pub uninterp spec fn jwk_set_of(body: Seq<u8>) -> Option<Seq<SigningKeyView>>;

/// Whether the given base64url RSA components parse into a public key.
pub uninterp spec fn rsa_key_parseable(modulus: Seq<char>, exponent: Seq<char>) -> bool;

/// The claim set carried by the given token if its signature verifies,
/// under RS256, against the RSA public key with the given components, and
/// its payload decodes to a claim set of the expected shape.
pub uninterp spec fn rs256_payload_of(
    token: Seq<char>,
    modulus: Seq<char>,
    exponent: Seq<char>,
) -> Option<ClaimsView>;

pub open spec fn opt_string_view(r: Option<String>) -> Option<Seq<char>> {
    match r {
        Some(s) => Some(s@),
        None => None,
    }
}

pub open spec fn opt_keys_view(r: Option<Vec<SigningKey>>) -> Option<Seq<SigningKeyView>> {
    match r {
        Some(v) => Some(v@.map_values(|k: SigningKey| k@)),
        None => None,
    }
}

pub open spec fn opt_claims_view(r: Option<Claims>) -> Option<ClaimsView> {
    match r {
        Some(c) => Some(c@),
        None => None,
    }
}

/// Relies on jsonwebtoken::decode_header: without checking any signature it
/// splits the token into its three dot-separated parts and decodes the
/// header, whose `kid` field is the id of the key the token was signed
/// under.  The result is a function of the token text alone.
#[verifier::external_body]
pub(crate) fn decode_header_kid(token: &str) -> (r: Option<String>)
    ensures
        opt_string_view(r) == token_key_id_of(token@),
{
    match jsonwebtoken::decode_header(token) {
        Ok(header) => header.kid,
        Err(_) => None,
    }
}

/// Relies on serde_json::from_slice and jsonwebtoken::jwk::JwkSet: decodes
/// a JSON Web Key Set document into its list of keys, in order.  A document
/// that does not decode, holds a key without a key id, or holds a key that
/// is not an RSA key is treated as undecodable.  The result is a function
/// of the bytes alone.
#[verifier::external_body]
pub(crate) fn parse_jwk_set(body: &Vec<u8>) -> (r: Option<Vec<SigningKey>>)
    ensures
        opt_keys_view(r) == jwk_set_of(body@),
{
    let jwks: jsonwebtoken::jwk::JwkSet = serde_json::from_slice(body.as_slice()).ok()?;
    let mut keys: Vec<SigningKey> = Vec::new();
    for jwk in jwks.keys {
        let kid = jwk.common.key_id?;
        match jwk.algorithm {
            jsonwebtoken::jwk::AlgorithmParameters::RSA(p) => {
                keys.push(SigningKey { kid, modulus: p.n, exponent: p.e })
            }
            _ => return None,
        }
    }
    Some(keys)
}

/// Relies on jsonwebtoken::DecodingKey::from_rsa_components: the components
/// parse into an RSA public key exactly when both are valid base64url.
/// The result is a function of the components alone.
#[verifier::external_body]
pub(crate) fn rsa_key_parses(modulus: &str, exponent: &str) -> (r: bool)
    ensures
        r == rsa_key_parseable(modulus@, exponent@),
{
    jsonwebtoken::DecodingKey::from_rsa_components(modulus, exponent).is_ok()
}

/// Relies on jsonwebtoken::decode (and DecodingKey::from_rsa_components to
/// rebuild the key): checks that the token is well formed, that its header
/// names RS256, and that its RS256 signature verifies under the given RSA
/// public key, then decodes the payload.  Expiry, audience and issuer are
/// deliberately not checked here — this library checks them itself — so the
/// result is a function of the token and the key components alone.
#[verifier::external_body]
pub(crate) fn decode_rs256(token: &str, modulus: &str, exponent: &str) -> (r: Option<Claims>)
    ensures
        opt_claims_view(r) == rs256_payload_of(token@, modulus@, exponent@),
{
    let key = jsonwebtoken::DecodingKey::from_rsa_components(modulus, exponent).ok()?;
    let mut validation = jsonwebtoken::Validation::new(jsonwebtoken::Algorithm::RS256);
    validation.validate_exp = false;
    validation.validate_aud = false;
    validation.required_spec_claims.clear();
    let doc = jsonwebtoken::decode::<serde_json::Value>(token, &key, &validation).ok()?.claims;
    Some(Claims {
        aud: doc.get("aud")?.as_str()?.to_string(),
        iat: doc.get("iat")?.as_u64()?,
        exp: doc.get("exp")?.as_u64()?,
        iss: doc.get("iss")?.as_str()?.to_string(),
        sub: doc.get("sub")?.as_str()?.to_string(),
        email_verified: doc.get("email_verified")?.as_bool()?,
    })
}

} // verus!
