use vstd::prelude::*;

verus! {

/// The decoded, verified payload of a bearer token: who it is for, when it
/// was issued and when it lapses, who issued it, whom it identifies, and
/// whether that identity's email address has been verified.  Immutable once
/// decoded.
#[derive(Clone, Debug, PartialEq)]
pub struct Claims {
    pub aud: String,
    pub iat: u64,
    pub exp: u64,
    pub iss: String,
    pub sub: String,
    pub email_verified: bool,
}

/// The mathematical content of a [`Claims`] value.
pub ghost struct ClaimsView {
    pub aud: Seq<char>,
    pub iat: u64,
    pub exp: u64,
    pub iss: Seq<char>,
    pub sub: Seq<char>,
    pub email_verified: bool,
}

impl View for Claims {
    type V = ClaimsView;

    open spec fn view(&self) -> ClaimsView {
        ClaimsView {
            aud: self.aud@,
            iat: self.iat,
            exp: self.exp,
            iss: self.iss@,
            sub: self.sub@,
            email_verified: self.email_verified,
        }
    }
}

/// The base under which the issuer mints tokens; the tenant id is appended
/// to it to obtain the issuer string every token must carry.
pub open spec fn spec_issuer_base() -> Seq<char> {
    "https://securetoken.example.com/"@
}

/// The issuer string expected of a token minted for the given tenant.
pub open spec fn spec_expected_issuer(project_id: Seq<char>) -> Seq<char> {
    spec_issuer_base() + project_id
}

/// Builds the issuer string expected of tokens for the given tenant.
pub fn expected_issuer(project_id: &str) -> (r: String)
    ensures
        r@ == spec_expected_issuer(project_id@),
{
    let base = String::from_str("https://securetoken.example.com/");
    base.concat(project_id)
}

} // verus!
