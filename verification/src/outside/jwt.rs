//! Signed JSON web tokens, by the `jsonwebtoken` crate.
use super::json::{json_members, scalars_only, JsonModel, JsonObject};
use vstd::prelude::*;

verus! {

use super::clock::clock_gave;

#[verifier::external_type_specification]
#[verifier::external_body]
pub struct ExJwtError(jsonwebtoken::errors::Error);

/// The token that carries these claims, signed with HMAC-SHA-256 under a secret.
pub uninterp spec fn jwt_text(claims: Map<Seq<char>, JsonModel>, secret: Seq<char>) -> Seq<char>;

/// The claims of a token whose HMAC-SHA-256 signature under the secret is good
/// and whose payload is a JSON object; `None` for any other text.
pub uninterp spec fn jwt_claims(token: Seq<char>, secret: Seq<char>) -> Option<
    Map<Seq<char>, JsonModel>,
>;

/// Claims with an expiry, with a subject that is a text if there is one, and
/// with none of the other claims that a check looks at.
pub open spec fn checkable(claims: Map<Seq<char>, JsonModel>) -> bool {
    &&& claims.contains_key("exp"@) && claims["exp"@] is Number
    &&& claims.contains_key("sub"@) ==> claims["sub"@] is Text
    &&& !claims.contains_key("nbf"@)
    &&& !claims.contains_key("iss"@)
    &&& !claims.contains_key("aud"@)
}

/// What the check of a token found.
pub enum JwtCheck {
    /// The token is good now.
    Valid,
    /// The token was good, and its expiry has passed.
    Expired,
    /// The token is bad for another reason.
    Rejected,
}

/// What the check found goes by the clock: the expiry, in seconds, has passed at an
/// instant that the clock gave, or has not.
pub open(crate) spec fn told_by_clock(exp: u64, found: JwtCheck) -> bool {
    exists|now: i128|
        {
            &&& #[trigger] clock_gave(now)
            &&& now >= 0
            &&& found is Expired <==> exp < now as int / 1_000_000_000
        }
}

/// `jsonwebtoken::encode` with the default header, which signs with HMAC-SHA-256
/// and cannot fail on an object.
///
/// The token depends on the claims and the secret alone, and carries those
/// claims: `jsonwebtoken::decode` under the same secret finds them in it.
#[verifier::external_body]
pub(crate) fn jwt_encode(claims: &JsonObject, secret: &str) -> (r: Result<String, jsonwebtoken::errors::Error>)
    ensures
        match r {
            Ok(token) => token@ == jwt_text(json_members(*claims), secret@),
            Err(_) => false,
        },
        scalars_only(json_members(*claims)) && checkable(json_members(*claims)) ==> jwt_claims(
            r->Ok_0@,
            secret@,
        ) == Some(json_members(*claims)),
{
    let key = jsonwebtoken::EncodingKey::from_secret(secret.as_bytes());
    jsonwebtoken::encode(&jsonwebtoken::Header::default(), claims, &key)
}

/// `jsonwebtoken::decode` with every check but that of the signature switched
/// off. The result depends on the token and the secret alone.
#[verifier::external_body]
pub(crate) fn jwt_decode(token: &str, secret: &str) -> (r: Result<JsonObject, jsonwebtoken::errors::Error>)
    ensures
        match r {
            Ok(claims) => jwt_claims(token@, secret@) == Some(json_members(claims)),
            Err(_) => jwt_claims(token@, secret@) is None,
        },
{
    let mut checks = jsonwebtoken::Validation::default();
    checks.required_spec_claims.clear();
    checks.validate_exp = false;
    checks.validate_aud = false;
    let key = jsonwebtoken::DecodingKey::from_secret(secret.as_bytes());
    Ok(jsonwebtoken::decode::<JsonObject>(token, &key, &checks)?.claims)
}

/// `jsonwebtoken::decode` with the default checks, the signature and the expiry
/// among them, and without the grace that it gives a token after its expiry.
///
/// A text without a good signature is rejected. A well-signed token with an
/// expiry, and without further claims that are checked, is expired where its
/// expiry lies before the second that the clock gives, and valid otherwise; the
/// clock is the system's, the one that `now_utc` reads. The call panics where the
/// clock is before the Unix epoch, which no argument can exclude.
#[verifier::external_body]
pub(crate) fn jwt_check(token: &str, secret: &str) -> (r: JwtCheck)
    ensures
        jwt_claims(token@, secret@) is None ==> r is Rejected,
        jwt_claims(token@, secret@) matches Some(claims) ==> (checkable(claims) ==> !(r is Rejected)),
        jwt_claims(token@, secret@) matches Some(claims) ==> (checkable(claims) ==> told_by_clock(
            claims["exp"@]->Number_0,
            r,
        )),
{
    let key = jsonwebtoken::DecodingKey::from_secret(secret.as_bytes());
    let mut checks = jsonwebtoken::Validation::default();
    checks.leeway = 0;
    match jsonwebtoken::decode::<JsonObject>(token, &key, &checks) {
        Ok(_) => JwtCheck::Valid,
        Err(error) => match error.kind() {
            jsonwebtoken::errors::ErrorKind::ExpiredSignature => JwtCheck::Expired,
            _ => JwtCheck::Rejected,
        },
    }
}

/// A call of [`jwt_check`] on that token and secret found `found`.
pub open(crate) spec fn check_found(token: Seq<char>, secret: Seq<char>, found: JwtCheck) -> bool {
    exists|t: &str, s: &str|
        t@ == token && s@ == secret && #[trigger] call_ensures(jwt_check, (t, s), found)
}

} // verus!
