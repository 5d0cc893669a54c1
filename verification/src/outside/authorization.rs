//! OAuth 2.0 authorization requests, by the `oauth2` crate.
use vstd::prelude::*;
use vstd::utf8::*;

verus! {

/// The URL of the consent screen that asks for a code, with a PKCE challenge
/// made from the verifier by SHA-256.
pub uninterp spec fn consent_url(
    auth_url: Seq<char>,
    client_id: Seq<char>,
    redirect_uri: Seq<char>,
    scopes: Seq<Seq<char>>,
    state: Seq<char>,
    verifier: Seq<char>,
) -> Seq<char>;

/// What the URL parser says of a text that is no URL; `None` for one that is.
pub uninterp spec fn url_fault(text: Seq<char>) -> Option<Seq<char>>;

/// The texts of a list.
pub open spec fn texts(list: Seq<String>) -> Seq<Seq<char>> {
    Seq::new(list.len(), |i: int| list[i]@)
}

/// The secret of the verifier that `oauth2::PkceCodeChallenge::new_random_sha256`
/// makes, which is up to chance: 32 random bytes in URL-safe base 64, that is 43
/// ASCII characters. The call panics where the system has no random bytes, which
/// no argument can exclude.
#[verifier::external_body]
pub(crate) fn pkce_verifier() -> (r: String)
    ensures
        r@.len() == 43,
        encode_utf8(r@).len() == 43,
{
    oauth2::PkceCodeChallenge::new_random_sha256().1.into_secret()
}

/// The secret of an `oauth2::CsrfToken::new_random`, which is up to chance: 16
/// random bytes in URL-safe base 64, that is 22 ASCII characters. The call panics
/// where the system has no random bytes, which no argument can exclude.
#[verifier::external_body]
pub(crate) fn csrf_token() -> (r: String)
    ensures
        r@.len() == 22,
        encode_utf8(r@).len() == 22,
{
    oauth2::CsrfToken::new_random().into_secret()
}

/// `secret` is a verifier that a call of [`pkce_verifier`] returned.
pub open(crate) spec fn verifier_drawn(secret: Seq<char>) -> bool {
    exists|given: String| given@ == secret && #[trigger] call_ensures(pkce_verifier, (), given)
}

/// `state` is one that a call of [`csrf_token`] returned.
pub open(crate) spec fn state_drawn(state: Seq<char>) -> bool {
    exists|given: String| given@ == state && #[trigger] call_ensures(csrf_token, (), given)
}

/// `oauth2::basic::BasicClient::authorize_url` with these settings, the challenge
/// made by `oauth2::PkceCodeChallenge::from_code_verifier_sha256`.
///
/// The URL depends on the arguments alone. Building it fails where one of the two
/// URLs among them does not parse; the error is given by its text. A verifier of
/// any other length would make the challenge panic.
#[verifier::external_body]
pub(crate) fn authorize_url(
    auth_url: &str,
    client_id: &str,
    redirect_uri: &str,
    scopes: &Vec<String>,
    state: &str,
    verifier: &str,
) -> (r: Result<String, String>)
    requires
        43 <= encode_utf8(verifier@).len() <= 128,
    ensures
        match r {
            Ok(url) => {
                &&& url@ == consent_url(
                    auth_url@,
                    client_id@,
                    redirect_uri@,
                    texts(scopes@),
                    state@,
                    verifier@,
                )
                &&& url_fault(auth_url@) is None
                &&& url_fault(redirect_uri@) is None
            },
            Err(fault) => match url_fault(auth_url@) {
                Some(text) => fault@ == text,
                None => url_fault(redirect_uri@) == Some(fault@),
            },
        },
{
    let verifier = oauth2::PkceCodeVerifier::new(verifier.to_owned());
    let auth_url = oauth2::AuthUrl::new(auth_url.to_owned()).map_err(|e| e.to_string())?;
    let redirect = oauth2::RedirectUrl::new(redirect_uri.to_owned()).map_err(|e| e.to_string())?;
    let (url, _) = oauth2::basic::BasicClient::new(oauth2::ClientId::new(client_id.to_owned()))
        .set_auth_uri(auth_url)
        .set_redirect_uri(redirect)
        .authorize_url(|| oauth2::CsrfToken::new(state.to_owned()))
        .add_scopes(scopes.iter().map(|scope| oauth2::Scope::new(scope.clone())))
        .set_pkce_challenge(oauth2::PkceCodeChallenge::from_code_verifier_sha256(&verifier))
        .url();
    Ok(url.into())
}

/// What `url::Url::parse` says of a text, where it is no URL; the error is given
/// by its text. The result depends on the text alone.
#[verifier::external_body]
pub(crate) fn parse_fault(text: &str) -> (r: Option<String>)
    ensures
        match r {
            Some(fault) => url_fault(text@) == Some(fault@),
            None => url_fault(text@) is None,
        },
{
    match url::Url::parse(text) {
        Ok(_) => None,
        Err(error) => Some(error.to_string()),
    }
}

} // verus!
