//! The OAuth 2.0 flow: pending authorizations, the code exchange, and the
//! profiles of the providers.
use crate::config::{OAuthProvider, OAuthProviderConfig};
use crate::errors::OAuthError;
use crate::outside::authorization::{authorize_url, csrf_token, parse_fault, pkce_verifier};
use crate::outside::json::{
    json_from_str, json_insert, json_object, json_to_string, JsonScalar,
};
use crate::services::token::text_field;
use crate::text::{decimal, join};
use std::sync::Arc;
use vstd::prelude::*;
use vstd::string::*;

verus! {

use crate::config::ProviderCredentials;
use crate::outside::authorization::{consent_url, state_drawn, texts, url_fault, verifier_drawn};
use crate::outside::json::{json_parsed, json_text, scalars_only, JsonMembers, JsonModel};
use crate::services::token::text_in;
use crate::text::{decimal_digits, text_of};
use vstd::utf8::encode_utf8;

/// Lifetime of a pending authorization entry in the state store (seconds).
pub const STATE_TTL_SECS: u64 = 600;

/// Namespace prefix for all OAuth state keys.
pub const KEY_PREFIX: &'static str = "oauth_state:";

/// Store for short-lived PKCE/CSRF state tokens.
///
/// Each entry is keyed by the opaque `state` string that travels to the
/// provider and back. Keys are set with a TTL of [`STATE_TTL_SECS`] and are
/// consumed atomically on retrieval, preventing replay attacks.
#[derive(Debug, Clone, Copy)]
pub struct StateStore {}

/// An entry for the state store.
#[derive(Debug)]
pub struct StateEntry {
    pub key: String,
    /// The pending authorization, as JSON.
    pub payload: String,
    /// Seconds until the entry expires.
    pub ttl_secs: u64,
}

/// Provider-agnostic user identity returned after a successful OAuth flow.
#[derive(Debug, Clone)]
pub struct OAuthProfile {
    /// Which provider authenticated this user.
    pub provider: OAuthProvider,
    /// The user's stable, unique identifier within that provider.
    pub provider_user_id: String,
    /// Primary email address as reported by the provider.
    ///
    /// Treat with care: not all providers verify email addresses.
    /// Google and GitHub both do, so this field is trusted for account merging
    /// only for those two providers.
    pub email: String,
    /// Human-readable display name, if the provider exposes one.
    pub display_name: Option<String>,
    /// Public avatar URL, if available.
    pub avatar_url: Option<String>,
}

/// What Google says of a user.
#[derive(Debug)]
pub struct GoogleUserInfo {
    pub sub: Option<String>,
    pub email: Option<String>,
    pub name: Option<String>,
    pub picture: Option<String>,
}

/// What GitHub says of a user.
#[derive(Debug)]
pub struct GitHubUserInfo {
    pub id: Option<u64>,
    pub email: Option<String>,
    pub name: Option<String>,
    pub avatar_url: Option<String>,
    pub login: Option<String>,
}

/// An email address of a GitHub user.
#[derive(Debug)]
pub struct GitHubEmail {
    pub email: String,
    pub primary: bool,
    pub verified: bool,
}

/// Outcome of [`build_authorization_url`].
#[derive(Debug)]
pub struct AuthorizationRequest {
    /// The URL to redirect the user's browser to.
    pub url: String,
    /// The opaque `state` token that must be round-tripped through the provider.
    pub state_key: String,
    /// The entry for the state store; it has to be there before the redirect.
    pub entry: StateEntry,
}

/// The exchange of an authorization code for an access token.
#[derive(Debug)]
pub struct CodeExchange {
    pub token_url: &'static str,
    pub client_id: String,
    pub client_secret: String,
    pub redirect_uri: String,
    pub code: String,
    /// The secret of the PKCE verifier.
    pub verifier: String,
}

/// What a code exchange holds.
#[verifier::ext_equal]
pub struct ExchangeModel {
    pub token_url: Seq<char>,
    pub credentials: ProviderCredentials,
    pub code: Seq<char>,
    pub verifier: Seq<char>,
}

impl View for CodeExchange {
    type V = ExchangeModel;

    open spec fn view(&self) -> ExchangeModel {
        ExchangeModel {
            token_url: self.token_url@,
            credentials: ProviderCredentials {
                client_id: self.client_id@,
                client_secret: self.client_secret@,
                redirect_uri: self.redirect_uri@,
            },
            code: self.code@,
            verifier: self.verifier@,
        }
    }
}

/// An endpoint that a provider shows its users at.
#[derive(Debug, Clone, Copy, PartialEq, Eq, Structural)]
pub enum ProfileEndpoint {
    GoogleUser,
    GitHubUser,
    GitHubEmails,
}

/// The key of a state in the state store.
pub open spec fn state_key(state: Seq<char>) -> Seq<char> {
    KEY_PREFIX@ + state
}

/// The members of a pending authorization.
pub open spec fn pending_members(provider: OAuthProvider, verifier: Seq<char>) -> JsonMembers {
    JsonMembers::empty().insert("verifier_secret"@, JsonModel::Text(verifier)).insert(
        "provider"@,
        JsonModel::Text(provider.name()),
    )
}

/// The entry holds a pending authorization.
pub open spec fn holds_pending(
    entry: StateEntry,
    state: Seq<char>,
    provider: OAuthProvider,
    verifier: Seq<char>,
) -> bool {
    &&& entry.key@ == state_key(state)
    &&& entry.payload@ == json_text(pending_members(provider, verifier))
    &&& json_parsed(entry.payload@) == Some(pending_members(provider, verifier))
    &&& entry.ttl_secs == STATE_TTL_SECS
}

/// The verifier and the provider that a payload holds.
pub open spec fn pending_in(payload: Seq<char>) -> Option<(Seq<char>, OAuthProvider)> {
    match json_parsed(payload) {
        Some(members) => match (
            text_in(members, "verifier_secret"@),
            text_in(members, "provider"@),
        ) {
            (Some(verifier), Some(name)) => match OAuthProvider::named(name) {
                Some(provider) => Some((verifier, provider)),
                None => None,
            },
            _ => None,
        },
        None => None,
    }
}

/// What the payload that was taken from the store comes to. Without one, or with
/// one that holds no pending authorization, the state is invalid; one of another
/// provider is a mismatch.
pub open spec fn claims_pending(
    payload: Option<Seq<char>>,
    expected: OAuthProvider,
    r: Result<String, OAuthError>,
) -> bool {
    match payload {
        Some(text) => match pending_in(text) {
            Some((verifier, actual)) => if actual == expected {
                r matches Ok(v) && v@ == verifier
            } else {
                r == Err::<String, OAuthError>(OAuthError::ProviderMismatch { expected, actual })
            },
            None => r == Err::<String, OAuthError>(OAuthError::InvalidState),
        },
        None => r == Err::<String, OAuthError>(OAuthError::InvalidState),
    }
}

/// The URL of a provider's consent screen.
pub open spec fn auth_endpoint(provider: OAuthProvider) -> Seq<char> {
    match provider {
        OAuthProvider::Google => "https://accounts.google.com/o/oauth2/v2/auth"@,
        OAuthProvider::GitHub => "https://github.com/login/oauth/authorize"@,
    }
}

/// The URL at which a provider gives tokens for codes.
pub open spec fn token_endpoint(provider: OAuthProvider) -> Seq<char> {
    match provider {
        OAuthProvider::Google => "https://oauth2.googleapis.com/token"@,
        OAuthProvider::GitHub => "https://github.com/login/oauth/access_token"@,
    }
}

/// What is asked of a provider.
pub open spec fn scopes_of(provider: OAuthProvider) -> Seq<Seq<char>> {
    match provider {
        OAuthProvider::Google => seq!["openid"@, "email"@, "profile"@],
        OAuthProvider::GitHub => seq!["read:user"@, "user:email"@],
    }
}

/// What the URL parser says of the first of two texts that is no URL.
pub open spec fn first_fault(a: Seq<char>, b: Seq<char>) -> Option<Seq<char>> {
    match url_fault(a) {
        Some(fault) => Some(fault),
        None => url_fault(b),
    }
}

/// What the URL parser says of the first URL of an authorization that is none.
pub open spec fn authorization_fault(
    provider: OAuthProvider,
    credentials: ProviderCredentials,
) -> Option<Seq<char>> {
    match first_fault(auth_endpoint(provider), token_endpoint(provider)) {
        Some(fault) => Some(fault),
        None => url_fault(credentials.redirect_uri),
    }
}

/// `request` asks a user for consent, under a state and a verifier: it leads to
/// the consent screen, and its entry holds the authorization as pending.
pub open spec fn asks_consent(
    request: AuthorizationRequest,
    provider: OAuthProvider,
    credentials: ProviderCredentials,
    state: Seq<char>,
    verifier: Seq<char>,
) -> bool {
    &&& request.state_key@ == state
    &&& request.url@ == consent_url(
        auth_endpoint(provider),
        credentials.client_id,
        credentials.redirect_uri,
        scopes_of(provider),
        state,
        verifier,
    )
    &&& holds_pending(request.entry, state, provider, verifier)
}

/// The exchange of a code with a provider.
pub open spec fn exchange_model(
    provider: OAuthProvider,
    credentials: ProviderCredentials,
    code: Seq<char>,
    verifier: Seq<char>,
) -> ExchangeModel {
    ExchangeModel { token_url: token_endpoint(provider), credentials, code, verifier }
}

/// The error of a text that is no URL.
pub open spec fn no_url(e: OAuthError, fault: Seq<char>) -> bool {
    e matches OAuthError::InvalidRedirectUri(text) && text@ == fault
}

/// The error of a profile that lacks a field.
pub open spec fn lacks(e: OAuthError, field: Seq<char>) -> bool {
    e matches OAuthError::IncompleteProfile(f) && f@ == field
}

/// `profile` is the profile that Google's information makes up.
pub open spec fn is_google_profile(info: GoogleUserInfo, profile: OAuthProfile) -> bool {
    &&& profile.provider == OAuthProvider::Google
    &&& info.sub == Some(profile.provider_user_id)
    &&& info.email == Some(profile.email)
    &&& profile.display_name == info.name
    &&& profile.avatar_url == info.picture
}

/// `profile` is the profile that GitHub's information makes up, with an email.
/// A user without a name goes by the login.
pub open spec fn is_github_profile(
    info: GitHubUserInfo,
    email: String,
    profile: OAuthProfile,
) -> bool {
    &&& profile.provider == OAuthProvider::GitHub
    &&& info.id matches Some(id) && profile.provider_user_id@ == decimal_digits(id as nat)
    &&& profile.email == email
    &&& profile.display_name == match info.name {
        Some(name) => Some(name),
        None => info.login,
    }
    &&& profile.avatar_url == info.avatar_url
}

/// The first required field that GitHub's information lacks, besides the email.
pub open spec fn github_lack(info: GitHubUserInfo) -> Option<Seq<char>> {
    if info.id is None {
        Some("id"@)
    } else if info.login is None {
        Some("login"@)
    } else {
        None
    }
}

/// The address is the user's own and first one.
pub open spec fn is_primary(email: GitHubEmail) -> bool {
    email.primary && email.verified
}

/// `email` is the first primary verified address of a list.
pub open spec fn is_first_primary(emails: Seq<GitHubEmail>, email: String) -> bool {
    exists|i: int|
        {
            &&& 0 <= i < emails.len()
            &&& is_primary(#[trigger] emails[i])
            &&& emails[i].email == email
            &&& forall|j: int| 0 <= j < i ==> !is_primary(#[trigger] emails[j])
        }
}

impl StateStore {
    #[must_use]
    pub fn new() -> (r: Self)
        ensures
            r == (StateStore {  }),
    {
        StateStore {  }
    }

    /// Wrap in an [`Arc`] for sharing across handler clones.
    #[must_use]
    pub fn shared(self) -> (r: Arc<Self>)
        ensures
            *r == self,
    {
        Arc::new(self)
    }

    /// The key of the entry for `state`.
    pub fn key(&self, state: &str) -> (r: String)
        ensures
            r@ == state_key(state@),
    {
        join(KEY_PREFIX, state)
    }

    /// The entry for a pending authorization.
    pub fn insert(&self, state: &str, provider: OAuthProvider, verifier: &str) -> (r: StateEntry)
        ensures
            holds_pending(r, state@, provider, verifier@),
    {
        let mut pending = json_object();
        json_insert(&mut pending, "verifier_secret", JsonScalar::Text(verifier.to_owned()));
        json_insert(&mut pending, "provider", JsonScalar::Text(provider.slug().to_owned()));
        assert(scalars_only(pending_members(provider, verifier@)));
        let payload = match json_to_string(&pending) {
            Ok(text) => text,
            // Invariant: an object always has a JSON form.
            Err(_) => String::new(),
        };
        StateEntry { key: self.key(state), payload, ttl_secs: STATE_TTL_SECS }
    }

    /// The PKCE verifier of the pending authorization that was retrieved and
    /// deleted for a state.
    ///
    /// There is none when the key is absent (never existed, already consumed, or
    /// expired). The retrieval deletes the entry, so a valid callback URL cannot
    /// be replayed even if observed in browser history or server logs.
    ///
    /// # Errors
    ///
    /// Returns [`OAuthError::InvalidState`] if there is no entry or it cannot be
    /// read, and [`OAuthError::ProviderMismatch`] if it is another provider's.
    pub fn take(&self, raw: Option<String>, expected_provider: OAuthProvider) -> (r: Result<
        String,
        OAuthError,
    >)
        ensures
            claims_pending(text_of(raw), expected_provider, r),
    {
        let raw = match raw {
            Some(raw) => raw,
            None => return Err(OAuthError::InvalidState),
        };
        let stored = match json_from_str(raw.as_str()) {
            Ok(stored) => stored,
            Err(_) => return Err(OAuthError::InvalidState),
        };
        let verifier = match text_field(&stored, "verifier_secret") {
            Some(verifier) => verifier,
            None => return Err(OAuthError::InvalidState),
        };
        let name = match text_field(&stored, "provider") {
            Some(name) => name,
            None => return Err(OAuthError::InvalidState),
        };
        let actual = match OAuthProvider::from_slug(name.as_str()) {
            Some(actual) => actual,
            None => return Err(OAuthError::InvalidState),
        };
        if actual != expected_provider {
            return Err(OAuthError::ProviderMismatch { expected: expected_provider, actual });
        }
        Ok(verifier)
    }
}

/// Static provider endpoints: the consent screen and the token endpoint.
/// Extending to a third provider means adding one arm here and in
/// [`provider_scopes`].
pub fn provider_endpoints(provider: OAuthProvider) -> (r: (&'static str, &'static str))
    ensures
        r.0@ == auth_endpoint(provider),
        r.1@ == token_endpoint(provider),
{
    match provider {
        OAuthProvider::Google => (
            "https://accounts.google.com/o/oauth2/v2/auth",
            "https://oauth2.googleapis.com/token",
        ),
        OAuthProvider::GitHub => (
            "https://github.com/login/oauth/authorize",
            "https://github.com/login/oauth/access_token",
        ),
    }
}

/// Scopes to request from each provider.
pub fn provider_scopes(provider: OAuthProvider) -> (r: Vec<String>)
    ensures
        texts(r@) == scopes_of(provider),
{
    let mut scopes: Vec<String> = Vec::new();
    match provider {
        OAuthProvider::Google => {
            scopes.push("openid".to_owned());
            scopes.push("email".to_owned());
            scopes.push("profile".to_owned());
        },
        OAuthProvider::GitHub => {
            scopes.push("read:user".to_owned());
            scopes.push("user:email".to_owned());
        },
    }
    assert(texts(scopes@) =~= scopes_of(provider));
    scopes
}

/// The consent-screen URL for a state and a verifier, with the entry that holds
/// them as pending.
///
/// # Errors
///
/// Returns [`OAuthError::InvalidRedirectUri`] if the stored redirect URI is malformed.
pub fn authorization_request(
    provider: OAuthProvider,
    provider_cfg: &OAuthProviderConfig,
    store: &StateStore,
    state: String,
    verifier: String,
) -> (r: Result<AuthorizationRequest, OAuthError>)
    requires
        43 <= encode_utf8(verifier@).len() <= 128,
    ensures
        match r {
            Ok(request) => {
                &&& asks_consent(request, provider, provider_cfg@, state@, verifier@)
                &&& authorization_fault(provider, provider_cfg@) is None
            },
            Err(e) => match authorization_fault(provider, provider_cfg@) {
                Some(fault) => no_url(e, fault),
                None => false,
            },
        },
{
    let (auth_url, token_url) = provider_endpoints(provider);
    if let Some(fault) = parse_fault(auth_url) {
        return Err(OAuthError::InvalidRedirectUri(fault));
    }
    if let Some(fault) = parse_fault(token_url) {
        return Err(OAuthError::InvalidRedirectUri(fault));
    }
    let scopes = provider_scopes(provider);
    match authorize_url(
        auth_url,
        provider_cfg.client_id.as_str(),
        provider_cfg.redirect_uri.as_str(),
        &scopes,
        state.as_str(),
        verifier.as_str(),
    ) {
        Ok(url) => {
            let entry = store.insert(state.as_str(), provider, verifier.as_str());
            Ok(AuthorizationRequest { url, state_key: state, entry })
        },
        Err(fault) => Err(OAuthError::InvalidRedirectUri(fault)),
    }
}

/// A request for consent under a state and a verifier that were drawn.
pub open spec fn asks_some_consent(
    request: AuthorizationRequest,
    provider: OAuthProvider,
    credentials: ProviderCredentials,
) -> bool {
    exists|verifier: Seq<char>|
        {
            &&& verifier.len() == 43
            &&& verifier_drawn(verifier)
            &&& state_drawn(request.state_key@)
            &&& #[trigger] asks_consent(
                request,
                provider,
                credentials,
                request.state_key@,
                verifier,
            )
        }
}

/// Build the provider consent-screen URL, under a random state and a random
/// PKCE verifier, and the entry of the state store.
///
/// The caller **must** put the entry into the state store before it redirects
/// the user to [`AuthorizationRequest::url`].
///
/// # Errors
///
/// Returns [`OAuthError::InvalidRedirectUri`] if the stored redirect URI is malformed.
pub fn build_authorization_url(
    provider: OAuthProvider,
    provider_cfg: &OAuthProviderConfig,
    store: &StateStore,
) -> (r: Result<AuthorizationRequest, OAuthError>)
    ensures
        match r {
            Ok(request) => {
                &&& asks_some_consent(request, provider, provider_cfg@)
                &&& request.state_key@.len() == 22
                &&& authorization_fault(provider, provider_cfg@) is None
            },
            Err(e) => match authorization_fault(provider, provider_cfg@) {
                Some(fault) => no_url(e, fault),
                None => false,
            },
        },
{
    let verifier = pkce_verifier();
    let state = csrf_token();
    authorization_request(provider, provider_cfg, store, state, verifier)
}

/// The exchange of an authorization code, with the PKCE verifier of the pending
/// authorization.
///
/// # Errors
///
/// Returns [`OAuthError::InvalidRedirectUri`] if the stored redirect URI is malformed.
pub fn exchange_code(
    provider: OAuthProvider,
    provider_cfg: &OAuthProviderConfig,
    code: String,
    verifier: String,
) -> (r: Result<CodeExchange, OAuthError>)
    ensures
        match first_fault(token_endpoint(provider), provider_cfg.redirect_uri@) {
            Some(fault) => r matches Err(e) && no_url(e, fault),
            None => r matches Ok(exchange) && exchange@ == exchange_model(
                provider,
                provider_cfg@,
                code@,
                verifier@,
            ),
        },
{
    let (_, token_url) = provider_endpoints(provider);
    if let Some(fault) = parse_fault(token_url) {
        return Err(OAuthError::InvalidRedirectUri(fault));
    }
    if let Some(fault) = parse_fault(provider_cfg.redirect_uri.as_str()) {
        return Err(OAuthError::InvalidRedirectUri(fault));
    }
    Ok(
        CodeExchange {
            token_url,
            client_id: provider_cfg.client_id.clone(),
            client_secret: provider_cfg.client_secret.clone(),
            redirect_uri: provider_cfg.redirect_uri.clone(),
            code,
            verifier,
        },
    )
}

impl ProfileEndpoint {
    /// The URL of the endpoint.
    pub open spec fn address(self) -> Seq<char> {
        match self {
            ProfileEndpoint::GoogleUser => "https://www.googleapis.com/oauth2/v3/userinfo"@,
            ProfileEndpoint::GitHubUser => "https://api.github.com/user"@,
            ProfileEndpoint::GitHubEmails => "https://api.github.com/user/emails"@,
        }
    }

    /// The URL of the endpoint.
    pub fn url(self) -> (r: &'static str)
        ensures
            r@ == self.address(),
    {
        match self {
            ProfileEndpoint::GoogleUser => "https://www.googleapis.com/oauth2/v3/userinfo",
            ProfileEndpoint::GitHubUser => "https://api.github.com/user",
            ProfileEndpoint::GitHubEmails => "https://api.github.com/user/emails",
        }
    }

    /// The user agent that the endpoint asks for: GitHub refuses requests
    /// without one.
    pub fn user_agent(self) -> (r: Option<&'static str>)
        ensures
            match r {
                Some(agent) => agent@ == "your-app-name"@ && self != ProfileEndpoint::GoogleUser,
                None => self == ProfileEndpoint::GoogleUser,
            },
    {
        match self {
            ProfileEndpoint::GoogleUser => None,
            ProfileEndpoint::GitHubUser => Some("your-app-name"),
            ProfileEndpoint::GitHubEmails => Some("your-app-name"),
        }
    }
}

/// The endpoint at which a provider shows a user.
pub open spec fn user_endpoint(provider: OAuthProvider) -> ProfileEndpoint {
    match provider {
        OAuthProvider::Google => ProfileEndpoint::GoogleUser,
        OAuthProvider::GitHub => ProfileEndpoint::GitHubUser,
    }
}

/// The endpoint at which the authenticated user's profile is fetched.
pub fn fetch_user_profile(provider: OAuthProvider) -> (r: ProfileEndpoint)
    ensures
        r == user_endpoint(provider),
{
    match provider {
        OAuthProvider::Google => ProfileEndpoint::GoogleUser,
        OAuthProvider::GitHub => ProfileEndpoint::GitHubUser,
    }
}

/// Normalise what Google says of a user.
///
/// # Errors
///
/// Returns [`OAuthError::IncompleteProfile`] if a required field is absent.
pub fn fetch_google_profile(info: GoogleUserInfo) -> (r: Result<OAuthProfile, OAuthError>)
    ensures
        match r {
            Ok(profile) => is_google_profile(info, profile),
            Err(e) => {
                ||| info.sub is None && lacks(e, "sub"@)
                ||| info.sub is Some && info.email is None && lacks(e, "email"@)
            },
        },
{
    let provider_user_id = match info.sub {
        Some(sub) => sub,
        None => return Err(OAuthError::IncompleteProfile("sub")),
    };
    let email = match info.email {
        Some(email) => email,
        None => return Err(OAuthError::IncompleteProfile("email")),
    };
    Ok(
        OAuthProfile {
            provider: OAuthProvider::Google,
            provider_user_id,
            email,
            display_name: info.name,
            avatar_url: info.picture,
        },
    )
}

/// Normalise what GitHub says of a user, with the email that it gave or that was
/// found among the user's addresses.
///
/// # Errors
///
/// Returns [`OAuthError::IncompleteProfile`] if a required field is absent.
pub fn fetch_github_profile(info: GitHubUserInfo, email: String) -> (r: Result<
    OAuthProfile,
    OAuthError,
>)
    ensures
        match r {
            Ok(profile) => github_lack(info) is None && is_github_profile(info, email, profile),
            Err(e) => match github_lack(info) {
                Some(field) => lacks(e, field),
                None => false,
            },
        },
{
    let id: u64 = match info.id {
        Some(id) => id,
        None => return Err(OAuthError::IncompleteProfile("id")),
    };
    let login = match info.login {
        Some(login) => login,
        None => return Err(OAuthError::IncompleteProfile("login")),
    };
    let display_name = match info.name {
        Some(name) => Some(name),
        None => Some(login),
    };
    Ok(
        OAuthProfile {
            provider: OAuthProvider::GitHub,
            provider_user_id: decimal(id),
            email,
            display_name,
            avatar_url: info.avatar_url,
        },
    )
}

/// The primary verified email among those that GitHub's `/user/emails` endpoint
/// gives.
///
/// They are only asked for when the public profile omits the email (common for
/// users who mark it private).
///
/// # Errors
///
/// Returns [`OAuthError::IncompleteProfile`] if none is primary and verified.
pub fn fetch_github_primary_email(emails: Vec<GitHubEmail>) -> (r: Result<String, OAuthError>)
    ensures
        match r {
            Ok(email) => is_first_primary(emails@, email),
            Err(e) => {
                &&& forall|i: int| 0 <= i < emails@.len() ==> !is_primary(#[trigger] emails@[i])
                &&& lacks(e, "email"@)
            },
        },
{
    let mut i: usize = 0;
    while i < emails.len()
        invariant
            i <= emails@.len(),
            forall|j: int| 0 <= j < i ==> !is_primary(#[trigger] emails@[j]),
        decreases emails@.len() - i,
    {
        if emails[i].primary && emails[i].verified {
            return Ok(emails[i].email.clone());
        }
        i += 1;
    }
    Err(OAuthError::IncompleteProfile("email"))
}

/// Names of the members of a pending authorization are distinct.
proof fn lemma_pending_names()
    ensures
        "verifier_secret"@ != "provider"@,
{
    reveal_strlit("verifier_secret");
    reveal_strlit("provider");
    assert("verifier_secret"@.len() == 15);
    assert("provider"@.len() == 8);
}

/// A pending authorization holds its verifier and its provider.
pub(crate) proof fn lemma_pending_reads_back(
    entry: StateEntry,
    state: Seq<char>,
    provider: OAuthProvider,
    verifier: Seq<char>,
)
    requires
        holds_pending(entry, state, provider, verifier),
    ensures
        pending_in(entry.payload@) == Some((verifier, provider)),
{
    lemma_pending_names();
    crate::config::law_slug_reads_back(provider);
}

/// A pending authorization gives its verifier back to the provider that it is
/// for, and to no other.
pub proof fn law_pending_authorization_reads_back(
    entry: StateEntry,
    state: Seq<char>,
    provider: OAuthProvider,
    verifier: Seq<char>,
    expected: OAuthProvider,
    r: Result<String, OAuthError>,
)
    requires
        holds_pending(entry, state, provider, verifier),
        claims_pending(Some(entry.payload@), expected, r),
    ensures
        expected == provider ==> (r matches Ok(v) && v@ == verifier),
        expected != provider ==> r == Err::<String, OAuthError>(
            OAuthError::ProviderMismatch { expected, actual: provider },
        ),
{
    lemma_pending_names();
    crate::config::law_slug_reads_back(provider);
}

/// The client secret stays out of an authorization: with another secret, the URL,
/// the state, the entry of the state store and the fault of a malformed URL are
/// the same.
pub proof fn law_secret_stays_out_of_the_authorization(
    provider: OAuthProvider,
    a: ProviderCredentials,
    b: ProviderCredentials,
    state: Seq<char>,
    verifier: Seq<char>,
    request_a: AuthorizationRequest,
    request_b: AuthorizationRequest,
)
    requires
        a.client_id == b.client_id,
        a.redirect_uri == b.redirect_uri,
        asks_consent(request_a, provider, a, state, verifier),
        asks_consent(request_b, provider, b, state, verifier),
    ensures
        request_a.url@ == request_b.url@,
        request_a.state_key@ == request_b.state_key@,
        request_a.entry.key@ == request_b.entry.key@,
        request_a.entry.payload@ == request_b.entry.payload@,
        request_a.entry.ttl_secs == request_b.entry.ttl_secs,
        authorization_fault(provider, a) == authorization_fault(provider, b),
{
}

/// Two states never share a key.
pub proof fn law_states_have_their_own_keys(a: Seq<char>, b: Seq<char>)
    requires
        state_key(a) == state_key(b),
    ensures
        a == b,
{
    let n = KEY_PREFIX@.len() as int;
    assert(state_key(a).skip(n) =~= a);
    assert(state_key(b).skip(n) =~= b);
}

} // verus!
