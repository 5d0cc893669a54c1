//! Authentication endpoints.
use crate::config::OAuthProvider;
use crate::errors::{AppError, AppResult, OAuthError};
use crate::middleware::AuthUser;
use crate::models::{LoginRequest, RefreshRequest, RegisterRequest};
use crate::outside::headers::Headers;
use crate::services::flow::{refuse, Flow, Outcome, Step};
use crate::services::oauth::{
    build_authorization_url, exchange_code, fetch_github_primary_email, fetch_github_profile,
    fetch_google_profile, fetch_user_profile, AuthorizationRequest, CodeExchange, GitHubEmail,
    GitHubUserInfo, GoogleUserInfo, OAuthProfile, ProfileEndpoint, StateEntry,
};
use crate::services::store::{StoreReply, StoreRequest};
use crate::state::AppState;
use crate::text::join;
use vstd::prelude::*;

verus! {

use crate::config::ProviderCredentials;
use crate::middleware::Guard;
use crate::models::Uuid;
use crate::routes::users::guarded;
use crate::services::auth::{
    logs_in, looks_up_identity, registers_somehow, resumes_somehow, revokes,
};
use crate::services::oauth::{
    asks_some_consent, authorization_fault, claims_pending, exchange_model, first_fault,
    github_lack, is_first_primary, is_github_profile, is_google_profile, is_primary, lacks, no_url,
    state_key, token_endpoint, user_endpoint,
};
use crate::services::token::looks_up;
use crate::text::text_of;

/// The status of a registration that succeeded.
pub const CREATED: u16 = 201;

/// The status of a redirect.
pub const FOUND: u16 = 302;

/// Query parameters echoed back by the provider on the callback redirect.
#[derive(Debug)]
pub struct CallbackParams {
    /// The authorization code to exchange for tokens.
    pub code: Option<String>,
    /// The opaque CSRF state token that was round-tripped through the provider.
    pub state: Option<String>,
    /// Set by the provider when the user denied consent or an error occurred.
    pub error: Option<String>,
    /// Human-readable description accompanying `error`, when present.
    pub error_description: Option<String>,
}

/// What the OAuth 2.0 flow has to have done.
pub enum OAuthAction {
    /// Put an entry into the state store.
    PutState(StateEntry),
    /// Retrieve and delete an entry of the state store, atomically.
    TakeState { key: String },
    /// Exchange an authorization code for an access token.
    ExchangeCode(CodeExchange),
    /// Fetch what a provider says of the user whose access token this is.
    FetchProfile { endpoint: ProfileEndpoint, access_token: String },
    /// Put a request to the store.
    AskStore(StoreRequest),
}

/// How an [`OAuthAction`] went.
pub enum OAuthEvent {
    StatePut,
    /// The entry that was there, if any.
    StateTaken(Option<String>),
    /// No connection to the state store could be had.
    StateStoreUnreachable(String),
    /// A command of the state store failed.
    StateStoreFailed(String),
    CodeExchanged { access_token: String },
    /// The provider rejected the code.
    ExchangeFailed(String),
    GoogleUser(GoogleUserInfo),
    GitHubUser(GitHubUserInfo),
    GitHubEmails(Vec<GitHubEmail>),
    /// The request to the provider failed.
    ProviderFailed(String),
    StoreReplied(StoreReply),
}

/// What the OAuth 2.0 flow waits for, with what it has to remember meanwhile.
pub enum OAuthFlow {
    PuttingState { url: String },
    TakingState { provider: OAuthProvider, code: String },
    ExchangingCode { provider: OAuthProvider },
    FetchingGoogle,
    FetchingGitHub { access_token: String },
    FetchingEmails { info: GitHubUserInfo },
    SigningIn { flow: Flow },
}

/// What the OAuth 2.0 flow does next.
pub enum OAuthStep {
    /// Have something done and go on with how it went.
    Perform { action: OAuthAction, then: OAuthFlow },
    /// Redirect the user's browser.
    Redirect { location: String },
    /// The flow is over.
    Refuse(AppError),
}

/// The flow ends in an error of its own.
pub open spec fn turned_away(step: OAuthStep, error: OAuthError) -> bool {
    step == OAuthStep::Refuse(AppError::OAuth(error))
}

/// The flow ends because of a text that is no URL.
pub open spec fn misconfigured(step: OAuthStep, fault: Seq<char>) -> bool {
    step matches OAuthStep::Refuse(AppError::OAuth(e)) && no_url(e, fault)
}

/// The flow ends because the profile lacks a field.
pub open spec fn incomplete(step: OAuthStep, field: Seq<char>) -> bool {
    step matches OAuthStep::Refuse(AppError::OAuth(e)) && lacks(e, field)
}

/// The flow ends because a parameter of the request is missing.
pub open spec fn lacks_parameter(step: OAuthStep, name: Seq<char>) -> bool {
    step matches OAuthStep::Refuse(AppError::OAuth(OAuthError::MissingParameter(n))) && n@ == name
}

/// The flow ends because something failed that should not.
pub open spec fn broke_off(step: OAuthStep) -> bool {
    step matches OAuthStep::Refuse(e) && e is Internal
}

/// The flow ends because the provider is not known.
pub open spec fn unknown_provider(step: OAuthStep, slug: Seq<char>) -> bool {
    step matches OAuthStep::Refuse(AppError::OAuth(OAuthError::UnknownProvider(s))) && s@ == slug
}

/// The path to which a user who is authenticated is redirected.
pub open spec fn success_location(access_token: Seq<char>) -> Seq<char> {
    "/auth/success?token="@ + access_token
}

/// `step` redirects to `location`.
pub open spec fn redirects(step: OAuthStep, location: Seq<char>) -> bool {
    step matches OAuthStep::Redirect { location: l } && l@ == location
}

/// `step` puts the pending authorization into the state store before it leads
/// to the consent screen.
pub open spec fn registers_state(
    provider: OAuthProvider,
    credentials: ProviderCredentials,
    step: OAuthStep,
) -> bool {
    exists|request: AuthorizationRequest|
        {
            &&& #[trigger] asks_some_consent(request, provider, credentials)
            &&& step == (OAuthStep::Perform {
                action: OAuthAction::PutState(request.entry),
                then: OAuthFlow::PuttingState { url: request.url },
            })
        }
}

/// What a request for a provider's consent screen comes to.
pub open spec fn begins_authorization(state: AppState, slug: Seq<char>, step: OAuthStep) -> bool {
    match OAuthProvider::named(slug) {
        None => unknown_provider(step, slug),
        Some(provider) => match state.config.oauth.credentials(provider) {
            None => turned_away(step, OAuthError::ProviderNotConfigured(provider)),
            Some(credentials) => match authorization_fault(provider, credentials) {
                Some(fault) => misconfigured(step, fault),
                None => registers_state(provider, credentials, step),
            },
        },
    }
}

/// The detail that accompanies an error of the provider.
pub open spec fn denial_detail(params: CallbackParams) -> Seq<char> {
    match params.error_description {
        Some(detail) => detail@,
        None => "no detail provided"@,
    }
}

/// What a callback comes to at first. An error that the provider reports comes
/// before all else; then the parameters have to be there; then the provider has
/// to be known and configured. Only then is the state taken.
pub open spec fn begins_callback(
    state: AppState,
    slug: Seq<char>,
    params: CallbackParams,
    step: OAuthStep,
) -> bool {
    match (params.error, params.code, params.state) {
        (Some(error), _, _) => match step {
            OAuthStep::Refuse(AppError::OAuth(OAuthError::ProviderDenied { error: e, detail })) => {
                &&& e == error
                &&& detail@ == denial_detail(params)
            },
            _ => false,
        },
        (None, None, _) => lacks_parameter(step, "code"@),
        (None, Some(_), None) => lacks_parameter(step, "state"@),
        (None, Some(code), Some(csrf_state)) => match OAuthProvider::named(slug) {
            None => unknown_provider(step, slug),
            Some(provider) => if state.config.oauth.credentials(provider) is None {
                turned_away(step, OAuthError::ProviderNotConfigured(provider))
            } else {
                match step {
                    OAuthStep::Perform {
                        action: OAuthAction::TakeState { key },
                        then: OAuthFlow::TakingState { provider: p, code: c },
                    } => {
                        &&& key@ == state_key(csrf_state@)
                        &&& p == provider
                        &&& c == code
                    },
                    _ => false,
                }
            },
        },
    }
}

/// What follows the putting of the state: the redirect to the consent screen.
pub open spec fn state_put(url: Seq<char>, event: OAuthEvent, step: OAuthStep) -> bool {
    match event {
        OAuthEvent::StatePut => redirects(step, url),
        OAuthEvent::StateStoreUnreachable(text) => turned_away(step, OAuthError::StateStore(text)),
        OAuthEvent::StateStoreFailed(text) => turned_away(step, OAuthError::StateStoreRedis(text)),
        _ => broke_off(step),
    }
}

/// `step` exchanges a code with a provider, by the verifier that was taken from
/// the state store.
pub open spec fn exchanges_code(
    state: AppState,
    provider: OAuthProvider,
    code: Seq<char>,
    verifier: Seq<char>,
    step: OAuthStep,
) -> bool {
    match state.config.oauth.credentials(provider) {
        None => turned_away(step, OAuthError::ProviderNotConfigured(provider)),
        Some(credentials) => match first_fault(
            token_endpoint(provider),
            credentials.redirect_uri,
        ) {
            Some(fault) => misconfigured(step, fault),
            None => match step {
                OAuthStep::Perform {
                    action: OAuthAction::ExchangeCode(exchange),
                    then: OAuthFlow::ExchangingCode { provider: p },
                } => {
                    &&& exchange@ == exchange_model(provider, credentials, code, verifier)
                    &&& p == provider
                },
                _ => false,
            },
        },
    }
}

/// What follows the taking of the state: the exchange of the code, if the state
/// holds a pending authorization of that provider.
pub open spec fn state_taken(
    state: AppState,
    provider: OAuthProvider,
    code: Seq<char>,
    event: OAuthEvent,
    step: OAuthStep,
) -> bool {
    match event {
        OAuthEvent::StateTaken(entry) => exists|r: Result<String, OAuthError>|
            {
                &&& #[trigger] claims_pending(text_of(entry), provider, r)
                &&& match r {
                    Ok(verifier) => exchanges_code(state, provider, code, verifier@, step),
                    Err(e) => turned_away(step, e),
                }
            },
        OAuthEvent::StateStoreUnreachable(text) => turned_away(step, OAuthError::StateStore(text)),
        OAuthEvent::StateStoreFailed(text) => turned_away(step, OAuthError::StateStoreRedis(text)),
        _ => broke_off(step),
    }
}

/// What follows the exchange of the code: the profile is fetched.
pub open spec fn code_exchanged(
    provider: OAuthProvider,
    event: OAuthEvent,
    step: OAuthStep,
) -> bool {
    match event {
        OAuthEvent::CodeExchanged { access_token } => match step {
            OAuthStep::Perform {
                action: OAuthAction::FetchProfile { endpoint, access_token: token },
                then,
            } => {
                &&& endpoint == user_endpoint(provider)
                &&& token@ == access_token@
                &&& match provider {
                    OAuthProvider::Google => then is FetchingGoogle,
                    OAuthProvider::GitHub => then matches OAuthFlow::FetchingGitHub {
                        access_token: kept,
                    } && kept@ == access_token@,
                }
            },
            _ => false,
        },
        OAuthEvent::ExchangeFailed(text) => turned_away(step, OAuthError::TokenExchange(text)),
        _ => broke_off(step),
    }
}

/// `step` is how the flow goes on with a step of the login.
pub open spec fn carries(inner: Step, step: OAuthStep) -> bool {
    match inner {
        Step::Ask { request, then } => step == (OAuthStep::Perform {
            action: OAuthAction::AskStore(request),
            then: OAuthFlow::SigningIn { flow: then },
        }),
        Step::Finish(Ok(Outcome::Tokens(response))) => redirects(
            step,
            success_location(response.access_token@),
        ),
        Step::Finish(Ok(_)) => broke_off(step),
        Step::Finish(Err(e)) => step == OAuthStep::Refuse(e),
    }
}

/// `step` begins to sign a profile in.
pub open spec fn signs_in(profile: OAuthProfile, step: OAuthStep) -> bool {
    exists|inner: Step| #[trigger] looks_up_identity(profile, inner) && carries(inner, step)
}

/// What follows what Google said of the user: the user is signed in.
pub open spec fn google_user_fetched(event: OAuthEvent, step: OAuthStep) -> bool {
    match event {
        OAuthEvent::GoogleUser(info) => if info.sub is None {
            incomplete(step, "sub"@)
        } else if info.email is None {
            incomplete(step, "email"@)
        } else {
            exists|profile: OAuthProfile| #[trigger]
                is_google_profile(info, profile) && signs_in(profile, step)
        },
        OAuthEvent::ProviderFailed(text) => turned_away(
            step,
            OAuthError::ProviderUnreachable(text),
        ),
        _ => broke_off(step),
    }
}

/// `step` signs a GitHub user in, by an email.
pub open spec fn signs_github_in(info: GitHubUserInfo, email: String, step: OAuthStep) -> bool {
    exists|profile: OAuthProfile| #[trigger]
        is_github_profile(info, email, profile) && signs_in(profile, step)
}

/// What follows what GitHub said of the user: the user is signed in, or the
/// email addresses are fetched where the profile has none.
pub open spec fn github_user_fetched(
    access_token: Seq<char>,
    event: OAuthEvent,
    step: OAuthStep,
) -> bool {
    match event {
        OAuthEvent::GitHubUser(info) => match github_lack(info) {
            Some(field) => incomplete(step, field),
            None => match info.email {
                Some(email) => signs_github_in(info, email, step),
                None => match step {
                    OAuthStep::Perform {
                        action: OAuthAction::FetchProfile { endpoint, access_token: token },
                        then: OAuthFlow::FetchingEmails { info: kept },
                    } => {
                        &&& endpoint == ProfileEndpoint::GitHubEmails
                        &&& token@ == access_token
                        &&& kept == info
                    },
                    _ => false,
                },
            },
        },
        OAuthEvent::ProviderFailed(text) => turned_away(
            step,
            OAuthError::ProviderUnreachable(text),
        ),
        _ => broke_off(step),
    }
}

/// What follows the email addresses of a GitHub user: the user is signed in by
/// the first that is primary and verified.
pub open spec fn github_emails_fetched(
    info: GitHubUserInfo,
    event: OAuthEvent,
    step: OAuthStep,
) -> bool {
    match event {
        OAuthEvent::GitHubEmails(emails) => {
            ||| {
                &&& forall|i: int| 0 <= i < emails@.len() ==> !is_primary(#[trigger] emails@[i])
                &&& incomplete(step, "email"@)
            }
            ||| exists|email: String|
                {
                    &&& #[trigger] is_first_primary(emails@, email)
                    &&& match github_lack(info) {
                        Some(field) => incomplete(step, field),
                        None => signs_github_in(info, email, step),
                    }
                }
        },
        OAuthEvent::ProviderFailed(text) => turned_away(
            step,
            OAuthError::ProviderUnreachable(text),
        ),
        _ => broke_off(step),
    }
}

/// What follows a reply of the store while the user is signed in.
pub open spec fn store_replied(
    state: AppState,
    flow: Flow,
    event: OAuthEvent,
    step: OAuthStep,
) -> bool {
    match event {
        OAuthEvent::StoreReplied(reply) => exists|inner: Step| #[trigger]
            resumes_somehow(state.auth, flow, reply, inner) && carries(inner, step),
        _ => broke_off(step),
    }
}

/// `step` is how the flow goes on that waited as `flow` and saw `event`.
pub open spec fn oauth_resumes(
    state: AppState,
    flow: OAuthFlow,
    event: OAuthEvent,
    step: OAuthStep,
) -> bool {
    match flow {
        OAuthFlow::PuttingState { url } => state_put(url@, event, step),
        OAuthFlow::TakingState { provider, code } => state_taken(
            state,
            provider,
            code@,
            event,
            step,
        ),
        OAuthFlow::ExchangingCode { provider } => code_exchanged(provider, event, step),
        OAuthFlow::FetchingGoogle => google_user_fetched(event, step),
        OAuthFlow::FetchingGitHub { access_token } => github_user_fetched(
            access_token@,
            event,
            step,
        ),
        OAuthFlow::FetchingEmails { info } => github_emails_fetched(info, event, step),
        OAuthFlow::SigningIn { flow: inner } => store_replied(state, inner, event, step),
    }
}

/// Register a new user account.
///
/// # Errors
///
/// Ends in an error if the email or username is already taken, or if one of them
/// or the password is not acceptable.
pub fn register(state: &AppState, req: RegisterRequest) -> (r: Step)
    ensures
        registers_somehow(req.email@, req.username@, req.password@, r),
{
    state.auth.register(req.email.as_str(), req.username.as_str(), req.password.as_str())
}

/// Authenticate with email and password.
///
/// # Errors
///
/// Ends in an error if the credentials are invalid.
pub fn login(state: &AppState, req: LoginRequest) -> (r: Step)
    ensures
        logs_in(req.email@, req.password@, r),
{
    state.auth.login(req.email.as_str(), req.password.as_str())
}

/// Exchange a refresh token for a new token pair.
///
/// # Errors
///
/// Ends in an error if the refresh token is invalid or expired.
pub fn refresh(state: &AppState, req: RefreshRequest) -> (r: Step)
    ensures
        looks_up(req.refresh_token@, r),
{
    state.auth.refresh(req.refresh_token.as_str())
}

/// Revoke all refresh tokens for the currently authenticated user.
///
/// # Errors
///
/// Ends in an error if the caller is not let through.
pub fn logout(state: &AppState, headers: &Headers) -> (r: Step)
    ensures
        guarded(
            *state,
            *headers,
            Guard::Open,
            |id: Uuid| revokes(id, Some("Logged out successfully"@), r),
            r,
        ),
{
    match AuthUser::from_request_parts(headers, state) {
        Ok(AuthUser(claims)) => state.auth.logout_then(
            claims.sub,
            Some("Logged out successfully"),
        ),
        Err(e) => refuse(e),
    }
}

/// Resolve a URL path segment to an [`OAuthProvider`].
///
/// # Errors
///
/// Returns [`OAuthError::UnknownProvider`] if there is none of that name.
pub fn resolve_provider(slug: &str) -> (r: AppResult<OAuthProvider>)
    ensures
        match r {
            Ok(provider) => OAuthProvider::named(slug@) == Some(provider),
            Err(AppError::OAuth(OAuthError::UnknownProvider(s))) => {
                OAuthProvider::named(slug@) is None && s@ == slug@
            },
            Err(_) => false,
        },
{
    match OAuthProvider::from_slug(slug) {
        Some(provider) => Ok(provider),
        None => Err(AppError::OAuth(OAuthError::UnknownProvider(slug.to_owned()))),
    }
}

fn turn_away(error: OAuthError) -> (r: OAuthStep)
    ensures
        turned_away(r, error),
{
    OAuthStep::Refuse(AppError::from(error))
}

fn break_off() -> (r: OAuthStep)
    ensures
        broke_off(r),
{
    OAuthStep::Refuse(AppError::Internal("unexpected event of the OAuth flow".to_owned()))
}

/// Begin to redirect the user to the provider's consent screen.
///
/// Resolves the provider slug and builds the PKCE authorization URL. The PKCE
/// verifier and CSRF state are put into the state store before the redirect is
/// issued, and stay there until the callback arrives.
///
/// # Errors
///
/// Ends in [`OAuthError::UnknownProvider`] for unrecognised provider slugs and in
/// [`OAuthError::ProviderNotConfigured`] when the provider is recognised but its
/// credentials are not present in the server configuration.
pub fn authorize(slug: &str, state: &AppState) -> (r: OAuthStep)
    ensures
        begins_authorization(*state, slug@, r),
{
    let provider = match resolve_provider(slug) {
        Ok(provider) => provider,
        Err(e) => return OAuthStep::Refuse(e),
    };
    let provider_cfg = match state.config.oauth.provider(provider) {
        Some(cfg) => cfg,
        None => return turn_away(OAuthError::ProviderNotConfigured(provider)),
    };
    assert(state.config.oauth.credentials(provider) == Some(provider_cfg@));
    match build_authorization_url(provider, provider_cfg, &*state.oauth_store) {
        Ok(request) => {
            assert(asks_some_consent(request, provider, provider_cfg@));
            OAuthStep::Perform {
                action: OAuthAction::PutState(request.entry),
                then: OAuthFlow::PuttingState { url: request.url },
            }
        },
        Err(e) => turn_away(e),
    }
}

/// Begin to handle the provider callback, which ends in an application JWT on
/// success.
///
/// Steps:
/// 1. Surface any provider-reported error (e.g. `access_denied`) immediately.
/// 2. Validate the CSRF `state` and consume the stored PKCE verifier.
/// 3. Exchange the authorization code for a provider access token.
/// 4. Fetch and normalise the user profile.
/// 5. Find or create a local account and link the identity to it.
/// 6. Issue an application JWT.
///
/// # Errors
///
/// Ends in a `400` for missing parameters or provider-reported errors, a `401`
/// for CSRF/PKCE failures, and a `502` when the provider is unreachable.
pub fn callback(slug: &str, params: CallbackParams, state: &AppState) -> (r: OAuthStep)
    ensures
        begins_callback(*state, slug@, params, r),
{
    if let Some(error) = params.error {
        let detail = match params.error_description {
            Some(detail) => detail,
            None => "no detail provided".to_owned(),
        };
        return turn_away(OAuthError::ProviderDenied { error, detail });
    }
    let code = match params.code {
        Some(code) => code,
        None => return turn_away(OAuthError::MissingParameter("code")),
    };
    let csrf_state = match params.state {
        Some(csrf_state) => csrf_state,
        None => return turn_away(OAuthError::MissingParameter("state")),
    };
    let provider = match resolve_provider(slug) {
        Ok(provider) => provider,
        Err(e) => return OAuthStep::Refuse(e),
    };
    if state.config.oauth.provider(provider).is_none() {
        return turn_away(OAuthError::ProviderNotConfigured(provider));
    }
    OAuthStep::Perform {
        action: OAuthAction::TakeState { key: state.oauth_store.key(csrf_state.as_str()) },
        then: OAuthFlow::TakingState { provider, code },
    }
}

/// Go on with the OAuth 2.0 flow, now that it is known how the action went.
pub fn resume(state: &AppState, flow: OAuthFlow, event: OAuthEvent) -> (r: OAuthStep)
    ensures
        oauth_resumes(*state, flow, event, r),
{
    match flow {
        OAuthFlow::PuttingState { url } => after_state_put(url, event),
        OAuthFlow::TakingState { provider, code } => after_state_taken(
            state,
            provider,
            code,
            event,
        ),
        OAuthFlow::ExchangingCode { provider } => after_code_exchanged(provider, event),
        OAuthFlow::FetchingGoogle => after_google_user(state, event),
        OAuthFlow::FetchingGitHub { access_token } => after_github_user(
            state,
            access_token,
            event,
        ),
        OAuthFlow::FetchingEmails { info } => after_github_emails(state, info, event),
        OAuthFlow::SigningIn { flow: inner } => match event {
            OAuthEvent::StoreReplied(reply) => carry(state.auth.resume(inner, reply)),
            _ => break_off(),
        },
    }
}

fn after_state_put(url: String, event: OAuthEvent) -> (r: OAuthStep)
    ensures
        state_put(url@, event, r),
{
    match event {
        OAuthEvent::StatePut => OAuthStep::Redirect { location: url },
        OAuthEvent::StateStoreUnreachable(text) => turn_away(OAuthError::StateStore(text)),
        OAuthEvent::StateStoreFailed(text) => turn_away(OAuthError::StateStoreRedis(text)),
        _ => break_off(),
    }
}

fn after_state_taken(
    state: &AppState,
    provider: OAuthProvider,
    code: String,
    event: OAuthEvent,
) -> (r: OAuthStep)
    ensures
        state_taken(*state, provider, code@, event, r),
{
    let entry = match event {
        OAuthEvent::StateTaken(entry) => entry,
        OAuthEvent::StateStoreUnreachable(text) => return turn_away(OAuthError::StateStore(text)),
        OAuthEvent::StateStoreFailed(text) => return turn_away(OAuthError::StateStoreRedis(text)),
        _ => return break_off(),
    };
    let taken = state.oauth_store.take(entry, provider);
    assert(claims_pending(text_of(entry), provider, taken));
    let verifier = match taken {
        Ok(verifier) => verifier,
        Err(e) => return turn_away(e),
    };
    exchange(state, provider, code, verifier)
}

fn exchange(state: &AppState, provider: OAuthProvider, code: String, verifier: String) -> (r:
    OAuthStep)
    ensures
        exchanges_code(*state, provider, code@, verifier@, r),
{
    let provider_cfg = match state.config.oauth.provider(provider) {
        Some(cfg) => cfg,
        None => return turn_away(OAuthError::ProviderNotConfigured(provider)),
    };
    assert(state.config.oauth.credentials(provider) == Some(provider_cfg@));
    match exchange_code(provider, provider_cfg, code, verifier) {
        Ok(exchange) => OAuthStep::Perform {
            action: OAuthAction::ExchangeCode(exchange),
            then: OAuthFlow::ExchangingCode { provider },
        },
        Err(e) => turn_away(e),
    }
}

fn after_code_exchanged(provider: OAuthProvider, event: OAuthEvent) -> (r: OAuthStep)
    ensures
        code_exchanged(provider, event, r),
{
    let access_token = match event {
        OAuthEvent::CodeExchanged { access_token } => access_token,
        OAuthEvent::ExchangeFailed(text) => return turn_away(OAuthError::TokenExchange(text)),
        _ => return break_off(),
    };
    let then = match provider {
        OAuthProvider::Google => OAuthFlow::FetchingGoogle,
        OAuthProvider::GitHub => OAuthFlow::FetchingGitHub { access_token: access_token.clone() },
    };
    OAuthStep::Perform {
        action: OAuthAction::FetchProfile { endpoint: fetch_user_profile(provider), access_token },
        then,
    }
}

fn after_google_user(state: &AppState, event: OAuthEvent) -> (r: OAuthStep)
    ensures
        google_user_fetched(event, r),
{
    match event {
        OAuthEvent::GoogleUser(info) => match fetch_google_profile(info) {
            Ok(profile) => sign_in(state, profile),
            Err(e) => turn_away(e),
        },
        OAuthEvent::ProviderFailed(text) => turn_away(OAuthError::ProviderUnreachable(text)),
        _ => break_off(),
    }
}

fn after_github_user(state: &AppState, access_token: String, event: OAuthEvent) -> (r: OAuthStep)
    ensures
        github_user_fetched(access_token@, event, r),
{
    let info = match event {
        OAuthEvent::GitHubUser(info) => info,
        OAuthEvent::ProviderFailed(text) => return turn_away(OAuthError::ProviderUnreachable(text)),
        _ => return break_off(),
    };
    if info.id.is_none() {
        return turn_away(OAuthError::IncompleteProfile("id"));
    }
    if info.login.is_none() {
        return turn_away(OAuthError::IncompleteProfile("login"));
    }
    match &info.email {
        Some(email) => {
            let email = email.clone();
            sign_github_in(state, info, email)
        },
        None => OAuthStep::Perform {
            action: OAuthAction::FetchProfile {
                endpoint: ProfileEndpoint::GitHubEmails,
                access_token,
            },
            then: OAuthFlow::FetchingEmails { info },
        },
    }
}

fn after_github_emails(state: &AppState, info: GitHubUserInfo, event: OAuthEvent) -> (r: OAuthStep)
    ensures
        github_emails_fetched(info, event, r),
{
    match event {
        OAuthEvent::GitHubEmails(emails) => match fetch_github_primary_email(emails) {
            Ok(email) => sign_github_in(state, info, email),
            Err(e) => turn_away(e),
        },
        OAuthEvent::ProviderFailed(text) => turn_away(OAuthError::ProviderUnreachable(text)),
        _ => break_off(),
    }
}

fn sign_github_in(state: &AppState, info: GitHubUserInfo, email: String) -> (r: OAuthStep)
    ensures
        match github_lack(info) {
            Some(field) => incomplete(r, field),
            None => signs_github_in(info, email, r),
        },
{
    match fetch_github_profile(info, email) {
        Ok(profile) => sign_in(state, profile),
        Err(e) => turn_away(e),
    }
}

fn sign_in(state: &AppState, profile: OAuthProfile) -> (r: OAuthStep)
    ensures
        signs_in(profile, r),
{
    carry(state.auth.login_or_register_oauth(profile))
}

fn carry(inner: Step) -> (r: OAuthStep)
    ensures
        carries(inner, r),
{
    match inner {
        Step::Ask { request, then } => OAuthStep::Perform {
            action: OAuthAction::AskStore(request),
            then: OAuthFlow::SigningIn { flow: then },
        },
        Step::Finish(Ok(Outcome::Tokens(response))) => OAuthStep::Redirect {
            location: join("/auth/success?token=", response.access_token.as_str()),
        },
        Step::Finish(Ok(_)) => break_off(),
        Step::Finish(Err(e)) => OAuthStep::Refuse(e),
    }
}

} // verus!
