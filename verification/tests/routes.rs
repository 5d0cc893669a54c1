use axum::http::{HeaderMap, HeaderValue};
use std::collections::BTreeMap;
use yaima::config::{Config, OAuthConfig, OAuthProviderConfig};
use yaima::errors::{AppError, OAuthError};
use yaima::models::{
    AuthMethod, ChangePasswordRequest, LoginRequest, Provider, RefreshRequest, RegisterRequest,
    Role, Timestamp, UpdateRoleRequest, User,
};
use yaima::routes::admin::update_user_role;
use yaima::routes::auth::{
    authorize, callback, login, logout, refresh, register, resolve_provider, resume,
    CallbackParams, OAuthAction, OAuthEvent, OAuthFlow, OAuthStep,
};
use yaima::routes::users::{change_password, deactivate_account, get_me};
use yaima::services::auth::AuthService;
use yaima::services::flow::{Flow, Step};
use yaima::services::oauth::{
    GitHubEmail, GitHubUserInfo, GoogleUserInfo, ProfileEndpoint, StateStore,
};
use yaima::services::store::{StoreReply, StoreRequest};
use yaima::services::token::TokenService;
use yaima::services::user::UserService;
use yaima::state::AppState;

fn credentials(redirect_uri: &str) -> Option<OAuthProviderConfig> {
    Some(OAuthProviderConfig {
        client_id: "id".to_owned(),
        client_secret: "secret".to_owned(),
        redirect_uri: redirect_uri.to_owned(),
    })
}

fn state_with(oauth: OAuthConfig) -> AppState {
    let config = Config {
        database_url: String::new(),
        jwt_secret: "0123456789abcdef0123456789abcdef".to_owned(),
        redis_url: Some("redis://cache".to_owned()),
        access_token_expiry_secs: 900,
        refresh_token_expiry_secs: 604_800,
        bind_addr: String::new(),
        oauth,
    };
    let token = TokenService::new(config.clone());
    let user = UserService::new();
    let auth = AuthService::new(user, token.clone(), config.clone());
    AppState::new(auth, user, token, config, StateStore::new().shared())
}

fn state() -> AppState {
    state_with(OAuthConfig {
        google: credentials("https://app.example/google"),
        github: credentials("https://app.example/github"),
    })
}

fn bearing(role: Role) -> HeaderMap {
    let token =
        state().token.generate_access_token(3, "a@b", "a", role, AuthMethod::Password).unwrap();
    let mut map = HeaderMap::new();
    map.insert("authorization", HeaderValue::from_str(&format!("Bearer {token}")).unwrap());
    map
}

fn params(code: Option<&str>, csrf: Option<&str>) -> CallbackParams {
    CallbackParams {
        code: code.map(str::to_owned),
        state: csrf.map(str::to_owned),
        error: None,
        error_description: None,
    }
}

fn user() -> User {
    let now = Timestamp { unix_nanos: 0, offset_secs: 0 };
    User {
        id: 3,
        email: "ada@example.com".to_owned(),
        display_name: "ada".to_owned(),
        role: Role::User,
        is_active: true,
        created_at: now,
        updated_at: now,
    }
}

fn refused(step: OAuthStep) -> AppError {
    match step {
        OAuthStep::Refuse(e) => e,
        _ => panic!("not refused"),
    }
}

/// Begin an authorization, and put its entry into the store.
fn begin(slug: &str, store: &mut BTreeMap<String, String>) -> String {
    let (entry, then) = match authorize(slug, &state()) {
        OAuthStep::Perform { action: OAuthAction::PutState(entry), then } => (entry, then),
        _ => panic!("no state put"),
    };
    let csrf = entry.key["oauth_state:".len()..].to_owned();
    store.insert(entry.key, entry.payload);
    match resume(&state(), then, OAuthEvent::StatePut) {
        OAuthStep::Redirect { location } => {
            assert!(location.contains(&format!("state={csrf}")));
        }
        _ => panic!("no redirect"),
    }
    csrf
}

/// Call back with a state, and take its entry out of the store.
fn return_with(slug: &str, csrf: &str, store: &mut BTreeMap<String, String>) -> OAuthStep {
    match callback(slug, params(Some("code"), Some(csrf)), &state()) {
        OAuthStep::Perform { action: OAuthAction::TakeState { key }, then } => {
            resume(&state(), then, OAuthEvent::StateTaken(store.remove(&key)))
        }
        step => step,
    }
}

/// How a login goes on, from the first look-up, with a known identity.
fn sign_in(step: OAuthStep) -> OAuthStep {
    let then = match step {
        OAuthStep::Perform {
            action:
                OAuthAction::AskStore(StoreRequest::FindUserByIdentity {
                    provider: Provider::GitHub | Provider::Google,
                    ..
                }),
            then,
        } => then,
        _ => panic!("no look-up"),
    };
    let found = OAuthEvent::StoreReplied(StoreReply::User(Some(user())));
    let then = match resume(&state(), then, found) {
        OAuthStep::Perform { then, .. } => then,
        _ => panic!("no credential look-up"),
    };
    let none = OAuthEvent::StoreReplied(StoreReply::Credential(None));
    let then = match resume(&state(), then, none) {
        OAuthStep::Perform { then, .. } => then,
        _ => panic!("no token recorded"),
    };
    resume(&state(), then, OAuthEvent::StoreReplied(StoreReply::Done))
}

#[test]
fn slug_should_resolve_when_known() {
    assert!(resolve_provider("google").is_ok());
    assert!(matches!(
        resolve_provider("gitlab"),
        Err(AppError::OAuth(OAuthError::UnknownProvider(slug))) if slug == "gitlab"
    ));
}

#[test]
fn authorize_should_be_refused_when_provider_is_unknown_or_not_configured() {
    let e = refused(authorize("gitlab", &state()));
    assert_eq!(e.status_code(), 404);
    let e = refused(authorize("google", &state_with(OAuthConfig::default())));
    assert_eq!(e.status_code(), 503);
    assert_eq!(e.error_code(), "OAUTH_PROVIDER_NOT_CONFIGURED");
    let oauth = OAuthConfig { google: credentials("nowhere"), github: None };
    let e = refused(authorize("google", &state_with(oauth)));
    assert_eq!(e.error_code(), "OAUTH_INVALID_REDIRECT_URI");
}

#[test]
fn authorize_should_fail_when_state_store_does() {
    let then = || match authorize("google", &state()) {
        OAuthStep::Perform { then, .. } => then,
        _ => panic!("no state put"),
    };
    let e = refused(resume(&state(), then(), OAuthEvent::StateStoreUnreachable("x".to_owned())));
    assert_eq!(e.error_code(), "OAUTH_STATE_STORE_UNAVAILABLE");
    let e = refused(resume(&state(), then(), OAuthEvent::StateStoreFailed("x".to_owned())));
    assert_eq!(e.error_code(), "OAUTH_STATE_STORE_ERROR");
    let e = refused(resume(&state(), then(), OAuthEvent::StateTaken(None)));
    assert!(matches!(e, AppError::Internal(_)));
}

#[test]
fn callback_should_surface_denial_when_provider_reports_an_error() {
    let mut given = params(None, None);
    given.error = Some("access_denied".to_owned());
    let e = refused(callback("gitlab", given, &state()));
    assert_eq!(e.status_code(), 400);
    assert_eq!(
        e.message(),
        "provider denied authorization: access_denied — no detail provided"
    );
    let mut given = params(Some("code"), Some("state"));
    given.error = Some("e".to_owned());
    given.error_description = Some("d".to_owned());
    let e = refused(callback("google", given, &state()));
    assert_eq!(e.message(), "provider denied authorization: e — d");
}

#[test]
fn callback_should_be_refused_when_a_parameter_is_missing() {
    let e = refused(callback("google", params(None, Some("s")), &state()));
    assert!(matches!(e, AppError::OAuth(OAuthError::MissingParameter("code"))));
    let e = refused(callback("google", params(Some("c"), None), &state()));
    assert!(matches!(e, AppError::OAuth(OAuthError::MissingParameter("state"))));
    assert_eq!(e.status_code(), 400);
}

#[test]
fn callback_should_be_refused_when_provider_is_unknown_or_not_configured() {
    let e = refused(callback("gitlab", params(Some("c"), Some("s")), &state()));
    assert_eq!(e.status_code(), 404);
    let bare = state_with(OAuthConfig::default());
    let e = refused(callback("github", params(Some("c"), Some("s")), &bare));
    assert_eq!(e.status_code(), 503);
}

#[test]
fn callback_should_be_refused_when_state_is_forged_or_replayed() {
    let mut store = BTreeMap::new();
    let e = refused(return_with("google", "forged", &mut store));
    assert!(matches!(e, AppError::OAuth(OAuthError::InvalidState)));
    let csrf = begin("google", &mut store);
    assert!(matches!(
        return_with("google", &csrf, &mut store),
        OAuthStep::Perform { action: OAuthAction::ExchangeCode(_), .. }
    ));
    let e = refused(return_with("google", &csrf, &mut store));
    assert!(matches!(e, AppError::OAuth(OAuthError::InvalidState)));
    assert_eq!(e.status_code(), 401);
}

#[test]
fn callback_should_be_refused_when_first_one_failed_after_the_state() {
    let mut store = BTreeMap::new();
    let csrf = begin("google", &mut store);
    let then = match return_with("google", &csrf, &mut store) {
        OAuthStep::Perform { then, .. } => then,
        _ => panic!("no exchange"),
    };
    refused(resume(&state(), then, OAuthEvent::ExchangeFailed("no".to_owned())));
    let e = refused(return_with("google", &csrf, &mut store));
    assert!(matches!(e, AppError::OAuth(OAuthError::InvalidState)));
}

#[test]
fn callback_should_be_refused_when_state_is_of_another_provider() {
    let mut store = BTreeMap::new();
    let csrf = begin("google", &mut store);
    let e = refused(return_with("github", &csrf, &mut store));
    assert_eq!(e.error_code(), "OAUTH_PROVIDER_MISMATCH");
    assert!(store.is_empty());
}

#[test]
fn google_callback_should_redirect_when_all_goes_well() {
    let mut store = BTreeMap::new();
    let csrf = begin("google", &mut store);
    let pending: serde_json::Value =
        serde_json::from_str(&store[&format!("oauth_state:{csrf}")]).unwrap();
    let (exchange, then) = match return_with("google", &csrf, &mut store) {
        OAuthStep::Perform { action: OAuthAction::ExchangeCode(exchange), then } => (exchange, then),
        _ => panic!("no exchange"),
    };
    assert_eq!(exchange.code, "code");
    assert_eq!(exchange.redirect_uri, "https://app.example/google");
    assert_eq!(exchange.verifier.len(), 43);
    assert_eq!(pending["verifier_secret"], exchange.verifier);
    let given = OAuthEvent::CodeExchanged { access_token: "at".to_owned() };
    let then = match resume(&state(), then, given) {
        OAuthStep::Perform {
            action: OAuthAction::FetchProfile { endpoint: ProfileEndpoint::GoogleUser, access_token },
            then,
        } => {
            assert_eq!(access_token, "at");
            then
        }
        _ => panic!("no profile fetched"),
    };
    let info = GoogleUserInfo {
        sub: Some("42".to_owned()),
        email: Some("ada@example.com".to_owned()),
        name: None,
        picture: None,
    };
    match sign_in(resume(&state(), then, OAuthEvent::GoogleUser(info))) {
        OAuthStep::Redirect { location } => {
            let token = location.strip_prefix("/auth/success?token=").unwrap();
            let claims = state().token.validate_access_token(token).unwrap();
            assert_eq!(claims.sub, 3);
            assert_eq!(claims.auth_method, AuthMethod::OAuth);
        }
        _ => panic!("no redirect"),
    }
}

fn github(email: Option<&str>) -> GitHubUserInfo {
    GitHubUserInfo {
        id: Some(10),
        email: email.map(str::to_owned),
        name: None,
        avatar_url: None,
        login: Some("ada".to_owned()),
    }
}

fn fetching() -> OAuthFlow {
    OAuthFlow::FetchingGitHub { access_token: "at".to_owned() }
}

#[test]
fn github_callback_should_sign_in_when_profile_has_email() {
    let step = resume(&state(), fetching(), OAuthEvent::GitHubUser(github(Some("a@b"))));
    assert!(matches!(sign_in(step), OAuthStep::Redirect { .. }));
}

#[test]
fn github_callback_should_fetch_emails_when_profile_has_none() {
    let then = match resume(&state(), fetching(), OAuthEvent::GitHubUser(github(None))) {
        OAuthStep::Perform {
            action:
                OAuthAction::FetchProfile { endpoint: ProfileEndpoint::GitHubEmails, access_token },
            then,
        } => {
            assert_eq!(access_token, "at");
            then
        }
        _ => panic!("no emails fetched"),
    };
    let emails = vec![GitHubEmail { email: "a@b".to_owned(), primary: true, verified: true }];
    let step = resume(&state(), then, OAuthEvent::GitHubEmails(emails));
    assert!(matches!(sign_in(step), OAuthStep::Redirect { .. }));
    let then = OAuthFlow::FetchingEmails { info: github(None) };
    let e = refused(resume(&state(), then, OAuthEvent::GitHubEmails(vec![])));
    assert!(matches!(e, AppError::OAuth(OAuthError::IncompleteProfile("email"))));
}

#[test]
fn callback_should_be_refused_when_provider_fails() {
    let text = || "down".to_owned();
    let exchanging =
        OAuthFlow::ExchangingCode { provider: yaima::config::OAuthProvider::Google };
    let e = refused(resume(&state(), exchanging, OAuthEvent::ExchangeFailed(text())));
    assert_eq!(e.error_code(), "OAUTH_TOKEN_EXCHANGE_FAILED");
    for flow in [
        OAuthFlow::FetchingGoogle,
        fetching(),
        OAuthFlow::FetchingEmails { info: github(None) },
    ] {
        let e = refused(resume(&state(), flow, OAuthEvent::ProviderFailed(text())));
        assert_eq!(e.error_code(), "OAUTH_PROVIDER_UNREACHABLE");
        assert_eq!(e.status_code(), 502);
    }
    let mut info = github(None);
    info.id = None;
    let e = refused(resume(&state(), fetching(), OAuthEvent::GitHubUser(info)));
    assert!(matches!(e, AppError::OAuth(OAuthError::IncompleteProfile("id"))));
}

#[test]
fn callback_should_be_refused_when_account_is_disabled() {
    let mut closed = user();
    closed.is_active = false;
    let flow = OAuthFlow::SigningIn { flow: Flow::LinkingIdentity { user: closed } };
    let e = refused(resume(&state(), flow, OAuthEvent::StoreReplied(StoreReply::Done)));
    assert!(matches!(e, AppError::AccountDisabled));
}

#[test]
fn public_endpoints_should_begin_when_called() {
    let step = login(
        &state(),
        LoginRequest { email: "a@b".to_owned(), password: "password".to_owned() },
    );
    assert!(matches!(
        step,
        Step::Ask { request: StoreRequest::FindUserByEmail { email }, .. } if email == "a@b"
    ));
    let step = refresh(&state(), RefreshRequest { refresh_token: "raw".to_owned() });
    assert!(matches!(step, Step::Ask { request: StoreRequest::FindRefreshToken { .. }, .. }));
    let step = register(
        &state(),
        RegisterRequest {
            email: "a@b".to_owned(),
            username: "ada".to_owned(),
            password: "password".to_owned(),
        },
    );
    match step {
        Step::Ask { request: StoreRequest::Begin, then: Flow::OpeningAccount { account } } => {
            assert_eq!(account.display_name, "a");
            assert_eq!(account.username, "ada");
        }
        _ => panic!("no account opened"),
    }
}

#[test]
fn guarded_endpoints_should_begin_for_the_caller_when_let_through() {
    let headers = bearing(Role::User);
    assert!(matches!(
        logout(&state(), &bearing(Role::Guest)),
        Step::Ask {
            request: StoreRequest::RevokeUserTokens { user_id: 3 },
            then: Flow::RevokingTokens { message: Some("Logged out successfully") },
        }
    ));
    assert!(matches!(
        get_me(&state(), &headers),
        Step::Ask { request: StoreRequest::FindUserById { id: 3 }, .. }
    ));
    assert!(matches!(
        deactivate_account(&state(), &headers),
        Step::Ask {
            request: StoreRequest::Deactivate { user_id: 3 },
            then: Flow::Deactivating { user_id: 3, revoke: Some("Account deactivated") },
        }
    ));
    let req = ChangePasswordRequest {
        current_password: "old".to_owned(),
        new_password: "new".to_owned(),
    };
    assert!(matches!(
        change_password(&state(), &headers, req),
        Step::Ask {
            request: StoreRequest::FindLocalCredential { user_id: 3 },
            then: Flow::ConfirmingPassword { revoke: Some("Password updated successfully"), .. },
        }
    ));
    assert!(matches!(
        update_user_role(
            &state(),
            &bearing(Role::Admin),
            9,
            UpdateRoleRequest { role: Role::Guest }
        ),
        Step::Ask {
            request: StoreRequest::SetRole { user_id: 9, role: Role::Guest },
            then: Flow::AssigningShownRole,
        }
    ));
}

#[test]
fn guarded_endpoints_should_ask_nothing_when_caller_is_refused() {
    assert!(matches!(
        logout(&state(), &HeaderMap::new()),
        Step::Finish(Err(AppError::MissingAuthHeader))
    ));
    assert!(matches!(
        get_me(&state(), &bearing(Role::Guest)),
        Step::Finish(Err(AppError::Forbidden))
    ));
    assert!(matches!(
        deactivate_account(&state(), &HeaderMap::new()),
        Step::Finish(Err(AppError::MissingAuthHeader))
    ));
    assert!(matches!(
        update_user_role(
            &state(),
            &bearing(Role::User),
            9,
            UpdateRoleRequest { role: Role::Admin }
        ),
        Step::Finish(Err(AppError::Forbidden))
    ));
}
