use axum::http::{HeaderMap, HeaderValue};
use std::sync::Arc;
use yaima::config::{Config, OAuthConfig};
use yaima::errors::AppError;
use yaima::middleware::{
    extract_bearer, require_auth_method, require_role, strip_bearer, AuthUser, RequireAdmin,
    RequireOAuthSession, RequireUser,
};
use yaima::models::{AuthMethod, Claims, Role};
use yaima::services::auth::AuthService;
use yaima::services::oauth::StateStore;
use yaima::services::token::TokenService;
use yaima::services::user::UserService;
use yaima::state::AppState;

fn state() -> AppState {
    let config = Config {
        database_url: String::new(),
        jwt_secret: "0123456789abcdef0123456789abcdef".to_owned(),
        redis_url: None,
        access_token_expiry_secs: 900,
        refresh_token_expiry_secs: 604_800,
        bind_addr: String::new(),
        oauth: OAuthConfig::default(),
    };
    let token = TokenService::new(config.clone());
    let user = UserService::new();
    let auth = AuthService::new(user, token.clone(), config.clone());
    let store: Arc<StateStore> = StateStore::new().shared();
    AppState::new(auth, user, token, config, store)
}

fn headers(value: &[u8]) -> HeaderMap {
    let mut map = HeaderMap::new();
    map.insert("authorization", HeaderValue::from_bytes(value).unwrap());
    map
}

fn bearing(role: Role, method: AuthMethod) -> HeaderMap {
    let token = state().token.generate_access_token(3, "a@b", "a", role, method).unwrap();
    headers(format!("Bearer {token}").as_bytes())
}

fn claims(role: Role, auth_method: AuthMethod) -> Claims {
    Claims {
        sub: 3,
        iat: 0,
        exp: 0,
        email: String::new(),
        display_name: String::new(),
        role,
        auth_method,
    }
}

#[test]
fn bearer_should_be_extracted_when_header_has_one() {
    assert_eq!(extract_bearer(&headers(b"Bearer abc.def")), Some("abc.def"));
    assert_eq!(extract_bearer(&headers(b"Bearer ")), Some(""));
    assert_eq!(extract_bearer(&headers(b"Bearer  x")), Some(" x"));
}

#[test]
fn bearer_should_be_absent_when_header_has_none() {
    assert_eq!(extract_bearer(&HeaderMap::new()), None);
    assert_eq!(extract_bearer(&headers(b"bearer abc")), None);
    assert_eq!(extract_bearer(&headers(b"Basic abc")), None);
    assert_eq!(extract_bearer(&headers(b"Bearer")), None);
    assert_eq!(extract_bearer(&headers(b"")), None);
    assert_eq!(extract_bearer(&headers(b"Bearer \xc3\xa9")), None);
}

#[test]
fn bearer_should_come_from_first_field_when_there_are_two() {
    let mut map = headers(b"Bearer one");
    map.append("authorization", HeaderValue::from_static("Bearer two"));
    assert_eq!(extract_bearer(&map), Some("one"));
}

#[test]
fn scheme_should_be_stripped_when_it_leads() {
    assert_eq!(strip_bearer("Bearer é"), Some("é"));
    assert_eq!(strip_bearer("xBearer y"), None);
}

#[test]
fn role_should_be_required_when_guarded() {
    let password = AuthMethod::Password;
    assert!(require_role(&claims(Role::Admin, password), Role::User).is_ok());
    assert!(matches!(
        require_role(&claims(Role::Guest, password), Role::User),
        Err(AppError::Forbidden)
    ));
    assert!(require_auth_method(&claims(Role::Guest, password), password).is_ok());
    assert!(matches!(
        require_auth_method(&claims(Role::Guest, password), AuthMethod::OAuth),
        Err(AppError::Forbidden)
    ));
}

#[test]
fn caller_should_be_known_when_token_is_valid() {
    let AuthUser(claims) =
        AuthUser::from_request_parts(&bearing(Role::Guest, AuthMethod::Password), &state())
            .unwrap();
    assert_eq!(claims.sub, 3);
    assert_eq!(claims.role, Role::Guest);
}

#[test]
fn caller_should_be_refused_when_token_is_missing_or_bad() {
    assert!(matches!(
        AuthUser::from_request_parts(&HeaderMap::new(), &state()),
        Err(AppError::MissingAuthHeader)
    ));
    assert!(matches!(
        RequireUser::from_request_parts(&headers(b"Bearer x"), &state()),
        Err(AppError::TokenInvalid)
    ));
    let stale = state()
        .token
        .generate_access_token_at(5, 3, "a@b", "a", Role::Guest, AuthMethod::Password)
        .unwrap();
    assert!(matches!(
        RequireAdmin::from_request_parts(
            &headers(format!("Bearer {stale}").as_bytes()),
            &state()
        ),
        Err(AppError::TokenExpired)
    ));
}

#[test]
fn caller_should_be_let_through_when_role_suffices() {
    let password = AuthMethod::Password;
    for (role, user, admin) in
        [(Role::Guest, false, false), (Role::User, true, false), (Role::Admin, true, true)]
    {
        let headers = bearing(role, password);
        assert_eq!(RequireUser::from_request_parts(&headers, &state()).is_ok(), user);
        assert_eq!(RequireAdmin::from_request_parts(&headers, &state()).is_ok(), admin);
    }
    assert!(matches!(
        RequireUser::from_request_parts(&bearing(Role::Guest, password), &state()),
        Err(AppError::Forbidden)
    ));
}

#[test]
fn caller_should_be_answered_alike_when_guard_follows() {
    let caller = |role, method| Ok(AuthUser(claims(role, method)));
    let (password, oauth) = (AuthMethod::Password, AuthMethod::OAuth);
    assert_eq!(RequireAdmin::from_caller(caller(Role::Admin, password)).unwrap().0.sub, 3);
    assert!(RequireUser::from_caller(caller(Role::User, password)).is_ok());
    assert!(RequireOAuthSession::from_caller(caller(Role::Guest, oauth)).is_ok());
    let refused = RequireAdmin::from_caller(caller(Role::User, password)).unwrap_err();
    assert_eq!(refused.status_code(), 403);
    let refused = RequireUser::from_caller(caller(Role::Guest, password)).unwrap_err();
    assert_eq!(refused.status_code(), 403);
    let refused = RequireOAuthSession::from_caller(caller(Role::Admin, password)).unwrap_err();
    assert_eq!(refused.status_code(), 403);
    assert!(matches!(
        RequireAdmin::from_caller(Err(AppError::TokenExpired)),
        Err(AppError::TokenExpired)
    ));
}

#[test]
fn caller_should_need_oauth_session_when_guarded() {
    assert!(RequireOAuthSession::from_request_parts(
        &bearing(Role::Guest, AuthMethod::OAuth),
        &state()
    )
    .is_ok());
    assert!(matches!(
        RequireOAuthSession::from_request_parts(
            &bearing(Role::Admin, AuthMethod::Password),
            &state()
        ),
        Err(AppError::Forbidden)
    ));
}
