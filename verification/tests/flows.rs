use std::collections::BTreeMap;
use yaima::config::{Config, OAuthConfig, OAuthProvider};
use yaima::errors::{AppError, AppResult};
use yaima::models::{
    AuthMethod, AuthResponse, LocalCredential, Provider, Role, Timestamp, User, UserResponse,
    UserView,
};
use yaima::services::auth::AuthService;
use yaima::services::flow::{Flow, Outcome, Step};
use yaima::services::oauth::OAuthProfile;
use yaima::services::store::{
    map_constraint_err, DbError, RefreshTokenRow, StoreReply, StoreRequest,
};
use yaima::services::token::{hash_refresh_token, TokenService};
use yaima::services::user::{validate_password, validate_username, UserService};

const NOW: Timestamp = Timestamp { unix_nanos: 0, offset_secs: 0 };

#[derive(Clone, Default)]
struct Tables {
    users: BTreeMap<u128, User>,
    credentials: BTreeMap<u128, LocalCredential>,
    identities: Vec<(Provider, String, u128)>,
    tokens: BTreeMap<u128, (u128, String, Timestamp, bool)>,
}

/// A database in memory.
#[derive(Default)]
struct Db {
    tables: Tables,
    draft: Option<Tables>,
    /// The request, counted from the next one, that fails.
    fails_at: Option<usize>,
}

fn failure(code: &str, message: &str) -> StoreReply {
    StoreReply::Failed(DbError {
        code: Some(code.to_owned()),
        message: message.to_owned(),
        text: format!("error: {message}"),
    })
}

impl Db {
    fn answer(&mut self, request: StoreRequest) -> StoreReply {
        if let Some(n) = self.fails_at {
            self.fails_at = n.checked_sub(1);
            if n == 0 {
                self.draft = None;
                return failure("08006", "connection lost");
            }
        }
        match request {
            StoreRequest::Begin => {
                self.draft = Some(self.tables.clone());
                return StoreReply::Done;
            }
            StoreRequest::Commit => {
                self.tables = self.draft.take().unwrap();
                return StoreReply::Done;
            }
            _ => {}
        }
        let t = match &mut self.draft {
            Some(draft) => draft,
            None => &mut self.tables,
        };
        match request {
            StoreRequest::Begin | StoreRequest::Commit => unreachable!(),
            StoreRequest::FindUserById { id } => StoreReply::User(t.users.get(&id).cloned()),
            StoreRequest::FindUserByEmail { email } => {
                StoreReply::User(t.users.values().find(|u| u.email == email).cloned())
            }
            StoreRequest::FindUserByIdentity { provider, provider_user_id } => {
                let id = t
                    .identities
                    .iter()
                    .find(|(p, i, _)| *p == provider && *i == provider_user_id)
                    .map(|(_, _, id)| *id);
                StoreReply::User(id.and_then(|id| t.users.get(&id).cloned()))
            }
            StoreRequest::FindLocalCredential { user_id } => {
                StoreReply::Credential(t.credentials.get(&user_id).cloned())
            }
            StoreRequest::FindRefreshToken { token_hash } => StoreReply::RefreshToken(
                t.tokens.iter().find(|(_, row)| row.1 == token_hash).map(|(id, row)| {
                    RefreshTokenRow {
                        id: *id,
                        user_id: row.0,
                        expires_at: row.2,
                        revoked: row.3,
                    }
                }),
            ),
            StoreRequest::InsertUser { id, email, display_name } => {
                if t.users.values().any(|u| u.email == email) {
                    return failure("23505", "duplicate key violates \"users_email_key\"");
                }
                let user = User {
                    id,
                    email,
                    display_name,
                    role: Role::User,
                    is_active: true,
                    created_at: NOW,
                    updated_at: NOW,
                };
                t.users.insert(id, user.clone());
                StoreReply::User(Some(user))
            }
            StoreRequest::InsertLocalCredential { user_id, username, password_hash } => {
                if t.credentials.values().any(|c| c.username == username) {
                    return failure(
                        "23505",
                        "duplicate key violates \"local_credentials_username_key\"",
                    );
                }
                let credential = LocalCredential {
                    user_id,
                    username,
                    password_hash,
                    created_at: NOW,
                    updated_at: NOW,
                };
                t.credentials.insert(user_id, credential.clone());
                StoreReply::Credential(Some(credential))
            }
            StoreRequest::LinkIdentity { user_id, provider, provider_user_id, .. } => {
                if !t.identities.iter().any(|(p, i, _)| *p == provider && *i == provider_user_id) {
                    t.identities.push((provider, provider_user_id, user_id));
                }
                StoreReply::Done
            }
            StoreRequest::SetPasswordHash { user_id, password_hash } => {
                if let Some(credential) = t.credentials.get_mut(&user_id) {
                    credential.password_hash = password_hash;
                }
                StoreReply::Done
            }
            StoreRequest::SetRole { user_id, role } => {
                StoreReply::User(t.users.get_mut(&user_id).map(|user| {
                    user.role = role;
                    user.clone()
                }))
            }
            StoreRequest::Deactivate { user_id } => {
                if let Some(user) = t.users.get_mut(&user_id) {
                    user.is_active = false;
                }
                StoreReply::Done
            }
            StoreRequest::InsertRefreshToken { id, user_id, token_hash, expires_at } => {
                t.tokens.insert(id, (user_id, token_hash, expires_at, false));
                StoreReply::Done
            }
            StoreRequest::RevokeRefreshToken { id } => {
                if let Some(row) = t.tokens.get_mut(&id) {
                    row.3 = true;
                }
                StoreReply::Done
            }
            StoreRequest::RevokeUserTokens { user_id } => {
                for row in t.tokens.values_mut() {
                    if row.0 == user_id {
                        row.3 = true;
                    }
                }
                StoreReply::Done
            }
        }
    }

    fn run(&mut self, mut step: Step) -> AppResult<Outcome> {
        loop {
            match step {
                Step::Ask { request, then } => {
                    let reply = self.answer(request);
                    step = service().resume(then, reply);
                }
                Step::Finish(result) => {
                    self.draft = None;
                    return result;
                }
            }
        }
    }

    fn tokens(&mut self, step: Step) -> AuthResponse {
        match self.run(step) {
            Ok(Outcome::Tokens(response)) => response,
            Ok(_) => panic!("other outcome"),
            Err(e) => panic!("{}", e.message()),
        }
    }

    fn refusal(&mut self, step: Step) -> AppError {
        match self.run(step) {
            Err(e) => e,
            Ok(_) => panic!("not refused"),
        }
    }

    fn message(&mut self, step: Step) -> String {
        match self.run(step) {
            Ok(Outcome::Message(message)) => message.message,
            _ => panic!("no message"),
        }
    }

    fn done(&mut self, step: Step) {
        assert!(matches!(self.run(step), Ok(Outcome::Done)));
    }

    fn user(&mut self, step: Step) -> User {
        match self.run(step) {
            Ok(Outcome::User(user)) => user,
            _ => panic!("no user"),
        }
    }

    fn profile(&mut self, step: Step) -> UserResponse {
        match self.run(step) {
            Ok(Outcome::Profile(profile)) => profile,
            _ => panic!("no profile"),
        }
    }
}

fn config() -> Config {
    Config {
        database_url: String::new(),
        jwt_secret: "0123456789abcdef0123456789abcdef".to_owned(),
        redis_url: None,
        access_token_expiry_secs: 900,
        refresh_token_expiry_secs: 604_800,
        bind_addr: String::new(),
        oauth: OAuthConfig::default(),
    }
}

fn service() -> AuthService {
    AuthService::new(UserService::new(), TokenService::new(config()), config())
}

fn register(db: &mut Db) -> AuthResponse {
    db.tokens(service().register("ada@example.com", "ada_l", "password"))
}

fn profile(id: &str, email: &str) -> OAuthProfile {
    OAuthProfile {
        provider: OAuthProvider::GitHub,
        provider_user_id: id.to_owned(),
        email: email.to_owned(),
        display_name: None,
        avatar_url: None,
    }
}

#[test]
fn register_should_create_account_and_issue_tokens_when_valid() {
    let mut db = Db::default();
    let response = register(&mut db);
    assert_eq!(response.expires_in, 900);
    assert_eq!(response.user.email, "ada@example.com");
    assert_eq!(response.user.display_name, "ada");
    assert_eq!(response.user.username, Some("ada_l".to_owned()));
    assert!(response.user.has_local_credential);
    assert_eq!((response.user.id >> 76) & 0xf, 7);
    let claims = service().token.validate_access_token(&response.access_token).unwrap();
    assert_eq!(claims.sub, response.user.id);
    assert_eq!(claims.exp - claims.iat, response.expires_in);
    assert_eq!(claims.email, "ada@example.com");
    assert_eq!(claims.role, Role::User);
    assert_eq!(claims.auth_method, AuthMethod::Password);
    let row = db.tables.tokens.values().next().unwrap();
    assert_eq!(row.0, response.user.id);
    assert_eq!(row.1, hash_refresh_token(&response.refresh_token).unwrap());
    assert!(!db.tables.credentials[&response.user.id].password_hash.contains("password"));
}

#[test]
fn register_should_be_refused_when_lengths_are_wrong() {
    let mut db = Db::default();
    for (username, password) in [
        ("ada", "passwor"),
        ("ad", "password"),
        ("abcdefghijklmnopqrstuvwxyzabcdefg", "password"),
        ("ada", "ééééééé"),
    ] {
        let refused = db.refusal(service().register("a@b", username, password));
        assert!(matches!(refused, AppError::InvalidCredentials));
    }
    assert!(db.tables.users.is_empty());
    db.tokens(service().register("a@b", "éáó", "éééééééé"));
}

#[test]
fn lengths_should_be_counted_in_characters_when_validated() {
    assert!(validate_password("12345678").is_ok());
    assert!(validate_password("1234567").is_err());
    assert!(validate_password("ééééééé").is_err());
    assert!(validate_username("abc").is_ok());
    assert!(validate_username("éé").is_err());
    assert!(validate_username(&"é".repeat(32)).is_ok());
    assert!(validate_username(&"a".repeat(33)).is_err());
}

#[test]
fn register_should_change_nothing_when_email_or_username_is_taken() {
    let mut db = Db::default();
    register(&mut db);
    let taken = db.refusal(service().register("ada@example.com", "other", "password"));
    assert!(matches!(taken, AppError::EmailTaken));
    let taken = db.refusal(service().register("new@example.com", "ada_l", "password"));
    assert!(matches!(taken, AppError::UsernameTaken));
    assert_eq!(db.tables.users.len(), 1);
    assert_eq!(db.tables.credentials.len(), 1);
    assert_eq!(db.tables.tokens.len(), 1);
}

#[test]
fn register_should_add_all_or_nothing_when_store_fails() {
    for n in 0..5 {
        let mut db = Db { fails_at: Some(n), ..Db::default() };
        let failed = db.refusal(service().register("ada@example.com", "ada_l", "password"));
        assert!(matches!(failed, AppError::Database(text) if text == "error: connection lost"));
        assert_eq!(db.tables.users.len(), db.tables.credentials.len());
        assert_eq!(db.tables.users.len(), usize::from(n == 4));
    }
}

#[test]
fn login_should_issue_tokens_when_password_is_right() {
    let mut db = Db::default();
    let registered = register(&mut db);
    let response = db.tokens(service().login("ada@example.com", "password"));
    assert_eq!(response.user.id, registered.user.id);
    assert_ne!(response.refresh_token, registered.refresh_token);
    assert_eq!(db.tables.tokens.len(), 2);
}

#[test]
fn login_should_answer_alike_when_credentials_are_bad() {
    let mut db = Db::default();
    register(&mut db);
    db.tokens(service().login_or_register_oauth(profile("1", "oauth@example.com")));
    for (email, password) in [
        ("nobody@example.com", "password"),
        ("ada@example.com", "wrong password"),
        ("oauth@example.com", "password"),
    ] {
        let refused = db.refusal(service().login(email, password));
        assert!(matches!(refused, AppError::InvalidCredentials));
    }
    assert_eq!(db.tables.tokens.len(), 2);
}

#[test]
fn login_should_fail_when_stored_hash_is_unreadable() {
    let mut db = Db::default();
    let id = register(&mut db).user.id;
    db.tables.credentials.get_mut(&id).unwrap().password_hash = "none".to_owned();
    let failed = db.refusal(service().login("ada@example.com", "password"));
    assert!(matches!(failed, AppError::Hashing));
}

#[test]
fn refresh_should_rotate_when_token_is_good() {
    let mut db = Db::default();
    let first = register(&mut db);
    let second = db.tokens(service().refresh(&first.refresh_token));
    assert_eq!(second.user.id, first.user.id);
    assert_ne!(second.refresh_token, first.refresh_token);
    assert_eq!(second.expires_in, 900);
    let claims = service().token.validate_access_token(&second.access_token).unwrap();
    assert_eq!(claims.auth_method, AuthMethod::Password);
    let hash = hash_refresh_token(&first.refresh_token).unwrap();
    for row in db.tables.tokens.values() {
        assert_eq!(row.3, row.1 == hash);
    }
    db.tokens(service().refresh(&second.refresh_token));
}

#[test]
fn refresh_should_answer_with_given_tokens_when_made() {
    let mut db = Db::default();
    let id = register(&mut db).user.id;
    let view = UserView {
        user: db.tables.users[&id].clone(),
        local_credential: db.tables.credentials.get(&id).cloned(),
    };
    match service().answer_refresh("access".to_owned(), "refresh".to_owned(), view) {
        Step::Finish(Ok(Outcome::Tokens(response))) => {
            assert_eq!(response.access_token, "access");
            assert_eq!(response.refresh_token, "refresh");
            assert_eq!(response.expires_in, 900);
            assert_eq!(response.user.id, id);
            assert_eq!(response.user.username, Some("ada_l".to_owned()));
        }
        _ => panic!("no response"),
    }
}

#[test]
fn refresh_should_show_current_role_when_it_was_changed() {
    let mut db = Db::default();
    let first = register(&mut db);
    db.user(service().user.update_role(first.user.id, Role::Admin));
    let second = db.tokens(service().refresh(&first.refresh_token));
    let claims = service().token.validate_access_token(&second.access_token).unwrap();
    assert_eq!(claims.role, Role::Admin);
}

#[test]
fn refresh_should_revoke_everything_when_token_is_replayed() {
    let mut db = Db::default();
    let first = register(&mut db);
    let second = db.tokens(service().refresh(&first.refresh_token));
    let refused = db.refusal(service().refresh(&first.refresh_token));
    assert!(matches!(refused, AppError::RefreshTokenInvalid));
    assert!(db.tables.tokens.values().all(|row| row.3));
    let refused = db.refusal(service().refresh(&second.refresh_token));
    assert!(matches!(refused, AppError::RefreshTokenInvalid));
}

#[test]
fn refresh_should_revoke_everything_when_token_has_expired() {
    let mut db = Db::default();
    let first = register(&mut db);
    db.tokens(service().login("ada@example.com", "password"));
    let hash = hash_refresh_token(&first.refresh_token).unwrap();
    for row in db.tables.tokens.values_mut() {
        if row.1 == hash {
            row.2 = NOW;
        }
    }
    let refused = db.refusal(service().refresh(&first.refresh_token));
    assert!(matches!(refused, AppError::RefreshTokenInvalid));
    assert!(db.tables.tokens.values().all(|row| row.3));
}

#[test]
fn refresh_should_change_nothing_when_token_is_unknown() {
    let mut db = Db::default();
    register(&mut db);
    let refused = db.refusal(service().refresh("unknown"));
    assert!(matches!(refused, AppError::RefreshTokenInvalid));
    assert!(db.tables.tokens.values().all(|row| !row.3));
}

#[test]
fn refresh_should_be_an_oauth_session_when_account_has_no_credential() {
    let mut db = Db::default();
    let first = db.tokens(service().login_or_register_oauth(profile("1", "o@example.com")));
    let second = db.tokens(service().refresh(&first.refresh_token));
    let claims = service().token.validate_access_token(&second.access_token).unwrap();
    assert_eq!(claims.auth_method, AuthMethod::OAuth);
    assert!(!second.user.has_local_credential);
}

#[test]
fn refresh_should_be_refused_when_account_is_disabled_or_gone() {
    let mut db = Db::default();
    let first = register(&mut db);
    db.tables.users.get_mut(&first.user.id).unwrap().is_active = false;
    let refused = db.refusal(service().refresh(&first.refresh_token));
    assert!(matches!(refused, AppError::AccountDisabled));
    let mut db = Db::default();
    let first = register(&mut db);
    db.tables.users.clear();
    let refused = db.refusal(service().refresh(&first.refresh_token));
    assert!(matches!(refused, AppError::UserNotFound));
}

#[test]
fn logout_should_end_sessions_when_done() {
    let mut db = Db::default();
    let first = register(&mut db);
    let other = db.tokens(service().register("b@example.com", "bob", "password"));
    db.done(service().logout(first.user.id));
    let refused = db.refusal(service().refresh(&first.refresh_token));
    assert!(matches!(refused, AppError::RefreshTokenInvalid));
    db.tokens(service().refresh(&other.refresh_token));
    let step = service().logout_then(other.user.id, Some("Logged out successfully"));
    assert_eq!(db.message(step), "Logged out successfully");
}

#[test]
fn oauth_login_should_create_account_when_identity_and_email_are_new() {
    let mut db = Db::default();
    let response = db.tokens(service().login_or_register_oauth(profile("1", "eve@example.com")));
    assert_eq!(response.user.email, "eve@example.com");
    assert_eq!(response.user.display_name, "eve");
    assert_eq!(response.user.username, None);
    assert_eq!(db.tables.identities.len(), 1);
    assert_eq!(db.tables.identities[0].2, response.user.id);
    let claims = service().token.validate_access_token(&response.access_token).unwrap();
    assert_eq!(claims.auth_method, AuthMethod::OAuth);
    let mut named = profile("2", "mallory@example.com");
    named.display_name = Some("Mal".to_owned());
    let response = db.tokens(service().login_or_register_oauth(named));
    assert_eq!(response.user.display_name, "Mal");
}

#[test]
fn oauth_login_should_merge_accounts_when_email_is_known() {
    let mut db = Db::default();
    let registered = register(&mut db);
    let response = db.tokens(service().login_or_register_oauth(profile("1", "ada@example.com")));
    assert_eq!(response.user.id, registered.user.id);
    assert!(response.user.has_local_credential);
    assert_eq!(db.tables.users.len(), 1);
}

#[test]
fn oauth_login_should_keep_account_when_email_changes() {
    let mut db = Db::default();
    let first = db.tokens(service().login_or_register_oauth(profile("1", "old@example.com")));
    let second = db.tokens(service().login_or_register_oauth(profile("1", "new@example.com")));
    assert_eq!(first.user.id, second.user.id);
    assert_eq!(db.tables.users.len(), 1);
    assert_eq!(db.tables.identities.len(), 1);
}

#[test]
fn oauth_login_should_leave_no_user_without_credential_when_store_fails() {
    // In order: identity, email, begin, user, link, commit, credential, token.
    for n in 0..8 {
        let mut db = Db { fails_at: Some(n), ..Db::default() };
        let failed = db.refusal(service().login_or_register_oauth(profile("1", "e@example.com")));
        assert!(matches!(failed, AppError::Database(text) if text == "error: connection lost"));
        assert_eq!(db.tables.users.len(), usize::from(n > 5));
        for id in db.tables.users.keys() {
            assert!(db.tables.identities.iter().any(|(_, _, owner)| owner == id));
        }
        assert!(db.tables.tokens.is_empty());
    }
    let mut db = Db { fails_at: Some(8), ..Db::default() };
    db.tokens(service().login_or_register_oauth(profile("1", "e@example.com")));
}

#[test]
fn oauth_login_should_keep_links_when_linking_to_known_user_fails() {
    let mut db = Db::default();
    register(&mut db);
    db.fails_at = Some(2);
    let failed = db.refusal(service().login_or_register_oauth(profile("1", "ada@example.com")));
    assert!(matches!(failed, AppError::Database(_)));
    assert!(db.tables.identities.is_empty());
    assert_eq!(db.tables.credentials.len(), 1);
}

#[test]
fn oauth_login_should_report_email_taken_when_another_was_faster() {
    let step = service().resume(
        Flow::AddingOAuthUser { profile: profile("1", "a@b") },
        failure("23505", "users_email_key"),
    );
    assert!(matches!(step, Step::Finish(Err(AppError::EmailTaken))));
}

#[test]
fn deactivation_should_close_account_when_done() {
    let mut db = Db::default();
    let first = register(&mut db);
    db.tokens(service().login_or_register_oauth(profile("1", "ada@example.com")));
    let id = first.user.id;
    let step = service().user.deactivate_then(id, Some("Account deactivated"));
    assert_eq!(db.message(step), "Account deactivated");
    assert!(!db.tables.users[&id].is_active);
    for step in [
        service().login("ada@example.com", "password"),
        service().login_or_register_oauth(profile("1", "ada@example.com")),
    ] {
        assert!(matches!(db.refusal(step), AppError::AccountDisabled));
    }
    let refused = db.refusal(service().refresh(&first.refresh_token));
    assert!(matches!(refused, AppError::RefreshTokenInvalid));
}

#[test]
fn sessions_should_stay_when_user_alone_is_changed() {
    let mut db = Db::default();
    let first = register(&mut db);
    let id = first.user.id;
    db.done(service().user.change_password(id, "password", "new password"));
    let second = db.tokens(service().refresh(&first.refresh_token));
    db.tokens(service().login("ada@example.com", "new password"));
    db.done(service().user.deactivate(id));
    assert!(!db.tables.users[&id].is_active);
    let refused = db.refusal(service().refresh(&second.refresh_token));
    assert!(matches!(refused, AppError::AccountDisabled));
}

#[test]
fn password_should_change_when_current_one_is_right() {
    let mut db = Db::default();
    let first = register(&mut db);
    let step = service().user.change_password_then(
        first.user.id,
        "password",
        "new password",
        Some("Password updated successfully"),
    );
    assert_eq!(db.message(step), "Password updated successfully");
    let refused = db.refusal(service().refresh(&first.refresh_token));
    assert!(matches!(refused, AppError::RefreshTokenInvalid));
    let refused = db.refusal(service().login("ada@example.com", "password"));
    assert!(matches!(refused, AppError::InvalidCredentials));
    db.tokens(service().login("ada@example.com", "new password"));
}

#[test]
fn password_should_stay_when_change_is_refused() {
    let mut db = Db::default();
    let id = register(&mut db).user.id;
    for (current, new) in [("wrong password", "new password"), ("password", "short")] {
        let refused = db.refusal(service().user.change_password(id, current, new));
        assert!(matches!(refused, AppError::InvalidCredentials));
    }
    let refused = db.refusal(service().user.change_password(99, "password", "new password"));
    assert!(matches!(refused, AppError::UserNotFound));
    db.tokens(service().login("ada@example.com", "password"));
}

#[test]
fn profile_should_show_user_when_there_is_one() {
    let mut db = Db::default();
    let id = register(&mut db).user.id;
    let shown = db.profile(service().user.profile(id));
    assert_eq!(shown.id, id);
    assert_eq!(shown.username, Some("ada_l".to_owned()));
    assert!(matches!(db.refusal(service().user.profile(99)), AppError::UserNotFound));
}

#[test]
fn role_should_be_assigned_when_user_exists() {
    let mut db = Db::default();
    let id = register(&mut db).user.id;
    let user = db.user(service().user.update_role(id, Role::Admin));
    assert_eq!(user.id, id);
    assert_eq!(user.role, Role::Admin);
    assert_eq!(db.tables.users[&id].role, Role::Admin);
    let shown = db.profile(service().user.update_role_shown(id, Role::Guest));
    assert_eq!(shown.username, Some("ada_l".to_owned()));
    assert_eq!(shown.role, Role::Guest);
    for step in [
        service().user.update_role(99, Role::Admin),
        service().user.update_role_shown(99, Role::Admin),
    ] {
        assert!(matches!(db.refusal(step), AppError::UserNotFound));
    }
}

#[test]
fn operation_should_report_database_error_when_store_fails() {
    let mut db = Db::default();
    let first = register(&mut db);
    let id = first.user.id;
    let steps: Vec<fn(u128) -> Step> = vec![
        |_| service().login("ada@example.com", "password"),
        |id| service().logout(id),
        |id| service().user.profile(id),
        |id| service().user.deactivate(id),
        |id| service().user.update_role(id, Role::User),
        |id| service().user.change_password(id, "password", "password"),
    ];
    for step in steps {
        db.fails_at = Some(0);
        assert!(matches!(db.refusal(step(id)), AppError::Database(_)));
    }
}

#[test]
fn operation_should_break_off_when_reply_is_unexpected() {
    let step = service().resume(Flow::FindingProfile, StoreReply::Done);
    assert!(matches!(step, Step::Finish(Err(AppError::Internal(_)))));
}

#[test]
fn constraint_should_be_told_when_it_is_violated() {
    let err = |code: Option<&str>, message: &str| DbError {
        code: code.map(str::to_owned),
        message: message.to_owned(),
        text: "text".to_owned(),
    };
    let map = |err| map_constraint_err(err, "users_email_key", AppError::EmailTaken);
    assert!(matches!(
        map(err(Some("23505"), "violates \"users_email_key\"")),
        AppError::EmailTaken
    ));
    assert!(matches!(map(err(Some("23505"), "users_pkey")), AppError::Database(_)));
    assert!(matches!(map(err(Some("23503"), "users_email_key")), AppError::Database(_)));
    assert!(matches!(
        map(err(None, "users_email_key")),
        AppError::Database(text) if text == "text"
    ));
}
