use yaima::config::{Config, OAuthConfig};
use yaima::errors::AppError;
use yaima::models::{AuthMethod, LocalCredential, Role, Timestamp, User};
use yaima::services::auth::AuthService;
use yaima::services::draws::Draws;
use yaima::services::flow::{Flow, Outcome, Step};
use yaima::services::store::{RefreshTokenRow, StoreReply, StoreRequest};
use yaima::services::token::{
    hash_password_by, hash_password_with, hash_refresh_token, verify_password, TokenService,
};
use yaima::services::user::UserService;

/// Half a second past a whole one.
const NOW: i128 = 2_000_000_001_500_000_000;

fn config() -> Config {
    Config {
        database_url: String::new(),
        jwt_secret: "0123456789abcdef0123456789abcdef".to_owned(),
        redis_url: None,
        access_token_expiry_secs: 900,
        refresh_token_expiry_secs: 604_800,
        bind_addr: String::new(),
        oauth: OAuthConfig::default(),
    }
}

fn service_with(config: Config) -> AuthService {
    AuthService::new(UserService::new(), TokenService::new(config.clone()), config)
}

fn service() -> AuthService {
    service_with(config())
}

fn draws() -> Draws {
    Draws { now: NOW, salt: Some(vec![7; 16]), secret: Some(vec![0xab; 32]) }
}

fn at(unix_nanos: i128) -> Timestamp {
    Timestamp { unix_nanos, offset_secs: 0 }
}

fn user() -> User {
    User {
        id: 3,
        email: "ada@example.com".to_owned(),
        display_name: "Ada".to_owned(),
        role: Role::Admin,
        is_active: true,
        created_at: at(0),
        updated_at: at(0),
    }
}

fn credential(password: &str) -> LocalCredential {
    LocalCredential {
        user_id: 3,
        username: "ada_l".to_owned(),
        password_hash: hash_password_with(password, &[1; 16]).unwrap(),
        created_at: at(0),
        updated_at: at(0),
    }
}

fn issuing() -> Vec<(Flow, StoreReply)> {
    vec![
        (
            Flow::CommittingAccount { user: user(), credential: credential("password") },
            StoreReply::Done,
        ),
        (
            Flow::CheckingPassword { user: user(), password: "password".to_owned() },
            StoreReply::Credential(Some(credential("password"))),
        ),
        (Flow::FinishingOAuth { user: user() }, StoreReply::Credential(None)),
    ]
}

#[test]
fn draws_should_have_their_sizes_when_drawn() {
    let drawn = Draws::draw();
    assert_eq!(drawn.salt.unwrap().len(), 16);
    assert_eq!(drawn.secret.unwrap().len(), 32);
    assert!(drawn.now > 1_700_000_000_000_000_000);
    assert_ne!(Draws::draw().secret, Draws::draw().secret);
}

#[test]
fn tokens_should_be_made_of_the_draws_when_issued() {
    for (flow, reply) in issuing() {
        let oauth = matches!(flow, Flow::FinishingOAuth { .. });
        match service().resume_by(&draws(), flow, reply) {
            Step::Ask {
                request:
                    StoreRequest::InsertRefreshToken { id, user_id, token_hash, expires_at },
                then: Flow::RecordingToken { response },
            } => {
                assert_eq!((id >> 76) & 0xf, 7);
                assert_eq!(user_id, 3);
                assert_eq!(response.refresh_token, "ab".repeat(32));
                assert_eq!(token_hash, hash_refresh_token(&response.refresh_token).unwrap());
                assert_eq!(expires_at.unix_nanos, NOW + 604_800_000_000_000);
                let token = service()
                    .token
                    .generate_access_token_at(
                        2_000_000_001,
                        3,
                        "ada@example.com",
                        "Ada",
                        Role::Admin,
                        if oauth { AuthMethod::OAuth } else { AuthMethod::Password },
                    )
                    .unwrap();
                assert_eq!(response.access_token, token);
                assert_eq!(response.user.has_local_credential, !oauth);
            }
            _ => panic!("no tokens"),
        }
    }
}

#[test]
fn tokens_should_be_kept_back_when_draws_will_not_do() {
    let beyond = Config { refresh_token_expiry_secs: u64::MAX, ..config() };
    let unending = Config { access_token_expiry_secs: u64::MAX, ..config() };
    for (config, draws) in [
        (config(), Draws { secret: None, ..draws() }),
        (config(), Draws { now: -1, ..draws() }),
        (beyond, draws()),
        (unending, draws()),
    ] {
        for (flow, reply) in issuing() {
            assert!(matches!(
                service_with(config.clone()).resume_by(&draws, flow, reply),
                Step::Finish(Err(AppError::Internal(_)))
            ));
        }
    }
}

#[test]
fn refresh_should_go_by_the_time_that_was_drawn() {
    for (expires, good) in [(NOW - 1, false), (NOW, true), (NOW + 1, true)] {
        let row = RefreshTokenRow { id: 5, user_id: 9, expires_at: at(expires), revoked: false };
        let step = service().resume_by(
            &draws(),
            Flow::FindingToken,
            StoreReply::RefreshToken(Some(row)),
        );
        match step {
            Step::Ask { request: StoreRequest::RevokeRefreshToken { id: 5 }, .. } => assert!(good),
            Step::Ask { request: StoreRequest::RevokeUserTokens { user_id: 9 }, .. } => {
                assert!(!good);
            }
            _ => panic!("neither used nor refused"),
        }
    }
}

#[test]
fn replacement_should_be_made_of_the_draws_when_there_are_bytes() {
    let flow = || Flow::RevokingToken { user_id: 9 };
    match service().resume_by(&draws(), flow(), StoreReply::Done) {
        Step::Ask {
            request: StoreRequest::InsertRefreshToken { user_id: 9, expires_at, .. },
            then: Flow::ReplacingToken { user_id: 9, refresh_token },
        } => {
            assert_eq!(refresh_token, "ab".repeat(32));
            assert_eq!(expires_at.unix_nanos, NOW + 604_800_000_000_000);
        }
        _ => panic!("no replacement"),
    }
    // A replacement needs no access token, so a clock before the epoch does.
    let early = Draws { now: -1, ..draws() };
    assert!(matches!(service().resume_by(&early, flow(), StoreReply::Done), Step::Ask { .. }));
    let dry = Draws { secret: None, ..draws() };
    assert!(matches!(
        service().resume_by(&dry, flow(), StoreReply::Done),
        Step::Finish(Err(AppError::Internal(_)))
    ));
}

#[test]
fn refresh_should_be_answered_when_clock_is_past_the_epoch() {
    let flow = || Flow::FinishingRefresh { user: user(), refresh_token: "raw".to_owned() };
    // No random bytes are needed any more.
    let dry = Draws { secret: None, salt: None, ..draws() };
    match service().resume_by(&dry, flow(), StoreReply::Credential(None)) {
        Step::Finish(Ok(Outcome::Tokens(response))) => {
            assert_eq!(response.refresh_token, "raw");
            let token = service()
                .token
                .generate_access_token_at(
                    2_000_000_001,
                    3,
                    "ada@example.com",
                    "Ada",
                    Role::Admin,
                    AuthMethod::OAuth,
                )
                .unwrap();
            assert_eq!(response.access_token, token);
        }
        _ => panic!("no tokens"),
    }
    let early = Draws { now: -1, ..draws() };
    assert!(matches!(
        service().resume_by(&early, flow(), StoreReply::Credential(None)),
        Step::Finish(Err(AppError::Internal(_)))
    ));
}

#[test]
fn password_should_be_hashed_under_the_salt_that_was_drawn() {
    let hash = hash_password_by("new password", &draws()).unwrap();
    assert_eq!(hash, hash_password_with("new password", &[7; 16]).unwrap());
    assert!(verify_password("new password", &hash).unwrap());
    let flow = || Flow::ConfirmingPassword {
        user_id: 3,
        current_password: "password".to_owned(),
        new_password: "new password".to_owned(),
        revoke: None,
    };
    let reply = || StoreReply::Credential(Some(credential("password")));
    match service().resume_by(&draws(), flow(), reply()) {
        Step::Ask {
            request: StoreRequest::SetPasswordHash { user_id: 3, password_hash },
            then: Flow::StoringPassword { user_id: 3, revoke: None },
        } => assert_eq!(password_hash, hash),
        _ => panic!("no change"),
    }
    let dry = Draws { salt: None, ..draws() };
    assert!(matches!(
        service().resume_by(&dry, flow(), reply()),
        Step::Finish(Err(AppError::Hashing))
    ));
}

#[test]
fn account_should_be_opened_when_there_is_a_salt() {
    match service().register_by(&draws(), "ada@example.com", "ada_l", "password") {
        Step::Ask { request: StoreRequest::Begin, then: Flow::OpeningAccount { account } } => {
            assert_eq!(account.password_hash, hash_password_with("password", &[7; 16]).unwrap());
            assert_eq!(account.display_name, "ada");
        }
        _ => panic!("no account"),
    }
    let dry = Draws { salt: None, ..draws() };
    assert!(matches!(
        service().register_by(&dry, "ada@example.com", "ada_l", "password"),
        Step::Finish(Err(AppError::Hashing))
    ));
    assert!(matches!(
        service().register_by(&dry, "ada@example.com", "ada_l", "short"),
        Step::Finish(Err(AppError::InvalidCredentials))
    ));
}
