use yaima::config::{Config, OAuthConfig};
use yaima::errors::AppError;
use yaima::models::{AuthMethod, Claims, Role, Timestamp};
use yaima::outside::jwt::JwtCheck;
use yaima::services::draws::Draws;
use yaima::services::flow::{Flow, Step};
use yaima::services::store::{RefreshTokenRow, StoreReply, StoreRequest};
use yaima::services::token::{
    expiry_after, generate_opaque_token, hash_password, hash_password_with, hash_refresh_token,
    session_outcome, unix_now, unix_seconds, verify_password, TokenService,
};

const SECRET: &str = "0123456789abcdef0123456789abcdef";

const ID: u128 = 0x0190_0000_0000_7000_8000_0000_0000_0001;

fn config() -> Config {
    Config {
        database_url: String::new(),
        jwt_secret: SECRET.to_owned(),
        redis_url: None,
        access_token_expiry_secs: 900,
        refresh_token_expiry_secs: 604_800,
        bind_addr: String::new(),
        oauth: OAuthConfig::default(),
    }
}

fn service() -> TokenService {
    TokenService::new(config())
}

fn object(members: &[(&str, serde_json::Value)]) -> serde_json::Map<String, serde_json::Value> {
    members.iter().map(|(k, v)| ((*k).to_owned(), v.clone())).collect()
}

fn text(value: &str) -> serde_json::Value {
    serde_json::Value::from(value)
}

/// A token that says these claims, made without the library.
fn signed(members: &[(&str, serde_json::Value)]) -> String {
    let key = jsonwebtoken::EncodingKey::from_secret(SECRET.as_bytes());
    jsonwebtoken::encode(&jsonwebtoken::Header::default(), &object(members), &key).unwrap()
}

fn far() -> serde_json::Value {
    serde_json::Value::from(32_503_680_000u64)
}

fn good() -> Vec<(&'static str, serde_json::Value)> {
    vec![
        ("sub", text("01900000-0000-7000-8000-000000000001")),
        ("iat", serde_json::Value::from(1u64)),
        ("exp", far()),
        ("email", text("ada@example.com")),
        ("display_name", text("ada")),
        ("role", text("admin")),
        ("auth_method", text("oauth")),
    ]
}

fn without(name: &str) -> Vec<(&'static str, serde_json::Value)> {
    good().into_iter().filter(|(k, _)| *k != name).collect()
}

fn with(name: &'static str, value: serde_json::Value) -> Vec<(&'static str, serde_json::Value)> {
    let mut members = without(name);
    members.push((name, value));
    members
}

#[test]
fn access_token_should_read_back_when_validated() {
    let token = service()
        .generate_access_token(ID, "ada@example.com", "ada", Role::User, AuthMethod::OAuth)
        .unwrap();
    let claims = service().validate_access_token(&token).unwrap();
    assert_eq!(claims.sub, ID);
    assert_eq!(claims.email, "ada@example.com");
    assert_eq!(claims.display_name, "ada");
    assert_eq!(claims.role, Role::User);
    assert_eq!(claims.auth_method, AuthMethod::OAuth);
    assert_eq!(claims.exp, claims.iat + 900);
}

#[test]
fn access_token_should_be_readable_by_others_when_signed() {
    let token = service()
        .generate_access_token_at(
            32_503_680_000,
            ID,
            "ada@example.com",
            "ada",
            Role::Admin,
            AuthMethod::Password,
        )
        .unwrap();
    let key = jsonwebtoken::DecodingKey::from_secret(SECRET.as_bytes());
    let data = jsonwebtoken::decode::<serde_json::Map<String, serde_json::Value>>(
        &token,
        &key,
        &jsonwebtoken::Validation::default(),
    )
    .unwrap();
    let expected = object(&[
        ("sub", text("01900000-0000-7000-8000-000000000001")),
        ("iat", serde_json::Value::from(32_503_680_000u64)),
        ("exp", serde_json::Value::from(32_503_680_900u64)),
        ("email", text("ada@example.com")),
        ("display_name", text("ada")),
        ("role", text("admin")),
        ("auth_method", text("password")),
    ]);
    assert_eq!(data.claims, expected);
}

#[test]
fn access_token_should_be_expired_when_its_time_has_passed() {
    let token = service()
        .generate_access_token_at(1000, ID, "a@b", "a", Role::User, AuthMethod::Password)
        .unwrap();
    assert!(matches!(service().validate_access_token(&token), Err(AppError::TokenExpired)));
}

#[test]
fn access_token_should_get_no_grace_when_its_time_has_passed() {
    let made = |now| {
        service()
            .generate_access_token_at(now, ID, "a@b", "a", Role::User, AuthMethod::Password)
            .unwrap()
    };
    let now = unix_now().unwrap();
    let stale = service().validate_access_token(&made(now - 905));
    assert!(matches!(stale, Err(AppError::TokenExpired)));
    assert!(service().validate_access_token(&made(now - 600)).is_ok());
}

#[test]
fn access_token_should_fail_when_expiry_is_out_of_range() {
    let refused = service().generate_access_token_at(
        u64::MAX,
        ID,
        "a@b",
        "a",
        Role::User,
        AuthMethod::Password,
    );
    assert!(matches!(refused, Err(AppError::Internal(_))));
}

#[test]
fn token_should_be_invalid_when_secret_differs_or_text_is_none() {
    let token = signed(&good());
    let mut other = config();
    other.jwt_secret = "another secret another secret another".to_owned();
    let other = TokenService::new(other);
    assert!(matches!(other.validate_access_token(&token), Err(AppError::TokenInvalid)));
    assert!(matches!(service().validate_access_token(""), Err(AppError::TokenInvalid)));
    assert!(matches!(service().validate_access_token("a.b.c"), Err(AppError::TokenInvalid)));
}

#[test]
fn token_should_give_claims_when_made_elsewhere() {
    let claims = service().validate_access_token(&signed(&good())).unwrap();
    assert_eq!(claims.sub, ID);
    assert_eq!(claims.role, Role::Admin);
    assert_eq!(claims.auth_method, AuthMethod::OAuth);
}

#[test]
fn token_should_default_to_password_when_method_is_missing() {
    let claims = service().validate_access_token(&signed(&without("auth_method"))).unwrap();
    assert_eq!(claims.auth_method, AuthMethod::Password);
}

#[test]
fn token_should_be_invalid_when_a_claim_is_missing_or_wrong() {
    for name in ["sub", "iat", "exp", "email", "display_name", "role"] {
        let refused = service().validate_access_token(&signed(&without(name)));
        assert!(matches!(refused, Err(AppError::TokenInvalid)));
    }
    for (name, value) in [
        ("sub", text("no uuid")),
        ("iat", text("now")),
        ("iat", serde_json::Value::from(-1)),
        ("email", serde_json::Value::from(1u64)),
        ("role", text("owner")),
        ("auth_method", text("magic")),
        ("auth_method", serde_json::Value::Null),
    ] {
        let refused = service().validate_access_token(&signed(&with(name, value)));
        assert!(matches!(refused, Err(AppError::TokenInvalid)));
    }
}

#[test]
fn session_should_follow_check_when_claims_are_there() {
    let claims = || Claims {
        sub: 1,
        iat: 2,
        exp: 3,
        email: "e".to_owned(),
        display_name: "d".to_owned(),
        role: Role::Guest,
        auth_method: AuthMethod::Password,
    };
    assert_eq!(session_outcome(claims(), JwtCheck::Valid).unwrap().iat, 2);
    assert!(matches!(session_outcome(claims(), JwtCheck::Expired), Err(AppError::TokenExpired)));
    assert!(matches!(session_outcome(claims(), JwtCheck::Rejected), Err(AppError::TokenInvalid)));
}

#[test]
fn unix_seconds_should_round_down_when_after_the_epoch() {
    assert_eq!(unix_seconds(0).unwrap(), 0);
    assert_eq!(unix_seconds(1_999_999_999).unwrap(), 1);
    assert!(matches!(unix_seconds(-1), Err(AppError::Internal(_))));
    assert!(unix_now().unwrap() > 1_600_000_000);
}

#[test]
fn expiry_should_be_ahead_when_date_exists() {
    assert_eq!(expiry_after(5, 604_800), Some(604_800_000_000_005));
    assert_eq!(expiry_after(0, u64::MAX), None);
    assert_eq!(expiry_after(0, 1 << 63), None);
    assert_eq!(expiry_after(0, 253_402_300_799), Some(253_402_300_799_000_000_000));
    assert_eq!(expiry_after(0, 253_402_300_800), None);
    assert_eq!(expiry_after(i128::MAX, 0), None);
}

#[test]
fn opaque_token_should_be_random_hex_when_generated() {
    let a = generate_opaque_token().unwrap();
    let b = generate_opaque_token().unwrap();
    assert_eq!(a.len(), 64);
    assert!(a.chars().all(|c| c.is_ascii_digit() || ('a'..='f').contains(&c)));
    assert_ne!(a, b);
}

#[test]
fn password_should_match_its_hash_when_verified() {
    let hash = hash_password("correct horse").unwrap();
    assert!(hash.starts_with("$argon2id$v=19$m=19456,t=2,p=1$"));
    assert_eq!(verify_password("correct horse", &hash).unwrap(), true);
    assert_eq!(verify_password("wrong horse", &hash).unwrap(), false);
    assert_ne!(hash, hash_password("correct horse").unwrap());
    for bad in ["no hash", "", "$", "not-a-hash"] {
        assert!(matches!(verify_password("correct horse", bad), Err(AppError::Hashing)));
    }
}

#[test]
fn password_hash_should_be_the_same_when_salt_is() {
    let a = hash_password_with("pw", b"0123456789abcdef").unwrap();
    let b = hash_password_with("pw", b"0123456789abcdef").unwrap();
    let c = hash_password_with("pw", b"fedcba9876543210").unwrap();
    assert_eq!(a, b);
    assert_ne!(a, c);
}

#[test]
fn refresh_token_hash_should_be_the_same_when_token_is() {
    let a = hash_refresh_token("raw").unwrap();
    assert_eq!(a, hash_refresh_token("raw").unwrap());
    assert_ne!(a, hash_refresh_token("other").unwrap());
    assert_eq!(verify_password("raw", &a).unwrap(), true);
    assert_ne!(a, "raw");
}

#[test]
fn refresh_token_should_be_recorded_by_hash_when_made() {
    let token = service().refresh_token_record(9, "raw".to_owned(), 1_000, 77).unwrap();
    assert_eq!(token.raw, "raw");
    match token.request {
        StoreRequest::InsertRefreshToken { id, user_id, token_hash, expires_at } => {
            assert_eq!(id, 77);
            assert_eq!(user_id, 9);
            assert_eq!(token_hash, hash_refresh_token("raw").unwrap());
            assert_eq!(
                expires_at,
                Timestamp { unix_nanos: 604_800_000_001_000, offset_secs: 0 }
            );
        }
        _ => panic!("unexpected request"),
    }
}

#[test]
fn refresh_token_should_fail_when_expiry_is_out_of_range() {
    let mut far = config();
    far.refresh_token_expiry_secs = u64::MAX;
    let service = TokenService::new(far);
    assert!(matches!(
        service.refresh_token_record(9, "raw".to_owned(), 0, 77),
        Err(AppError::Internal(_))
    ));
    assert!(matches!(service.create_refresh_token(9), Err(AppError::Internal(_))));
}

#[test]
fn refresh_token_should_be_fresh_when_created() {
    let token = service().create_refresh_token(9).unwrap();
    assert_eq!(token.raw.len(), 64);
    match token.request {
        StoreRequest::InsertRefreshToken { id, user_id, token_hash, expires_at } => {
            assert_eq!((id >> 76) & 0xf, 7);
            assert_eq!((id >> 62) & 0x3, 2);
            assert_eq!(user_id, 9);
            assert_eq!(token_hash, hash_refresh_token(&token.raw).unwrap());
            let now = i128::from(unix_now().unwrap()) * 1_000_000_000;
            assert!((expires_at.unix_nanos - now - 604_800_000_000_000).abs() < 60_000_000_000);
        }
        _ => panic!("unexpected request"),
    }
}

#[test]
fn refresh_token_should_be_recorded_in_place_when_replaced() {
    let token = service().refresh_token_record(9, "raw".to_owned(), 1_000, 77).unwrap();
    match service().record_replacement(9, token) {
        Step::Ask {
            request: StoreRequest::InsertRefreshToken { id: 77, user_id: 9, .. },
            then: Flow::ReplacingToken { user_id: 9, refresh_token },
        } => assert_eq!(refresh_token, "raw"),
        _ => panic!("unexpected step"),
    }
}

fn row(revoked: bool, expires: i128) -> RefreshTokenRow {
    RefreshTokenRow {
        id: 5,
        user_id: 9,
        expires_at: Timestamp { unix_nanos: expires, offset_secs: 0 },
        revoked,
    }
}

#[test]
fn refresh_token_should_be_rotated_when_usable() {
    for expires in [100, 101] {
        assert!(matches!(
            service().use_token(row(false, expires), 100),
            Step::Ask {
                request: StoreRequest::RevokeRefreshToken { id: 5 },
                then: Flow::RevokingToken { user_id: 9 },
            }
        ));
    }
}

#[test]
fn refresh_token_should_revoke_all_when_expired_or_revoked() {
    for row in [row(false, 99), row(true, 101)] {
        assert!(matches!(
            service().use_token(row, 100),
            Step::Ask {
                request: StoreRequest::RevokeUserTokens { user_id: 9 },
                then: Flow::RefusingToken,
            }
        ));
    }
    assert!(matches!(
        service().refuse_token(StoreReply::Done),
        Step::Finish(Err(AppError::RefreshTokenInvalid))
    ));
}

#[test]
fn refresh_token_should_be_invalid_when_unknown() {
    assert!(matches!(
        service().check_token(StoreReply::RefreshToken(None), &Draws::draw()),
        Step::Finish(Err(AppError::RefreshTokenInvalid))
    ));
    assert!(matches!(
        service().check_token(StoreReply::Done, &Draws::draw()),
        Step::Finish(Err(AppError::Internal(_)))
    ));
}
