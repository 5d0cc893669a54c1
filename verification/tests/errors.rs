use yaima::config::OAuthProvider;
use yaima::errors::{AppError, OAuthError};

fn all() -> Vec<(AppError, u16, &'static str, &'static str)> {
    let text = || "boom".to_owned();
    vec![
        (AppError::InvalidCredentials, 401, "INVALID_CREDENTIALS", "invalid credentials"),
        (AppError::TokenExpired, 401, "TOKEN_EXPIRED", "token has expired"),
        (AppError::TokenInvalid, 401, "TOKEN_INVALID", "token is invalid"),
        (AppError::MissingAuthHeader, 401, "MISSING_AUTH_HEADER", "missing authorization header"),
        (
            AppError::RefreshTokenInvalid,
            401,
            "REFRESH_TOKEN_INVALID",
            "refresh token not found or revoked",
        ),
        (AppError::EmailTaken, 409, "EMAIL_TAKEN", "email is already taken"),
        (AppError::UsernameTaken, 409, "USERNAME_TAKEN", "username is already taken"),
        (AppError::UserNotFound, 404, "USER_NOT_FOUND", "user not found"),
        (AppError::AccountDisabled, 403, "ACCOUNT_DISABLED", "account is disabled"),
        (AppError::Forbidden, 403, "FORBIDDEN", "insufficient permissions"),
        (AppError::Database(text()), 500, "DATABASE_ERROR", "database error: boom"),
        (AppError::Hashing, 500, "HASHING_ERROR", "password hashing error"),
        (AppError::Internal(text()), 500, "INTERNAL_ERROR", "internal server error"),
        (
            AppError::OAuth(OAuthError::ProviderNotConfigured(OAuthProvider::GitHub)),
            503,
            "OAUTH_PROVIDER_NOT_CONFIGURED",
            "OAuth provider 'github' is not configured",
        ),
        (
            AppError::OAuth(OAuthError::InvalidState),
            401,
            "OAUTH_INVALID_STATE",
            "invalid or expired OAuth state token",
        ),
        (
            AppError::OAuth(OAuthError::ProviderMismatch {
                expected: OAuthProvider::Google,
                actual: OAuthProvider::GitHub,
            }),
            401,
            "OAUTH_PROVIDER_MISMATCH",
            "OAuth state provider mismatch: expected google, got github",
        ),
        (
            AppError::OAuth(OAuthError::TokenExchange(text())),
            502,
            "OAUTH_TOKEN_EXCHANGE_FAILED",
            "token exchange failed: boom",
        ),
        (
            AppError::OAuth(OAuthError::ProviderUnreachable(text())),
            502,
            "OAUTH_PROVIDER_UNREACHABLE",
            "provider unreachable: boom",
        ),
        (
            AppError::OAuth(OAuthError::IncompleteProfile("email")),
            502,
            "OAUTH_INCOMPLETE_PROFILE",
            "incomplete provider profile: missing field 'email'",
        ),
        (
            AppError::OAuth(OAuthError::InvalidRedirectUri(text())),
            500,
            "OAUTH_INVALID_REDIRECT_URI",
            "invalid redirect URI: boom",
        ),
        (
            AppError::OAuth(OAuthError::StateStore(text())),
            503,
            "OAUTH_STATE_STORE_UNAVAILABLE",
            "OAuth state store unavailable: boom",
        ),
        (
            AppError::OAuth(OAuthError::StateStoreRedis(text())),
            503,
            "OAUTH_STATE_STORE_ERROR",
            "OAuth state store error: boom",
        ),
        (
            AppError::OAuth(OAuthError::AccountConflict { email: "a@b".to_owned() }),
            409,
            "OAUTH_ACCOUNT_CONFLICT",
            "account conflict: email 'a@b' is already linked to a different account",
        ),
        (
            AppError::OAuth(OAuthError::ProviderDenied {
                error: "access_denied".to_owned(),
                detail: "no".to_owned(),
            }),
            400,
            "OAUTH_PROVIDER_DENIED",
            "provider denied authorization: access_denied — no",
        ),
        (
            AppError::OAuth(OAuthError::UnknownProvider("gitlab".to_owned())),
            404,
            "OAUTH_UNKNOWN_PROVIDER",
            "unknown OAuth provider: 'gitlab'",
        ),
        (
            AppError::OAuth(OAuthError::MissingParameter("code")),
            400,
            "OAUTH_MISSING_PARAMETER",
            "missing callback parameter 'code'",
        ),
    ]
}

#[test]
fn error_should_have_status_code_and_message_when_answered() {
    for (error, status, code, message) in all() {
        assert_eq!(error.status_code(), status);
        assert_eq!(error.error_code(), code);
        assert_eq!(error.message(), message);
    }
}

#[test]
fn error_codes_should_be_distinct_when_variants_are() {
    let listed = all();
    for (i, a) in listed.iter().enumerate() {
        for b in &listed[i + 1..] {
            assert_ne!(a.0.error_code(), b.0.error_code());
        }
    }
}

#[test]
fn oauth_error_should_be_wrapped_when_converted() {
    assert!(matches!(
        AppError::from(OAuthError::InvalidState),
        AppError::OAuth(OAuthError::InvalidState)
    ));
}
