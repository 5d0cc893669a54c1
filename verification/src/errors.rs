//! The errors of the application, each with an HTTP status and a stable code.
use crate::config::OAuthProvider;
use crate::text::join;
use vstd::prelude::*;
use vstd::std_specs::convert::FromSpecImpl;

verus! {

/// Top-level application error type.
///
/// Every variant maps to an HTTP status code and a stable `code` string
/// that clients can match on without parsing human-readable messages.
#[derive(Debug)]
pub enum AppError {
    InvalidCredentials,
    TokenExpired,
    TokenInvalid,
    MissingAuthHeader,
    RefreshTokenInvalid,
    EmailTaken,
    UsernameTaken,
    UserNotFound,
    AccountDisabled,
    Forbidden,
    /// The database failed; holds what it said.
    Database(String),
    Hashing,
    /// Something failed that no caller can help; holds what it was.
    Internal(String),
    /// Any error of the OAuth 2.0 flow.
    OAuth(OAuthError),
}

/// Application result type using `AppError` as the error variant.
pub type AppResult<T> = Result<T, AppError>;

/// Errors that can occur during any stage of the OAuth 2.0 flow.
#[derive(Debug)]
pub enum OAuthError {
    /// The requested provider is not enabled in the server configuration.
    ProviderNotConfigured(OAuthProvider),
    /// The `state` parameter returned by the provider did not match any
    /// pending authorization. Either it expired, was already consumed, or
    /// is forged.
    InvalidState,
    /// The `state` in the callback belongs to a different provider than the
    /// route that received it.
    ProviderMismatch { expected: OAuthProvider, actual: OAuthProvider },
    /// The authorization code could not be exchanged for tokens.
    TokenExchange(String),
    /// A network request to the provider's API failed.
    ProviderUnreachable(String),
    /// The provider's user-info response was missing a required field.
    IncompleteProfile(&'static str),
    /// A redirect URI could not be parsed.
    InvalidRedirectUri(String),
    /// No connection to the state store could be had.
    StateStore(String),
    /// A command of the state store failed.
    StateStoreRedis(String),
    /// The provider email is already linked to a different local account and
    /// the conflict cannot be resolved automatically.
    AccountConflict { email: String },
    /// The provider returned an error response on the callback (e.g. `access_denied`).
    ProviderDenied { error: String, detail: String },
    /// The provider slug in the URL path did not match any known provider.
    UnknownProvider(String),
    /// The callback came without a parameter that it needs.
    MissingParameter(&'static str),
}

impl AppError {
    /// The HTTP status of the error.
    pub open spec fn status(self) -> u16 {
        match self {
            AppError::InvalidCredentials => 401,
            AppError::TokenExpired => 401,
            AppError::TokenInvalid => 401,
            AppError::MissingAuthHeader => 401,
            AppError::RefreshTokenInvalid => 401,
            AppError::EmailTaken => 409,
            AppError::UsernameTaken => 409,
            AppError::UserNotFound => 404,
            AppError::AccountDisabled => 403,
            AppError::Forbidden => 403,
            AppError::Database(_) => 500,
            AppError::Hashing => 500,
            AppError::Internal(_) => 500,
            AppError::OAuth(e) => e.status(),
        }
    }

    /// The stable code of the error.
    pub open spec fn code(self) -> Seq<char> {
        match self {
            AppError::InvalidCredentials => "INVALID_CREDENTIALS"@,
            AppError::TokenExpired => "TOKEN_EXPIRED"@,
            AppError::TokenInvalid => "TOKEN_INVALID"@,
            AppError::MissingAuthHeader => "MISSING_AUTH_HEADER"@,
            AppError::RefreshTokenInvalid => "REFRESH_TOKEN_INVALID"@,
            AppError::EmailTaken => "EMAIL_TAKEN"@,
            AppError::UsernameTaken => "USERNAME_TAKEN"@,
            AppError::UserNotFound => "USER_NOT_FOUND"@,
            AppError::AccountDisabled => "ACCOUNT_DISABLED"@,
            AppError::Forbidden => "FORBIDDEN"@,
            AppError::Database(_) => "DATABASE_ERROR"@,
            AppError::Hashing => "HASHING_ERROR"@,
            AppError::Internal(_) => "INTERNAL_ERROR"@,
            AppError::OAuth(e) => e.code(),
        }
    }

    /// The human-readable message of the error.
    pub open spec fn text(self) -> Seq<char> {
        match self {
            AppError::InvalidCredentials => "invalid credentials"@,
            AppError::TokenExpired => "token has expired"@,
            AppError::TokenInvalid => "token is invalid"@,
            AppError::MissingAuthHeader => "missing authorization header"@,
            AppError::RefreshTokenInvalid => "refresh token not found or revoked"@,
            AppError::EmailTaken => "email is already taken"@,
            AppError::UsernameTaken => "username is already taken"@,
            AppError::UserNotFound => "user not found"@,
            AppError::AccountDisabled => "account is disabled"@,
            AppError::Forbidden => "insufficient permissions"@,
            AppError::Database(what) => "database error: "@ + what@,
            AppError::Hashing => "password hashing error"@,
            AppError::Internal(_) => "internal server error"@,
            AppError::OAuth(e) => e.text(),
        }
    }

    /// The number of the variant, counted through both enums.
    pub open spec fn kind(self) -> int {
        match self {
            AppError::InvalidCredentials => 0,
            AppError::TokenExpired => 1,
            AppError::TokenInvalid => 2,
            AppError::MissingAuthHeader => 3,
            AppError::RefreshTokenInvalid => 4,
            AppError::EmailTaken => 5,
            AppError::UsernameTaken => 6,
            AppError::UserNotFound => 7,
            AppError::AccountDisabled => 8,
            AppError::Forbidden => 9,
            AppError::Database(_) => 10,
            AppError::Hashing => 11,
            AppError::Internal(_) => 12,
            AppError::OAuth(e) => 13 + e.kind(),
        }
    }

    /// The HTTP status code that the error is answered with.
    pub fn status_code(&self) -> (r: u16)
        ensures
            r == self.status(),
    {
        match self {
            AppError::InvalidCredentials
            | AppError::TokenExpired
            | AppError::TokenInvalid
            | AppError::MissingAuthHeader
            | AppError::RefreshTokenInvalid => 401,
            AppError::EmailTaken | AppError::UsernameTaken => 409,
            AppError::UserNotFound => 404,
            AppError::AccountDisabled | AppError::Forbidden => 403,
            AppError::Database(_) | AppError::Hashing | AppError::Internal(_) => 500,
            AppError::OAuth(e) => e.status_code(),
        }
    }

    /// The stable code that clients can match on.
    pub fn error_code(&self) -> (r: &'static str)
        ensures
            r@ == self.code(),
    {
        match self {
            AppError::InvalidCredentials => "INVALID_CREDENTIALS",
            AppError::TokenExpired => "TOKEN_EXPIRED",
            AppError::TokenInvalid => "TOKEN_INVALID",
            AppError::MissingAuthHeader => "MISSING_AUTH_HEADER",
            AppError::RefreshTokenInvalid => "REFRESH_TOKEN_INVALID",
            AppError::EmailTaken => "EMAIL_TAKEN",
            AppError::UsernameTaken => "USERNAME_TAKEN",
            AppError::UserNotFound => "USER_NOT_FOUND",
            AppError::AccountDisabled => "ACCOUNT_DISABLED",
            AppError::Forbidden => "FORBIDDEN",
            AppError::Database(_) => "DATABASE_ERROR",
            AppError::Hashing => "HASHING_ERROR",
            AppError::Internal(_) => "INTERNAL_ERROR",
            AppError::OAuth(e) => e.error_code(),
        }
    }

    /// The message of the error, for people to read.
    pub fn message(&self) -> (r: String)
        ensures
            r@ == self.text(),
    {
        match self {
            AppError::InvalidCredentials => "invalid credentials".to_owned(),
            AppError::TokenExpired => "token has expired".to_owned(),
            AppError::TokenInvalid => "token is invalid".to_owned(),
            AppError::MissingAuthHeader => "missing authorization header".to_owned(),
            AppError::RefreshTokenInvalid => "refresh token not found or revoked".to_owned(),
            AppError::EmailTaken => "email is already taken".to_owned(),
            AppError::UsernameTaken => "username is already taken".to_owned(),
            AppError::UserNotFound => "user not found".to_owned(),
            AppError::AccountDisabled => "account is disabled".to_owned(),
            AppError::Forbidden => "insufficient permissions".to_owned(),
            AppError::Database(what) => join("database error: ", what.as_str()),
            AppError::Hashing => "password hashing error".to_owned(),
            AppError::Internal(_) => "internal server error".to_owned(),
            AppError::OAuth(e) => e.message(),
        }
    }
}

impl From<OAuthError> for AppError {
    fn from(e: OAuthError) -> (r: Self) {
        AppError::OAuth(e)
    }
}

impl FromSpecImpl<OAuthError> for AppError {
    open spec fn obeys_from_spec() -> bool {
        true
    }

    open spec fn from_spec(e: OAuthError) -> AppError {
        AppError::OAuth(e)
    }
}

impl OAuthError {
    /// The HTTP status of the error.
    pub open spec fn status(self) -> u16 {
        match self {
            OAuthError::ProviderNotConfigured(_) => 503,
            OAuthError::InvalidState => 401,
            OAuthError::ProviderMismatch { .. } => 401,
            OAuthError::TokenExchange(_) => 502,
            OAuthError::ProviderUnreachable(_) => 502,
            OAuthError::IncompleteProfile(_) => 502,
            OAuthError::InvalidRedirectUri(_) => 500,
            OAuthError::StateStore(_) => 503,
            OAuthError::StateStoreRedis(_) => 503,
            OAuthError::AccountConflict { .. } => 409,
            OAuthError::ProviderDenied { .. } => 400,
            OAuthError::UnknownProvider(_) => 404,
            OAuthError::MissingParameter(_) => 400,
        }
    }

    /// The stable code of the error.
    pub open spec fn code(self) -> Seq<char> {
        match self {
            OAuthError::ProviderNotConfigured(_) => "OAUTH_PROVIDER_NOT_CONFIGURED"@,
            OAuthError::InvalidState => "OAUTH_INVALID_STATE"@,
            OAuthError::ProviderMismatch { .. } => "OAUTH_PROVIDER_MISMATCH"@,
            OAuthError::TokenExchange(_) => "OAUTH_TOKEN_EXCHANGE_FAILED"@,
            OAuthError::ProviderUnreachable(_) => "OAUTH_PROVIDER_UNREACHABLE"@,
            OAuthError::IncompleteProfile(_) => "OAUTH_INCOMPLETE_PROFILE"@,
            OAuthError::InvalidRedirectUri(_) => "OAUTH_INVALID_REDIRECT_URI"@,
            OAuthError::StateStore(_) => "OAUTH_STATE_STORE_UNAVAILABLE"@,
            OAuthError::StateStoreRedis(_) => "OAUTH_STATE_STORE_ERROR"@,
            OAuthError::AccountConflict { .. } => "OAUTH_ACCOUNT_CONFLICT"@,
            OAuthError::ProviderDenied { .. } => "OAUTH_PROVIDER_DENIED"@,
            OAuthError::UnknownProvider(_) => "OAUTH_UNKNOWN_PROVIDER"@,
            OAuthError::MissingParameter(_) => "OAUTH_MISSING_PARAMETER"@,
        }
    }

    /// The human-readable message of the error.
    pub open spec fn text(self) -> Seq<char> {
        match self {
            OAuthError::ProviderNotConfigured(provider) => "OAuth provider '"@ + provider.name()
                + "' is not configured"@,
            OAuthError::InvalidState => "invalid or expired OAuth state token"@,
            OAuthError::ProviderMismatch { expected, actual } =>
                "OAuth state provider mismatch: expected "@ + expected.name() + ", got "@
                    + actual.name(),
            OAuthError::TokenExchange(what) => "token exchange failed: "@ + what@,
            OAuthError::ProviderUnreachable(what) => "provider unreachable: "@ + what@,
            OAuthError::IncompleteProfile(field) => "incomplete provider profile: missing field '"@
                + field@ + "'"@,
            OAuthError::InvalidRedirectUri(what) => "invalid redirect URI: "@ + what@,
            OAuthError::StateStore(what) => "OAuth state store unavailable: "@ + what@,
            OAuthError::StateStoreRedis(what) => "OAuth state store error: "@ + what@,
            OAuthError::AccountConflict { email } => "account conflict: email '"@ + email@
                + "' is already linked to a different account"@,
            OAuthError::ProviderDenied { error, detail } => "provider denied authorization: "@
                + error@ + " — "@ + detail@,
            OAuthError::UnknownProvider(slug) => "unknown OAuth provider: '"@ + slug@ + "'"@,
            OAuthError::MissingParameter(name) => "missing callback parameter '"@ + name@ + "'"@,
        }
    }

    /// The number of the variant.
    pub open spec fn kind(self) -> int {
        match self {
            OAuthError::ProviderNotConfigured(_) => 0,
            OAuthError::InvalidState => 1,
            OAuthError::ProviderMismatch { .. } => 2,
            OAuthError::TokenExchange(_) => 3,
            OAuthError::ProviderUnreachable(_) => 4,
            OAuthError::IncompleteProfile(_) => 5,
            OAuthError::InvalidRedirectUri(_) => 6,
            OAuthError::StateStore(_) => 7,
            OAuthError::StateStoreRedis(_) => 8,
            OAuthError::AccountConflict { .. } => 9,
            OAuthError::ProviderDenied { .. } => 10,
            OAuthError::UnknownProvider(_) => 11,
            OAuthError::MissingParameter(_) => 12,
        }
    }

    /// The HTTP status code that the error is answered with.
    pub fn status_code(&self) -> (r: u16)
        ensures
            r == self.status(),
    {
        match self {
            OAuthError::ProviderNotConfigured(_) => 503,
            OAuthError::InvalidState | OAuthError::ProviderMismatch { .. } => 401,
            OAuthError::TokenExchange(_)
            | OAuthError::ProviderUnreachable(_)
            | OAuthError::IncompleteProfile(_) => 502,
            OAuthError::InvalidRedirectUri(_) => 500,
            OAuthError::StateStore(_) | OAuthError::StateStoreRedis(_) => 503,
            OAuthError::AccountConflict { .. } => 409,
            OAuthError::ProviderDenied { .. } | OAuthError::MissingParameter(_) => 400,
            OAuthError::UnknownProvider(_) => 404,
        }
    }

    /// The stable code that clients can match on.
    pub fn error_code(&self) -> (r: &'static str)
        ensures
            r@ == self.code(),
    {
        match self {
            OAuthError::ProviderNotConfigured(_) => "OAUTH_PROVIDER_NOT_CONFIGURED",
            OAuthError::InvalidState => "OAUTH_INVALID_STATE",
            OAuthError::ProviderMismatch { .. } => "OAUTH_PROVIDER_MISMATCH",
            OAuthError::TokenExchange(_) => "OAUTH_TOKEN_EXCHANGE_FAILED",
            OAuthError::ProviderUnreachable(_) => "OAUTH_PROVIDER_UNREACHABLE",
            OAuthError::IncompleteProfile(_) => "OAUTH_INCOMPLETE_PROFILE",
            OAuthError::InvalidRedirectUri(_) => "OAUTH_INVALID_REDIRECT_URI",
            OAuthError::StateStore(_) => "OAUTH_STATE_STORE_UNAVAILABLE",
            OAuthError::StateStoreRedis(_) => "OAUTH_STATE_STORE_ERROR",
            OAuthError::AccountConflict { .. } => "OAUTH_ACCOUNT_CONFLICT",
            OAuthError::ProviderDenied { .. } => "OAUTH_PROVIDER_DENIED",
            OAuthError::UnknownProvider(_) => "OAUTH_UNKNOWN_PROVIDER",
            OAuthError::MissingParameter(_) => "OAUTH_MISSING_PARAMETER",
        }
    }

    /// The message of the error, for people to read.
    pub fn message(&self) -> (r: String)
        ensures
            r@ == self.text(),
    {
        match self {
            OAuthError::ProviderNotConfigured(provider) => {
                let named = join("OAuth provider '", provider.slug());
                join(named.as_str(), "' is not configured")
            },
            OAuthError::InvalidState => "invalid or expired OAuth state token".to_owned(),
            OAuthError::ProviderMismatch { expected, actual } => {
                let head = join("OAuth state provider mismatch: expected ", expected.slug());
                let middle = join(head.as_str(), ", got ");
                join(middle.as_str(), actual.slug())
            },
            OAuthError::TokenExchange(what) => join("token exchange failed: ", what.as_str()),
            OAuthError::ProviderUnreachable(what) => join("provider unreachable: ", what.as_str()),
            OAuthError::IncompleteProfile(field) => {
                let head = join("incomplete provider profile: missing field '", field);
                join(head.as_str(), "'")
            },
            OAuthError::InvalidRedirectUri(what) => join("invalid redirect URI: ", what.as_str()),
            OAuthError::StateStore(what) => join("OAuth state store unavailable: ", what.as_str()),
            OAuthError::StateStoreRedis(what) => join("OAuth state store error: ", what.as_str()),
            OAuthError::AccountConflict { email } => {
                let head = join("account conflict: email '", email.as_str());
                join(head.as_str(), "' is already linked to a different account")
            },
            OAuthError::ProviderDenied { error, detail } => {
                let head = join("provider denied authorization: ", error.as_str());
                let middle = join(head.as_str(), " — ");
                join(middle.as_str(), detail.as_str())
            },
            OAuthError::UnknownProvider(slug) => {
                let head = join("unknown OAuth provider: '", slug.as_str());
                join(head.as_str(), "'")
            },
            OAuthError::MissingParameter(name) => {
                let head = join("missing callback parameter '", name);
                join(head.as_str(), "'")
            },
        }
    }
}

/// A code tells the variant: no two variants share one, so a client that
/// matches on the code knows what went wrong, and with it the status.
pub proof fn law_codes_tell_errors_apart(a: AppError, b: AppError)
    requires
        a.code() == b.code(),
    ensures
        a.kind() == b.kind(),
        a.status() == b.status(),
{
    reveal_strlit("INVALID_CREDENTIALS");
    reveal_strlit("TOKEN_EXPIRED");
    reveal_strlit("TOKEN_INVALID");
    reveal_strlit("MISSING_AUTH_HEADER");
    reveal_strlit("REFRESH_TOKEN_INVALID");
    reveal_strlit("EMAIL_TAKEN");
    reveal_strlit("USERNAME_TAKEN");
    reveal_strlit("USER_NOT_FOUND");
    reveal_strlit("ACCOUNT_DISABLED");
    reveal_strlit("FORBIDDEN");
    reveal_strlit("DATABASE_ERROR");
    reveal_strlit("HASHING_ERROR");
    reveal_strlit("INTERNAL_ERROR");
    reveal_strlit("OAUTH_PROVIDER_NOT_CONFIGURED");
    reveal_strlit("OAUTH_INVALID_STATE");
    reveal_strlit("OAUTH_PROVIDER_MISMATCH");
    reveal_strlit("OAUTH_TOKEN_EXCHANGE_FAILED");
    reveal_strlit("OAUTH_PROVIDER_UNREACHABLE");
    reveal_strlit("OAUTH_INCOMPLETE_PROFILE");
    reveal_strlit("OAUTH_INVALID_REDIRECT_URI");
    reveal_strlit("OAUTH_STATE_STORE_UNAVAILABLE");
    reveal_strlit("OAUTH_STATE_STORE_ERROR");
    reveal_strlit("OAUTH_ACCOUNT_CONFLICT");
    reveal_strlit("OAUTH_PROVIDER_DENIED");
    reveal_strlit("OAUTH_UNKNOWN_PROVIDER");
    reveal_strlit("OAUTH_MISSING_PARAMETER");
    assert("INVALID_CREDENTIALS"@.len() == 19);
    assert("TOKEN_EXPIRED"@.len() == 13);
    assert("TOKEN_INVALID"@.len() == 13);
    assert("MISSING_AUTH_HEADER"@.len() == 19);
    assert("REFRESH_TOKEN_INVALID"@.len() == 21);
    assert("EMAIL_TAKEN"@.len() == 11);
    assert("USERNAME_TAKEN"@.len() == 14);
    assert("USER_NOT_FOUND"@.len() == 14);
    assert("ACCOUNT_DISABLED"@.len() == 16);
    assert("FORBIDDEN"@.len() == 9);
    assert("DATABASE_ERROR"@.len() == 14);
    assert("HASHING_ERROR"@.len() == 13);
    assert("INTERNAL_ERROR"@.len() == 14);
    assert("OAUTH_PROVIDER_NOT_CONFIGURED"@.len() == 29);
    assert("OAUTH_INVALID_STATE"@.len() == 19);
    assert("OAUTH_PROVIDER_MISMATCH"@.len() == 23);
    assert("OAUTH_TOKEN_EXCHANGE_FAILED"@.len() == 27);
    assert("OAUTH_PROVIDER_UNREACHABLE"@.len() == 26);
    assert("OAUTH_INCOMPLETE_PROFILE"@.len() == 24);
    assert("OAUTH_INVALID_REDIRECT_URI"@.len() == 26);
    assert("OAUTH_STATE_STORE_UNAVAILABLE"@.len() == 29);
    assert("OAUTH_STATE_STORE_ERROR"@.len() == 23);
    assert("OAUTH_ACCOUNT_CONFLICT"@.len() == 22);
    assert("OAUTH_PROVIDER_DENIED"@.len() == 21);
    assert("OAUTH_UNKNOWN_PROVIDER"@.len() == 22);
    assert("OAUTH_MISSING_PARAMETER"@.len() == 23);
    assert("INVALID_CREDENTIALS"@[0] == 'I');
    assert("MISSING_AUTH_HEADER"@[0] == 'M');
    assert("OAUTH_INVALID_STATE"@[0] == 'O');
    assert("TOKEN_EXPIRED"@[6] == 'E');
    assert("TOKEN_INVALID"@[6] == 'I');
    assert("HASHING_ERROR"@[6] == 'G');
    assert("REFRESH_TOKEN_INVALID"@[0] == 'R');
    assert("OAUTH_PROVIDER_DENIED"@[0] == 'O');
    assert("USERNAME_TAKEN"@[4] == 'N');
    assert("USER_NOT_FOUND"@[4] == '_');
    assert("DATABASE_ERROR"@[4] == 'B');
    assert("INTERNAL_ERROR"@[4] == 'R');
    assert("OAUTH_PROVIDER_NOT_CONFIGURED"@[6] == 'P');
    assert("OAUTH_STATE_STORE_UNAVAILABLE"@[6] == 'S');
    assert("OAUTH_PROVIDER_MISMATCH"@[6] == 'P');
    assert("OAUTH_STATE_STORE_ERROR"@[6] == 'S');
    assert("OAUTH_MISSING_PARAMETER"@[6] == 'M');
    assert("OAUTH_PROVIDER_UNREACHABLE"@[6] == 'P');
    assert("OAUTH_INVALID_REDIRECT_URI"@[6] == 'I');
    assert("OAUTH_ACCOUNT_CONFLICT"@[6] == 'A');
    assert("OAUTH_UNKNOWN_PROVIDER"@[6] == 'U');
}

/// Every error is answered with a status that HTTP reserves for errors.
pub proof fn law_status_is_an_error_status(e: AppError)
    ensures
        400 <= e.status() < 600,
{
}

} // verus!
