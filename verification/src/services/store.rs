//! What the services ask of the database, and what it answers.
use crate::errors::AppError;
use crate::models::{LocalCredential, Provider, Role, Timestamp, User, Uuid};
use crate::text::{contains, contains_text, same};
use vstd::prelude::*;

verus! {

/// One statement for the database.
#[derive(Debug)]
pub enum StoreRequest {
    /// The user of that id.
    FindUserById { id: Uuid },
    /// The user of that email.
    FindUserByEmail { email: String },
    /// The user linked to an identity at a provider.
    FindUserByIdentity { provider: Provider, provider_user_id: String },
    /// The local credential of a user.
    FindLocalCredential { user_id: Uuid },
    /// The refresh token with that hash.
    FindRefreshToken { token_hash: String },
    /// Open a transaction; what follows belongs to it until [`StoreRequest::Commit`].
    Begin,
    /// Commit the open transaction.
    Commit,
    /// Add a user and return the row.
    InsertUser { id: Uuid, email: String, display_name: String },
    /// Add a local credential and return the row.
    InsertLocalCredential { user_id: Uuid, username: String, password_hash: String },
    /// Link an identity at a provider to a user, unless it is linked already.
    LinkIdentity { id: Uuid, user_id: Uuid, provider: Provider, provider_user_id: String },
    /// Replace the password hash of a user.
    SetPasswordHash { user_id: Uuid, password_hash: String },
    /// Replace the role of a user and return the row.
    SetRole { user_id: Uuid, role: Role },
    /// Mark a user inactive.
    Deactivate { user_id: Uuid },
    /// Add a refresh token.
    InsertRefreshToken { id: Uuid, user_id: Uuid, token_hash: String, expires_at: Timestamp },
    /// Mark a refresh token revoked.
    RevokeRefreshToken { id: Uuid },
    /// Mark every refresh token of a user revoked.
    RevokeUserTokens { user_id: Uuid },
}

/// The answer to a [`StoreRequest`].
#[derive(Debug)]
pub enum StoreReply {
    User(Option<User>),
    Credential(Option<LocalCredential>),
    RefreshToken(Option<RefreshTokenRow>),
    Done,
    Failed(DbError),
}

/// Minimal projection of a `refresh_tokens` row.
#[derive(Debug, Clone, Copy)]
pub struct RefreshTokenRow {
    pub id: Uuid,
    pub user_id: Uuid,
    pub expires_at: Timestamp,
    pub revoked: bool,
}

/// A failure of the database.
#[derive(Debug)]
pub struct DbError {
    /// The SQLSTATE code, where the server reported the failure.
    pub code: Option<String>,
    /// The server's message; empty where it reported none.
    pub message: String,
    /// The failure in words.
    pub text: String,
}

/// A failure that a unique constraint of that name caused.
pub open spec fn violates(err: DbError, constraint: Seq<char>) -> bool {
    &&& err.code matches Some(code) && code@ == "23505"@
    &&& contains_text(err.message@, constraint)
}

/// Map a Postgres unique-constraint violation to a specific [`AppError`];
/// fall through to [`AppError::Database`] for any other error.
pub fn map_constraint_err(err: DbError, constraint: &str, mapped: AppError) -> (r: AppError)
    ensures
        r == (if violates(err, constraint@) {
            mapped
        } else {
            AppError::Database(err.text)
        }),
{
    if let Some(code) = &err.code {
        if same(code.as_str(), "23505") && contains(err.message.as_str(), constraint) {
            return mapped;
        }
    }
    AppError::Database(err.text)
}

} // verus!
