//! The operations that need the database, as exchanges with it: each step asks
//! one thing of the store, or ends the operation.
use crate::errors::{AppError, AppResult};
use crate::models::{AuthResponse, LocalCredential, MessageResponse, User, UserResponse, Uuid};
use crate::services::oauth::OAuthProfile;
use crate::services::store::{DbError, StoreRequest};
use vstd::prelude::*;

verus! {

/// What an operation does next.
pub enum Step {
    /// Put a request to the store and go on with what it answers.
    Ask { request: StoreRequest, then: Flow },
    /// The operation is over.
    Finish(AppResult<Outcome>),
}

/// What an operation that went well returns.
pub enum Outcome {
    Tokens(AuthResponse),
    Profile(UserResponse),
    Message(MessageResponse),
    /// The user that was changed.
    User(User),
    /// Nothing but that it went well.
    Done,
}

/// An account that is being created.
pub struct NewAccount {
    pub id: Uuid,
    pub email: String,
    pub display_name: String,
    pub username: String,
    pub password_hash: String,
}

/// What an operation waits for, with what it has to remember meanwhile.
pub enum Flow {
    /// Registration: the transaction is being opened.
    OpeningAccount { account: NewAccount },
    /// Registration: the user is being added.
    AddingUser { user_id: Uuid, username: String, password_hash: String },
    /// Registration: the credential of the new user is being added.
    AddingCredential { user: User },
    /// Registration: the transaction is being committed.
    CommittingAccount { user: User, credential: LocalCredential },
    /// Login: the user is being looked up.
    FindingLogin { password: String },
    /// Login: the credential of the user is being looked up.
    CheckingPassword { user: User, password: String },
    /// Refresh: the token is being looked up.
    FindingToken,
    /// Refresh: the tokens of the user are being revoked, for the token may not
    /// be used.
    RefusingToken,
    /// Refresh: the old token is being revoked.
    RevokingToken { user_id: Uuid },
    /// Refresh: the new token is being recorded.
    ReplacingToken { user_id: Uuid, refresh_token: String },
    /// Refresh: the user is being looked up.
    FindingOwner { refresh_token: String },
    /// Refresh: the credential of the user is being looked up.
    FinishingRefresh { user: User, refresh_token: String },
    /// OAuth login: the user of the identity is being looked up.
    FindingIdentity { profile: OAuthProfile },
    /// OAuth login: the user of the email is being looked up.
    FindingEmail { profile: OAuthProfile },
    /// OAuth login: the transaction is being opened.
    OpeningOAuthUser { profile: OAuthProfile },
    /// OAuth login: the user is being added.
    AddingOAuthUser { profile: OAuthProfile },
    /// OAuth login: the identity is being linked to the user that was added.
    LinkingNewUser { user: User },
    /// OAuth login: the transaction is being committed.
    CommittingOAuthUser { user: User },
    /// OAuth login: the identity is being linked to a user that was there.
    LinkingIdentity { user: User },
    /// OAuth login: the credential of the user is being looked up.
    FinishingOAuth { user: User },
    /// The refresh token of the response is being recorded.
    RecordingToken { response: AuthResponse },
    /// Profile: the user is being looked up.
    FindingProfile,
    /// Role assignment: the role is being set.
    AssigningRole,
    /// Role assignment: the role is being set; the profile follows.
    AssigningShownRole,
    /// The credential of the user is being looked up, to show the profile.
    ShowingProfile { user: User },
    /// Password change: the credential is being looked up.
    ConfirmingPassword {
        user_id: Uuid,
        current_password: String,
        new_password: String,
        revoke: Option<&'static str>,
    },
    /// Password change: the new hash is being stored. Where a message is given, the
    /// tokens of the user are revoked next, and the message follows.
    StoringPassword { user_id: Uuid, revoke: Option<&'static str> },
    /// Deactivation: the user is being marked inactive. Where a message is given, the
    /// tokens of the user are revoked next, and the message follows.
    Deactivating { user_id: Uuid, revoke: Option<&'static str> },
    /// The tokens of the user are being revoked; the message follows, if any.
    RevokingTokens { message: Option<&'static str> },
}

/// The end of an operation in an error.
pub open spec fn refused(step: Step, error: AppError) -> bool {
    step == Step::Finish(Err(error))
}

/// The end of an operation because something failed that should not.
pub open spec fn broke(step: Step) -> bool {
    step matches Step::Finish(Err(e)) && e is Internal
}

/// End an operation in an error.
pub fn refuse(error: AppError) -> (r: Step)
    ensures
        refused(r, error),
{
    Step::Finish(Err(error))
}

/// End an operation because the store failed.
pub fn store_failed(err: DbError) -> (r: Step)
    ensures
        refused(r, AppError::Database(err.text)),
{
    Step::Finish(Err(AppError::Database(err.text)))
}

/// End an operation because the store answered what was not asked.
pub fn unexpected_reply() -> (r: Step)
    ensures
        broke(r),
{
    Step::Finish(Err(AppError::Internal("unexpected reply of the store".to_owned())))
}

} // verus!
