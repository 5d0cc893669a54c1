//! Users and their credentials: what is asked of the store about them.
use crate::config::OAuthProvider;
use crate::errors::{AppError, AppResult};
use crate::models::{Provider, Role, UserResponse, UserView, Uuid};
use crate::outside::identifiers::uuid_now_v7;
use crate::services::draws::Draws;
use crate::services::flow::{refuse, store_failed, unexpected_reply, Flow, NewAccount, Outcome, Step};
use crate::services::oauth::OAuthProfile;
use crate::services::store::{map_constraint_err, StoreReply, StoreRequest};
use crate::services::token::{hash_password_by, verify_password};
use crate::text::before;
use vstd::prelude::*;

verus! {

use crate::models::{shows_user, stored_provider, User};
use crate::outside::identifiers::{id_drawn, is_version_7};
use crate::outside::password::argon2id_check;
use crate::services::draws::{drawn, given};
use crate::services::flow::{broke, refused};
use crate::services::store::{violates, DbError};
use crate::services::token::{can_hash, hashed_by_draws, hashes};
use crate::text::{said, text_before};

/// The characters that a password has to have at least.
pub const MIN_PASSWORD_CHARS: usize = 8;

/// The characters that a username has to have at least.
pub const MIN_USERNAME_CHARS: usize = 3;

/// The characters that a username may have at most.
pub const MAX_USERNAME_CHARS: usize = 32;

/// Handles all user-related database operations.
#[derive(Debug, Clone, Copy)]
pub struct UserService {}

/// A password of an acceptable length.
pub open spec fn password_ok(password: Seq<char>) -> bool {
    password.len() >= MIN_PASSWORD_CHARS
}

/// A username of an acceptable length.
pub open spec fn username_ok(username: Seq<char>) -> bool {
    MIN_USERNAME_CHARS <= username.len() <= MAX_USERNAME_CHARS
}

/// The display name of a user seeded from an OAuth profile: the name given, or
/// what stands before the `@` of the email.
pub open spec fn oauth_display_name(email: Seq<char>, display_name: Option<Seq<char>>) -> Seq<char> {
    match display_name {
        Some(name) => name,
        None => text_before(email, '@'),
    }
}

/// `step` opens the creation of an account with a local credential.
pub open spec fn opens_account(
    step: Step,
    email: Seq<char>,
    display_name: Seq<char>,
    username: Seq<char>,
    password: Seq<char>,
) -> bool {
    match step {
        Step::Ask { request: StoreRequest::Begin, then: Flow::OpeningAccount { account } } => {
            &&& is_version_7(account.id)
            &&& id_drawn(account.id)
            &&& account.email@ == email
            &&& account.display_name@ == display_name
            &&& account.username@ == username
            &&& hashes(password, account.password_hash@)
        },
        Step::Finish(Err(e)) => e is Hashing,
        _ => false,
    }
}

/// What the opening of an account comes to by these draws.
pub open spec fn account_by_draws(password: Seq<char>, d: Draws, step: Step) -> bool {
    match step {
        Step::Ask { then: Flow::OpeningAccount { account }, .. } => {
            &&& can_hash(password, d)
            &&& hashed_by_draws(password, d, account.password_hash@)
        },
        _ => !can_hash(password, d) && refused(step, AppError::Hashing),
    }
}

/// What the opening of an account comes to by draws that the machine gave.
pub open spec fn account_somehow(password: Seq<char>, step: Step) -> bool {
    exists|d: Draws| #[trigger] given(d) && account_by_draws(password, d, step)
}

/// What follows the opening of the transaction: the user is added.
pub open spec fn account_opened(account: NewAccount, reply: StoreReply, step: Step) -> bool {
    match reply {
        StoreReply::Done => step == (Step::Ask {
            request: StoreRequest::InsertUser {
                id: account.id,
                email: account.email,
                display_name: account.display_name,
            },
            then: Flow::AddingUser {
                user_id: account.id,
                username: account.username,
                password_hash: account.password_hash,
            },
        }),
        StoreReply::Failed(err) => refused(step, AppError::Database(err.text)),
        _ => broke(step),
    }
}

/// What the failure of a statement comes to: `mapped`, where it broke the
/// constraint of that name.
pub open spec fn constraint_error(err: DbError, constraint: Seq<char>, mapped: AppError) -> AppError {
    if violates(err, constraint) {
        mapped
    } else {
        AppError::Database(err.text)
    }
}

/// What follows the adding of the user: the credential is added. A taken email
/// ends the registration.
pub open spec fn user_added(
    user_id: Uuid,
    username: String,
    password_hash: String,
    reply: StoreReply,
    step: Step,
) -> bool {
    match reply {
        StoreReply::User(Some(user)) => step == (Step::Ask {
            request: StoreRequest::InsertLocalCredential { user_id, username, password_hash },
            then: Flow::AddingCredential { user },
        }),
        StoreReply::Failed(err) => refused(
            step,
            constraint_error(err, "users_email_key"@, AppError::EmailTaken),
        ),
        _ => broke(step),
    }
}

/// What follows the adding of the credential: the commit. A taken username ends
/// the registration.
pub open spec fn credential_added(user: User, reply: StoreReply, step: Step) -> bool {
    match reply {
        StoreReply::Credential(Some(credential)) => step == (Step::Ask {
            request: StoreRequest::Commit,
            then: Flow::CommittingAccount { user, credential },
        }),
        StoreReply::Failed(err) => refused(
            step,
            constraint_error(err, "local_credentials_username_key"@, AppError::UsernameTaken),
        ),
        _ => broke(step),
    }
}

/// What follows the look-up of the user for a profile: the look-up of the
/// credential.
pub open spec fn user_to_show(reply: StoreReply, step: Step) -> bool {
    match reply {
        StoreReply::User(Some(user)) => step == (Step::Ask {
            request: StoreRequest::FindLocalCredential { user_id: user.id },
            then: Flow::ShowingProfile { user },
        }),
        StoreReply::User(None) => refused(step, AppError::UserNotFound),
        StoreReply::Failed(err) => refused(step, AppError::Database(err.text)),
        _ => broke(step),
    }
}

/// What follows the assignment of a role: the user, as it is then.
pub open spec fn role_assigned(reply: StoreReply, step: Step) -> bool {
    match reply {
        StoreReply::User(Some(user)) => step == Step::Finish(Ok(Outcome::User(user))),
        StoreReply::User(None) => refused(step, AppError::UserNotFound),
        StoreReply::Failed(err) => refused(step, AppError::Database(err.text)),
        _ => broke(step),
    }
}

/// What follows the look-up of the credential for a profile: the profile.
pub open spec fn profile_shown(user: User, reply: StoreReply, step: Step) -> bool {
    match reply {
        StoreReply::Credential(credential) => match step {
            Step::Finish(Ok(Outcome::Profile(profile))) => shows_user(profile, user, credential),
            _ => false,
        },
        StoreReply::Failed(err) => refused(step, AppError::Database(err.text)),
        _ => broke(step),
    }
}

/// `step` begins a change of password: it looks the credential up. Where a
/// message is given, the change ends in the revocation of the user's tokens and
/// in that message.
pub open spec fn changes_password(
    user_id: Uuid,
    current_password: Seq<char>,
    new_password: Seq<char>,
    revoke: Option<Seq<char>>,
    step: Step,
) -> bool {
    match step {
        Step::Ask {
            request,
            then: Flow::ConfirmingPassword {
                user_id: owner,
                current_password: current,
                new_password: new,
                revoke: message,
            },
        } => {
            &&& said(message) == revoke
            &&& request == (StoreRequest::FindLocalCredential { user_id })
            &&& owner == user_id
            &&& current@ == current_password
            &&& new@ == new_password
        },
        _ => false,
    }
}

/// What follows the look-up of the credential whose password is to change. The
/// current password is checked first, then the new one has to be acceptable;
/// its hash is then stored.
pub open spec fn password_confirmed(
    user_id: Uuid,
    current_password: Seq<char>,
    new_password: Seq<char>,
    revoke: Option<&'static str>,
    reply: StoreReply,
    step: Step,
) -> bool {
    match reply {
        StoreReply::Credential(Some(credential)) => match argon2id_check(
            current_password,
            credential.password_hash@,
        ) {
            None => refused(step, AppError::Hashing),
            Some(false) => refused(step, AppError::InvalidCredentials),
            Some(true) => if !password_ok(new_password) {
                refused(step, AppError::InvalidCredentials)
            } else {
                match step {
                    Step::Ask {
                        request: StoreRequest::SetPasswordHash { user_id: owner, password_hash },
                        then,
                    } => {
                        &&& owner == user_id
                        &&& hashes(new_password, password_hash@)
                        &&& then == (Flow::StoringPassword { user_id, revoke })
                    },
                    Step::Finish(Err(e)) => e is Hashing,
                    _ => false,
                }
            },
        },
        StoreReply::Credential(None) => refused(step, AppError::UserNotFound),
        StoreReply::Failed(err) => refused(step, AppError::Database(err.text)),
        _ => broke(step),
    }
}

/// What the storing of a new password comes to by these draws.
pub open spec fn password_by_draws(password: Seq<char>, d: Draws, step: Step) -> bool {
    match step {
        Step::Ask { request: StoreRequest::SetPasswordHash { password_hash, .. }, .. } => {
            &&& can_hash(password, d)
            &&& hashed_by_draws(password, d, password_hash@)
        },
        _ => !can_hash(password, d) && refused(step, AppError::Hashing),
    }
}

/// The password of a credential is to change, and may: the current one matches, and
/// the new one is acceptable.
pub open spec fn may_change(current: Seq<char>, new: Seq<char>, reply: StoreReply) -> bool {
    match reply {
        StoreReply::Credential(Some(credential)) => {
            &&& argon2id_check(current, credential.password_hash@) == Some(true)
            &&& password_ok(new)
        },
        _ => false,
    }
}

/// `step` begins a deactivation. Where a message is given, it ends in the
/// revocation of the user's tokens and in that message.
pub open spec fn deactivates(user_id: Uuid, revoke: Option<Seq<char>>, step: Step) -> bool {
    match step {
        Step::Ask { request, then: Flow::Deactivating { user_id: owner, revoke: message } } => {
            &&& request == (StoreRequest::Deactivate { user_id })
            &&& owner == user_id
            &&& said(message) == revoke
        },
        _ => false,
    }
}

/// A password has to have at least 8 characters.
pub fn validate_password(password: &str) -> (r: AppResult<()>)
    ensures
        match r {
            Ok(_) => password_ok(password@),
            Err(e) => !password_ok(password@) && e is InvalidCredentials,
        },
{
    if password.unicode_len() < MIN_PASSWORD_CHARS {
        return Err(AppError::InvalidCredentials);
    }
    Ok(())
}

/// A username has to have from 3 to 32 characters.
pub fn validate_username(username: &str) -> (r: AppResult<()>)
    ensures
        match r {
            Ok(_) => username_ok(username@),
            Err(e) => !username_ok(username@) && e is InvalidCredentials,
        },
{
    let len: usize = username.unicode_len();
    if len < MIN_USERNAME_CHARS || len > MAX_USERNAME_CHARS {
        return Err(AppError::InvalidCredentials);
    }
    Ok(())
}

impl UserService {
    #[must_use]
    pub fn new() -> (r: Self)
        ensures
            r == (UserService {  }),
    {
        UserService {  }
    }

    /// Fetch a user by their UUID.
    pub fn find_by_id(&self, id: Uuid) -> (r: StoreRequest)
        ensures
            r == (StoreRequest::FindUserById { id }),
    {
        StoreRequest::FindUserById { id }
    }

    /// Fetch a user by email address.
    pub fn find_by_email(&self, email: &str) -> (r: StoreRequest)
        ensures
            r matches StoreRequest::FindUserByEmail { email: e } && e@ == email@,
    {
        StoreRequest::FindUserByEmail { email: email.to_owned() }
    }

    /// Fetch the local credential for a user, if one exists.
    ///
    /// There is none for OAuth-only accounts that have never set a password.
    pub fn find_local_credential(&self, user_id: Uuid) -> (r: StoreRequest)
        ensures
            r == (StoreRequest::FindLocalCredential { user_id }),
    {
        StoreRequest::FindLocalCredential { user_id }
    }

    /// Look up a user via an existing OAuth link.
    pub fn find_by_oauth_identity(&self, provider: OAuthProvider, provider_user_id: &str) -> (r:
        StoreRequest)
        ensures
            r matches StoreRequest::FindUserByIdentity { provider: p, provider_user_id: id } && p
                == stored_provider(provider) && id@ == provider_user_id@,
    {
        StoreRequest::FindUserByIdentity {
            provider: Provider::from(provider),
            provider_user_id: provider_user_id.to_owned(),
        }
    }

    /// Begin to create a new user with a local (password) credential.
    ///
    /// Both rows are inserted in a single transaction so a partial failure
    /// never leaves a `users` row without a matching `local_credentials` row.
    ///
    /// # Errors
    ///
    /// Ends in [`AppError::Hashing`] if password hashing fails.
    pub fn create(&self, email: &str, display_name: &str, username: &str, password: &str) -> (r:
        Step)
        ensures
            opens_account(r, email@, display_name@, username@, password@),
            account_somehow(password@, r),
    {
        self.create_by(&Draws::draw(), email, display_name, username, password)
    }

    /// Begin to create a new user with a local (password) credential, by these
    /// draws.
    ///
    /// # Errors
    ///
    /// Ends in [`AppError::Hashing`] if password hashing fails.
    pub fn create_by(
        &self,
        draws: &Draws,
        email: &str,
        display_name: &str,
        username: &str,
        password: &str,
    ) -> (r: Step)
        requires
            drawn(*draws),
        ensures
            opens_account(r, email@, display_name@, username@, password@),
            account_by_draws(password@, *draws, r),
    {
        let password_hash = match hash_password_by(password, draws) {
            Ok(hash) => hash,
            Err(e) => return refuse(e),
        };
        self.open_account(
            NewAccount {
                id: uuid_now_v7(),
                email: email.to_owned(),
                display_name: display_name.to_owned(),
                username: username.to_owned(),
                password_hash,
            },
        )
    }

    /// Begin to create an account, in a transaction.
    pub fn open_account(&self, account: NewAccount) -> (r: Step)
        ensures
            r == (Step::Ask {
                request: StoreRequest::Begin,
                then: Flow::OpeningAccount { account },
            }),
    {
        Step::Ask { request: StoreRequest::Begin, then: Flow::OpeningAccount { account } }
    }

    /// Add the user of a new account, once the transaction is open.
    pub fn add_user(&self, account: NewAccount, reply: StoreReply) -> (r: Step)
        ensures
            account_opened(account, reply, r),
    {
        match reply {
            StoreReply::Done => Step::Ask {
                request: StoreRequest::InsertUser {
                    id: account.id,
                    email: account.email,
                    display_name: account.display_name,
                },
                then: Flow::AddingUser {
                    user_id: account.id,
                    username: account.username,
                    password_hash: account.password_hash,
                },
            },
            StoreReply::Failed(err) => store_failed(err),
            _ => unexpected_reply(),
        }
    }

    /// Add the credential of a new account, once its user is there.
    ///
    /// # Errors
    ///
    /// Ends in [`AppError::EmailTaken`] if the email is in use.
    pub fn add_credential(
        &self,
        user_id: Uuid,
        username: String,
        password_hash: String,
        reply: StoreReply,
    ) -> (r: Step)
        ensures
            user_added(user_id, username, password_hash, reply, r),
    {
        match reply {
            StoreReply::User(Some(user)) => Step::Ask {
                request: StoreRequest::InsertLocalCredential { user_id, username, password_hash },
                then: Flow::AddingCredential { user },
            },
            StoreReply::Failed(err) => refuse(
                map_constraint_err(err, "users_email_key", AppError::EmailTaken),
            ),
            _ => unexpected_reply(),
        }
    }

    /// Commit a new account, once its credential is there.
    ///
    /// # Errors
    ///
    /// Ends in [`AppError::UsernameTaken`] if the username is in use.
    pub fn commit_account(&self, user: User, reply: StoreReply) -> (r: Step)
        ensures
            credential_added(user, reply, r),
    {
        match reply {
            StoreReply::Credential(Some(credential)) => Step::Ask {
                request: StoreRequest::Commit,
                then: Flow::CommittingAccount { user, credential },
            },
            StoreReply::Failed(err) => refuse(
                map_constraint_err(err, "local_credentials_username_key", AppError::UsernameTaken),
            ),
            _ => unexpected_reply(),
        }
    }

    /// Create a new user seeded from an OAuth profile, with no local credential.
    ///
    /// The resulting account cannot be used for password login until the user
    /// explicitly sets a password.
    pub fn create_from_oauth(&self, email: &str, display_name: Option<&str>) -> (r: StoreRequest)
        ensures
            match r {
                StoreRequest::InsertUser { id, email: e, display_name: name } => {
                    &&& is_version_7(id)
                    &&& id_drawn(id)
                    &&& e@ == email@
                    &&& name@ == oauth_display_name(
                        email@,
                        match display_name {
                            Some(given) => Some(given@),
                            None => None,
                        },
                    )
                },
                _ => false,
            },
    {
        let name = match display_name {
            Some(given) => given.to_owned(),
            None => before(email, '@'),
        };
        StoreRequest::InsertUser { id: uuid_now_v7(), email: email.to_owned(), display_name: name }
    }

    /// Link an external identity to a user.
    ///
    /// A link that is there already stays as it is: a concurrent first login
    /// with the same identity does no harm.
    pub fn link_oauth_account(&self, user_id: Uuid, profile: &OAuthProfile) -> (r: StoreRequest)
        ensures
            match r {
                StoreRequest::LinkIdentity { id, user_id: owner, provider, provider_user_id } => {
                    &&& is_version_7(id)
                    &&& id_drawn(id)
                    &&& owner == user_id
                    &&& provider == stored_provider(profile.provider)
                    &&& provider_user_id == profile.provider_user_id
                },
                _ => false,
            },
    {
        StoreRequest::LinkIdentity {
            id: uuid_now_v7(),
            user_id,
            provider: Provider::from(profile.provider),
            provider_user_id: profile.provider_user_id.clone(),
        }
    }

    /// Begin to show the profile of a user.
    pub fn profile(&self, user_id: Uuid) -> (r: Step)
        ensures
            r == (Step::Ask {
                request: StoreRequest::FindUserById { id: user_id },
                then: Flow::FindingProfile,
            }),
    {
        Step::Ask { request: self.find_by_id(user_id), then: Flow::FindingProfile }
    }

    /// Look up the credential of the user to show.
    ///
    /// # Errors
    ///
    /// Ends in [`AppError::UserNotFound`] if there is no such user.
    pub fn show_user(&self, reply: StoreReply) -> (r: Step)
        ensures
            user_to_show(reply, r),
    {
        match reply {
            StoreReply::User(Some(user)) => Step::Ask {
                request: self.find_local_credential(user.id),
                then: Flow::ShowingProfile { user },
            },
            StoreReply::User(None) => refuse(AppError::UserNotFound),
            StoreReply::Failed(err) => store_failed(err),
            _ => unexpected_reply(),
        }
    }

    /// Show a user with the credential that was found.
    pub fn show_profile(&self, user: User, reply: StoreReply) -> (r: Step)
        ensures
            profile_shown(user, reply, r),
    {
        match reply {
            StoreReply::Credential(local_credential) => Step::Finish(
                Ok(Outcome::Profile(UserResponse::from(UserView { user, local_credential }))),
            ),
            StoreReply::Failed(err) => store_failed(err),
            _ => unexpected_reply(),
        }
    }

    /// Begin to change a password.
    pub fn change_password(&self, user_id: Uuid, current_password: &str, new_password: &str) -> (r:
        Step)
        ensures
            changes_password(user_id, current_password@, new_password@, None, r),
    {
        self.change_password_then(user_id, current_password, new_password, None)
    }

    /// Begin to change a password; where a message is given, all tokens of the user
    /// are revoked then, and the operation ends in the message.
    pub fn change_password_then(
        &self,
        user_id: Uuid,
        current_password: &str,
        new_password: &str,
        revoke: Option<&'static str>,
    ) -> (r: Step)
        ensures
            changes_password(user_id, current_password@, new_password@, said(revoke), r),
    {
        Step::Ask {
            request: self.find_local_credential(user_id),
            then: Flow::ConfirmingPassword {
                user_id,
                current_password: current_password.to_owned(),
                new_password: new_password.to_owned(),
                revoke,
            },
        }
    }

    /// Update the stored password hash after verifying the current password.
    ///
    /// # Errors
    ///
    /// Ends in [`AppError::UserNotFound`] if the user has no local credential,
    /// [`AppError::InvalidCredentials`] if `current_password` is wrong or
    /// `new_password` is too short, and [`AppError::Hashing`] if hashing the new
    /// password fails or the stored hash cannot be read.
    pub fn confirm_password(
        &self,
        user_id: Uuid,
        current_password: String,
        new_password: String,
        revoke: Option<&'static str>,
        reply: StoreReply,
        draws: &Draws,
    ) -> (r: Step)
        requires
            drawn(*draws),
        ensures
            password_confirmed(user_id, current_password@, new_password@, revoke, reply, r),
            may_change(current_password@, new_password@, reply) ==> password_by_draws(
                new_password@,
                *draws,
                r,
            ),
    {
        let credential = match reply {
            StoreReply::Credential(Some(credential)) => credential,
            StoreReply::Credential(None) => return refuse(AppError::UserNotFound),
            StoreReply::Failed(err) => return store_failed(err),
            _ => return unexpected_reply(),
        };
        match verify_password(current_password.as_str(), credential.password_hash.as_str()) {
            Ok(true) => {},
            Ok(false) => return refuse(AppError::InvalidCredentials),
            Err(e) => return refuse(e),
        }
        if let Err(e) = validate_password(new_password.as_str()) {
            return refuse(e);
        }
        match hash_password_by(new_password.as_str(), draws) {
            Ok(password_hash) => self.store_password(user_id, password_hash, revoke),
            Err(e) => refuse(e),
        }
    }

    /// Store a new password hash.
    pub fn store_password(
        &self,
        user_id: Uuid,
        password_hash: String,
        revoke: Option<&'static str>,
    ) -> (r: Step)
        ensures
            r == (Step::Ask {
                request: StoreRequest::SetPasswordHash { user_id, password_hash },
                then: Flow::StoringPassword { user_id, revoke },
            }),
    {
        Step::Ask {
            request: StoreRequest::SetPasswordHash { user_id, password_hash },
            then: Flow::StoringPassword { user_id, revoke },
        }
    }

    /// End the assignment of a role with the user.
    ///
    /// # Errors
    ///
    /// Ends in [`AppError::UserNotFound`] if there is no such user.
    pub fn end_assignment(&self, reply: StoreReply) -> (r: Step)
        ensures
            role_assigned(reply, r),
    {
        match reply {
            StoreReply::User(Some(user)) => Step::Finish(Ok(Outcome::User(user))),
            StoreReply::User(None) => refuse(AppError::UserNotFound),
            StoreReply::Failed(err) => store_failed(err),
            _ => unexpected_reply(),
        }
    }

    /// Begin to assign a new role to a user (admin operation), and to show the
    /// profile then.
    pub fn update_role_shown(&self, user_id: Uuid, role: Role) -> (r: Step)
        ensures
            r == (Step::Ask {
                request: StoreRequest::SetRole { user_id, role },
                then: Flow::AssigningShownRole,
            }),
    {
        Step::Ask {
            request: StoreRequest::SetRole { user_id, role },
            then: Flow::AssigningShownRole,
        }
    }

    /// Begin to assign a new role to a user (admin operation).
    pub fn update_role(&self, user_id: Uuid, role: Role) -> (r: Step)
        ensures
            r == (Step::Ask {
                request: StoreRequest::SetRole { user_id, role },
                then: Flow::AssigningRole,
            }),
    {
        Step::Ask { request: StoreRequest::SetRole { user_id, role }, then: Flow::AssigningRole }
    }

    /// Begin to soft-delete a user by marking it inactive.
    pub fn deactivate(&self, user_id: Uuid) -> (r: Step)
        ensures
            deactivates(user_id, None, r),
    {
        self.deactivate_then(user_id, None)
    }

    /// Begin to soft-delete a user by marking it inactive; where a message is given,
    /// all tokens of the user are revoked then, and the operation ends in the message.
    pub fn deactivate_then(&self, user_id: Uuid, revoke: Option<&'static str>) -> (r: Step)
        ensures
            deactivates(user_id, said(revoke), r),
    {
        Step::Ask {
            request: StoreRequest::Deactivate { user_id },
            then: Flow::Deactivating { user_id, revoke },
        }
    }
}

} // verus!
