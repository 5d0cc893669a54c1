//! Registration, login, token refresh and logout.
use crate::config::Config;
use crate::errors::AppError;
use crate::models::{
    AuthMethod, AuthResponse, LocalCredential, MessageResponse, User, UserResponse, UserView, Uuid,
};
use crate::services::draws::Draws;
use crate::services::flow::{refuse, store_failed, unexpected_reply, Flow, Outcome, Step};
use crate::services::oauth::OAuthProfile;
use crate::services::store::{map_constraint_err, StoreReply, StoreRequest};
use crate::services::token::{verify_password, NewRefreshToken, TokenService};
use crate::services::user::{validate_password, validate_username, UserService};
use crate::text::before;
use vstd::prelude::*;

verus! {

use crate::models::{shows_user, stored_provider};
use crate::outside::identifiers::{id_drawn, is_version_7};
use crate::outside::password::argon2id_check;
use crate::services::draws::{drawn, given};
use crate::services::flow::{broke, refused};
use crate::services::token::{
    can_sign, fresh_token, issued, looks_up, made_by_draws, ready, replaced_by_draws, rotation,
    signed_by_draws, token_found, token_refused, token_revoked,
};
use crate::services::user::{
    account_by_draws, account_opened, account_somehow, constraint_error, credential_added, may_change,
    oauth_display_name, opens_account, password_by_draws, password_confirmed, password_ok,
    profile_shown, role_assigned, user_added, user_to_show,
    username_ok,
};
use crate::text::{said, text_before, text_of};

/// Registration, login, token refresh and logout.
#[derive(Debug, Clone)]
pub struct AuthService {
    pub user: UserService,
    pub token: TokenService,
    pub config: Config,
}

/// `response` answers a user who may come in: it has an access token issued for
/// the user by that method, its lifetime, and the public form of the user.
pub open spec fn welcomes(
    svc: AuthService,
    user: User,
    credential: Option<LocalCredential>,
    auth_method: AuthMethod,
    response: AuthResponse,
) -> bool {
    &&& issued(
        svc.token.config,
        user.id,
        user.email@,
        user.display_name@,
        user.role,
        auth_method,
        response.access_token@,
    )
    &&& response.expires_in == svc.config.access_token_expiry_secs
    &&& shows_user(response.user, user, credential)
}

/// `step` issues tokens to a user: it records the refresh token of a response
/// that welcomes the user. It fails only where no token can be made.
pub open spec fn issues(
    svc: AuthService,
    user: User,
    credential: Option<LocalCredential>,
    auth_method: AuthMethod,
    step: Step,
) -> bool {
    match step {
        Step::Ask { request, then: Flow::RecordingToken { response } } => {
            &&& welcomes(svc, user, credential, auth_method, response)
            &&& fresh_token(
                svc.token.config,
                user.id,
                (NewRefreshToken { raw: response.refresh_token, request }),
            )
        },
        Step::Finish(Err(e)) => e is Internal,
        _ => false,
    }
}

/// What the issue of tokens to a user comes to by these draws.
pub open spec fn issued_by_draws(
    svc: AuthService,
    user: User,
    auth_method: AuthMethod,
    d: Draws,
    step: Step,
) -> bool {
    match step {
        Step::Ask { request, then: Flow::RecordingToken { response } } => {
            &&& ready(svc.token.config, d)
            &&& signed_by_draws(svc.token.config, user, auth_method, d, response.access_token@)
            &&& made_by_draws(
                svc.token.config,
                user.id,
                d,
                (NewRefreshToken { raw: response.refresh_token, request }),
            )
        },
        _ => !ready(svc.token.config, d) && broke(step),
    }
}

/// What the answer to a refresh comes to by these draws.
pub open spec fn refreshed_by_draws(
    svc: AuthService,
    user: User,
    credential: Option<LocalCredential>,
    d: Draws,
    step: Step,
) -> bool {
    match step {
        Step::Finish(Ok(Outcome::Tokens(response))) => {
            &&& can_sign(svc.token.config, d)
            &&& signed_by_draws(
                svc.token.config,
                user,
                refresh_method(credential),
                d,
                response.access_token@,
            )
        },
        _ => !can_sign(svc.token.config, d) && broke(step),
    }
}

/// `step` begins a registration.
pub open spec fn registers(
    email: Seq<char>,
    username: Seq<char>,
    password: Seq<char>,
    step: Step,
) -> bool {
    if password_ok(password) && username_ok(username) {
        opens_account(step, email, text_before(email, '@'), username, password)
    } else {
        refused(step, AppError::InvalidCredentials)
    }
}

/// What follows the commit of a new account: tokens are issued.
pub open spec fn account_committed(
    svc: AuthService,
    user: User,
    credential: LocalCredential,
    reply: StoreReply,
    step: Step,
) -> bool {
    match reply {
        StoreReply::Done => issues(svc, user, Some(credential), AuthMethod::Password, step),
        StoreReply::Failed(err) => refused(step, AppError::Database(err.text)),
        _ => broke(step),
    }
}

/// `step` begins a login.
pub open spec fn logs_in(email: Seq<char>, password: Seq<char>, step: Step) -> bool {
    match step {
        Step::Ask {
            request: StoreRequest::FindUserByEmail { email: e },
            then: Flow::FindingLogin { password: p },
        } => e@ == email && p@ == password,
        _ => false,
    }
}

/// What follows the look-up of the user who logs in: the look-up of the
/// credential. An unknown email is answered as a wrong password is.
pub open spec fn login_found(password: String, reply: StoreReply, step: Step) -> bool {
    match reply {
        StoreReply::User(Some(user)) => if user.is_active {
            step == (Step::Ask {
                request: StoreRequest::FindLocalCredential { user_id: user.id },
                then: Flow::CheckingPassword { user, password },
            })
        } else {
            refused(step, AppError::AccountDisabled)
        },
        StoreReply::User(None) => refused(step, AppError::InvalidCredentials),
        StoreReply::Failed(err) => refused(step, AppError::Database(err.text)),
        _ => broke(step),
    }
}

/// What follows the look-up of the credential of the user who logs in: tokens
/// are issued if the password matches. An account without a credential is
/// answered as a wrong password is.
pub open spec fn password_checked(
    svc: AuthService,
    user: User,
    password: Seq<char>,
    reply: StoreReply,
    step: Step,
) -> bool {
    match reply {
        StoreReply::Credential(Some(credential)) => match argon2id_check(
            password,
            credential.password_hash@,
        ) {
            None => refused(step, AppError::Hashing),
            Some(false) => refused(step, AppError::InvalidCredentials),
            Some(true) => issues(svc, user, Some(credential), AuthMethod::Password, step),
        },
        StoreReply::Credential(None) => refused(step, AppError::InvalidCredentials),
        StoreReply::Failed(err) => refused(step, AppError::Database(err.text)),
        _ => broke(step),
    }
}

/// What follows the recording of a new refresh token in place of an old one:
/// the look-up of its user.
pub open spec fn token_replaced(
    user_id: Uuid,
    refresh_token: String,
    reply: StoreReply,
    step: Step,
) -> bool {
    match reply {
        StoreReply::Done => step == (Step::Ask {
            request: StoreRequest::FindUserById { id: user_id },
            then: Flow::FindingOwner { refresh_token },
        }),
        StoreReply::Failed(err) => refused(step, AppError::Database(err.text)),
        _ => broke(step),
    }
}

/// What follows the look-up of the user of a refresh token: the look-up of the
/// credential.
pub open spec fn owner_found(refresh_token: String, reply: StoreReply, step: Step) -> bool {
    match reply {
        StoreReply::User(Some(user)) => if user.is_active {
            step == (Step::Ask {
                request: StoreRequest::FindLocalCredential { user_id: user.id },
                then: Flow::FinishingRefresh { user, refresh_token },
            })
        } else {
            refused(step, AppError::AccountDisabled)
        },
        StoreReply::User(None) => refused(step, AppError::UserNotFound),
        StoreReply::Failed(err) => refused(step, AppError::Database(err.text)),
        _ => broke(step),
    }
}

/// The method by which a user who has that credential refreshes: a missing
/// credential means that the account is OAuth-only.
pub open spec fn refresh_method(credential: Option<LocalCredential>) -> AuthMethod {
    if credential is Some {
        AuthMethod::Password
    } else {
        AuthMethod::OAuth
    }
}

/// What follows the look-up of the credential of the user of a refresh token:
/// the new pair of tokens.
pub open spec fn refreshed(
    svc: AuthService,
    user: User,
    refresh_token: String,
    reply: StoreReply,
    step: Step,
) -> bool {
    match reply {
        StoreReply::Credential(credential) => match step {
            Step::Finish(Ok(Outcome::Tokens(response))) => {
                &&& welcomes(svc, user, credential, refresh_method(credential), response)
                &&& response.refresh_token == refresh_token
            },
            Step::Finish(Err(e)) => e is Internal,
            _ => false,
        },
        StoreReply::Failed(err) => refused(step, AppError::Database(err.text)),
        _ => broke(step),
    }
}

/// `step` begins an OAuth login: it looks the identity up.
pub open spec fn looks_up_identity(profile: OAuthProfile, step: Step) -> bool {
    match step {
        Step::Ask {
            request: StoreRequest::FindUserByIdentity { provider, provider_user_id },
            then: Flow::FindingIdentity { profile: p },
        } => {
            &&& provider == stored_provider(profile.provider)
            &&& provider_user_id@ == profile.provider_user_id@
            &&& p == profile
        },
        _ => false,
    }
}

/// What follows once the user of an OAuth login is known: the look-up of the
/// credential, if the account is active.
pub open spec fn oauth_user_known(user: User, step: Step) -> bool {
    if user.is_active {
        step == (Step::Ask {
            request: StoreRequest::FindLocalCredential { user_id: user.id },
            then: Flow::FinishingOAuth { user },
        })
    } else {
        refused(step, AppError::AccountDisabled)
    }
}

/// `step` links the identity of a profile to a user, and waits as `then`.
pub open spec fn links(user: User, profile: OAuthProfile, then: Flow, step: Step) -> bool {
    match step {
        Step::Ask {
            request: StoreRequest::LinkIdentity { id, user_id, provider, provider_user_id },
            then: waiting,
        } => {
            &&& is_version_7(id)
            &&& id_drawn(id)
            &&& user_id == user.id
            &&& provider == stored_provider(profile.provider)
            &&& provider_user_id == profile.provider_user_id
            &&& waiting == then
        },
        _ => false,
    }
}

/// What follows the look-up of the user of an identity: an identity that is not
/// linked yet is resolved by the email.
pub open spec fn identity_found(profile: OAuthProfile, reply: StoreReply, step: Step) -> bool {
    match reply {
        StoreReply::User(Some(user)) => oauth_user_known(user, step),
        StoreReply::User(None) => match step {
            Step::Ask {
                request: StoreRequest::FindUserByEmail { email },
                then: Flow::FindingEmail { profile: p },
            } => email@ == profile.email@ && p == profile,
            _ => false,
        },
        StoreReply::Failed(err) => refused(step, AppError::Database(err.text)),
        _ => broke(step),
    }
}

/// What follows the look-up of the user of the email of a profile: the identity
/// is linked to that user; where there is none, a transaction is opened to add
/// one.
pub open spec fn email_found(profile: OAuthProfile, reply: StoreReply, step: Step) -> bool {
    match reply {
        StoreReply::User(Some(user)) => links(user, profile, Flow::LinkingIdentity { user }, step),
        StoreReply::User(None) => step == (Step::Ask {
            request: StoreRequest::Begin,
            then: Flow::OpeningOAuthUser { profile },
        }),
        StoreReply::Failed(err) => refused(step, AppError::Database(err.text)),
        _ => broke(step),
    }
}

/// What follows the opening of the transaction: the user of the profile is added.
pub open spec fn oauth_user_opened(profile: OAuthProfile, reply: StoreReply, step: Step) -> bool {
    match reply {
        StoreReply::Done => match step {
            Step::Ask {
                request: StoreRequest::InsertUser { id, email, display_name },
                then: Flow::AddingOAuthUser { profile: p },
            } => {
                &&& is_version_7(id)
                &&& id_drawn(id)
                &&& email@ == profile.email@
                &&& display_name@ == oauth_display_name(
                    profile.email@,
                    text_of(profile.display_name),
                )
                &&& p == profile
            },
            _ => false,
        },
        StoreReply::Failed(err) => refused(step, AppError::Database(err.text)),
        _ => broke(step),
    }
}

/// What follows the adding of the user of a profile: the identity is linked.
pub open spec fn oauth_user_added(profile: OAuthProfile, reply: StoreReply, step: Step) -> bool {
    match reply {
        StoreReply::User(Some(user)) => links(user, profile, Flow::LinkingNewUser { user }, step),
        StoreReply::Failed(err) => refused(
            step,
            constraint_error(err, "users_email_key"@, AppError::EmailTaken),
        ),
        _ => broke(step),
    }
}

/// What follows the linking of an identity to the user that was added: the
/// commit.
pub open spec fn new_user_linked(user: User, reply: StoreReply, step: Step) -> bool {
    match reply {
        StoreReply::Done => step == (Step::Ask {
            request: StoreRequest::Commit,
            then: Flow::CommittingOAuthUser { user },
        }),
        StoreReply::Failed(err) => refused(step, AppError::Database(err.text)),
        _ => broke(step),
    }
}

/// What follows once the identity is linked, and the transaction committed where
/// there was one.
pub open spec fn identity_linked(user: User, reply: StoreReply, step: Step) -> bool {
    match reply {
        StoreReply::Done => oauth_user_known(user, step),
        StoreReply::Failed(err) => refused(step, AppError::Database(err.text)),
        _ => broke(step),
    }
}

/// What follows the look-up of the credential in an OAuth login: tokens are
/// issued.
pub open spec fn oauth_finished(svc: AuthService, user: User, reply: StoreReply, step: Step) -> bool {
    match reply {
        StoreReply::Credential(credential) => issues(
            svc,
            user,
            credential,
            AuthMethod::OAuth,
            step,
        ),
        StoreReply::Failed(err) => refused(step, AppError::Database(err.text)),
        _ => broke(step),
    }
}

/// What follows the recording of the refresh token of a response: the response.
pub open spec fn token_recorded(response: AuthResponse, reply: StoreReply, step: Step) -> bool {
    match reply {
        StoreReply::Done => step == Step::Finish(Ok(Outcome::Tokens(response))),
        StoreReply::Failed(err) => refused(step, AppError::Database(err.text)),
        _ => broke(step),
    }
}

/// `step` revokes all tokens of a user, and then says `message`, if any.
pub open spec fn revokes(user_id: Uuid, message: Option<Seq<char>>, step: Step) -> bool {
    match step {
        Step::Ask { request, then: Flow::RevokingTokens { message: m } } => {
            &&& request == (StoreRequest::RevokeUserTokens { user_id })
            &&& said(m) == message
        },
        _ => false,
    }
}

/// What follows a change: nothing more, or, where a message is given, the
/// revocation of all tokens of the user.
pub open spec fn change_stored(
    user_id: Uuid,
    revoke: Option<&'static str>,
    reply: StoreReply,
    step: Step,
) -> bool {
    match reply {
        StoreReply::Done => if revoke is Some {
            revokes(user_id, said(revoke), step)
        } else {
            step == Step::Finish(Ok(Outcome::Done))
        },
        StoreReply::Failed(err) => refused(step, AppError::Database(err.text)),
        _ => broke(step),
    }
}

/// What follows the revocation of the tokens of a user: the message, if any.
pub open spec fn tokens_revoked(
    message: Option<&'static str>,
    reply: StoreReply,
    step: Step,
) -> bool {
    match reply {
        StoreReply::Done => match step {
            Step::Finish(Ok(Outcome::Message(m))) => said(message) == Some(m.message@),
            Step::Finish(Ok(Outcome::Done)) => message is None,
            _ => false,
        },
        StoreReply::Failed(err) => refused(step, AppError::Database(err.text)),
        _ => broke(step),
    }
}

/// `step` is how an operation goes on that waited as `flow` and got `reply`.
pub open spec fn resumes(svc: AuthService, flow: Flow, reply: StoreReply, step: Step) -> bool {
    match flow {
        Flow::OpeningAccount { account } => account_opened(account, reply, step),
        Flow::AddingUser { user_id, username, password_hash } => user_added(
            user_id,
            username,
            password_hash,
            reply,
            step,
        ),
        Flow::AddingCredential { user } => credential_added(user, reply, step),
        Flow::CommittingAccount { user, credential } => account_committed(
            svc,
            user,
            credential,
            reply,
            step,
        ),
        Flow::FindingLogin { password } => login_found(password, reply, step),
        Flow::CheckingPassword { user, password } => password_checked(
            svc,
            user,
            password@,
            reply,
            step,
        ),
        Flow::FindingToken => token_found(reply, step),
        Flow::RefusingToken => token_refused(reply, step),
        Flow::RevokingToken { user_id } => token_revoked(svc.token.config, user_id, reply, step),
        Flow::ReplacingToken { user_id, refresh_token } => token_replaced(
            user_id,
            refresh_token,
            reply,
            step,
        ),
        Flow::FindingOwner { refresh_token } => owner_found(refresh_token, reply, step),
        Flow::FinishingRefresh { user, refresh_token } => refreshed(
            svc,
            user,
            refresh_token,
            reply,
            step,
        ),
        Flow::FindingIdentity { profile } => identity_found(profile, reply, step),
        Flow::FindingEmail { profile } => email_found(profile, reply, step),
        Flow::OpeningOAuthUser { profile } => oauth_user_opened(profile, reply, step),
        Flow::AddingOAuthUser { profile } => oauth_user_added(profile, reply, step),
        Flow::LinkingNewUser { user } => new_user_linked(user, reply, step),
        Flow::CommittingOAuthUser { user } => identity_linked(user, reply, step),
        Flow::LinkingIdentity { user } => identity_linked(user, reply, step),
        Flow::FinishingOAuth { user } => oauth_finished(svc, user, reply, step),
        Flow::RecordingToken { response } => token_recorded(response, reply, step),
        Flow::FindingProfile => user_to_show(reply, step),
        Flow::AssigningRole => role_assigned(reply, step),
        Flow::AssigningShownRole => user_to_show(reply, step),
        Flow::ShowingProfile { user } => profile_shown(user, reply, step),
        Flow::ConfirmingPassword { user_id, current_password, new_password, revoke } => {
            password_confirmed(
                user_id,
                current_password@,
                new_password@,
                revoke,
                reply,
                step,
            )
        },
        Flow::StoringPassword { user_id, revoke } => change_stored(user_id, revoke, reply, step),
        Flow::Deactivating { user_id, revoke } => change_stored(user_id, revoke, reply, step),
        Flow::RevokingTokens { message } => tokens_revoked(message, reply, step),
    }
}

/// What the draws have to do with how an operation goes on: they decide whether a
/// token is still good, and they make, or fail to make, the tokens and the hashes.
pub open spec fn follows_draws(
    svc: AuthService,
    flow: Flow,
    reply: StoreReply,
    d: Draws,
    step: Step,
) -> bool {
    match flow {
        Flow::CommittingAccount { user, .. } => reply is Done ==> issued_by_draws(
            svc,
            user,
            AuthMethod::Password,
            d,
            step,
        ),
        Flow::CheckingPassword { user, password } => match reply {
            StoreReply::Credential(Some(credential)) => argon2id_check(
                password@,
                credential.password_hash@,
            ) == Some(true) ==> issued_by_draws(svc, user, AuthMethod::Password, d, step),
            _ => true,
        },
        Flow::FindingToken => match reply {
            StoreReply::RefreshToken(Some(row)) => step == rotation(row, d.now),
            _ => true,
        },
        Flow::RevokingToken { user_id } => reply is Done ==> replaced_by_draws(
            svc.token.config,
            user_id,
            d,
            step,
        ),
        Flow::FinishingRefresh { user, .. } => match reply {
            StoreReply::Credential(credential) => refreshed_by_draws(
                svc,
                user,
                credential,
                d,
                step,
            ),
            _ => true,
        },
        Flow::FinishingOAuth { user } => reply is Credential ==> issued_by_draws(
            svc,
            user,
            AuthMethod::OAuth,
            d,
            step,
        ),
        Flow::ConfirmingPassword { current_password, new_password, .. } => {
            may_change(current_password@, new_password@, reply) ==> password_by_draws(
                new_password@,
                d,
                step,
            )
        },
        _ => true,
    }
}

/// `step` is how an operation goes on that waited as `flow` and got `reply`, by
/// draws that the machine gave.
pub open spec fn resumes_somehow(
    svc: AuthService,
    flow: Flow,
    reply: StoreReply,
    step: Step,
) -> bool {
    &&& resumes(svc, flow, reply, step)
    &&& exists|d: Draws|
        drawn(d) && given(d) && #[trigger] follows_draws(svc, flow, reply, d, step)
}

/// `step` begins a registration, by draws that the machine gave.
pub open spec fn registers_somehow(
    email: Seq<char>,
    username: Seq<char>,
    password: Seq<char>,
    step: Step,
) -> bool {
    &&& registers(email, username, password, step)
    &&& password_ok(password) && username_ok(username) ==> account_somehow(password, step)
}

impl AuthService {
    #[must_use]
    pub fn new(user: UserService, token: TokenService, config: Config) -> (r: Self)
        ensures
            r.user == user,
            r.token == token,
            r.config == config,
    {
        AuthService { user, token, config }
    }

    /// Begin to register a new account with a local credential; tokens are
    /// issued once it is there.
    ///
    /// # Errors
    ///
    /// Ends in [`AppError::InvalidCredentials`] if the password or the username is
    /// of no acceptable length, and in [`AppError::Hashing`] if hashing fails.
    pub fn register(&self, email: &str, username: &str, password: &str) -> (r: Step)
        ensures
            registers_somehow(email@, username@, password@, r),
    {
        self.register_by(&Draws::draw(), email, username, password)
    }

    /// Begin to register a new account with a local credential, by these draws.
    ///
    /// # Errors
    ///
    /// Ends in [`AppError::InvalidCredentials`] if the password or the username is
    /// of no acceptable length, and in [`AppError::Hashing`] if hashing fails.
    pub fn register_by(&self, draws: &Draws, email: &str, username: &str, password: &str) -> (r:
        Step)
        requires
            drawn(*draws),
        ensures
            registers(email@, username@, password@, r),
            password_ok(password@) && username_ok(username@) ==> account_by_draws(
                password@,
                *draws,
                r,
            ),
    {
        if let Err(e) = validate_password(password) {
            return refuse(e);
        }
        if let Err(e) = validate_username(username) {
            return refuse(e);
        }
        // The email prefix is the display name on registration; users can update it later.
        let display_name = before(email, '@');
        self.user.create_by(draws, email, display_name.as_str(), username, password)
    }

    /// Begin to validate credentials; tokens are issued if they are good.
    ///
    /// # Errors
    ///
    /// Ends in [`AppError::InvalidCredentials`] if the email is not found, the
    /// account has no local credential (OAuth-only), or the password is wrong,
    /// and in [`AppError::AccountDisabled`] if the account is inactive.
    pub fn login(&self, email: &str, password: &str) -> (r: Step)
        ensures
            logs_in(email@, password@, r),
    {
        Step::Ask {
            request: self.user.find_by_email(email),
            then: Flow::FindingLogin { password: password.to_owned() },
        }
    }

    /// Begin to exchange a valid refresh token for a fresh token pair.
    ///
    /// # Errors
    ///
    /// Ends in [`AppError::RefreshTokenInvalid`] if the token is unknown, revoked
    /// or expired, and in [`AppError::AccountDisabled`] if the account is inactive.
    pub fn refresh(&self, raw_refresh_token: &str) -> (r: Step)
        ensures
            looks_up(raw_refresh_token@, r),
    {
        self.token.rotate_refresh_token(raw_refresh_token)
    }

    /// Begin to revoke all refresh tokens for the authenticated user.
    pub fn logout(&self, user_id: Uuid) -> (r: Step)
        ensures
            revokes(user_id, None, r),
    {
        self.logout_then(user_id, None)
    }

    /// Begin to revoke all refresh tokens for the authenticated user; the operation
    /// ends in the message, if one is given.
    pub fn logout_then(&self, user_id: Uuid, message: Option<&'static str>) -> (r: Step)
        ensures
            revokes(user_id, said(message), r),
    {
        Step::Ask {
            request: self.token.revoke_all_user_tokens(user_id),
            then: Flow::RevokingTokens { message },
        }
    }

    /// Begin to find or create a local user from a verified OAuth profile; tokens
    /// are then issued.
    ///
    /// The user is the one that the identity is linked to. Where it is linked to
    /// none, it is linked to the user of the same email, or to a new one; a new user
    /// and the link are added in a single transaction, so that every user keeps at
    /// least one credential.
    ///
    /// # Errors
    ///
    /// Ends in [`AppError::AccountDisabled`] if the account has been deactivated.
    pub fn login_or_register_oauth(&self, profile: OAuthProfile) -> (r: Step)
        ensures
            looks_up_identity(profile, r),
    {
        Step::Ask {
            request: self.user.find_by_oauth_identity(
                profile.provider,
                profile.provider_user_id.as_str(),
            ),
            then: Flow::FindingIdentity { profile },
        }
    }

    /// Go on with an operation, now that the store has answered.
    pub fn resume(&self, flow: Flow, reply: StoreReply) -> (r: Step)
        ensures
            resumes_somehow(*self, flow, reply, r),
    {
        self.resume_by(&Draws::draw(), flow, reply)
    }

    /// Go on with an operation by these draws, now that the store has answered.
    pub fn resume_by(&self, draws: &Draws, flow: Flow, reply: StoreReply) -> (r: Step)
        requires
            drawn(*draws),
        ensures
            resumes(*self, flow, reply, r),
            follows_draws(*self, flow, reply, *draws, r),
    {
        match flow {
            Flow::OpeningAccount { account } => self.user.add_user(account, reply),
            Flow::AddingUser { user_id, username, password_hash } => self.user.add_credential(
                user_id,
                username,
                password_hash,
                reply,
            ),
            Flow::AddingCredential { user } => self.user.commit_account(user, reply),
            Flow::CommittingAccount { user, credential } => self.account_committed(
                user,
                credential,
                reply,
                draws,
            ),
            Flow::FindingLogin { password } => self.login_found(password, reply),
            Flow::CheckingPassword { user, password } => self.password_checked(
                user,
                password,
                reply,
                draws,
            ),
            Flow::FindingToken => self.token.check_token(reply, draws),
            Flow::RefusingToken => self.token.refuse_token(reply),
            Flow::RevokingToken { user_id } => self.token.replace_token(user_id, reply, draws),
            Flow::ReplacingToken { user_id, refresh_token } => self.token_replaced(
                user_id,
                refresh_token,
                reply,
            ),
            Flow::FindingOwner { refresh_token } => self.owner_found(refresh_token, reply),
            Flow::FinishingRefresh { user, refresh_token } => self.refreshed(
                user,
                refresh_token,
                reply,
                draws,
            ),
            Flow::FindingIdentity { profile } => self.identity_found(profile, reply),
            Flow::FindingEmail { profile } => self.email_found(profile, reply),
            Flow::OpeningOAuthUser { profile } => self.oauth_user_opened(profile, reply),
            Flow::AddingOAuthUser { profile } => self.oauth_user_added(profile, reply),
            Flow::LinkingNewUser { user } => self.new_user_linked(user, reply),
            Flow::CommittingOAuthUser { user } => self.identity_linked(user, reply),
            Flow::LinkingIdentity { user } => self.identity_linked(user, reply),
            Flow::FinishingOAuth { user } => self.oauth_finished(user, reply, draws),
            Flow::RecordingToken { response } => self.token_recorded(response, reply),
            Flow::FindingProfile => self.user.show_user(reply),
            Flow::AssigningRole => self.user.end_assignment(reply),
            Flow::AssigningShownRole => self.user.show_user(reply),
            Flow::ShowingProfile { user } => self.user.show_profile(user, reply),
            Flow::ConfirmingPassword { user_id, current_password, new_password, revoke } => {
                self.user.confirm_password(
                    user_id,
                    current_password,
                    new_password,
                    revoke,
                    reply,
                    draws,
                )
            },
            Flow::StoringPassword { user_id, revoke } => self.change_stored(user_id, revoke, reply),
            Flow::Deactivating { user_id, revoke } => self.change_stored(user_id, revoke, reply),
            Flow::RevokingTokens { message } => self.tokens_revoked(message, reply),
        }
    }

    /// Issue tokens to a user who may come in.
    ///
    /// # Errors
    ///
    /// Fails where no access token or no refresh token can be made.
    fn issue_tokens(&self, draws: &Draws, auth_method: AuthMethod, user_view: UserView) -> (r: Step)
        requires
            drawn(*draws),
        ensures
            issues(*self, user_view.user, user_view.local_credential, auth_method, r),
            issued_by_draws(*self, user_view.user, auth_method, *draws, r),
    {
        let access_token = match self.token.generate_access_token_by(
            draws,
            &user_view.user,
            auth_method,
        ) {
            Ok(token) => token,
            Err(e) => return refuse(e),
        };
        match self.token.create_refresh_token_by(draws, user_view.user.id) {
            Ok(refresh_token) => self.record_tokens(access_token, refresh_token, user_view),
            Err(e) => refuse(e),
        }
    }

    /// Record the refresh token that goes into a response.
    pub fn record_tokens(
        &self,
        access_token: String,
        refresh_token: NewRefreshToken,
        user_view: UserView,
    ) -> (r: Step)
        ensures
            match r {
                Step::Ask { request, then: Flow::RecordingToken { response } } => {
                    &&& request == refresh_token.request
                    &&& response.access_token == access_token
                    &&& response.refresh_token == refresh_token.raw
                    &&& response.expires_in == self.config.access_token_expiry_secs
                    &&& shows_user(response.user, user_view.user, user_view.local_credential)
                },
                _ => false,
            },
    {
        Step::Ask {
            request: refresh_token.request,
            then: Flow::RecordingToken {
                response: AuthResponse {
                    access_token,
                    refresh_token: refresh_token.raw,
                    expires_in: self.config.access_token_expiry_secs,
                    user: UserResponse::from(user_view),
                },
            },
        }
    }

    fn account_committed(
        &self,
        user: User,
        credential: LocalCredential,
        reply: StoreReply,
        draws: &Draws,
    ) -> (r: Step)
        requires
            drawn(*draws),
        ensures
            account_committed(*self, user, credential, reply, r),
            reply is Done ==> issued_by_draws(*self, user, AuthMethod::Password, *draws, r),
    {
        match reply {
            StoreReply::Done => self.issue_tokens(
                draws,
                AuthMethod::Password,
                UserView { user, local_credential: Some(credential) },
            ),
            StoreReply::Failed(err) => store_failed(err),
            _ => unexpected_reply(),
        }
    }

    fn login_found(&self, password: String, reply: StoreReply) -> (r: Step)
        ensures
            login_found(password, reply, r),
    {
        match reply {
            StoreReply::User(Some(user)) => {
                if !user.is_active {
                    return refuse(AppError::AccountDisabled);
                }
                Step::Ask {
                    request: self.user.find_local_credential(user.id),
                    then: Flow::CheckingPassword { user, password },
                }
            },
            StoreReply::User(None) => refuse(AppError::InvalidCredentials),
            StoreReply::Failed(err) => store_failed(err),
            _ => unexpected_reply(),
        }
    }

    fn password_checked(
        &self,
        user: User,
        password: String,
        reply: StoreReply,
        draws: &Draws,
    ) -> (r: Step)
        requires
            drawn(*draws),
        ensures
            password_checked(*self, user, password@, reply, r),
            follows_draws(
                *self,
                (Flow::CheckingPassword { user, password }),
                reply,
                *draws,
                r,
            ),
    {
        let credential = match reply {
            StoreReply::Credential(Some(credential)) => credential,
            // OAuth-only accounts have no local credential row; treat identically
            // to a wrong password to avoid leaking account existence.
            StoreReply::Credential(None) => return refuse(AppError::InvalidCredentials),
            StoreReply::Failed(err) => return store_failed(err),
            _ => return unexpected_reply(),
        };
        match verify_password(password.as_str(), credential.password_hash.as_str()) {
            Ok(true) => self.issue_tokens(
                draws,
                AuthMethod::Password,
                UserView { user, local_credential: Some(credential) },
            ),
            Ok(false) => refuse(AppError::InvalidCredentials),
            Err(e) => refuse(e),
        }
    }

    fn token_replaced(&self, user_id: Uuid, refresh_token: String, reply: StoreReply) -> (r: Step)
        ensures
            token_replaced(user_id, refresh_token, reply, r),
    {
        match reply {
            StoreReply::Done => Step::Ask {
                request: self.user.find_by_id(user_id),
                then: Flow::FindingOwner { refresh_token },
            },
            StoreReply::Failed(err) => store_failed(err),
            _ => unexpected_reply(),
        }
    }

    fn owner_found(&self, refresh_token: String, reply: StoreReply) -> (r: Step)
        ensures
            owner_found(refresh_token, reply, r),
    {
        match reply {
            StoreReply::User(Some(user)) => {
                if !user.is_active {
                    return refuse(AppError::AccountDisabled);
                }
                Step::Ask {
                    request: self.user.find_local_credential(user.id),
                    then: Flow::FinishingRefresh { user, refresh_token },
                }
            },
            StoreReply::User(None) => refuse(AppError::UserNotFound),
            StoreReply::Failed(err) => store_failed(err),
            _ => unexpected_reply(),
        }
    }

    fn refreshed(
        &self,
        user: User,
        refresh_token: String,
        reply: StoreReply,
        draws: &Draws,
    ) -> (r: Step)
        requires
            drawn(*draws),
        ensures
            refreshed(*self, user, refresh_token, reply, r),
            reply matches StoreReply::Credential(credential) ==> refreshed_by_draws(
                *self,
                user,
                credential,
                *draws,
                r,
            ),
    {
        let credential = match reply {
            StoreReply::Credential(credential) => credential,
            StoreReply::Failed(err) => return store_failed(err),
            _ => return unexpected_reply(),
        };
        // A missing local credential means this is an OAuth-only account.
        let auth_method = if credential.is_some() {
            AuthMethod::Password
        } else {
            AuthMethod::OAuth
        };
        match self.token.generate_access_token_by(draws, &user, auth_method) {
            Ok(access_token) => self.answer_refresh(
                access_token,
                refresh_token,
                UserView { user, local_credential: credential },
            ),
            Err(e) => refuse(e),
        }
    }

    /// Answer a refresh with the new pair of tokens.
    pub fn answer_refresh(
        &self,
        access_token: String,
        refresh_token: String,
        user_view: UserView,
    ) -> (r: Step)
        ensures
            match r {
                Step::Finish(Ok(Outcome::Tokens(response))) => {
                    &&& response.access_token == access_token
                    &&& response.refresh_token == refresh_token
                    &&& response.expires_in == self.config.access_token_expiry_secs
                    &&& shows_user(response.user, user_view.user, user_view.local_credential)
                },
                _ => false,
            },
    {
        Step::Finish(
            Ok(
                Outcome::Tokens(
                    AuthResponse {
                        access_token,
                        refresh_token,
                        expires_in: self.config.access_token_expiry_secs,
                        user: UserResponse::from(user_view),
                    },
                ),
            ),
        )
    }

    fn oauth_user_known(&self, user: User) -> (r: Step)
        ensures
            oauth_user_known(user, r),
    {
        if !user.is_active {
            return refuse(AppError::AccountDisabled);
        }
        // A merged account (OAuth + password) still has a local credential;
        // look it up so that `has_local_credential` is accurate in the response.
        Step::Ask {
            request: self.user.find_local_credential(user.id),
            then: Flow::FinishingOAuth { user },
        }
    }

    fn identity_found(&self, profile: OAuthProfile, reply: StoreReply) -> (r: Step)
        ensures
            identity_found(profile, reply, r),
    {
        match reply {
            StoreReply::User(Some(user)) => self.oauth_user_known(user),
            StoreReply::User(None) => Step::Ask {
                request: self.user.find_by_email(profile.email.as_str()),
                then: Flow::FindingEmail { profile },
            },
            StoreReply::Failed(err) => store_failed(err),
            _ => unexpected_reply(),
        }
    }

    fn email_found(&self, profile: OAuthProfile, reply: StoreReply) -> (r: Step)
        ensures
            email_found(profile, reply, r),
    {
        match reply {
            StoreReply::User(Some(user)) => Step::Ask {
                request: self.user.link_oauth_account(user.id, &profile),
                then: Flow::LinkingIdentity { user },
            },
            // The user and the link go into one transaction, so that a partial failure
            // never leaves a user without any credential.
            StoreReply::User(None) => Step::Ask {
                request: StoreRequest::Begin,
                then: Flow::OpeningOAuthUser { profile },
            },
            StoreReply::Failed(err) => store_failed(err),
            _ => unexpected_reply(),
        }
    }

    fn oauth_user_opened(&self, profile: OAuthProfile, reply: StoreReply) -> (r: Step)
        ensures
            oauth_user_opened(profile, reply, r),
    {
        match reply {
            StoreReply::Done => {
                let display_name = match &profile.display_name {
                    Some(name) => Some(name.as_str()),
                    None => None,
                };
                Step::Ask {
                    request: self.user.create_from_oauth(profile.email.as_str(), display_name),
                    then: Flow::AddingOAuthUser { profile },
                }
            },
            StoreReply::Failed(err) => store_failed(err),
            _ => unexpected_reply(),
        }
    }

    fn oauth_user_added(&self, profile: OAuthProfile, reply: StoreReply) -> (r: Step)
        ensures
            oauth_user_added(profile, reply, r),
    {
        match reply {
            StoreReply::User(Some(user)) => Step::Ask {
                request: self.user.link_oauth_account(user.id, &profile),
                then: Flow::LinkingNewUser { user },
            },
            StoreReply::Failed(err) => refuse(
                map_constraint_err(err, "users_email_key", AppError::EmailTaken),
            ),
            _ => unexpected_reply(),
        }
    }

    fn new_user_linked(&self, user: User, reply: StoreReply) -> (r: Step)
        ensures
            new_user_linked(user, reply, r),
    {
        match reply {
            StoreReply::Done => Step::Ask {
                request: StoreRequest::Commit,
                then: Flow::CommittingOAuthUser { user },
            },
            StoreReply::Failed(err) => store_failed(err),
            _ => unexpected_reply(),
        }
    }

    fn identity_linked(&self, user: User, reply: StoreReply) -> (r: Step)
        ensures
            identity_linked(user, reply, r),
    {
        match reply {
            StoreReply::Done => self.oauth_user_known(user),
            StoreReply::Failed(err) => store_failed(err),
            _ => unexpected_reply(),
        }
    }

    fn oauth_finished(&self, user: User, reply: StoreReply, draws: &Draws) -> (r: Step)
        requires
            drawn(*draws),
        ensures
            oauth_finished(*self, user, reply, r),
            reply is Credential ==> issued_by_draws(*self, user, AuthMethod::OAuth, *draws, r),
    {
        match reply {
            StoreReply::Credential(local_credential) => self.issue_tokens(
                draws,
                AuthMethod::OAuth,
                UserView { user, local_credential },
            ),
            StoreReply::Failed(err) => store_failed(err),
            _ => unexpected_reply(),
        }
    }

    fn token_recorded(&self, response: AuthResponse, reply: StoreReply) -> (r: Step)
        ensures
            token_recorded(response, reply, r),
    {
        match reply {
            StoreReply::Done => Step::Finish(Ok(Outcome::Tokens(response))),
            StoreReply::Failed(err) => store_failed(err),
            _ => unexpected_reply(),
        }
    }

    fn change_stored(&self, user_id: Uuid, revoke: Option<&'static str>, reply: StoreReply) -> (r:
        Step)
        ensures
            change_stored(user_id, revoke, reply, r),
    {
        match reply {
            StoreReply::Done => match revoke {
                Some(message) => self.logout_then(user_id, Some(message)),
                None => Step::Finish(Ok(Outcome::Done)),
            },
            StoreReply::Failed(err) => store_failed(err),
            _ => unexpected_reply(),
        }
    }

    fn tokens_revoked(&self, message: Option<&'static str>, reply: StoreReply) -> (r: Step)
        ensures
            tokens_revoked(message, reply, r),
    {
        match reply {
            StoreReply::Done => match message {
                Some(m) => Step::Finish(Ok(Outcome::Message(MessageResponse::new(m)))),
                None => Step::Finish(Ok(Outcome::Done)),
            },
            StoreReply::Failed(err) => store_failed(err),
            _ => unexpected_reply(),
        }
    }
}

} // verus!
