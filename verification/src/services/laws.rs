//! What the operations come to, whatever the store answers: laws of whole runs.
use crate::errors::{AppError, AppResult};
use crate::models::{
    AuthMethod, AuthResponse, LocalCredential, Provider, Role, Timestamp, User, Uuid,
};
use crate::services::auth::AuthService;
use crate::services::draws::Draws;
use crate::services::flow::{Flow, Outcome, Step};
use crate::services::store::{RefreshTokenRow, StoreReply, StoreRequest};
use crate::services::tables::{Database, Tables, TokenRecord, Turn};
use vstd::prelude::*;

verus! {

use crate::models::{shows_user, stored_provider};
use crate::outside::password::argon2id_check;
use crate::services::auth::{
    issues, links, logs_in, looks_up_identity, oauth_user_known, refresh_method, registers, resumes,
    revokes, welcomes,
};
use crate::services::oauth::OAuthProfile;
use crate::services::tables::{
    at, carries_out, coherent, email_taken, hash_taken, new_user, runs, runs_from, same_but_active,
    same_but_hash, same_but_role, seen, username_taken, with_identity, with_token_revoked,
    with_tokens_revoked,
};
use crate::services::token::{can_hash, claims_of, looks_up, ready, refresh_token_hash, usable};
use crate::services::user::{
    account_by_draws, changes_password, deactivates, oauth_display_name, password_ok, username_ok,
};
use crate::text::{text_before, text_of};

/// A statement keeps the constraints of the tables.
proof fn lemma_carrying_out_keeps_coherence(
    t: Tables,
    request: StoreRequest,
    reply: StoreReply,
    u: Tables,
)
    requires
        coherent(t),
        carries_out(t, request, reply, u),
    ensures
        coherent(u),
{
}

/// Whatever an operation does, it keeps the constraints of the tables.
pub proof fn law_runs_keep_coherence(
    svc: AuthService,
    step: Step,
    db: Database,
    turns: Seq<Turn>,
    end: Tables,
    result: AppResult<Outcome>,
)
    requires
        coherent(db.tables),
        db.draft matches Some(draft) ==> coherent(draft),
        runs(svc, step, db, turns, end, result),
    ensures
        coherent(end),
    decreases turns.len(),
{
    match step {
        Step::Finish(_) => {},
        Step::Ask { request, then } => {
            let turn = turns[0];
            if !(turn.reply is Failed) && !(request is Begin) && !(request is Commit) {
                lemma_carrying_out_keeps_coherence(seen(db), request, turn.reply, seen(turn.db));
            }
            law_runs_keep_coherence(svc, turn.step, turn.db, turns.drop_first(), end, result);
        },
    }
}

/// An error that no request deserves: the store failed, or the machine did.
pub open spec fn broken(e: AppError) -> bool {
    e is Database || e is Internal || e is Hashing
}

/// The tables with one more refresh token.
pub open spec fn with_token(
    t: Tables,
    id: Uuid,
    user_id: Uuid,
    token_hash: Seq<char>,
    expires_at: Timestamp,
) -> Tables {
    Tables {
        tokens: t.tokens.insert(
            id,
            TokenRecord { user_id, token_hash, expires_at, revoked: false },
        ),
        ..t
    }
}

/// `u` is `t` with one more refresh token, which is recorded by its hash.
pub open spec fn adds_token(t: Tables, user_id: Uuid, raw: Seq<char>, u: Tables) -> bool {
    exists|id: Uuid, token_hash: Seq<char>, expires_at: Timestamp|
        {
            &&& !t.tokens.contains_key(id)
            &&& refresh_token_hash(raw) == Some(token_hash)
            &&& u == #[trigger] with_token(t, id, user_id, token_hash, expires_at)
        }
}

/// `user` is the user of that email.
pub open spec fn has_email(t: Tables, user: User, email: Seq<char>) -> bool {
    t.users.contains_pair(user.id, user) && user.email@ == email
}

/// Issuing tokens records the refresh token of the response, and nothing else.
proof fn lemma_issuing(
    svc: AuthService,
    user: User,
    credential: Option<LocalCredential>,
    auth_method: AuthMethod,
    step: Step,
    db: Database,
    turns: Seq<Turn>,
    end: Tables,
    result: AppResult<Outcome>,
)
    requires
        issues(svc, user, credential, auth_method, step),
        db.draft is None,
        runs(svc, step, db, turns, end, result),
    ensures
        match result {
            Ok(Outcome::Tokens(r)) => {
                &&& welcomes(svc, user, credential, auth_method, r)
                &&& adds_token(db.tables, user.id, r.refresh_token@, end)
            },
            Ok(_) => false,
            Err(e) => broken(e) && end == db.tables,
        },
{
    reveal_with_fuel(runs, 3);
    match step {
        Step::Ask {
            request: StoreRequest::InsertRefreshToken { id, user_id, token_hash, expires_at },
            then,
        } => {
            if turns[0].reply is Done {
                assert(end == with_token(db.tables, id, user.id, token_hash@, expires_at));
            }
        },
        _ => {},
    }
}

/// A user who may log in with that password: active, and with a credential that
/// the password matches.
pub open spec fn may_log_in(
    t: Tables,
    user: User,
    credential: LocalCredential,
    password: Seq<char>,
) -> bool {
    &&& user.is_active
    &&& t.credentials.contains_pair(user.id, credential)
    &&& argon2id_check(password, credential.password_hash@) == Some(true)
}

/// An active user without a credential, or with one that the password does not
/// match.
pub open spec fn fails_to_log_in(t: Tables, user: User, password: Seq<char>) -> bool {
    &&& user.is_active
    &&& match at(t.credentials, user.id) {
        Some(credential) => argon2id_check(password, credential.password_hash@) == Some(false),
        None => true,
    }
}

/// What a login comes to. Tokens go to the active user of that email whose
/// credential the password matches, and to no one else. An unknown email, an
/// account without a credential and a wrong password are answered alike, and a
/// request that is refused changes nothing.
pub open spec fn login_result(
    svc: AuthService,
    t: Tables,
    email: Seq<char>,
    password: Seq<char>,
    end: Tables,
    result: AppResult<Outcome>,
) -> bool {
    match result {
        Ok(Outcome::Tokens(r)) => exists|user: User, credential: LocalCredential|
            {
                &&& has_email(t, user, email)
                &&& #[trigger] may_log_in(t, user, credential, password)
                &&& welcomes(svc, user, Some(credential), AuthMethod::Password, r)
                &&& adds_token(t, user.id, r.refresh_token@, end)
            },
        Ok(_) => false,
        Err(e) => {
            &&& end == t
            &&& match e {
                AppError::InvalidCredentials => {
                    ||| !email_taken(t, email)
                    ||| exists|user: User| #[trigger]
                        has_email(t, user, email) && fails_to_log_in(t, user, password)
                },
                AppError::AccountDisabled => exists|user: User| #[trigger]
                    has_email(t, user, email) && !user.is_active,
                _ => broken(e),
            }
        },
    }
}

/// A login admits exactly who may log in; see [`login_result`].
pub proof fn law_login(
    svc: AuthService,
    email: Seq<char>,
    password: Seq<char>,
    step: Step,
    start: Tables,
    turns: Seq<Turn>,
    end: Tables,
    result: AppResult<Outcome>,
)
    requires
        coherent(start),
        logs_in(email, password, step),
        runs_from(svc, step, start, turns, end, result),
    ensures
        login_result(svc, start, email, password, end, result),
{
    reveal_with_fuel(runs, 3);
    let first = turns[0];
    let rest = turns.drop_first();
    match first.reply {
        StoreReply::User(Some(user)) => {
            assert(has_email(start, user, email));
            if user.is_active {
                let second = rest[0];
                match second.reply {
                    StoreReply::Credential(Some(credential)) => {
                        if argon2id_check(password, credential.password_hash@) == Some(true) {
                            assert(may_log_in(start, user, credential, password));
                            lemma_issuing(
                                svc,
                                user,
                                Some(credential),
                                AuthMethod::Password,
                                second.step,
                                second.db,
                                rest.drop_first(),
                                end,
                                result,
                            );
                        }
                    },
                    _ => {},
                }
            }
        },
        _ => {},
    }
}

/// A user who may log in is not turned away: only a failure of the store or of
/// the machine keeps the tokens back.
pub proof fn law_good_login_is_not_refused(
    svc: AuthService,
    user: User,
    credential: LocalCredential,
    password: Seq<char>,
    step: Step,
    start: Tables,
    turns: Seq<Turn>,
    end: Tables,
    result: AppResult<Outcome>,
)
    requires
        coherent(start),
        start.users.contains_pair(user.id, user),
        may_log_in(start, user, credential, password),
        logs_in(user.email@, password, step),
        runs_from(svc, step, start, turns, end, result),
    ensures
        match result {
            Ok(Outcome::Tokens(r)) => welcomes(
                svc,
                user,
                Some(credential),
                AuthMethod::Password,
                r,
            ),
            Ok(_) => false,
            Err(e) => excused(svc, turns, e),
        },
{
    assert(start.users.contains_key(user.id));
    law_login(svc, user.email@, password, step, start, turns, end, result);
    if let Err(e) = result {
        assert(!(e is Hashing)) by {
            reveal_with_fuel(runs, 4);
        }
        lemma_excused(svc, step, start, turns, end, e);
    }
}

/// The tables with one more account, which has a local credential.
pub open spec fn with_account(t: Tables, user: User, credential: LocalCredential) -> Tables {
    Tables {
        users: t.users.insert(user.id, user),
        credentials: t.credentials.insert(user.id, credential),
        ..t
    }
}

/// `user` and `credential` make up a new account for that email, username and
/// password.
pub open spec fn new_account(
    t: Tables,
    email: Seq<char>,
    username: Seq<char>,
    password: Seq<char>,
    user: User,
    credential: LocalCredential,
) -> bool {
    &&& !t.users.contains_key(user.id)
    &&& !email_taken(t, email)
    &&& new_user(user, user.id, email, text_before(email, '@'))
    &&& !username_taken(t, username)
    &&& credential.user_id == user.id
    &&& credential.username@ == username
    &&& argon2id_check(password, credential.password_hash@) == Some(true)
}

/// What a registration comes to. Where it succeeds, the account is there, with
/// both of its rows, and tokens were issued to it. Where it is refused, nothing
/// changed. Where it breaks off, the account is there with both of its rows, or
/// nothing changed.
pub open spec fn register_result(
    svc: AuthService,
    t: Tables,
    email: Seq<char>,
    username: Seq<char>,
    password: Seq<char>,
    end: Tables,
    result: AppResult<Outcome>,
) -> bool {
    match result {
        Ok(Outcome::Tokens(r)) => {
            &&& password_ok(password)
            &&& username_ok(username)
            &&& exists|user: User, credential: LocalCredential|
                {
                    &&& #[trigger] new_account(t, email, username, password, user, credential)
                    &&& welcomes(svc, user, Some(credential), AuthMethod::Password, r)
                    &&& adds_token(
                        with_account(t, user, credential),
                        user.id,
                        r.refresh_token@,
                        end,
                    )
                }
        },
        Ok(_) => false,
        Err(AppError::InvalidCredentials) => {
            &&& !password_ok(password) || !username_ok(username)
            &&& end == t
        },
        Err(AppError::EmailTaken) => email_taken(t, email) && end == t,
        Err(AppError::UsernameTaken) => {
            &&& username_taken(t, username)
            &&& !email_taken(t, email)
            &&& end == t
        },
        Err(e) => {
            &&& broken(e)
            &&& password_ok(password)
            &&& username_ok(username)
            &&& end == t || exists|user: User, credential: LocalCredential|
                {
                    &&& #[trigger] new_account(t, email, username, password, user, credential)
                    &&& end == with_account(t, user, credential)
                }
        },
    }
}

/// A registration adds a whole account or nothing; see [`register_result`].
pub proof fn law_register(
    svc: AuthService,
    email: Seq<char>,
    username: Seq<char>,
    password: Seq<char>,
    step: Step,
    start: Tables,
    turns: Seq<Turn>,
    end: Tables,
    result: AppResult<Outcome>,
)
    requires
        coherent(start),
        registers(email, username, password, step),
        runs_from(svc, step, start, turns, end, result),
    ensures
        register_result(svc, start, email, username, password, end, result),
{
    reveal_with_fuel(runs, 5);
    match step {
        Step::Ask { request: StoreRequest::Begin, then: Flow::OpeningAccount { account } } => {
            let begun = turns[0];
            let rest = turns.drop_first();
            if begun.reply is Done {
                let added = rest[0];
                let rest = rest.drop_first();
                match added.reply {
                    StoreReply::User(Some(user)) => {
                        let given = rest[0];
                        let rest = rest.drop_first();
                        match given.reply {
                            StoreReply::Credential(Some(credential)) => {
                                let drafted = seen(given.db);
                                assert(drafted == with_account(start, user, credential));
                                assert forall|id: Uuid| #[trigger]
                                    start.credentials.contains_key(id) implies id != user.id by {
                                    assert(start.users.contains_key(id));
                                }
                                assert(!username_taken(start, username)) by {
                                    assert(start.credentials == seen(added.db).credentials);
                                }
                                assert(new_account(
                                    start,
                                    email,
                                    username,
                                    password,
                                    user,
                                    credential,
                                ));
                                let committed = rest[0];
                                let rest = rest.drop_first();
                                if committed.reply is Done {
                                    lemma_issuing(
                                        svc,
                                        user,
                                        Some(credential),
                                        AuthMethod::Password,
                                        committed.step,
                                        committed.db,
                                        rest,
                                        end,
                                        result,
                                    );
                                }
                            },
                            StoreReply::Failed(_) => {
                                assert(seen(added.db).credentials == start.credentials);
                            },
                            _ => {},
                        }
                    },
                    _ => {},
                }
            }
        },
        _ => {},
    }
}

/// `id` is the refresh token that the raw token stands for.
pub open spec fn stands_for(t: Tables, raw: Seq<char>, id: Uuid) -> bool {
    t.tokens.contains_key(id) && refresh_token_hash(raw) == Some(t.tokens[id].token_hash)
}

/// `end` is `t` with the token `id` revoked and a new one of the same user
/// recorded.
pub open spec fn rotates(t: Tables, id: Uuid, raw: Seq<char>, end: Tables) -> bool {
    adds_token(with_token_revoked(t, id), t.tokens[id].user_id, raw, end)
}

/// What a refresh comes to. Where it succeeds, the token was there and not
/// revoked, and its user is active; the token is revoked, the one returned is
/// recorded in its place, and the access token is the user's. A token that is
/// unknown is refused and nothing changes; with one that may not be used, all
/// tokens of its user are revoked.
pub open spec fn refresh_result(
    svc: AuthService,
    t: Tables,
    raw: Seq<char>,
    end: Tables,
    result: AppResult<Outcome>,
) -> bool {
    match result {
        Ok(Outcome::Tokens(r)) => exists|id: Uuid|
            {
                let user = t.users[t.tokens[id].user_id];
                let credential = at(t.credentials, user.id);
                &&& #[trigger] stands_for(t, raw, id)
                &&& !t.tokens[id].revoked
                &&& user.is_active
                &&& welcomes(svc, user, credential, refresh_method(credential), r)
                &&& rotates(t, id, r.refresh_token@, end)
            },
        Ok(_) => false,
        Err(AppError::RefreshTokenInvalid) => {
            ||| end == t && forall|id: Uuid| !#[trigger] stands_for(t, raw, id)
            ||| exists|id: Uuid| #[trigger]
                stands_for(t, raw, id) && end == with_tokens_revoked(t, t.tokens[id].user_id)
        },
        Err(AppError::AccountDisabled) => exists|id: Uuid, new: Seq<char>|
            {
                &&& stands_for(t, raw, id)
                &&& !t.tokens[id].revoked
                &&& !t.users[t.tokens[id].user_id].is_active
                &&& #[trigger] rotates(t, id, new, end)
            },
        Err(e) => {
            &&& broken(e)
            &&& {
                ||| end == t
                ||| exists|id: Uuid| #[trigger]
                    stands_for(t, raw, id) && !t.tokens[id].revoked && end == with_token_revoked(
                        t,
                        id,
                    )
                ||| exists|id: Uuid, new: Seq<char>|
                    stands_for(t, raw, id) && !t.tokens[id].revoked && #[trigger] rotates(
                        t,
                        id,
                        new,
                        end,
                    )
            }
        },
    }
}

/// A refresh exchanges one token for one other; see [`refresh_result`].
pub proof fn law_refresh(
    svc: AuthService,
    raw: Seq<char>,
    step: Step,
    start: Tables,
    turns: Seq<Turn>,
    end: Tables,
    result: AppResult<Outcome>,
)
    requires
        coherent(start),
        looks_up(raw, step),
        runs_from(svc, step, start, turns, end, result),
    ensures
        refresh_result(svc, start, raw, end, result),
{
    reveal_with_fuel(runs, 6);
    match step {
        Step::Ask { request: StoreRequest::FindRefreshToken { token_hash }, then } => {
            let found = turns[0];
            let rest = turns.drop_first();
            match found.reply {
                StoreReply::RefreshToken(None) => {
                    assert(!hash_taken(start, token_hash@));
                },
                StoreReply::RefreshToken(Some(row)) => {
                    let id = row.id;
                    assert(stands_for(start, raw, id));
                    let second = rest[0];
                    let rest = rest.drop_first();
                    match found.step {
                        Step::Ask {
                            request: StoreRequest::RevokeRefreshToken { .. },
                            then: Flow::RevokingToken { user_id },
                        } => {
                            if second.reply is Done {
                                lemma_replacing(
                                    svc,
                                    id,
                                    raw,
                                    start,
                                    second,
                                    rest,
                                    end,
                                    result,
                                );
                            }
                        },
                        _ => {},
                    }
                },
                _ => {},
            }
        },
        _ => {},
    }
}

/// How a refresh goes on once the old token is revoked.
proof fn lemma_replacing(
    svc: AuthService,
    id: Uuid,
    raw: Seq<char>,
    start: Tables,
    turn: Turn,
    rest: Seq<Turn>,
    end: Tables,
    result: AppResult<Outcome>,
)
    requires
        coherent(start),
        stands_for(start, raw, id),
        !start.tokens[id].revoked,
        turn.db.draft is None,
        turn.db.tables == with_token_revoked(start, id),
        resumes(
            svc,
            Flow::RevokingToken { user_id: start.tokens[id].user_id },
            StoreReply::Done,
            turn.step,
        ),
        runs(svc, turn.step, turn.db, rest, end, result),
    ensures
        refresh_result(svc, start, raw, end, result),
        !(result matches Err(AppError::RefreshTokenInvalid)),
{
    reveal_with_fuel(runs, 4);
    let user_id = start.tokens[id].user_id;
    match turn.step {
        Step::Ask {
            request: StoreRequest::InsertRefreshToken { id: new_id, token_hash, expires_at, .. },
            then: Flow::ReplacingToken { refresh_token, .. },
        } => {
            let inserted = rest[0];
            if inserted.reply is Done {
                let u = inserted.db.tables;
                assert(u == with_token(
                    with_token_revoked(start, id),
                    new_id,
                    user_id,
                    token_hash@,
                    expires_at,
                ));
                assert(rotates(start, id, refresh_token@, u));
                assert(start.users.contains_key(user_id));
            }
        },
        _ => {},
    }
}

/// The identity that a profile speaks of.
pub open spec fn identity_of(profile: OAuthProfile) -> (Provider, Seq<char>) {
    (stored_provider(profile.provider), profile.provider_user_id@)
}

/// The tables with one more user.
pub open spec fn with_user(t: Tables, user: User) -> Tables {
    Tables { users: t.users.insert(user.id, user), ..t }
}

/// `user` is a new user, seeded from a profile.
pub open spec fn new_oauth_user(t: Tables, profile: OAuthProfile, user: User) -> bool {
    &&& !email_taken(t, profile.email@)
    &&& !t.users.contains_key(user.id)
    &&& new_user(
        user,
        user.id,
        profile.email@,
        oauth_display_name(profile.email@, text_of(profile.display_name)),
    )
}

/// The tables with the identity of a profile linked to a user.
pub open spec fn with_profile(t: Tables, profile: OAuthProfile, user_id: Uuid) -> Tables {
    with_identity(t, identity_of(profile).0, identity_of(profile).1, user_id)
}

/// The account of a profile is the one that the identity is linked to; where it
/// is linked to none, the one of that email; where there is none either, a new
/// one. The identity is linked to it in `u`.
pub open spec fn resolves(t: Tables, profile: OAuthProfile, user: User, u: Tables) -> bool {
    if t.identities.contains_key(identity_of(profile)) {
        &&& user == t.users[t.identities[identity_of(profile)]]
        &&& u == t
    } else if email_taken(t, profile.email@) {
        &&& has_email(t, user, profile.email@)
        &&& u == with_profile(t, profile, user.id)
    } else {
        &&& new_oauth_user(t, profile, user)
        &&& u == with_profile(with_user(t, user), profile, user.id)
    }
}

/// What an OAuth login comes to. Tokens go to the account that the profile
/// resolves to, if it is active; the identity is linked to it then. Where the
/// login breaks off, the account is there with the identity linked to it, or
/// nothing changed.
pub open spec fn oauth_result(
    svc: AuthService,
    t: Tables,
    profile: OAuthProfile,
    end: Tables,
    result: AppResult<Outcome>,
) -> bool {
    match result {
        Ok(Outcome::Tokens(r)) => exists|user: User, u: Tables|
            {
                &&& #[trigger] resolves(t, profile, user, u)
                &&& user.is_active
                &&& welcomes(svc, user, at(t.credentials, user.id), AuthMethod::OAuth, r)
                &&& adds_token(u, user.id, r.refresh_token@, end)
            },
        Ok(_) => false,
        Err(AppError::AccountDisabled) => exists|user: User| #[trigger]
            resolves(t, profile, user, end) && !user.is_active,
        Err(e) => {
            &&& broken(e)
            &&& {
                ||| end == t
                ||| exists|user: User| #[trigger] resolves(t, profile, user, end)
            }
        },
    }
}

/// How an OAuth login goes on once the account is resolved.
proof fn lemma_resolved(
    svc: AuthService,
    profile: OAuthProfile,
    user: User,
    start: Tables,
    turn: Turn,
    rest: Seq<Turn>,
    end: Tables,
    result: AppResult<Outcome>,
)
    requires
        turn.db.draft is None,
        resolves(start, profile, user, turn.db.tables),
        turn.db.tables.credentials == start.credentials,
        oauth_user_known(user, turn.step),
        runs(svc, turn.step, turn.db, rest, end, result),
    ensures
        oauth_result(svc, start, profile, end, result),
{
    reveal_with_fuel(runs, 2);
    if user.is_active {
        let last = rest[0];
        match last.reply {
            StoreReply::Credential(credential) => {
                lemma_issuing(
                    svc,
                    user,
                    credential,
                    AuthMethod::OAuth,
                    last.step,
                    last.db,
                    rest.drop_first(),
                    end,
                    result,
                );
            },
            _ => {},
        }
    }
}

/// How an OAuth login goes on while the identity is being linked to a user that
/// was there.
proof fn lemma_linking(
    svc: AuthService,
    profile: OAuthProfile,
    user: User,
    start: Tables,
    turn: Turn,
    rest: Seq<Turn>,
    end: Tables,
    result: AppResult<Outcome>,
)
    requires
        turn.db.draft is None,
        turn.db.tables == start,
        resolves(start, profile, user, with_profile(start, profile, user.id)),
        links(user, profile, Flow::LinkingIdentity { user }, turn.step),
        runs(svc, turn.step, turn.db, rest, end, result),
    ensures
        oauth_result(svc, start, profile, end, result),
{
    reveal_with_fuel(runs, 2);
    let linked = rest[0];
    if linked.reply is Done {
        lemma_resolved(svc, profile, user, start, linked, rest.drop_first(), end, result);
    }
}

/// How an OAuth login goes on while a user is being added: in one transaction with
/// the link.
proof fn lemma_adding_oauth_user(
    svc: AuthService,
    profile: OAuthProfile,
    start: Tables,
    turn: Turn,
    rest: Seq<Turn>,
    end: Tables,
    result: AppResult<Outcome>,
)
    requires
        turn.db.draft is None,
        turn.db.tables == start,
        !start.identities.contains_key(identity_of(profile)),
        !email_taken(start, profile.email@),
        turn.step == (Step::Ask {
            request: StoreRequest::Begin,
            then: Flow::OpeningOAuthUser { profile },
        }),
        runs(svc, turn.step, turn.db, rest, end, result),
    ensures
        oauth_result(svc, start, profile, end, result),
{
    reveal_with_fuel(runs, 5);
    let begun = rest[0];
    let rest = rest.drop_first();
    if begun.reply is Done {
        let added = rest[0];
        let rest = rest.drop_first();
        match added.reply {
            StoreReply::User(Some(user)) => {
                assert(new_oauth_user(start, profile, user));
                assert(seen(added.db) == with_user(start, user));
                let linked = rest[0];
                let rest = rest.drop_first();
                if linked.reply is Done {
                    let drafted = seen(linked.db);
                    assert(resolves(start, profile, user, drafted));
                    let committed = rest[0];
                    if committed.reply is Done {
                        lemma_resolved(
                            svc,
                            profile,
                            user,
                            start,
                            committed,
                            rest.drop_first(),
                            end,
                            result,
                        );
                    }
                }
            },
            _ => {},
        }
    }
}

/// An OAuth login leads to the account of the identity; see [`oauth_result`].
pub proof fn law_oauth_login(
    svc: AuthService,
    profile: OAuthProfile,
    step: Step,
    start: Tables,
    turns: Seq<Turn>,
    end: Tables,
    result: AppResult<Outcome>,
)
    requires
        coherent(start),
        looks_up_identity(profile, step),
        runs_from(svc, step, start, turns, end, result),
    ensures
        oauth_result(svc, start, profile, end, result),
{
    reveal_with_fuel(runs, 4);
    let first = turns[0];
    let rest = turns.drop_first();
    match first.reply {
        StoreReply::User(Some(user)) => {
            lemma_resolved(svc, profile, user, start, first, rest, end, result);
        },
        StoreReply::User(None) => {
            let second = rest[0];
            let rest = rest.drop_first();
            match second.reply {
                StoreReply::User(Some(user)) => {
                    assert(start.users.contains_key(user.id));
                    lemma_linking(svc, profile, user, start, second, rest, end, result);
                },
                StoreReply::User(None) => {
                    lemma_adding_oauth_user(svc, profile, start, second, rest, end, result);
                },
                _ => {},
            }
        },
        _ => {},
    }
}

/// An operation ends in the message, or, where there is none, in that it went
/// well.
pub open spec fn ends_in(message: Option<Seq<char>>, outcome: Outcome) -> bool {
    match outcome {
        Outcome::Message(m) => message == Some(m.message@),
        Outcome::Done => message is None,
        _ => false,
    }
}

/// The tables once a change is stored: where a message is to follow, with all
/// tokens of the user revoked.
pub open spec fn sessions_ended(t: Tables, user_id: Uuid, revoke: Option<Seq<char>>) -> Tables {
    if revoke is Some {
        with_tokens_revoked(t, user_id)
    } else {
        t
    }
}

/// A run that revokes all tokens of a user and says a message, if any.
proof fn lemma_revoking(
    svc: AuthService,
    user_id: Uuid,
    message: Option<Seq<char>>,
    step: Step,
    db: Database,
    turns: Seq<Turn>,
    end: Tables,
    result: AppResult<Outcome>,
)
    requires
        revokes(user_id, message, step),
        db.draft is None,
        runs(svc, step, db, turns, end, result),
    ensures
        match result {
            Ok(outcome) => {
                &&& ends_in(message, outcome)
                &&& end == with_tokens_revoked(db.tables, user_id)
            },
            Err(e) => e is Database && end == db.tables,
        },
{
    reveal_with_fuel(runs, 2);
}

/// What a logout comes to: all tokens of the user are revoked, or the store
/// failed.
pub open spec fn logout_result(
    t: Tables,
    user_id: Uuid,
    message: Option<Seq<char>>,
    end: Tables,
    result: AppResult<Outcome>,
) -> bool {
    match result {
        Ok(outcome) => {
            &&& ends_in(message, outcome)
            &&& end == with_tokens_revoked(t, user_id)
        },
        Err(e) => e is Database && end == t,
    }
}

/// A logout revokes every refresh token of the user, and no other; see
/// [`logout_result`].
pub proof fn law_logout(
    svc: AuthService,
    user_id: Uuid,
    message: Option<Seq<char>>,
    step: Step,
    start: Tables,
    turns: Seq<Turn>,
    end: Tables,
    result: AppResult<Outcome>,
)
    requires
        revokes(user_id, message, step),
        runs_from(svc, step, start, turns, end, result),
    ensures
        logout_result(start, user_id, message, end, result),
{
    lemma_revoking(
        svc,
        user_id,
        message,
        step,
        Database { tables: start, draft: None },
        turns,
        end,
        result,
    );
}

/// What a request for a profile comes to.
pub open spec fn profile_result(
    t: Tables,
    user_id: Uuid,
    end: Tables,
    result: AppResult<Outcome>,
) -> bool {
    &&& end == t
    &&& match result {
        Ok(Outcome::Profile(profile)) => {
            &&& t.users.contains_key(user_id)
            &&& shows_user(profile, t.users[user_id], at(t.credentials, user_id))
        },
        Ok(_) => false,
        Err(AppError::UserNotFound) => !t.users.contains_key(user_id),
        Err(e) => e is Database,
    }
}

/// A profile shows the user as the tables have it, and changes nothing; see
/// [`profile_result`].
pub proof fn law_profile(
    svc: AuthService,
    user_id: Uuid,
    start: Tables,
    turns: Seq<Turn>,
    end: Tables,
    result: AppResult<Outcome>,
)
    requires
        coherent(start),
        runs_from(
            svc,
            Step::Ask {
                request: StoreRequest::FindUserById { id: user_id },
                then: Flow::FindingProfile,
            },
            start,
            turns,
            end,
            result,
        ),
    ensures
        profile_result(start, user_id, end, result),
{
    reveal_with_fuel(runs, 3);
}

/// What the assignment of a role comes to: the user has the role and is
/// otherwise as before; the operation ends in the user or, if it is to be shown,
/// in the profile.
pub open spec fn role_result(
    t: Tables,
    user_id: Uuid,
    role: Role,
    shown: bool,
    end: Tables,
    result: AppResult<Outcome>,
) -> bool {
    match result {
        Ok(Outcome::User(user)) => {
            &&& !shown
            &&& t.users.contains_key(user_id)
            &&& assigns(t, user_id, role, end)
            &&& user == end.users[user_id]
        },
        Ok(Outcome::Profile(profile)) => {
            &&& shown
            &&& t.users.contains_key(user_id)
            &&& assigns(t, user_id, role, end)
            &&& shows_user(profile, end.users[user_id], at(t.credentials, user_id))
        },
        Ok(_) => false,
        Err(AppError::UserNotFound) => !t.users.contains_key(user_id) && end == t,
        Err(e) => {
            &&& e is Database
            &&& end == t || (shown && t.users.contains_key(user_id) && assigns(
                t,
                user_id,
                role,
                end,
            ))
        },
    }
}

/// `end` is `t` with the role of a user set.
pub open spec fn assigns(t: Tables, user_id: Uuid, role: Role, end: Tables) -> bool {
    &&& end.users.contains_key(user_id)
    &&& end.users[user_id].role == role
    &&& same_but_role(end.users[user_id], t.users[user_id])
    &&& end == (Tables { users: t.users.insert(user_id, end.users[user_id]), ..t })
}

/// The assignment of a role changes the role of that user alone; see
/// [`role_result`].
pub proof fn law_role_assignment(
    svc: AuthService,
    user_id: Uuid,
    role: Role,
    shown: bool,
    start: Tables,
    turns: Seq<Turn>,
    end: Tables,
    result: AppResult<Outcome>,
)
    requires
        coherent(start),
        runs_from(svc, assigning(user_id, role, shown), start, turns, end, result),
    ensures
        role_result(start, user_id, role, shown, end, result),
{
    reveal_with_fuel(runs, 3);
}

/// `u` is `t` with a new password for a user: one that the hash which is stored
/// now matches.
pub open spec fn sets_password(t: Tables, user_id: Uuid, password: Seq<char>, u: Tables) -> bool {
    &&& u.credentials.contains_key(user_id)
    &&& same_but_hash(u.credentials[user_id], t.credentials[user_id])
    &&& argon2id_check(password, u.credentials[user_id].password_hash@) == Some(true)
    &&& u == (Tables { credentials: t.credentials.insert(user_id, u.credentials[user_id]), ..t })
}

/// What a change of password comes to. It succeeds only for a user with a
/// credential that the current password matches, and for a new password of an
/// acceptable length; the new password is stored then, and, where a message is to
/// follow, all tokens of the user are revoked. A request that is refused changes
/// nothing.
pub open spec fn password_result(
    t: Tables,
    user_id: Uuid,
    current: Seq<char>,
    new: Seq<char>,
    revoke: Option<Seq<char>>,
    end: Tables,
    result: AppResult<Outcome>,
) -> bool {
    let matched = match at(t.credentials, user_id) {
        Some(credential) => argon2id_check(current, credential.password_hash@),
        None => None,
    };
    match result {
        Ok(outcome) => {
            &&& ends_in(revoke, outcome)
            &&& matched == Some(true)
            &&& password_ok(new)
            &&& exists|u: Tables| #[trigger]
                sets_password(t, user_id, new, u) && end == sessions_ended(u, user_id, revoke)
        },
        Err(AppError::UserNotFound) => !t.credentials.contains_key(user_id) && end == t,
        Err(AppError::InvalidCredentials) => {
            &&& matched == Some(false) || (matched == Some(true) && !password_ok(new))
            &&& end == t
        },
        Err(e) => {
            &&& broken(e)
            &&& end == t || (revoke is Some && matched == Some(true) && sets_password(
                t,
                user_id,
                new,
                end,
            ))
        },
    }
}

/// A password changes only for who knows the current one, and then, where a
/// message is to follow, every session ends; see [`password_result`].
pub proof fn law_password_change(
    svc: AuthService,
    user_id: Uuid,
    current: Seq<char>,
    new: Seq<char>,
    revoke: Option<Seq<char>>,
    step: Step,
    start: Tables,
    turns: Seq<Turn>,
    end: Tables,
    result: AppResult<Outcome>,
)
    requires
        coherent(start),
        changes_password(user_id, current, new, revoke, step),
        runs_from(svc, step, start, turns, end, result),
    ensures
        password_result(start, user_id, current, new, revoke, end, result),
{
    reveal_with_fuel(runs, 3);
    let first = turns[0];
    let rest = turns.drop_first();
    match first.step {
        Step::Ask { .. } => {
            let stored = rest[0];
            if stored.reply is Done {
                assert(sets_password(start, user_id, new, stored.db.tables));
                if revoke is Some {
                    lemma_revoking(
                        svc,
                        user_id,
                        revoke,
                        stored.step,
                        stored.db,
                        rest.drop_first(),
                        end,
                        result,
                    );
                }
                if result is Ok {
                    assert(end == sessions_ended(stored.db.tables, user_id, revoke));
                }
            }
        },
        _ => {},
    }
}

/// `u` is `t` with a user marked inactive, if there is one.
pub open spec fn marks_inactive(t: Tables, user_id: Uuid, u: Tables) -> bool {
    if t.users.contains_key(user_id) {
        &&& u.users.contains_key(user_id)
        &&& same_but_active(u.users[user_id], t.users[user_id])
        &&& !u.users[user_id].is_active
        &&& u == (Tables { users: t.users.insert(user_id, u.users[user_id]), ..t })
    } else {
        u == t
    }
}

/// What a deactivation comes to: the user is inactive and, where a message is to
/// follow, has no token that was not revoked.
pub open spec fn deactivation_result(
    t: Tables,
    user_id: Uuid,
    revoke: Option<Seq<char>>,
    end: Tables,
    result: AppResult<Outcome>,
) -> bool {
    match result {
        Ok(outcome) => {
            &&& ends_in(revoke, outcome)
            &&& exists|u: Tables| #[trigger]
                marks_inactive(t, user_id, u) && end == sessions_ended(u, user_id, revoke)
        },
        Err(e) => {
            &&& e is Database
            &&& end == t || (revoke is Some && marks_inactive(t, user_id, end))
        },
    }
}

/// A deactivation marks the account and, where a message is to follow, ends every
/// session; see [`deactivation_result`].
pub proof fn law_deactivation(
    svc: AuthService,
    user_id: Uuid,
    revoke: Option<Seq<char>>,
    step: Step,
    start: Tables,
    turns: Seq<Turn>,
    end: Tables,
    result: AppResult<Outcome>,
)
    requires
        coherent(start),
        deactivates(user_id, revoke, step),
        runs_from(svc, step, start, turns, end, result),
    ensures
        deactivation_result(start, user_id, revoke, end, result),
{
    reveal_with_fuel(runs, 2);
    let first = turns[0];
    if first.reply is Done {
        assert(marks_inactive(start, user_id, first.db.tables));
        if revoke is Some {
            lemma_revoking(
                svc,
                user_id,
                revoke,
                first.step,
                first.db,
                turns.drop_first(),
                end,
                result,
            );
        }
        if result is Ok {
            assert(end == sessions_ended(first.db.tables, user_id, revoke));
        }
    }
}

/// What the exchange of a usable token of a user comes to, in these turns. The
/// token is revoked and one other recorded in its place, for the same user; the
/// user comes in as the tables show the user now. Only where the store failed, or
/// no token can be made, is there none.
pub open spec fn exchanged(
    svc: AuthService,
    t: Tables,
    raw: Seq<char>,
    id: Uuid,
    turns: Seq<Turn>,
    end: Tables,
    result: AppResult<Outcome>,
) -> bool {
    let user = t.users[t.tokens[id].user_id];
    let credential = at(t.credentials, user.id);
    match result {
        Ok(Outcome::Tokens(r)) => {
            &&& welcomes(svc, user, credential, refresh_method(credential), r)
            &&& r.refresh_token@ != raw
            &&& rotates(t, id, r.refresh_token@, end)
        },
        Ok(_) => false,
        Err(e) => excused(svc, turns, e),
    }
}

/// A refresh token that may be used is not refused, if its user is active: where
/// it was found and usable at the time, it is exchanged; see [`exchanged`].
pub proof fn law_usable_token_is_exchanged(
    svc: AuthService,
    raw: Seq<char>,
    row: RefreshTokenRow,
    step: Step,
    start: Tables,
    turns: Seq<Turn>,
    end: Tables,
    result: AppResult<Outcome>,
)
    requires
        coherent(start),
        looks_up(raw, step),
        runs_from(svc, step, start, turns, end, result),
        turns.len() > 0,
        turns[0].reply == StoreReply::RefreshToken(Some(row)),
        usable(row, turns[0].draws.now),
        start.users[row.user_id].is_active,
    ensures
        stands_for(start, raw, row.id),
        exchanged(svc, start, raw, row.id, turns, end, result),
{
    reveal_with_fuel(runs, 7);
    let id = row.id;
    let user_id = row.user_id;
    assert(stands_for(start, raw, id));
    assert(start.users.contains_key(user_id));
    if let Err(e) = result {
        if broken(e) {
            lemma_nothing_to_hash(svc, step, start, turns, end, e);
            lemma_excused(svc, step, start, turns, end, e);
        }
    }
    let rest = turns.drop_first();
    let revoking = rest[0];
    let rest = rest.drop_first();
    if revoking.reply is Done {
        assert(revoking.db.tables == with_token_revoked(start, id));
        match revoking.step {
            Step::Ask {
                request: StoreRequest::InsertRefreshToken {
                    id: new_id,
                    token_hash,
                    expires_at,
                    ..
                },
                then: Flow::ReplacingToken { refresh_token, .. },
            } => {
                let inserted = rest[0];
                if inserted.reply is Done {
                    let u = inserted.db.tables;
                    assert(u == with_token(
                        with_token_revoked(start, id),
                        new_id,
                        user_id,
                        token_hash@,
                        expires_at,
                    ));
                    assert(rotates(start, id, refresh_token@, u));
                    assert(with_token_revoked(start, id).tokens.contains_key(id));
                    assert(refresh_token@ != raw);
                }
            },
            _ => {},
        }
    }
}

/// Every refresh token of a user is revoked.
pub open spec fn all_revoked(t: Tables, user_id: Uuid) -> bool {
    forall|id: Uuid| #[trigger]
        t.tokens.contains_key(id) && t.tokens[id].user_id == user_id ==> t.tokens[id].revoked
}

/// A refresh token that was revoked is refused, and with it every token of its
/// user: it is the mark of a token that was stolen.
pub proof fn law_revoked_token_is_refused(
    svc: AuthService,
    raw: Seq<char>,
    id: Uuid,
    step: Step,
    start: Tables,
    turns: Seq<Turn>,
    end: Tables,
    result: AppResult<Outcome>,
)
    requires
        coherent(start),
        stands_for(start, raw, id),
        start.tokens[id].revoked,
        looks_up(raw, step),
        runs_from(svc, step, start, turns, end, result),
    ensures
        match result {
            Ok(_) => false,
            Err(AppError::RefreshTokenInvalid) => all_revoked(end, start.tokens[id].user_id),
            Err(e) => excused(svc, turns, e) && end == start,
        },
{
    law_refresh(svc, raw, step, start, turns, end, result);
    if let Err(e) = result {
        if broken(e) {
            lemma_nothing_to_hash(svc, step, start, turns, end, e);
            lemma_excused(svc, step, start, turns, end, e);
        }
    }
}

/// A refresh token serves once: after a refresh that succeeded, the token that
/// was given for it is refused.
pub proof fn law_refresh_token_serves_once(
    svc: AuthService,
    raw: Seq<char>,
    first_step: Step,
    start: Tables,
    first_turns: Seq<Turn>,
    middle: Tables,
    response: AuthResponse,
    second_step: Step,
    second_turns: Seq<Turn>,
    end: Tables,
    result: AppResult<Outcome>,
)
    requires
        coherent(start),
        looks_up(raw, first_step),
        runs_from(svc, first_step, start, first_turns, middle, Ok(Outcome::Tokens(response))),
        looks_up(raw, second_step),
        runs_from(svc, second_step, middle, second_turns, end, result),
    ensures
        match result {
            Ok(_) => false,
            Err(AppError::RefreshTokenInvalid) => all_revoked(end, response.user.id),
            Err(e) => excused(svc, second_turns, e) && end == middle,
        },
{
    let first: AppResult<Outcome> = Ok(Outcome::Tokens(response));
    law_refresh(svc, raw, first_step, start, first_turns, middle, first);
    law_runs_keep_coherence(
        svc,
        first_step,
        Database { tables: start, draft: None },
        first_turns,
        middle,
        first,
    );
    let id = choose|id: Uuid|
        {
            let user = start.users[start.tokens[id].user_id];
            let credential = at(start.credentials, user.id);
            &&& #[trigger] stands_for(start, raw, id)
            &&& !start.tokens[id].revoked
            &&& user.is_active
            &&& welcomes(svc, user, credential, refresh_method(credential), response)
            &&& rotates(start, id, response.refresh_token@, middle)
        };
    assert(start.users.contains_key(start.tokens[id].user_id));
    assert(stands_for(middle, raw, id));
    law_revoked_token_is_refused(svc, raw, id, second_step, middle, second_turns, end, result);
}

/// After a logout, or after a password change or a deactivation with a message to
/// follow, that succeeded, no refresh token that the user had is accepted any more.
pub proof fn law_ended_sessions_stay_ended(
    svc: AuthService,
    user_id: Uuid,
    raw: Seq<char>,
    id: Uuid,
    start: Tables,
    middle: Tables,
    current: Seq<char>,
    new: Seq<char>,
    message: Option<Seq<char>>,
    ended: AppResult<Outcome>,
    step: Step,
    turns: Seq<Turn>,
    end: Tables,
    result: AppResult<Outcome>,
)
    requires
        coherent(middle),
        ended is Ok,
        logout_result(start, user_id, message, middle, ended) || (message is Some && (
        password_result(start, user_id, current, new, message, middle, ended)
            || deactivation_result(start, user_id, message, middle, ended))),
        stands_for(start, raw, id),
        start.tokens[id].user_id == user_id,
        looks_up(raw, step),
        runs_from(svc, step, middle, turns, end, result),
    ensures
        match result {
            Ok(_) => false,
            Err(AppError::RefreshTokenInvalid) => all_revoked(end, user_id),
            Err(e) => excused(svc, turns, e) && end == middle,
        },
{
    law_revoked_token_is_refused(svc, raw, id, step, middle, turns, end, result);
}

/// `step` begins a login with the email of a user, or with an identity that is
/// linked to the user.
pub open spec fn comes_in_as(
    t: Tables,
    user_id: Uuid,
    email: Seq<char>,
    password: Seq<char>,
    profile: OAuthProfile,
    step: Step,
) -> bool {
    ||| logs_in(email, password, step) && email == t.users[user_id].email@
    ||| looks_up_identity(profile, step) && at(t.identities, identity_of(profile)) == Some(user_id)
}

/// After a deactivation that succeeded, the account is closed: neither its
/// password nor an identity that is linked to it leads in.
pub proof fn law_deactivated_account_is_closed(
    svc: AuthService,
    user_id: Uuid,
    revoke: Option<Seq<char>>,
    start: Tables,
    middle: Tables,
    deactivated: AppResult<Outcome>,
    email: Seq<char>,
    password: Seq<char>,
    profile: OAuthProfile,
    step: Step,
    turns: Seq<Turn>,
    end: Tables,
    result: AppResult<Outcome>,
)
    requires
        coherent(middle),
        start.users.contains_key(user_id),
        deactivated is Ok,
        deactivation_result(start, user_id, revoke, middle, deactivated),
        comes_in_as(start, user_id, email, password, profile, step),
        runs_from(svc, step, middle, turns, end, result),
    ensures
        match result {
            Ok(_) => false,
            Err(e) => e is AccountDisabled || (e is Database && store_broke(turns)),
        },
{
    if let Err(e) = result {
        if broken(e) {
            assert(e is Database) by {
                reveal_with_fuel(runs, 3);
            }
            lemma_excused(svc, step, middle, turns, end, e);
        }
    }
    assert(middle.users.contains_key(user_id) && !middle.users[user_id].is_active);
    if logs_in(email, password, step) && email == start.users[user_id].email@ {
        law_login(svc, email, password, step, middle, turns, end, result);
        assert(email_taken(middle, email));
        assert forall|user: User| #[trigger] has_email(middle, user, email) implies user
            == middle.users[user_id] by {
            assert(middle.users.contains_key(user.id));
        }
    } else {
        law_oauth_login(svc, profile, step, middle, turns, end, result);
    }
}

/// Who has registered can log in: with the email and the password of a
/// registration that succeeded, tokens go to the same account.
pub proof fn law_registered_user_can_log_in(
    svc: AuthService,
    email: Seq<char>,
    username: Seq<char>,
    password: Seq<char>,
    start: Tables,
    middle: Tables,
    response: AuthResponse,
    step: Step,
    turns: Seq<Turn>,
    end: Tables,
    result: AppResult<Outcome>,
)
    requires
        coherent(middle),
        register_result(
            svc,
            start,
            email,
            username,
            password,
            middle,
            Ok(Outcome::Tokens(response)),
        ),
        logs_in(email, password, step),
        runs_from(svc, step, middle, turns, end, result),
    ensures
        match result {
            Ok(Outcome::Tokens(r)) => r.user.id == response.user.id,
            Ok(_) => false,
            Err(e) => excused(svc, turns, e),
        },
{
    let (user, credential) = choose|user: User, credential: LocalCredential|
        {
            &&& #[trigger] new_account(start, email, username, password, user, credential)
            &&& welcomes(svc, user, Some(credential), AuthMethod::Password, response)
            &&& adds_token(
                with_account(start, user, credential),
                user.id,
                response.refresh_token@,
                middle,
            )
        };
    assert(may_log_in(middle, user, credential, password));
    law_good_login_is_not_refused(
        svc,
        user,
        credential,
        password,
        step,
        middle,
        turns,
        end,
        result,
    );
}

/// After a change of password that succeeded, the new password leads into the
/// account, if it is active.
pub proof fn law_new_password_logs_in(
    svc: AuthService,
    user_id: Uuid,
    current: Seq<char>,
    new: Seq<char>,
    revoke: Option<Seq<char>>,
    start: Tables,
    middle: Tables,
    changed: AppResult<Outcome>,
    step: Step,
    turns: Seq<Turn>,
    end: Tables,
    result: AppResult<Outcome>,
)
    requires
        coherent(start),
        coherent(middle),
        start.users.contains_key(user_id),
        start.users[user_id].is_active,
        changed is Ok,
        password_result(start, user_id, current, new, revoke, middle, changed),
        logs_in(start.users[user_id].email@, new, step),
        runs_from(svc, step, middle, turns, end, result),
    ensures
        match result {
            Ok(Outcome::Tokens(r)) => r.user.id == user_id,
            Ok(_) => false,
            Err(e) => excused(svc, turns, e),
        },
{
    let user = start.users[user_id];
    let credential = middle.credentials[user_id];
    assert(may_log_in(middle, user, credential, new));
    law_good_login_is_not_refused(svc, user, credential, new, step, middle, turns, end, result);
}

/// What an OAuth login with an identity that is linked to a user comes to, in these
/// turns: the user comes in, unless the account is disabled or the store or the
/// machine failed; no user and no link is added or changed, whatever else the
/// profile says.
pub open spec fn leads_to(
    svc: AuthService,
    t: Tables,
    user: User,
    turns: Seq<Turn>,
    end: Tables,
    result: AppResult<Outcome>,
) -> bool {
    &&& end.users == t.users
    &&& end.credentials == t.credentials
    &&& end.identities == t.identities
    &&& match result {
        Ok(Outcome::Tokens(r)) => {
            &&& user.is_active
            &&& welcomes(svc, user, at(t.credentials, user.id), AuthMethod::OAuth, r)
            &&& adds_token(t, user.id, r.refresh_token@, end)
        },
        Ok(_) => false,
        Err(AppError::AccountDisabled) => !user.is_active && end == t,
        Err(e) => excused(svc, turns, e) && end == t,
    }
}

/// A linked identity leads to the user that it is linked to; see [`leads_to`].
pub proof fn law_linked_identity_leads_in(
    svc: AuthService,
    profile: OAuthProfile,
    user_id: Uuid,
    step: Step,
    start: Tables,
    turns: Seq<Turn>,
    end: Tables,
    result: AppResult<Outcome>,
)
    requires
        coherent(start),
        at(start.identities, identity_of(profile)) == Some(user_id),
        looks_up_identity(profile, step),
        runs_from(svc, step, start, turns, end, result),
    ensures
        leads_to(svc, start, start.users[user_id], turns, end, result),
{
    law_oauth_login(svc, profile, step, start, turns, end, result);
    if let Err(e) = result {
        if broken(e) {
            lemma_nothing_to_hash(svc, step, start, turns, end, e);
            lemma_excused(svc, step, start, turns, end, e);
        }
    }
}

/// An identity keeps its account: after an OAuth login that succeeded, another
/// with the same identity leads to the same account, whatever else the profile
/// says, and adds neither an account nor a link. Only a failure of the store or of
/// the machine keeps the tokens back.
pub proof fn law_identity_keeps_its_account(
    svc: AuthService,
    first: OAuthProfile,
    second: OAuthProfile,
    start: Tables,
    middle: Tables,
    response: AuthResponse,
    step: Step,
    turns: Seq<Turn>,
    end: Tables,
    result: AppResult<Outcome>,
)
    requires
        coherent(start),
        coherent(middle),
        identity_of(first) == identity_of(second),
        oauth_result(svc, start, first, middle, Ok(Outcome::Tokens(response))),
        looks_up_identity(second, step),
        runs_from(svc, step, middle, turns, end, result),
    ensures
        end.users == middle.users,
        end.identities == middle.identities,
        match result {
            Ok(Outcome::Tokens(r)) => {
                &&& r.user.id == response.user.id
                &&& r.user.email == response.user.email
            },
            Ok(_) => false,
            Err(e) => excused(svc, turns, e),
        },
{
    let (user, u) = choose|user: User, u: Tables|
        {
            &&& #[trigger] resolves(start, first, user, u)
            &&& user.is_active
            &&& welcomes(svc, user, at(start.credentials, user.id), AuthMethod::OAuth, response)
            &&& adds_token(u, user.id, response.refresh_token@, middle)
        };
    assert(middle.identities == u.identities && middle.users == u.users);
    if start.identities.contains_key(identity_of(first)) {
        assert(start.users.contains_key(start.identities[identity_of(first)]));
    }
    assert(at(middle.identities, identity_of(second)) == Some(user.id));
    assert(middle.users[user.id] == user);
    law_linked_identity_leads_in(svc, second, user.id, step, middle, turns, end, result);
}

/// The raw token stands for a refresh token of that user, which is not revoked.
pub open spec fn has_token(t: Tables, user_id: Uuid, raw: Seq<char>) -> bool {
    exists|id: Uuid|
        {
            &&& #[trigger] stands_for(t, raw, id)
            &&& t.tokens[id].user_id == user_id
            &&& !t.tokens[id].revoked
        }
}

/// A session was opened: by a login, a registration, a refresh or an OAuth
/// login.
pub open spec fn opens_session(
    svc: AuthService,
    email: Seq<char>,
    username: Seq<char>,
    password: Seq<char>,
    raw: Seq<char>,
    profile: OAuthProfile,
    start: Tables,
    end: Tables,
    response: AuthResponse,
) -> bool {
    let result: AppResult<Outcome> = Ok(Outcome::Tokens(response));
    ||| login_result(svc, start, email, password, end, result)
    ||| register_result(svc, start, email, username, password, end, result)
    ||| refresh_result(svc, start, raw, end, result)
    ||| oauth_result(svc, start, profile, end, result)
}

/// `response` opens a session that is good: its user is there and active, and
/// its refresh token is recorded for that user and not revoked.
pub open spec fn good_session(t: Tables, response: AuthResponse) -> bool {
    &&& t.users.contains_key(response.user.id)
    &&& t.users[response.user.id].is_active
    &&& has_token(t, response.user.id, response.refresh_token@)
}

/// A token that was added is there.
proof fn lemma_added_token_is_there(t: Tables, user_id: Uuid, raw: Seq<char>, u: Tables)
    requires
        adds_token(t, user_id, raw, u),
    ensures
        has_token(u, user_id, raw),
{
    let (id, token_hash, expires_at) = choose|
        id: Uuid,
        token_hash: Seq<char>,
        expires_at: Timestamp,
    |
        {
            &&& !t.tokens.contains_key(id)
            &&& refresh_token_hash(raw) == Some(token_hash)
            &&& u == #[trigger] with_token(t, id, user_id, token_hash, expires_at)
        };
    assert(stands_for(u, raw, id));
}

/// Tokens go to active users alone: whichever way a session was opened, it is a
/// good one.
pub proof fn law_sessions_are_good(
    svc: AuthService,
    email: Seq<char>,
    username: Seq<char>,
    password: Seq<char>,
    raw: Seq<char>,
    profile: OAuthProfile,
    start: Tables,
    end: Tables,
    response: AuthResponse,
)
    requires
        coherent(start),
        opens_session(svc, email, username, password, raw, profile, start, end, response),
    ensures
        good_session(end, response),
{
    lemma_session_is_opened(
        svc,
        email,
        username,
        password,
        raw,
        profile,
        start,
        end,
        response,
    );
    let (t, user) = choose|t: Tables, user: User| #[trigger] lets_in(t, user, response, end);
    lemma_added_token_is_there(t, user.id, response.refresh_token@, end);
}

/// `end` is `t` with a token added for an active user, whom the response is for.
spec fn lets_in(t: Tables, user: User, response: AuthResponse, end: Tables) -> bool {
    &&& user.is_active
    &&& response.user.id == user.id
    &&& t.users.contains_pair(user.id, user)
    &&& adds_token(t, user.id, response.refresh_token@, end)
}

/// Whichever way a session was opened, a token was added for an active user.
proof fn lemma_session_is_opened(
    svc: AuthService,
    email: Seq<char>,
    username: Seq<char>,
    password: Seq<char>,
    raw: Seq<char>,
    profile: OAuthProfile,
    start: Tables,
    end: Tables,
    response: AuthResponse,
)
    requires
        coherent(start),
        opens_session(svc, email, username, password, raw, profile, start, end, response),
    ensures
        exists|t: Tables, user: User| #[trigger] lets_in(t, user, response, end),
{
    let result: AppResult<Outcome> = Ok(Outcome::Tokens(response));
    if login_result(svc, start, email, password, end, result) {
        let (user, credential) = choose|user: User, credential: LocalCredential|
            {
                &&& has_email(start, user, email)
                &&& #[trigger] may_log_in(start, user, credential, password)
                &&& welcomes(svc, user, Some(credential), AuthMethod::Password, response)
                &&& adds_token(start, user.id, response.refresh_token@, end)
            };
        assert(lets_in(start, user, response, end));
    } else if register_result(svc, start, email, username, password, end, result) {
        let (user, credential) = choose|user: User, credential: LocalCredential|
            {
                let u = with_account(start, user, credential);
                &&& #[trigger] new_account(start, email, username, password, user, credential)
                &&& welcomes(svc, user, Some(credential), AuthMethod::Password, response)
                &&& adds_token(u, user.id, response.refresh_token@, end)
            };
        assert(lets_in(with_account(start, user, credential), user, response, end));
    } else if refresh_result(svc, start, raw, end, result) {
        let id = choose|id: Uuid|
            {
                let user = start.users[start.tokens[id].user_id];
                let credential = at(start.credentials, user.id);
                &&& #[trigger] stands_for(start, raw, id)
                &&& !start.tokens[id].revoked
                &&& user.is_active
                &&& welcomes(svc, user, credential, refresh_method(credential), response)
                &&& rotates(start, id, response.refresh_token@, end)
            };
        let user = start.users[start.tokens[id].user_id];
        assert(start.users.contains_key(start.tokens[id].user_id));
        assert(lets_in(with_token_revoked(start, id), user, response, end));
    } else {
        let (user, u) = choose|user: User, u: Tables|
            {
                let credential = at(start.credentials, user.id);
                &&& #[trigger] resolves(start, profile, user, u)
                &&& user.is_active
                &&& welcomes(svc, user, credential, AuthMethod::OAuth, response)
                &&& adds_token(u, user.id, response.refresh_token@, end)
            };
        if start.identities.contains_key(identity_of(profile)) {
            assert(start.users.contains_key(start.identities[identity_of(profile)]));
        }
        assert(lets_in(u, user, response, end));
    }
}

/// The lifetime that a response gives is that of its access token, and the token
/// is the user's: its claims say so.
pub proof fn law_response_speaks_of_its_token(
    svc: AuthService,
    user: User,
    credential: Option<LocalCredential>,
    auth_method: AuthMethod,
    response: AuthResponse,
)
    requires
        svc.token.config == svc.config,
        welcomes(svc, user, credential, auth_method, response),
    ensures
        match claims_of(response.access_token@, svc.config.jwt_secret@) {
            Some(claims) => {
                &&& claims.exp == claims.iat + response.expires_in
                &&& claims.sub == response.user.id
                &&& claims.email == response.user.email@
                &&& claims.role == response.user.role
                &&& claims.auth_method == auth_method
            },
            None => false,
        },
{
}

/// Linking an identity twice leaves it linked as it was: the first link stays.
pub proof fn law_linking_is_idempotent(t: Tables, profile: OAuthProfile, first: Uuid, second: Uuid)
    ensures
        with_profile(with_profile(t, profile, first), profile, second) == with_profile(
            t,
            profile,
            first,
        ),
{
}

/// Some identity is linked to a user.
pub open spec fn has_identity(t: Tables, user_id: Uuid) -> bool {
    exists|key: (Provider, Seq<char>)| #[trigger]
        t.identities.contains_key(key) && t.identities[key] == user_id
}

/// Every user has at least one credential: a password, or a linked identity.
pub open spec fn credentialed(t: Tables) -> bool {
    forall|id: Uuid| #[trigger]
        t.users.contains_key(id) ==> t.credentials.contains_key(id) || has_identity(t, id)
}

/// The two have the same users, the same of them with a password, and the same
/// links.
spec fn same_accounts(t: Tables, u: Tables) -> bool {
    &&& u.users.dom() == t.users.dom()
    &&& t.credentials.dom() == u.credentials.dom()
    &&& u.identities == t.identities
}

/// Where no account changes, every user keeps a credential.
proof fn lemma_same_accounts(t: Tables, u: Tables)
    requires
        credentialed(t),
        same_accounts(t, u),
    ensures
        credentialed(u),
{
    assert forall|id: Uuid| #[trigger] u.users.contains_key(id) implies u.credentials.contains_key(
        id,
    ) || has_identity(u, id) by {
        assert(t.users.dom().contains(id));
        assert(t.users.contains_key(id));
        if t.credentials.contains_key(id) {
            assert(u.credentials.dom().contains(id));
        } else {
            let key = choose|key: (Provider, Seq<char>)| #[trigger]
                t.identities.contains_key(key) && t.identities[key] == id;
            assert(u.identities.contains_key(key));
        }
    }
}

/// Where the account of a profile is resolved, every user keeps a credential.
proof fn lemma_resolving_keeps_credentials(t: Tables, profile: OAuthProfile, user: User, u: Tables)
    requires
        credentialed(t),
        resolves(t, profile, user, u),
    ensures
        credentialed(u),
{
    let own = identity_of(profile);
    assert forall|id: Uuid| #[trigger] u.users.contains_key(id) implies u.credentials.contains_key(
        id,
    ) || has_identity(u, id) by {
        if t.users.contains_key(id) {
            if !t.credentials.contains_key(id) {
                let key = choose|key: (Provider, Seq<char>)| #[trigger]
                    t.identities.contains_key(key) && t.identities[key] == id;
                assert(u.identities.contains_key(key) && u.identities[key] == id);
            }
        } else {
            assert(u.identities.contains_key(own) && u.identities[own] == id);
        }
    }
}

/// `step` begins an operation of the service.
pub open spec fn begins(step: Step) -> bool {
    ||| exists|email: Seq<char>, username: Seq<char>, password: Seq<char>| #[trigger]
        registers(email, username, password, step)
    ||| exists|email: Seq<char>, password: Seq<char>| #[trigger] logs_in(email, password, step)
    ||| exists|raw: Seq<char>| #[trigger] looks_up(raw, step)
    ||| exists|profile: OAuthProfile| #[trigger] looks_up_identity(profile, step)
    ||| exists|user_id: Uuid, message: Option<Seq<char>>| #[trigger]
        revokes(user_id, message, step)
    ||| exists|user_id: Uuid, current: Seq<char>, new: Seq<char>, revoke: Option<Seq<char>>|
     #[trigger]
        changes_password(user_id, current, new, revoke, step)
    ||| exists|user_id: Uuid| step == #[trigger] showing(user_id)
    ||| exists|user_id: Uuid, role: Role, shown: bool| step == #[trigger]
        assigning(user_id, role, shown)
    ||| exists|user_id: Uuid, revoke: Option<Seq<char>>| #[trigger]
        deactivates(user_id, revoke, step)
}

/// The step that begins to show a profile.
pub open spec fn showing(user_id: Uuid) -> Step {
    Step::Ask { request: StoreRequest::FindUserById { id: user_id }, then: Flow::FindingProfile }
}

/// The step that begins to assign a role, and to show the profile then, if so
/// asked.
pub open spec fn assigning(user_id: Uuid, role: Role, shown: bool) -> Step {
    Step::Ask {
        request: StoreRequest::SetRole { user_id, role },
        then: if shown {
            Flow::AssigningShownRole
        } else {
            Flow::AssigningRole
        },
    }
}

/// Every user keeps at least one credential, whatever operation runs and however
/// it ends.
pub proof fn law_every_user_keeps_a_credential(
    svc: AuthService,
    step: Step,
    start: Tables,
    turns: Seq<Turn>,
    end: Tables,
    result: AppResult<Outcome>,
)
    requires
        coherent(start),
        credentialed(start),
        begins(step),
        runs_from(svc, step, start, turns, end, result),
    ensures
        credentialed(end),
{
    if exists|email: Seq<char>, username: Seq<char>, password: Seq<char>| #[trigger]
        registers(email, username, password, step) {
        let (email, username, password) = choose|
            email: Seq<char>,
            username: Seq<char>,
            password: Seq<char>,
        | #[trigger] registers(email, username, password, step);
        law_register(svc, email, username, password, step, start, turns, end, result);
        lemma_registering_keeps_credentials(
            svc,
            email,
            username,
            password,
            start,
            end,
            result,
        );
    } else if exists|profile: OAuthProfile| #[trigger] looks_up_identity(profile, step) {
        let profile = choose|profile: OAuthProfile| #[trigger] looks_up_identity(profile, step);
        law_oauth_login(svc, profile, step, start, turns, end, result);
        lemma_oauth_login_keeps_credentials(svc, profile, start, end, result);
    } else {
        lemma_other_operations_keep_accounts(svc, step, start, turns, end, result);
        lemma_same_accounts(start, end);
    }
}

/// A registration leaves every user with a credential.
proof fn lemma_registering_keeps_credentials(
    svc: AuthService,
    email: Seq<char>,
    username: Seq<char>,
    password: Seq<char>,
    t: Tables,
    end: Tables,
    result: AppResult<Outcome>,
)
    requires
        credentialed(t),
        register_result(svc, t, email, username, password, end, result),
    ensures
        credentialed(end),
{
    if end != t {
        let (user, credential) = choose|user: User, credential: LocalCredential|
            {
                &&& #[trigger] new_account(t, email, username, password, user, credential)
                &&& same_accounts(with_account(t, user, credential), end)
            };
        let u = with_account(t, user, credential);
        assert(new_account(t, email, username, password, user, credential) && same_accounts(u, end));
        assert forall|id: Uuid| #[trigger] u.users.contains_key(
            id,
        ) implies u.credentials.contains_key(id) || has_identity(u, id) by {
            if id != user.id {
                assert(t.users.contains_key(id));
                if !t.credentials.contains_key(id) {
                    let key = choose|key: (Provider, Seq<char>)| #[trigger]
                        t.identities.contains_key(key) && t.identities[key] == id;
                    assert(u.identities.contains_key(key));
                }
            }
        }
        lemma_same_accounts(u, end);
    }
}

/// An OAuth login leaves every user with a credential.
proof fn lemma_oauth_login_keeps_credentials(
    svc: AuthService,
    profile: OAuthProfile,
    t: Tables,
    end: Tables,
    result: AppResult<Outcome>,
)
    requires
        credentialed(t),
        oauth_result(svc, t, profile, end, result),
    ensures
        credentialed(end),
{
    if end != t {
        let (user, u) = choose|user: User, u: Tables| #[trigger]
            resolves(t, profile, user, u) && same_accounts(u, end);
        assert(resolves(t, profile, user, u) && same_accounts(u, end));
        lemma_resolving_keeps_credentials(t, profile, user, u);
        lemma_same_accounts(u, end);
    }
}

/// The operations that neither register nor log in by OAuth add no account and
/// take away no credential.
proof fn lemma_other_operations_keep_accounts(
    svc: AuthService,
    step: Step,
    start: Tables,
    turns: Seq<Turn>,
    end: Tables,
    result: AppResult<Outcome>,
)
    requires
        coherent(start),
        begins(step),
        !(exists|email: Seq<char>, username: Seq<char>, password: Seq<char>| #[trigger]
            registers(email, username, password, step)),
        !(exists|profile: OAuthProfile| #[trigger] looks_up_identity(profile, step)),
        runs_from(svc, step, start, turns, end, result),
    ensures
        same_accounts(start, end),
{
    if exists|email: Seq<char>, password: Seq<char>| #[trigger] logs_in(email, password, step) {
        let (email, password) = choose|email: Seq<char>, password: Seq<char>| #[trigger]
            logs_in(email, password, step);
        law_login(svc, email, password, step, start, turns, end, result);
    } else if exists|raw: Seq<char>| #[trigger] looks_up(raw, step) {
        let raw = choose|raw: Seq<char>| #[trigger] looks_up(raw, step);
        law_refresh(svc, raw, step, start, turns, end, result);
    } else if exists|user_id: Uuid, message: Option<Seq<char>>| #[trigger]
        revokes(user_id, message, step) {
        let (user_id, message) = choose|user_id: Uuid, message: Option<Seq<char>>| #[trigger]
            revokes(user_id, message, step);
        law_logout(svc, user_id, message, step, start, turns, end, result);
    } else if exists|user_id: Uuid, current: Seq<char>, new: Seq<char>, revoke: Option<Seq<char>>|
     #[trigger]
        changes_password(user_id, current, new, revoke, step) {
        let (user_id, current, new, revoke) = choose|
            user_id: Uuid,
            current: Seq<char>,
            new: Seq<char>,
            revoke: Option<Seq<char>>,
        | #[trigger] changes_password(user_id, current, new, revoke, step);
        law_password_change(svc, user_id, current, new, revoke, step, start, turns, end, result);
        assert forall|u: Tables| #[trigger] sets_password(start, user_id, new, u)
            && start.credentials.contains_key(user_id) implies u.credentials.dom()
            == start.credentials.dom() by {
            assert(u.credentials.dom() =~= start.credentials.dom());
        }
    } else if exists|user_id: Uuid| step == #[trigger] showing(user_id) {
        let user_id = choose|user_id: Uuid| step == #[trigger] showing(user_id);
        law_profile(svc, user_id, start, turns, end, result);
    } else if exists|user_id: Uuid, role: Role, shown: bool| step == #[trigger]
        assigning(user_id, role, shown) {
        let (user_id, role, shown) = choose|user_id: Uuid, role: Role, shown: bool| step
            == #[trigger] assigning(user_id, role, shown);
        law_role_assignment(svc, user_id, role, shown, start, turns, end, result);
        assert(end.users.dom() =~= start.users.dom());
    } else {
        let (user_id, revoke) = choose|user_id: Uuid, revoke: Option<Seq<char>>| #[trigger]
            deactivates(user_id, revoke, step);
        law_deactivation(svc, user_id, revoke, step, start, turns, end, result);
        assert(end.users.dom() =~= start.users.dom());
    }
}

/// Some exchange failed.
pub open spec fn store_broke(turns: Seq<Turn>) -> bool {
    exists|i: int| 0 <= i < turns.len() && #[trigger] turns[i].reply is Failed
}

/// An operation that has begun reports a failure of the database only where the
/// store failed.
pub proof fn law_database_error_comes_from_the_store(
    svc: AuthService,
    request: StoreRequest,
    then: Flow,
    db: Database,
    turns: Seq<Turn>,
    end: Tables,
    e: AppError,
)
    requires
        runs(svc, Step::Ask { request, then }, db, turns, end, Err(e)),
        e is Database,
    ensures
        store_broke(turns),
    decreases turns.len(),
{
    let first = turns[0];
    let rest = turns.drop_first();
    match first.step {
        Step::Ask { request: next, then: on } => {
            law_database_error_comes_from_the_store(svc, next, on, first.db, rest, end, e);
            let i = choose|i: int| 0 <= i < rest.len() && #[trigger] rest[i].reply is Failed;
            assert(turns[i + 1].reply is Failed);
        },
        Step::Finish(_) => {
            reveal_with_fuel(runs, 2);
            assert(turns[0].reply is Failed);
        },
    }
}

/// What is asked of the store while an operation waits as `then`.
pub open spec fn fits(request: StoreRequest, then: Flow) -> bool {
    match then {
        Flow::OpeningAccount { .. } | Flow::OpeningOAuthUser { .. } => request is Begin,
        Flow::AddingUser { .. } | Flow::AddingOAuthUser { .. } => request is InsertUser,
        Flow::AddingCredential { .. } => request is InsertLocalCredential,
        Flow::CommittingAccount { .. } | Flow::CommittingOAuthUser { .. } => request is Commit,
        Flow::FindingLogin { .. } | Flow::FindingEmail { .. } => request is FindUserByEmail,
        Flow::CheckingPassword { .. }
        | Flow::FinishingRefresh { .. }
        | Flow::FinishingOAuth { .. }
        | Flow::ShowingProfile { .. }
        | Flow::ConfirmingPassword { .. } => request is FindLocalCredential,
        Flow::FindingToken => request is FindRefreshToken,
        Flow::RefusingToken | Flow::RevokingTokens { .. } => request is RevokeUserTokens,
        Flow::RevokingToken { .. } => request is RevokeRefreshToken,
        Flow::ReplacingToken { .. } | Flow::RecordingToken { .. } => request is InsertRefreshToken,
        Flow::FindingOwner { .. } | Flow::FindingProfile => request is FindUserById,
        Flow::FindingIdentity { .. } => request is FindUserByIdentity,
        Flow::LinkingNewUser { .. } | Flow::LinkingIdentity { .. } => request is LinkIdentity,
        Flow::AssigningRole | Flow::AssigningShownRole => request is SetRole,
        Flow::StoringPassword { .. } => request is SetPasswordHash,
        Flow::Deactivating { .. } => request is Deactivate,
    }
}

/// At some step the draws would not do for both tokens: there were no random bytes,
/// or the clock was out of range.
pub open spec fn machine_broke(svc: AuthService, turns: Seq<Turn>) -> bool {
    exists|i: int| 0 <= i < turns.len() && !ready(svc.token.config, (#[trigger] turns[i]).draws)
}

/// An operation that has begun fails for an internal reason only where the machine
/// failed.
pub proof fn law_internal_error_comes_from_the_machine(
    svc: AuthService,
    request: StoreRequest,
    then: Flow,
    db: Database,
    turns: Seq<Turn>,
    end: Tables,
    e: AppError,
)
    requires
        fits(request, then),
        runs(svc, Step::Ask { request, then }, db, turns, end, Err(e)),
        e is Internal,
    ensures
        machine_broke(svc, turns),
    decreases turns.len(),
{
    let first = turns[0];
    let rest = turns.drop_first();
    match first.step {
        Step::Ask { request: next, then: on } => {
            assert(fits(next, on));
            law_internal_error_comes_from_the_machine(svc, next, on, first.db, rest, end, e);
            let i = choose|i: int|
                0 <= i < rest.len() && !ready(svc.token.config, (#[trigger] rest[i]).draws);
            assert(!ready(svc.token.config, turns[i + 1].draws));
        },
        Step::Finish(_) => {
            reveal_with_fuel(runs, 2);
            assert(!ready(svc.token.config, turns[0].draws));
        },
    }
}

/// The error is one that the store or the machine has to answer for.
pub open spec fn excused(svc: AuthService, turns: Seq<Turn>, e: AppError) -> bool {
    ||| e is Database && store_broke(turns)
    ||| e is Internal && machine_broke(svc, turns)
}

/// An error of the database or an internal one, at the end of an operation that has
/// begun, is excused.
pub(crate) proof fn lemma_excused(
    svc: AuthService,
    step: Step,
    start: Tables,
    turns: Seq<Turn>,
    end: Tables,
    e: AppError,
)
    requires
        step matches Step::Ask { request, then } && fits(request, then),
        runs_from(svc, step, start, turns, end, Err(e)),
        e is Database || e is Internal,
    ensures
        excused(svc, turns, e),
{
    let db = Database { tables: start, draft: None };
    if let Step::Ask { request, then } = step {
        if e is Database {
            law_database_error_comes_from_the_store(svc, request, then, db, turns, end, e);
        } else {
            law_internal_error_comes_from_the_machine(svc, request, then, db, turns, end, e);
        }
    }
}

/// An operation that waits as `then` hashes no password any more and checks none.
pub open spec fn hashed_before(then: Flow) -> bool {
    !(then is FindingLogin || then is CheckingPassword || then is ConfirmingPassword)
}

/// Such an operation does not fail for a hash.
proof fn lemma_hashed_before(
    svc: AuthService,
    request: StoreRequest,
    then: Flow,
    db: Database,
    turns: Seq<Turn>,
    end: Tables,
    e: AppError,
)
    requires
        hashed_before(then),
        runs(svc, Step::Ask { request, then }, db, turns, end, Err(e)),
    ensures
        !(e is Hashing),
    decreases turns.len(),
{
    let first = turns[0];
    match first.step {
        Step::Ask { request: next, then: on } => {
            lemma_hashed_before(svc, next, on, first.db, turns.drop_first(), end, e);
        },
        Step::Finish(_) => {
            reveal_with_fuel(runs, 2);
        },
    }
}

/// The same of an operation that has begun.
pub(crate) proof fn lemma_nothing_to_hash(
    svc: AuthService,
    step: Step,
    start: Tables,
    turns: Seq<Turn>,
    end: Tables,
    e: AppError,
)
    requires
        step matches Step::Ask { then, .. } && hashed_before(then),
        runs_from(svc, step, start, turns, end, Err(e)),
    ensures
        !(e is Hashing),
{
    if let Step::Ask { request, then } = step {
        let db = Database { tables: start, draft: None };
        lemma_hashed_before(svc, request, then, db, turns, end, e);
    }
}

/// A registration is not refused where the email and the username are free: once
/// the password is hashed, only a failure of the store or of the machine keeps the
/// tokens back.
pub proof fn law_free_account_is_registered(
    svc: AuthService,
    email: Seq<char>,
    username: Seq<char>,
    password: Seq<char>,
    draws: Draws,
    step: Step,
    start: Tables,
    turns: Seq<Turn>,
    end: Tables,
    result: AppResult<Outcome>,
)
    requires
        coherent(start),
        password_ok(password),
        username_ok(username),
        can_hash(password, draws),
        registers(email, username, password, step),
        account_by_draws(password, draws, step),
        runs_from(svc, step, start, turns, end, result),
        !email_taken(start, email),
        !username_taken(start, username),
    ensures
        match result {
            Ok(Outcome::Tokens(r)) => r.user.email@ == email,
            Ok(_) => false,
            Err(e) => excused(svc, turns, e),
        },
{
    law_register(svc, email, username, password, step, start, turns, end, result);
    if let Err(e) = result {
        lemma_nothing_to_hash(svc, step, start, turns, end, e);
        lemma_excused(svc, step, start, turns, end, e);
    }
}

/// A password is changed for who knows the current one: once the new one, which is
/// acceptable, is hashed, only a failure of the store keeps it back.
pub proof fn law_known_password_is_changed(
    svc: AuthService,
    user_id: Uuid,
    current: Seq<char>,
    new: Seq<char>,
    revoke: Option<Seq<char>>,
    step: Step,
    start: Tables,
    turns: Seq<Turn>,
    end: Tables,
    result: AppResult<Outcome>,
)
    requires
        coherent(start),
        changes_password(user_id, current, new, revoke, step),
        runs_from(svc, step, start, turns, end, result),
        start.credentials.contains_key(user_id),
        argon2id_check(current, start.credentials[user_id].password_hash@) == Some(true),
        password_ok(new),
        turns.len() > 0,
        can_hash(new, turns[0].draws),
    ensures
        match result {
            Ok(outcome) => ends_in(revoke, outcome),
            Err(e) => e is Database && store_broke(turns),
        },
{
    law_password_change(svc, user_id, current, new, revoke, step, start, turns, end, result);
    if let Err(e) = result {
        reveal_with_fuel(runs, 4);
        if let Step::Ask { request, then } = turns[0].step {
            lemma_hashed_before(svc, request, then, turns[0].db, turns.drop_first(), end, e);
        }
        lemma_excused(svc, step, start, turns, end, e);
    }
}

} // verus!
