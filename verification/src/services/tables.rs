//! What the store holds, what its answers mean, and how an operation runs
//! against it.
use crate::errors::AppResult;
use crate::models::{LocalCredential, Provider, Role, Timestamp, User, Uuid};
use crate::services::auth::AuthService;
use crate::services::draws::Draws;
use crate::services::flow::{Outcome, Step};
use crate::services::store::{StoreReply, StoreRequest};
use vstd::prelude::*;

verus! {

use crate::services::auth::{follows_draws, resumes};
use crate::services::draws::{drawn, given};
use crate::services::store::{violates, RefreshTokenRow};

/// A refresh token, as the store holds it.
#[verifier::ext_equal]
pub struct TokenRecord {
    pub user_id: Uuid,
    pub token_hash: Seq<char>,
    pub expires_at: Timestamp,
    pub revoked: bool,
}

/// The tables of the database: users by id, local credentials by user, users by
/// linked identity, and refresh tokens by id.
#[verifier::ext_equal]
pub struct Tables {
    pub users: Map<Uuid, User>,
    pub credentials: Map<Uuid, LocalCredential>,
    pub identities: Map<(Provider, Seq<char>), Uuid>,
    pub tokens: Map<Uuid, TokenRecord>,
}

/// The database: its tables, and the tables as an open transaction has changed
/// them.
#[verifier::ext_equal]
pub struct Database {
    pub tables: Tables,
    pub draft: Option<Tables>,
}

/// What the constraints of the tables keep: keys are the rows' own, emails,
/// usernames and token hashes are unique, and what belongs to a user belongs to
/// one that is there.
pub open spec fn coherent(t: Tables) -> bool {
    &&& forall|id: Uuid| #[trigger] t.users.contains_key(id) ==> t.users[id].id == id
    &&& forall|a: Uuid, b: Uuid|
        #[trigger] t.users.contains_key(a) && #[trigger] t.users.contains_key(b)
            && t.users[a].email@ == t.users[b].email@ ==> a == b
    &&& forall|id: Uuid| #[trigger]
        t.credentials.contains_key(id) ==> t.credentials[id].user_id == id
            && t.users.contains_key(id)
    &&& forall|a: Uuid, b: Uuid|
        #[trigger] t.credentials.contains_key(a) && #[trigger] t.credentials.contains_key(b)
            && t.credentials[a].username@ == t.credentials[b].username@ ==> a == b
    &&& forall|key: (Provider, Seq<char>)| #[trigger]
        t.identities.contains_key(key) ==> t.users.contains_key(t.identities[key])
    &&& forall|id: Uuid| #[trigger]
        t.tokens.contains_key(id) ==> t.users.contains_key(t.tokens[id].user_id)
    &&& forall|a: Uuid, b: Uuid|
        #[trigger] t.tokens.contains_key(a) && #[trigger] t.tokens.contains_key(b)
            && t.tokens[a].token_hash == t.tokens[b].token_hash ==> a == b
}

/// Some user has the email.
pub open spec fn email_taken(t: Tables, email: Seq<char>) -> bool {
    exists|id: Uuid| #[trigger] t.users.contains_key(id) && t.users[id].email@ == email
}

/// Some user has the username.
pub open spec fn username_taken(t: Tables, username: Seq<char>) -> bool {
    exists|id: Uuid| #[trigger]
        t.credentials.contains_key(id) && t.credentials[id].username@ == username
}

/// Some refresh token has the hash.
pub open spec fn hash_taken(t: Tables, token_hash: Seq<char>) -> bool {
    exists|id: Uuid| #[trigger] t.tokens.contains_key(id) && t.tokens[id].token_hash == token_hash
}

/// The value of a key, if it has one.
pub open spec fn at<K, V>(map: Map<K, V>, key: K) -> Option<V> {
    if map.contains_key(key) {
        Some(map[key])
    } else {
        None
    }
}

/// A token, revoked.
pub open spec fn revoked(record: TokenRecord) -> TokenRecord {
    TokenRecord { revoked: true, ..record }
}

/// The tables with one token revoked.
pub open spec fn with_token_revoked(t: Tables, id: Uuid) -> Tables {
    if t.tokens.contains_key(id) {
        Tables { tokens: t.tokens.insert(id, revoked(t.tokens[id])), ..t }
    } else {
        t
    }
}

/// The tables with every token of a user revoked.
pub open spec fn with_tokens_revoked(t: Tables, user_id: Uuid) -> Tables {
    Tables {
        tokens: t.tokens.map_values(
            |record: TokenRecord|
                if record.user_id == user_id {
                    revoked(record)
                } else {
                    record
                },
        ),
        ..t
    }
}

/// The tables with the identity linked to a user, unless it is linked already.
pub open spec fn with_identity(
    t: Tables,
    provider: Provider,
    provider_user_id: Seq<char>,
    user_id: Uuid,
) -> Tables {
    if t.identities.contains_key((provider, provider_user_id)) {
        t
    } else {
        Tables { identities: t.identities.insert((provider, provider_user_id), user_id), ..t }
    }
}

/// A row that was found is the one that the store holds.
pub open spec fn row_of(row: RefreshTokenRow, record: TokenRecord) -> bool {
    &&& row.user_id == record.user_id
    &&& row.expires_at == record.expires_at
    &&& row.revoked == record.revoked
}

/// `user` is a new user: with the role of a registered member, and active.
pub open spec fn new_user(user: User, id: Uuid, email: Seq<char>, display_name: Seq<char>) -> bool {
    &&& user.id == id
    &&& user.email@ == email
    &&& user.display_name@ == display_name
    &&& user.role == Role::User
    &&& user.is_active
}

/// Two users differ in the role alone, and in when they were updated.
pub open spec fn same_but_role(a: User, b: User) -> bool {
    &&& a.id == b.id
    &&& a.email == b.email
    &&& a.display_name == b.display_name
    &&& a.is_active == b.is_active
    &&& a.created_at == b.created_at
}

/// Two users differ in whether they are active alone, and in when they were
/// updated.
pub open spec fn same_but_active(a: User, b: User) -> bool {
    &&& a.id == b.id
    &&& a.email == b.email
    &&& a.display_name == b.display_name
    &&& a.role == b.role
    &&& a.created_at == b.created_at
}

/// Two credentials differ in the hash alone, and in when they were updated.
pub open spec fn same_but_hash(a: LocalCredential, b: LocalCredential) -> bool {
    &&& a.user_id == b.user_id
    &&& a.username == b.username
    &&& a.created_at == b.created_at
}

/// The store carries out a statement on tables `t`: it answers `reply`, and the
/// tables then are `u`.
pub open spec fn carries_out(t: Tables, request: StoreRequest, reply: StoreReply, u: Tables) -> bool {
    match (request, reply) {
        (StoreRequest::FindUserById { id }, StoreReply::User(found)) => {
            &&& found == at(t.users, id)
            &&& u == t
        },
        (StoreRequest::FindUserByEmail { email }, StoreReply::User(found)) => {
            &&& match found {
                Some(user) => t.users.contains_pair(user.id, user) && user.email@ == email@,
                None => !email_taken(t, email@),
            }
            &&& u == t
        },
        (
            StoreRequest::FindUserByIdentity { provider, provider_user_id },
            StoreReply::User(found),
        ) => {
            &&& match at(t.identities, (provider, provider_user_id@)) {
                Some(id) => found == Some(t.users[id]),
                None => found is None,
            }
            &&& u == t
        },
        (StoreRequest::FindLocalCredential { user_id }, StoreReply::Credential(found)) => {
            &&& found == at(t.credentials, user_id)
            &&& u == t
        },
        (StoreRequest::FindRefreshToken { token_hash }, StoreReply::RefreshToken(found)) => {
            &&& match found {
                Some(row) => {
                    &&& t.tokens.contains_key(row.id)
                    &&& t.tokens[row.id].token_hash == token_hash@
                    &&& row_of(row, t.tokens[row.id])
                },
                None => !hash_taken(t, token_hash@),
            }
            &&& u == t
        },
        (
            StoreRequest::InsertUser { id, email, display_name },
            StoreReply::User(Some(user)),
        ) => {
            &&& !t.users.contains_key(id)
            &&& !email_taken(t, email@)
            &&& new_user(user, id, email@, display_name@)
            &&& u == (Tables { users: t.users.insert(id, user), ..t })
        },
        (
            StoreRequest::InsertLocalCredential { user_id, username, password_hash },
            StoreReply::Credential(Some(credential)),
        ) => {
            &&& t.users.contains_key(user_id)
            &&& !t.credentials.contains_key(user_id)
            &&& !username_taken(t, username@)
            &&& credential.user_id == user_id
            &&& credential.username@ == username@
            &&& credential.password_hash@ == password_hash@
            &&& u == (Tables { credentials: t.credentials.insert(user_id, credential), ..t })
        },
        (
            StoreRequest::LinkIdentity { id, user_id, provider, provider_user_id },
            StoreReply::Done,
        ) => {
            &&& t.users.contains_key(user_id)
            &&& u == with_identity(t, provider, provider_user_id@, user_id)
        },
        (StoreRequest::SetPasswordHash { user_id, password_hash }, StoreReply::Done) => {
            if t.credentials.contains_key(user_id) {
                &&& u.credentials.contains_key(user_id)
                &&& same_but_hash(u.credentials[user_id], t.credentials[user_id])
                &&& u.credentials[user_id].password_hash@ == password_hash@
                &&& u == (Tables {
                    credentials: t.credentials.insert(user_id, u.credentials[user_id]),
                    ..t
                })
            } else {
                u == t
            }
        },
        (StoreRequest::SetRole { user_id, role }, StoreReply::User(found)) => match found {
            Some(user) => {
                &&& t.users.contains_key(user_id)
                &&& same_but_role(user, t.users[user_id])
                &&& user.role == role
                &&& u == (Tables { users: t.users.insert(user_id, user), ..t })
            },
            None => !t.users.contains_key(user_id) && u == t,
        },
        (StoreRequest::Deactivate { user_id }, StoreReply::Done) => {
            if t.users.contains_key(user_id) {
                &&& u.users.contains_key(user_id)
                &&& same_but_active(u.users[user_id], t.users[user_id])
                &&& !u.users[user_id].is_active
                &&& u == (Tables { users: t.users.insert(user_id, u.users[user_id]), ..t })
            } else {
                u == t
            }
        },
        (
            StoreRequest::InsertRefreshToken { id, user_id, token_hash, expires_at },
            StoreReply::Done,
        ) => {
            &&& t.users.contains_key(user_id)
            &&& !t.tokens.contains_key(id)
            &&& !hash_taken(t, token_hash@)
            &&& u == (Tables {
                tokens: t.tokens.insert(
                    id,
                    TokenRecord { user_id, token_hash: token_hash@, expires_at, revoked: false },
                ),
                ..t
            })
        },
        (StoreRequest::RevokeRefreshToken { id }, StoreReply::Done) => u == with_token_revoked(
            t,
            id,
        ),
        (StoreRequest::RevokeUserTokens { user_id }, StoreReply::Done) => u == with_tokens_revoked(
            t,
            user_id,
        ),
        _ => false,
    }
}

/// A failure names a unique constraint only where the request would break it.
pub open spec fn fails_for_cause(t: Tables, request: StoreRequest, reply: StoreReply) -> bool {
    match (request, reply) {
        (StoreRequest::InsertUser { email, .. }, StoreReply::Failed(err)) => violates(
            err,
            "users_email_key"@,
        ) ==> email_taken(t, email@),
        (StoreRequest::InsertLocalCredential { username, .. }, StoreReply::Failed(err)) => violates(
            err,
            "local_credentials_username_key"@,
        ) ==> username_taken(t, username@),
        _ => true,
    }
}

/// The tables that statements see: those of the open transaction, if there is
/// one.
pub open spec fn seen(db: Database) -> Tables {
    match db.draft {
        Some(draft) => draft,
        None => db.tables,
    }
}

/// The database answers a request with `reply`, and then is `after`. Within a
/// transaction, statements change what it has drafted; a commit makes the draft
/// the tables. A request that fails changes nothing and ends the transaction;
/// only whether a commit that failed took effect is left open.
pub open spec fn answers(
    before: Database,
    request: StoreRequest,
    reply: StoreReply,
    after: Database,
) -> bool {
    match reply {
        StoreReply::Failed(_) => {
            &&& after.draft is None
            &&& after.tables == before.tables || (request is Commit && before.draft == Some(
                after.tables,
            ))
            &&& fails_for_cause(seen(before), request, reply)
        },
        _ => match request {
            StoreRequest::Begin => {
                &&& reply is Done
                &&& before.draft is None
                &&& after.tables == before.tables
                &&& after.draft == Some(before.tables)
            },
            StoreRequest::Commit => {
                &&& reply is Done
                &&& before.draft == Some(after.tables)
                &&& after.draft is None
            },
            _ => {
                &&& carries_out(seen(before), request, reply, seen(after))
                &&& after.draft is Some == before.draft is Some
                &&& before.draft is Some ==> after.tables == before.tables
            },
        },
    }
}

/// One exchange with the database: what it answered, how it then was, what was
/// drawn, and the step that followed.
pub struct Turn {
    pub reply: StoreReply,
    pub db: Database,
    pub draws: Draws,
    pub step: Step,
}

/// An operation that stands at `step` runs to its end, in these turns: it
/// leaves the tables `end` and returns `result`. A transaction that is still
/// open then is dropped. Nothing else changes the tables between two turns.
pub open spec fn runs(
    svc: AuthService,
    step: Step,
    db: Database,
    turns: Seq<Turn>,
    end: Tables,
    result: AppResult<Outcome>,
) -> bool
    decreases turns.len(),
{
    match step {
        Step::Finish(r) => turns.len() == 0 && end == db.tables && result == r,
        Step::Ask { request, then } => {
            &&& turns.len() > 0
            &&& answers(db, request, turns[0].reply, turns[0].db)
            &&& resumes(svc, then, turns[0].reply, turns[0].step)
            &&& drawn(turns[0].draws)
            &&& given(turns[0].draws)
            &&& follows_draws(svc, then, turns[0].reply, turns[0].draws, turns[0].step)
            &&& runs(svc, turns[0].step, turns[0].db, turns.drop_first(), end, result)
        },
    }
}

/// An operation that begins with `step` runs to its end from tables `start`.
pub open spec fn runs_from(
    svc: AuthService,
    step: Step,
    start: Tables,
    turns: Seq<Turn>,
    end: Tables,
    result: AppResult<Outcome>,
) -> bool {
    runs(svc, step, Database { tables: start, draft: None }, turns, end, result)
}

} // verus!
