//! What the operations owe to the clock and to chance: laws of the times that they
//! go by and of the bytes that they draw.
use crate::errors::{AppError, AppResult};
use crate::models::{AuthResponse, Uuid};
use crate::services::auth::AuthService;
use crate::services::flow::{Flow, Outcome, Step};
use crate::services::store::{RefreshTokenRow, StoreReply, StoreRequest};
use crate::services::tables::{Database, Tables, Turn};
use vstd::prelude::*;

verus! {

use crate::outside::clock::{clock_gave, LAST_INSTANT};
use crate::outside::password::argon2id_check;
use crate::outside::random::{hex_digits, system_failed, system_gave};
use crate::services::auth::{
    logs_in, looks_up_identity, registers, registers_somehow, resumes_somehow,
};
use crate::services::draws::given;
use crate::services::laws::{
    all_revoked, excused, fits, law_known_password_is_changed, law_password_change, law_refresh,
    law_register, lemma_excused, lemma_nothing_to_hash, machine_broke, stands_for, store_broke,
};
use crate::services::oauth::OAuthProfile;
use crate::services::tables::{coherent, email_taken, runs, runs_from, username_taken};
use crate::services::token::{claims_of, looks_up, ready};
use crate::services::user::changes_password;
use vstd::utf8::encode_utf8;

/// A refresh token that was found goes by the clock: it is rotated only if it was
/// not revoked and has not expired at an instant that the clock gave; if it was
/// revoked or has expired then, all tokens of its user are revoked, and it is never
/// rotated.
pub proof fn law_found_token_goes_by_the_clock(
    svc: AuthService,
    row: RefreshTokenRow,
    step: Step,
)
    requires
        resumes_somehow(svc, Flow::FindingToken, StoreReply::RefreshToken(Some(row)), step),
    ensures
        exists|now: i128| #[trigger]
            clock_gave(now) && (if row.revoked || row.expires_at.unix_nanos < now {
                step == (Step::Ask {
                    request: StoreRequest::RevokeUserTokens { user_id: row.user_id },
                    then: Flow::RefusingToken,
                })
            } else {
                step == (Step::Ask {
                    request: StoreRequest::RevokeRefreshToken { id: row.id },
                    then: Flow::RevokingToken { user_id: row.user_id },
                })
            }),
{
}

/// An expired refresh token is refused, and every token of its user is revoked:
/// where its expiry lies before the time that the clock gave when it was found,
/// only a failure of the store gives another answer, and nothing has changed then.
pub proof fn law_expired_token_is_refused(
    svc: AuthService,
    raw: Seq<char>,
    id: Uuid,
    step: Step,
    start: Tables,
    turns: Seq<Turn>,
    end: Tables,
    result: AppResult<Outcome>,
)
    requires
        coherent(start),
        stands_for(start, raw, id),
        looks_up(raw, step),
        runs_from(svc, step, start, turns, end, result),
        turns.len() > 0,
        start.tokens[id].expires_at.unix_nanos < turns[0].draws.now,
    ensures
        clock_gave(turns[0].draws.now),
        match result {
            Ok(_) => false,
            Err(AppError::RefreshTokenInvalid) => all_revoked(end, start.tokens[id].user_id),
            Err(e) => e is Database && store_broke(turns) && end == start,
        },
{
    reveal_with_fuel(runs, 4);
    law_refresh(svc, raw, step, start, turns, end, result);
    if let Err(e) = result {
        if e is Database || e is Internal {
            lemma_excused(svc, step, start, turns, end, e);
        }
    }
}

/// The access token of the response was issued at a time that the clock gave: that
/// is when it says it was issued, in whole seconds, and it expires a lifetime later.
pub open spec fn issued_now(svc: AuthService, response: AuthResponse) -> bool {
    exists|now: i128|
        {
            &&& #[trigger] clock_gave(now)
            &&& now >= 0
            &&& match claims_of(response.access_token@, svc.token.config.jwt_secret@) {
                Some(claims) => {
                    &&& claims.iat == now as int / 1_000_000_000
                    &&& claims.exp == claims.iat + svc.token.config.access_token_expiry_secs
                },
                None => false,
            }
        }
}

/// The refresh token of the response is made of random bytes that the operating
/// system gave, and is recorded to expire a lifetime after a time that the clock
/// gave.
pub open spec fn recorded_now(svc: AuthService, t: Tables, response: AuthResponse) -> bool {
    &&& exists|bytes: Seq<u8>| #[trigger]
        system_gave(32, bytes) && response.refresh_token@ == hex_digits(bytes)
    &&& exists|now: i128, id: Uuid|
        {
            &&& #[trigger] clock_gave(now)
            &&& #[trigger] stands_for(t, response.refresh_token@, id)
            &&& t.tokens[id].expires_at.unix_nanos == now
                + svc.token.config.refresh_token_expiry_secs * 1_000_000_000
            &&& !t.tokens[id].revoked
        }
}

/// The operation waits for the store before the tokens of its response are made.
pub open spec fn before_tokens(then: Flow) -> bool {
    !(then is RecordingToken || then is ReplacingToken || then is FindingOwner
        || then is FinishingRefresh)
}

/// The operation waits for the store within a transaction.
pub open spec fn in_transaction(then: Flow) -> bool {
    ||| then is AddingUser
    ||| then is AddingCredential
    ||| then is CommittingAccount
    ||| then is AddingOAuthUser
    ||| then is LinkingNewUser
    ||| then is CommittingOAuthUser
}

/// The tokens of a response are made on the way to it.
proof fn lemma_tokens_are_made_now(
    svc: AuthService,
    request: StoreRequest,
    then: Flow,
    db: Database,
    turns: Seq<Turn>,
    end: Tables,
    response: AuthResponse,
)
    requires
        fits(request, then),
        before_tokens(then),
        db.draft is Some <==> in_transaction(then),
        runs(svc, Step::Ask { request, then }, db, turns, end, Ok(Outcome::Tokens(response))),
    ensures
        issued_now(svc, response),
        recorded_now(svc, end, response),
    decreases turns.len(),
{
    let first = turns[0];
    let rest = turns.drop_first();
    assert(given(first.draws));
    match first.step {
        Step::Ask { request: next, then: on } => {
            if before_tokens(on) {
                lemma_tokens_are_made_now(svc, next, on, first.db, rest, end, response);
            } else {
                reveal_with_fuel(runs, 5);
                let bytes = first.draws.secret->Some_0@;
                assert(system_gave(32, bytes));
                let made = first.draws.now;
                assert(clock_gave(made));
                let id = next->InsertRefreshToken_id;
                assert(rest[0].reply is Done);
                assert(stands_for(rest[0].db.tables, response.refresh_token@, id));
                assert(end == rest[0].db.tables);
                if on is ReplacingToken {
                    let last = rest.drop_first().drop_first()[0];
                    assert(given(last.draws));
                    assert(clock_gave(last.draws.now));
                }
            }
        },
        Step::Finish(_) => {
            reveal_with_fuel(runs, 2);
        },
    }
}

/// A session begins now: whether it was opened by a registration, a login, a
/// refresh or an OAuth login, the access token says that it was issued at the time
/// that the clock gave and expires a lifetime later, and the refresh token, which is
/// random, is recorded to expire a lifetime after the time that the clock gave.
pub proof fn law_session_begins_now(
    svc: AuthService,
    email: Seq<char>,
    username: Seq<char>,
    password: Seq<char>,
    raw: Seq<char>,
    profile: OAuthProfile,
    step: Step,
    start: Tables,
    turns: Seq<Turn>,
    end: Tables,
    response: AuthResponse,
)
    requires
        registers(email, username, password, step) || logs_in(email, password, step) || looks_up(
            raw,
            step,
        ) || looks_up_identity(profile, step),
        runs_from(svc, step, start, turns, end, Ok(Outcome::Tokens(response))),
    ensures
        issued_now(svc, response),
        recorded_now(svc, end, response),
{
    let db = Database { tables: start, draft: None };
    if let Step::Ask { request, then } = step {
        lemma_tokens_are_made_now(svc, request, then, db, turns, end, response);
    }
}

/// The machine is at fault only where it is: the operating system failed to give 32
/// random bytes, or the clock gave a time before the Unix epoch, or one from which
/// the lifetime of a token leads too far.
pub proof fn law_machine_is_blamed_for_cause(
    svc: AuthService,
    step: Step,
    db: Database,
    turns: Seq<Turn>,
    end: Tables,
    result: AppResult<Outcome>,
)
    requires
        runs(svc, step, db, turns, end, result),
        machine_broke(svc, turns),
    ensures
        system_failed(32) || exists|now: i128| #[trigger]
            clock_gave(now) && (now < 0 || now as int / 1_000_000_000
                + svc.token.config.access_token_expiry_secs > u64::MAX || now
                + svc.token.config.refresh_token_expiry_secs * 1_000_000_000 > LAST_INSTANT),
    decreases turns.len(),
{
    let first = turns[0];
    let rest = turns.drop_first();
    assert(given(first.draws));
    assert(clock_gave(first.draws.now));
    if ready(svc.token.config, first.draws) {
        let i = choose|i: int|
            0 <= i < turns.len() && !ready(svc.token.config, (#[trigger] turns[i]).draws);
        assert(rest[i - 1] == turns[i]);
        assert(machine_broke(svc, rest));
        law_machine_is_blamed_for_cause(svc, first.step, first.db, rest, end, result);
    }
}

/// A registration with a password of at least 8 characters and a username of 3 to 32
/// opens an account whose hash the password matches. It fails to hash only where the
/// operating system failed to give the 16 bytes of the salt, or the password has
/// more bytes than Argon2 takes. With other lengths it is refused.
pub proof fn law_acceptable_registration_opens_an_account(
    email: Seq<char>,
    username: Seq<char>,
    password: Seq<char>,
    step: Step,
)
    requires
        registers_somehow(email, username, password, step),
    ensures
        match step {
            Step::Ask { request, then: Flow::OpeningAccount { account } } => {
                &&& password.len() >= 8
                &&& 3 <= username.len() <= 32
                &&& request is Begin
                &&& account.email@ == email
                &&& account.username@ == username
                &&& argon2id_check(password, account.password_hash@) == Some(true)
            },
            Step::Finish(Err(AppError::Hashing)) => {
                &&& password.len() >= 8
                &&& 3 <= username.len() <= 32
                &&& system_failed(16) || encode_utf8(password).len() > 0xffff_ffff
            },
            Step::Finish(Err(AppError::InvalidCredentials)) => {
                password.len() < 8 || username.len() < 3 || username.len() > 32
            },
            _ => false,
        },
{
}

/// Who asks for a free email and a free username, with a password that Argon2 takes,
/// gets an account and tokens: where the operating system gives random bytes, only a
/// failure of the store or of the machine keeps them back.
pub proof fn law_free_account_is_opened(
    svc: AuthService,
    email: Seq<char>,
    username: Seq<char>,
    password: Seq<char>,
    step: Step,
    start: Tables,
    turns: Seq<Turn>,
    end: Tables,
    result: AppResult<Outcome>,
)
    requires
        coherent(start),
        registers_somehow(email, username, password, step),
        runs_from(svc, step, start, turns, end, result),
        password.len() >= 8,
        3 <= username.len() <= 32,
        encode_utf8(password).len() <= 0xffff_ffff,
        !system_failed(16),
        !email_taken(start, email),
        !username_taken(start, username),
    ensures
        match result {
            Ok(Outcome::Tokens(r)) => {
                &&& r.user.email@ == email
                &&& !start.users.contains_key(r.user.id)
                &&& end.users.contains_key(r.user.id)
                &&& end.users[r.user.id].email@ == email
                &&& end.credentials.contains_key(r.user.id)
                &&& end.credentials[r.user.id].username@ == username
                &&& argon2id_check(password, end.credentials[r.user.id].password_hash@) == Some(
                    true,
                )
            },
            Ok(_) => false,
            Err(e) => excused(svc, turns, e),
        },
{
    law_acceptable_registration_opens_an_account(email, username, password, step);
    law_register(svc, email, username, password, step, start, turns, end, result);
    if let Err(e) = result {
        lemma_nothing_to_hash(svc, step, start, turns, end, e);
        lemma_excused(svc, step, start, turns, end, e);
    }
}

/// Who knows the current password gets a new one of at least 8 characters that
/// Argon2 takes: where the operating system gives random bytes, only a failure of
/// the store keeps it back.
pub proof fn law_acceptable_password_is_stored(
    svc: AuthService,
    user_id: Uuid,
    current: Seq<char>,
    new: Seq<char>,
    revoke: Option<Seq<char>>,
    step: Step,
    start: Tables,
    turns: Seq<Turn>,
    end: Tables,
    result: AppResult<Outcome>,
)
    requires
        coherent(start),
        changes_password(user_id, current, new, revoke, step),
        runs_from(svc, step, start, turns, end, result),
        start.credentials.contains_key(user_id),
        argon2id_check(current, start.credentials[user_id].password_hash@) == Some(true),
        new.len() >= 8,
        encode_utf8(new).len() <= 0xffff_ffff,
        !system_failed(16),
    ensures
        match result {
            Ok(_) => {
                &&& end.credentials.contains_key(user_id)
                &&& argon2id_check(new, end.credentials[user_id].password_hash@) == Some(true)
                &&& revoke is Some ==> all_revoked(end, user_id)
            },
            Err(e) => e is Database && store_broke(turns),
        },
{
    assert(given(turns[0].draws));
    law_password_change(svc, user_id, current, new, revoke, step, start, turns, end, result);
    law_known_password_is_changed(
        svc,
        user_id,
        current,
        new,
        revoke,
        step,
        start,
        turns,
        end,
        result,
    );
}

} // verus!
