//! Access tokens, refresh tokens and password hashes.
use crate::config::Config;
use crate::errors::{AppError, AppResult};
use crate::models::{
    default_auth_method, AuthMethod, Claims, ClaimsModel, Role, Timestamp, User, Uuid,
};
use crate::outside::clock::{now_utc, FIRST_INSTANT, LAST_INSTANT};
use crate::outside::identifiers::{uuid_hyphenated, uuid_now_v7, uuid_parse};
use crate::outside::json::{json_get, json_insert, json_object, JsonField, JsonObject, JsonScalar};
use crate::outside::jwt::{jwt_check, jwt_decode, jwt_encode, JwtCheck};
use crate::outside::password::{argon2_hash, argon2_verify};
use crate::outside::random::{hex_encode, random_bytes};
use crate::services::draws::Draws;
use crate::services::flow::{refuse, store_failed, unexpected_reply, Flow, Step};
use crate::services::store::{RefreshTokenRow, StoreReply, StoreRequest};
use vstd::prelude::*;
use vstd::string::*;

verus! {

use crate::outside::clock::clock_gave;
use crate::outside::identifiers::{id_drawn, is_version_7, uuid_text, uuid_value};
use crate::outside::json::{json_members, scalars_only, JsonMembers, JsonModel};
use crate::outside::jwt::{check_found, checkable, jwt_claims, jwt_text, told_by_clock};
use crate::outside::password::{argon2id_check, argon2id_phc, max_password_bytes};
use crate::outside::random::{hex_digits, system_failed, system_gave};
use crate::services::draws::drawn;
use crate::services::flow::{broke, refused};
use crate::text::lemma_utf8_len;
use vstd::utf8::encode_utf8;

/// Nanoseconds in a second.
pub const NANOS_PER_SEC: i128 = 1_000_000_000;

/// The salt that every refresh token is hashed under. It is the same for all of
/// them, so that a token can be found by its hash; the tokens themselves are
/// random.
pub const REFRESH_TOKEN_SALT: &'static str = "yaima.refresh-token";

/// Manages JWT creation and validation and the making of refresh tokens.
#[derive(Debug, Clone)]
pub struct TokenService {
    pub config: Config,
}

/// A refresh token that was just made: the raw token, for the client alone, and
/// the request that records its hash.
#[derive(Debug)]
pub struct NewRefreshToken {
    pub raw: String,
    pub request: StoreRequest,
}

/// The claims of an access token, by name.
pub open spec fn claim_members(c: ClaimsModel) -> JsonMembers {
    JsonMembers::empty().insert("sub"@, JsonModel::Text(uuid_text(c.sub))).insert(
        "iat"@,
        JsonModel::Number(c.iat),
    ).insert("exp"@, JsonModel::Number(c.exp)).insert("email"@, JsonModel::Text(c.email)).insert(
        "display_name"@,
        JsonModel::Text(c.display_name),
    ).insert("role"@, JsonModel::Text(c.role.name())).insert(
        "auth_method"@,
        JsonModel::Text(c.auth_method.name()),
    )
}

/// The text under a name, if there is one.
pub open spec fn text_in(m: JsonMembers, name: Seq<char>) -> Option<Seq<char>> {
    if m.contains_key(name) {
        match m[name] {
            JsonModel::Text(text) => Some(text),
            _ => None,
        }
    } else {
        None
    }
}

/// The unsigned number under a name, if there is one.
pub open spec fn number_in(m: JsonMembers, name: Seq<char>) -> Option<u64> {
    if m.contains_key(name) {
        match m[name] {
            JsonModel::Number(number) => Some(number),
            _ => None,
        }
    } else {
        None
    }
}

/// The authentication method that members name: the password where they name
/// none, and `None` where what they name is no method.
pub open spec fn method_in(m: JsonMembers) -> Option<AuthMethod> {
    if m.contains_key("auth_method"@) {
        match text_in(m, "auth_method"@) {
            Some(text) => AuthMethod::named(text),
            None => None,
        }
    } else {
        Some(AuthMethod::Password)
    }
}

/// The user that members name as the subject.
pub open spec fn subject_in(m: JsonMembers) -> Option<Uuid> {
    match text_in(m, "sub"@) {
        Some(text) => uuid_value(text),
        None => None,
    }
}

/// The role that members name.
pub open spec fn role_in(m: JsonMembers) -> Option<Role> {
    match text_in(m, "role"@) {
        Some(text) => Role::named(text),
        None => None,
    }
}

/// The claims that members make up: every one has to be there and of its kind,
/// but for the authentication method; further members do not matter.
pub open spec fn claims_in(m: JsonMembers) -> Option<ClaimsModel> {
    match (
        subject_in(m),
        number_in(m, "iat"@),
        number_in(m, "exp"@),
        text_in(m, "email"@),
        text_in(m, "display_name"@),
        role_in(m),
        method_in(m),
    ) {
        (
            Some(sub),
            Some(iat),
            Some(exp),
            Some(email),
            Some(display_name),
            Some(role),
            Some(auth_method),
        ) => Some(ClaimsModel { sub, iat, exp, email, display_name, role, auth_method }),
        _ => None,
    }
}

/// The claims of a token that is well signed under the secret.
pub open spec fn claims_of(token: Seq<char>, secret: Seq<char>) -> Option<ClaimsModel> {
    match jwt_claims(token, secret) {
        Some(m) => claims_in(m),
        None => None,
    }
}

/// `token` is the access token that says `c`, under the secret.
pub open spec fn signs(token: Seq<char>, secret: Seq<char>, c: ClaimsModel) -> bool {
    &&& token == jwt_text(claim_members(c), secret)
    &&& jwt_claims(token, secret) == Some(claim_members(c))
    &&& claims_of(token, secret) == Some(c)
}

/// What the validation of a token comes to. A text that carries no claims is
/// invalid. One that does gives exactly those where a check of it finds it valid,
/// and has expired where the check finds that; it is invalid only if it has further
/// claims that are checked.
pub open spec fn validates(token: Seq<char>, secret: Seq<char>, r: AppResult<Claims>) -> bool {
    match claims_of(token, secret) {
        None => r matches Err(e) && e is TokenInvalid,
        Some(c) => {
            match r {
                Ok(got) => got@ == c && check_found(token, secret, JwtCheck::Valid),
                Err(AppError::TokenExpired) => check_found(token, secret, JwtCheck::Expired),
                Err(e) => {
                    &&& e is TokenInvalid
                    &&& check_found(token, secret, JwtCheck::Rejected)
                    &&& !checkable(jwt_claims(token, secret)->Some_0)
                },
            }
        },
    }
}

/// Any password can be checked against `hash`.
pub open spec fn readable(hash: Seq<char>) -> bool {
    forall|q: Seq<char>| (#[trigger] argon2id_check(q, hash)) is Some
}

/// `hash` is a salted hash of the password: it verifies it, and can be checked
/// against any other.
pub open spec fn hashes(password: Seq<char>, hash: Seq<char>) -> bool {
    &&& exists|salt: Seq<u8>|
        salt.len() == 16 && #[trigger] argon2id_phc(password, salt) == Some(hash)
    &&& argon2id_check(password, hash) == Some(true)
    &&& readable(hash)
}

/// The hash that a refresh token is recorded and found by.
pub open spec fn refresh_token_hash(raw: Seq<char>) -> Option<Seq<char>> {
    argon2id_phc(raw, encode_utf8(REFRESH_TOKEN_SALT@))
}

/// The instant at which a refresh token made at `now` expires, where there is
/// such a date.
pub open spec fn expiry_instant(now: i128, secs: u64) -> Option<int> {
    let at = now + secs * NANOS_PER_SEC;
    if FIRST_INSTANT <= now <= LAST_INSTANT && at <= LAST_INSTANT {
        Some(at)
    } else {
        None
    }
}

/// `token` records a raw token for a user: by its hash, which verifies the raw
/// token, and with an expiry.
pub open spec fn records(
    token: NewRefreshToken,
    user_id: Uuid,
    expires_at: int,
) -> bool {
    match token.request {
        StoreRequest::InsertRefreshToken { id, user_id: owner, token_hash, expires_at: at } => {
            &&& owner == user_id
            &&& refresh_token_hash(token.raw@) == Some(token_hash@)
            &&& argon2id_check(token.raw@, token_hash@) == Some(true)
            &&& at.unix_nanos == expires_at
            &&& at.offset_secs == 0
        },
        _ => false,
    }
}

/// A random token: 32 bytes in hexadecimal.
pub open spec fn opaque_token(raw: Seq<char>) -> bool {
    exists|bytes: Seq<u8>| bytes.len() == 32 && raw == #[trigger] hex_digits(bytes)
}

/// A refresh token as one is made for a user at some time.
pub open spec fn fresh_token(config: Config, user_id: Uuid, token: NewRefreshToken) -> bool {
    &&& opaque_token(token.raw@)
    &&& is_version_7(token.request->InsertRefreshToken_id)
    &&& id_drawn(token.request->InsertRefreshToken_id)
    &&& exists|now: i128|
        {
            &&& (#[trigger] expiry_instant(now, config.refresh_token_expiry_secs)) is Some
            &&& records(
                token,
                user_id,
                expiry_instant(now, config.refresh_token_expiry_secs)->Some_0,
            )
        }
}

/// The refresh token was made of bytes that the operating system gave, at a time
/// that the clock gave.
pub open spec fn made_now(config: Config, user_id: Uuid, token: NewRefreshToken) -> bool {
    &&& exists|bytes: Seq<u8>| #[trigger]
        system_gave(32, bytes) && token.raw@ == hex_digits(bytes)
    &&& exists|now: i128| #[trigger]
        clock_gave(now) && records(
            token,
            user_id,
            now + config.refresh_token_expiry_secs * NANOS_PER_SEC,
        )
}

/// At a time that the clock gave, a refresh token had no date to expire at.
pub open spec fn no_expiry_now(config: Config) -> bool {
    exists|now: i128| #[trigger]
        clock_gave(now) && now + config.refresh_token_expiry_secs * NANOS_PER_SEC > LAST_INSTANT
}

/// An access token can be made at that time: it is past the Unix epoch, and the
/// expiry is a number that fits.
pub open spec fn can_sign_at(config: Config, now: i128) -> bool {
    now >= 0 && now as int / NANOS_PER_SEC as int + config.access_token_expiry_secs <= u64::MAX
}

/// `token` is the access token of a user at that time.
pub open spec fn signed_at(
    config: Config,
    now: i128,
    user_id: Uuid,
    email: Seq<char>,
    display_name: Seq<char>,
    role: Role,
    auth_method: AuthMethod,
    token: Seq<char>,
) -> bool {
    &&& can_sign_at(config, now)
    &&& signs(
        token,
        config.jwt_secret@,
        claims_at(
            config,
            (now as int / NANOS_PER_SEC as int) as u64,
            user_id,
            email,
            display_name,
            role,
            auth_method,
        ),
    )
}

/// An access token can be made with these draws.
pub open spec fn can_sign(config: Config, d: Draws) -> bool {
    can_sign_at(config, d.now)
}

/// A refresh token can be made with these draws: there are random bytes for it,
/// and a date at which it expires.
pub open spec fn can_record(config: Config, d: Draws) -> bool {
    d.secret is Some && expiry_instant(d.now, config.refresh_token_expiry_secs) is Some
}

/// Both tokens can be made with these draws.
pub open spec fn ready(config: Config, d: Draws) -> bool {
    can_sign(config, d) && can_record(config, d)
}

/// A password can be hashed with these draws: there is a salt for it, and it is not
/// too long.
pub open spec fn can_hash(password: Seq<char>, d: Draws) -> bool {
    d.salt is Some && encode_utf8(password).len() <= max_password_bytes()
}

/// `token` is the access token of a user by these draws.
pub open spec fn signed_by_draws(
    config: Config,
    user: User,
    auth_method: AuthMethod,
    d: Draws,
    token: Seq<char>,
) -> bool {
    signs(
        token,
        config.jwt_secret@,
        claims_at(
            config,
            (d.now as int / NANOS_PER_SEC as int) as u64,
            user.id,
            user.email@,
            user.display_name@,
            user.role,
            auth_method,
        ),
    )
}

/// `token` is the refresh token of a user by these draws: the secret in
/// hexadecimal, which expires a lifetime from now.
pub open spec fn made_by_draws(
    config: Config,
    user_id: Uuid,
    d: Draws,
    token: NewRefreshToken,
) -> bool {
    &&& token.raw@ == hex_digits(d.secret->Some_0@)
    &&& records(
        token,
        user_id,
        expiry_instant(d.now, config.refresh_token_expiry_secs)->Some_0,
    )
}

/// `hash` is the hash of a password by these draws.
pub open spec fn hashed_by_draws(password: Seq<char>, d: Draws, hash: Seq<char>) -> bool {
    argon2id_phc(password, d.salt->Some_0@) == Some(hash)
}

/// What the replacement of a refresh token comes to by these draws.
pub open spec fn replaced_by_draws(config: Config, user_id: Uuid, d: Draws, step: Step) -> bool {
    match step {
        Step::Ask { request, then: Flow::ReplacingToken { refresh_token, .. } } => {
            &&& can_record(config, d)
            &&& made_by_draws(
                config,
                user_id,
                d,
                (NewRefreshToken { raw: refresh_token, request }),
            )
        },
        _ => !can_record(config, d) && broke(step),
    }
}

/// A refresh token that may be used at `now`: it was not revoked and has not
/// expired.
pub open spec fn usable(row: RefreshTokenRow, now: i128) -> bool {
    !row.revoked && row.expires_at.unix_nanos >= now
}

/// What is done with a refresh token that was found, at `now`. One that may be
/// used is revoked, to be replaced. With one that may not, every token of the
/// user is revoked.
pub open spec fn rotation(row: RefreshTokenRow, now: i128) -> Step {
    if usable(row, now) {
        Step::Ask {
            request: StoreRequest::RevokeRefreshToken { id: row.id },
            then: Flow::RevokingToken { user_id: row.user_id },
        }
    } else {
        Step::Ask {
            request: StoreRequest::RevokeUserTokens { user_id: row.user_id },
            then: Flow::RefusingToken,
        }
    }
}

/// `step` looks a raw refresh token up by its hash.
pub open spec fn looks_up(raw: Seq<char>, step: Step) -> bool {
    match step {
        Step::Ask {
            request: StoreRequest::FindRefreshToken { token_hash },
            then: Flow::FindingToken,
        } => refresh_token_hash(raw) == Some(token_hash@),
        Step::Finish(Err(e)) => e is Hashing && refresh_token_hash(raw) is None,
        _ => false,
    }
}

/// What follows the look-up of a refresh token, whatever the time.
pub open spec fn token_found(reply: StoreReply, step: Step) -> bool {
    match reply {
        StoreReply::RefreshToken(Some(row)) => exists|now: i128|
            FIRST_INSTANT <= now <= LAST_INSTANT && step == #[trigger] rotation(row, now),
        StoreReply::RefreshToken(None) => refused(step, AppError::RefreshTokenInvalid),
        StoreReply::Failed(err) => refused(step, AppError::Database(err.text)),
        _ => broke(step),
    }
}

/// What follows the revocation of the tokens of a user whose token may not be
/// used.
pub open spec fn token_refused(reply: StoreReply, step: Step) -> bool {
    match reply {
        StoreReply::Done => refused(step, AppError::RefreshTokenInvalid),
        StoreReply::Failed(err) => refused(step, AppError::Database(err.text)),
        _ => broke(step),
    }
}

/// What follows the revocation of the old token: a new one is recorded.
pub open spec fn token_revoked(config: Config, user_id: Uuid, reply: StoreReply, step: Step) -> bool {
    match reply {
        StoreReply::Done => match step {
            Step::Ask {
                request,
                then: Flow::ReplacingToken { user_id: owner, refresh_token },
            } => {
                &&& owner == user_id
                &&& fresh_token(config, user_id, (NewRefreshToken { raw: refresh_token, request }))
            },
            Step::Finish(Err(e)) => e is Internal,
            _ => false,
        },
        StoreReply::Failed(err) => refused(step, AppError::Database(err.text)),
        _ => broke(step),
    }
}

/// An access token as one is issued for a user at some time.
pub open spec fn issued(
    config: Config,
    user_id: Uuid,
    email: Seq<char>,
    display_name: Seq<char>,
    role: Role,
    auth_method: AuthMethod,
    token: Seq<char>,
) -> bool {
    exists|now: u64|
        {
            &&& now + config.access_token_expiry_secs <= u64::MAX
            &&& signs(
                token,
                config.jwt_secret@,
                #[trigger] claims_at(
                    config,
                    now,
                    user_id,
                    email,
                    display_name,
                    role,
                    auth_method,
                ),
            )
        }
}

/// The claims of an access token issued at `now`.
pub open spec fn claims_at(
    config: Config,
    now: u64,
    user_id: Uuid,
    email: Seq<char>,
    display_name: Seq<char>,
    role: Role,
    auth_method: AuthMethod,
) -> ClaimsModel {
    ClaimsModel {
        sub: user_id,
        iat: now,
        exp: (now + config.access_token_expiry_secs) as u64,
        email,
        display_name,
        role,
        auth_method,
    }
}

/// The names of the claims are distinct, and distinct from the other claims that
/// a check looks at.
proof fn lemma_claim_names()
    ensures
        "sub"@ != "iat"@,
        "sub"@ != "exp"@,
        "iat"@ != "exp"@,
        "sub"@ != "nbf"@,
        "iat"@ != "nbf"@,
        "exp"@ != "nbf"@,
        "sub"@ != "iss"@,
        "iat"@ != "iss"@,
        "exp"@ != "iss"@,
        "sub"@ != "aud"@,
        "iat"@ != "aud"@,
        "exp"@ != "aud"@,
        "sub"@.len() == 3,
        "iat"@.len() == 3,
        "exp"@.len() == 3,
        "nbf"@.len() == 3,
        "iss"@.len() == 3,
        "aud"@.len() == 3,
        "role"@.len() == 4,
        "email"@.len() == 5,
        "auth_method"@.len() == 11,
        "display_name"@.len() == 12,
{
    reveal_strlit("sub");
    reveal_strlit("iat");
    reveal_strlit("exp");
    reveal_strlit("nbf");
    reveal_strlit("iss");
    reveal_strlit("aud");
    reveal_strlit("role");
    reveal_strlit("email");
    reveal_strlit("auth_method");
    reveal_strlit("display_name");
    assert("sub"@[0] == 's' && "iat"@[0] == 'i' && "exp"@[0] == 'e' && "nbf"@[0] == 'n'
        && "iss"@[0] == 'i' && "aud"@[0] == 'a');
    assert("iat"@[1] == 'a' && "iss"@[1] == 's');
}

/// The claims of an access token read back from its members, given that its
/// subject does.
proof fn lemma_members_read_back(c: ClaimsModel)
    requires
        uuid_value(uuid_text(c.sub)) == Some(c.sub),
    ensures
        claims_in(claim_members(c)) == Some(c),
        scalars_only(claim_members(c)),
        checkable(claim_members(c)),
{
    lemma_claim_names();
    crate::models::law_role_name_reads_back(c.role);
    crate::models::law_method_name_reads_back(c.auth_method);
}

/// The claims as a JSON object.
fn claims_object(c: &Claims) -> (r: JsonObject)
    ensures
        json_members(r) == claim_members(c@),
        uuid_value(uuid_text(c.sub)) == Some(c.sub),
{
    let mut object = json_object();
    json_insert(&mut object, "sub", JsonScalar::Text(uuid_hyphenated(c.sub)));
    json_insert(&mut object, "iat", JsonScalar::Number(c.iat));
    json_insert(&mut object, "exp", JsonScalar::Number(c.exp));
    json_insert(&mut object, "email", JsonScalar::Text(c.email.clone()));
    json_insert(&mut object, "display_name", JsonScalar::Text(c.display_name.clone()));
    json_insert(&mut object, "role", JsonScalar::Text(c.role.as_str().to_owned()));
    json_insert(&mut object, "auth_method", JsonScalar::Text(c.auth_method.as_str().to_owned()));
    object
}

/// The text under a name.
pub fn text_field(object: &JsonObject, name: &str) -> (r: Option<String>)
    ensures
        match r {
            Some(text) => text_in(json_members(*object), name@) == Some(text@),
            None => text_in(json_members(*object), name@) is None,
        },
{
    match json_get(object, name) {
        JsonField::Scalar(JsonScalar::Text(text)) => Some(text),
        _ => None,
    }
}

fn number_field(object: &JsonObject, name: &str) -> (r: Option<u64>)
    ensures
        r == number_in(json_members(*object), name@),
{
    match json_get(object, name) {
        JsonField::Scalar(JsonScalar::Number(number)) => Some(number),
        _ => None,
    }
}

/// The claims that an object makes up, if it does.
fn claims_from(object: &JsonObject) -> (r: Option<Claims>)
    ensures
        match r {
            Some(c) => claims_in(json_members(*object)) == Some(c@),
            None => claims_in(json_members(*object)) is None,
        },
{
    let sub = match text_field(object, "sub") {
        Some(text) => match uuid_parse(text.as_str()) {
            Ok(id) => id,
            Err(_) => return None,
        },
        None => return None,
    };
    let iat: u64 = match number_field(object, "iat") {
        Some(iat) => iat,
        None => return None,
    };
    let exp: u64 = match number_field(object, "exp") {
        Some(exp) => exp,
        None => return None,
    };
    let email = match text_field(object, "email") {
        Some(email) => email,
        None => return None,
    };
    let display_name = match text_field(object, "display_name") {
        Some(display_name) => display_name,
        None => return None,
    };
    let role = match text_field(object, "role") {
        Some(text) => match Role::from_name(text.as_str()) {
            Some(role) => role,
            None => return None,
        },
        None => return None,
    };
    let auth_method = match json_get(object, "auth_method") {
        JsonField::Missing => default_auth_method(),
        JsonField::Scalar(JsonScalar::Text(text)) => match AuthMethod::from_name(text.as_str()) {
            Some(method) => method,
            None => return None,
        },
        _ => return None,
    };
    Some(Claims { sub, iat, exp, email, display_name, role, auth_method })
}

/// What a token comes to, from the claims that it carries and from what its
/// check found.
pub fn session_outcome(claims: Claims, check: JwtCheck) -> (r: AppResult<Claims>)
    ensures
        match check {
            JwtCheck::Valid => r == Ok::<Claims, AppError>(claims),
            JwtCheck::Expired => r matches Err(e) && e is TokenExpired,
            JwtCheck::Rejected => r matches Err(e) && e is TokenInvalid,
        },
{
    match check {
        JwtCheck::Valid => Ok(claims),
        JwtCheck::Expired => Err(AppError::TokenExpired),
        JwtCheck::Rejected => Err(AppError::TokenInvalid),
    }
}

/// The whole seconds from the Unix epoch to an instant; fails before the epoch.
pub fn unix_seconds(unix_nanos: i128) -> (r: AppResult<u64>)
    requires
        unix_nanos <= LAST_INSTANT,
    ensures
        match r {
            Ok(secs) => unix_nanos >= 0 && secs == unix_nanos as int / NANOS_PER_SEC as int,
            Err(e) => unix_nanos < 0 && e is Internal,
        },
{
    if unix_nanos < 0 {
        Err(AppError::Internal("system clock before epoch".to_owned()))
    } else {
        Ok((unix_nanos / NANOS_PER_SEC) as u64)
    }
}

/// The Unix time now, in seconds; fails where the clock is before the epoch.
pub fn unix_now() -> (r: AppResult<u64>)
    ensures
        match r {
            Ok(secs) => secs <= LAST_INSTANT as int / NANOS_PER_SEC as int && exists|now: i128|
                #[trigger] clock_gave(now) && now >= 0 && secs == now as int / NANOS_PER_SEC as int,
            Err(e) => e is Internal && exists|now: i128| #[trigger] clock_gave(now) && now < 0,
        },
{
    let now: i128 = now_utc();
    assert(clock_gave(now));
    unix_seconds(now)
}

/// Generate a cryptographically-random 256-bit token encoded as hex.
///
/// # Errors
///
/// Fails where the operating system gives no random bytes.
pub fn generate_opaque_token() -> (r: AppResult<String>)
    ensures
        match r {
            Ok(raw) => {
                &&& opaque_token(raw@) && raw@.len() == 64
                &&& exists|bytes: Seq<u8>| #[trigger]
                    system_gave(32, bytes) && raw@ == hex_digits(bytes)
            },
            Err(e) => e is Internal && system_failed(32),
        },
{
    match random_bytes(32) {
        Ok(bytes) => {
            let raw = hex_encode(bytes.as_slice());
            assert(hex_digits(bytes@) == raw@);
            assert(system_gave(32, bytes@));
            Ok(raw)
        },
        Err(_) => Err(AppError::Internal("OS RNG failed".to_owned())),
    }
}

/// Hash a plaintext password with Argon2id under a salt.
pub fn hash_password_with(password: &str, salt: &[u8]) -> (r: AppResult<String>)
    requires
        8 <= salt@.len() <= 48,
    ensures
        match r {
            Ok(hash) => {
                &&& argon2id_phc(password@, salt@) == Some(hash@)
                &&& argon2id_check(password@, hash@) == Some(true)
                &&& readable(hash@)
            },
            Err(e) => argon2id_phc(password@, salt@) is None && e is Hashing,
        },
        r is Ok <==> encode_utf8(password@).len() <= max_password_bytes(),
{
    match argon2_hash(password, salt) {
        Ok(hash) => Ok(hash),
        Err(_) => Err(AppError::Hashing),
    }
}

/// Hash a plaintext password with Argon2id under a random salt.
///
/// # Errors
///
/// Returns [`AppError::Hashing`] if the operating system gives no salt or the
/// Argon2 hashing operation fails.
pub fn hash_password(password: &str) -> (r: AppResult<String>)
    ensures
        match r {
            Ok(hash) => {
                &&& hashes(password@, hash@)
                &&& exists|salt: Seq<u8>| #[trigger]
                    system_gave(16, salt) && argon2id_phc(password@, salt) == Some(hash@)
            },
            Err(e) => {
                &&& e is Hashing
                &&& system_failed(16) || encode_utf8(password@).len() > max_password_bytes()
            },
        },
        r is Ok ==> encode_utf8(password@).len() <= max_password_bytes(),
{
    match random_bytes(16) {
        Ok(salt) => {
            assert(system_gave(16, salt@));
            hash_password_with(password, salt.as_slice())
        },
        Err(_) => Err(AppError::Hashing),
    }
}

/// Hash a plaintext password with Argon2id under the salt that was drawn.
///
/// # Errors
///
/// Returns [`AppError::Hashing`] if there is no salt or the password is too long.
pub fn hash_password_by(password: &str, draws: &Draws) -> (r: AppResult<String>)
    requires
        drawn(*draws),
    ensures
        match r {
            Ok(hash) => {
                &&& can_hash(password@, *draws)
                &&& hashed_by_draws(password@, *draws, hash@)
                &&& hashes(password@, hash@)
            },
            Err(e) => !can_hash(password@, *draws) && e is Hashing,
        },
{
    match &draws.salt {
        Some(salt) => hash_password_with(password, salt.as_slice()),
        None => Err(AppError::Hashing),
    }
}

/// What checking a password against a hash comes to: an error where the hash is
/// none, and else whether they match.
pub open spec fn verifies(password: Seq<char>, hash: Seq<char>, r: AppResult<bool>) -> bool {
    match r {
        Ok(matched) => argon2id_check(password, hash) == Some(matched),
        Err(e) => argon2id_check(password, hash) is None && e is Hashing,
    }
}

/// Verify a plaintext password against an Argon2 hash.
///
/// # Errors
///
/// Returns [`AppError::Hashing`] if `hash` is not a valid Argon2 hash string.
/// Returns `Ok(false)` if the hash is valid but the password does not match.
pub fn verify_password(password: &str, hash: &str) -> (r: AppResult<bool>)
    ensures
        verifies(password@, hash@, r),
        hash@.len() == 0 || hash@[0] != '$' ==> r is Err,
{
    match argon2_verify(password, hash) {
        Ok(matched) => Ok(matched),
        Err(_) => Err(AppError::Hashing),
    }
}

/// Argon2id hash of the raw refresh token value, by which it is recorded and
/// found again.
///
/// Using Argon2 ensures that a DB leak cannot be trivially converted into
/// working tokens without substantial compute.
///
/// # Errors
///
/// Returns [`AppError::Hashing`] if the Argon2 hashing operation fails.
pub fn hash_refresh_token(raw: &str) -> (r: AppResult<String>)
    ensures
        match r {
            Ok(hash) => {
                &&& refresh_token_hash(raw@) == Some(hash@)
                &&& argon2id_check(raw@, hash@) == Some(true)
            },
            Err(e) => refresh_token_hash(raw@) is None && e is Hashing,
        },
        r is Ok <==> encode_utf8(raw@).len() <= max_password_bytes(),
{
    let salt = REFRESH_TOKEN_SALT.as_bytes();
    proof {
        reveal_strlit("yaima.refresh-token");
        assert(REFRESH_TOKEN_SALT.is_ascii());
        assert(salt@.len() == 19);
    }
    hash_password_with(raw, salt)
}

/// The instant `secs` seconds after `now`, where there is such a date.
pub fn expiry_after(now: i128, secs: u64) -> (r: Option<i128>)
    ensures
        match r {
            Some(at) => expiry_instant(now, secs) == Some(at as int),
            None => expiry_instant(now, secs) is None,
        },
{
    if now < FIRST_INSTANT || now > LAST_INSTANT {
        return None;
    }
    let at: i128 = now + secs as i128 * NANOS_PER_SEC;
    if at > LAST_INSTANT {
        None
    } else {
        Some(at)
    }
}

impl TokenService {
    #[must_use]
    pub fn new(config: Config) -> (r: Self)
        ensures
            r.config == config,
    {
        TokenService { config }
    }

    /// The signed access token of a user, issued at a given time.
    ///
    /// # Errors
    ///
    /// Fails where the expiry lies beyond what a number can hold.
    pub fn generate_access_token_at(
        &self,
        now: u64,
        user_id: Uuid,
        email: &str,
        display_name: &str,
        role: Role,
        auth_method: AuthMethod,
    ) -> (r: AppResult<String>)
        ensures
            match r {
                Ok(token) => {
                    &&& now + self.config.access_token_expiry_secs <= u64::MAX
                    &&& signs(
                        token@,
                        self.config.jwt_secret@,
                        claims_at(
                            self.config,
                            now,
                            user_id,
                            email@,
                            display_name@,
                            role,
                            auth_method,
                        ),
                    )
                },
                Err(e) => {
                    &&& now + self.config.access_token_expiry_secs > u64::MAX
                    &&& e is Internal
                },
            },
    {
        let exp: u64 = match now.checked_add(self.config.access_token_expiry_secs) {
            Some(exp) => exp,
            None => return Err(AppError::Internal("token expiry out of range".to_owned())),
        };
        let claims = Claims {
            sub: user_id,
            iat: now,
            exp,
            email: email.to_owned(),
            display_name: display_name.to_owned(),
            role,
            auth_method,
        };
        let object = claims_object(&claims);
        proof {
            lemma_members_read_back(claims@);
        }
        match jwt_encode(&object, self.config.jwt_secret.as_str()) {
            Ok(token) => Ok(token),
            Err(_) => Err(AppError::TokenInvalid),
        }
    }

    /// Encode a new signed JWT access token for the given user.
    ///
    /// # Errors
    ///
    /// Fails where the clock is before the Unix epoch or the expiry is out of
    /// range.
    pub fn generate_access_token(
        &self,
        user_id: Uuid,
        email: &str,
        display_name: &str,
        role: Role,
        auth_method: AuthMethod,
    ) -> (r: AppResult<String>)
        ensures
            match r {
                Ok(token) => issued(
                    self.config,
                    user_id,
                    email@,
                    display_name@,
                    role,
                    auth_method,
                    token@,
                ),
                Err(e) => e is Internal,
            },
            exists|now: i128| #[trigger]
                clock_gave(now) && match r {
                    Ok(token) => signed_at(
                        self.config,
                        now,
                        user_id,
                        email@,
                        display_name@,
                        role,
                        auth_method,
                        token@,
                    ),
                    Err(_) => !can_sign_at(self.config, now),
                },
    {
        let now: u64 = match unix_now() {
            Ok(now) => now,
            Err(e) => return Err(e),
        };
        self.generate_access_token_at(now, user_id, email, display_name, role, auth_method)
    }

    /// The signed access token of a user, by these draws.
    ///
    /// # Errors
    ///
    /// Fails where the clock is before the Unix epoch or the expiry is out of
    /// range.
    pub fn generate_access_token_by(&self, draws: &Draws, user: &User, auth_method: AuthMethod) -> (r:
        AppResult<String>)
        requires
            drawn(*draws),
        ensures
            match r {
                Ok(token) => {
                    &&& can_sign(self.config, *draws)
                    &&& signed_by_draws(self.config, *user, auth_method, *draws, token@)
                    &&& issued(
                        self.config,
                        user.id,
                        user.email@,
                        user.display_name@,
                        user.role,
                        auth_method,
                        token@,
                    )
                },
                Err(e) => !can_sign(self.config, *draws) && e is Internal,
            },
    {
        let now: u64 = match unix_seconds(draws.now) {
            Ok(now) => now,
            Err(e) => return Err(e),
        };
        self.generate_access_token_at(
            now,
            user.id,
            user.email.as_str(),
            user.display_name.as_str(),
            user.role,
            auth_method,
        )
    }

    /// Validate a JWT access token and return its claims.
    ///
    /// # Errors
    ///
    /// Returns [`AppError::TokenExpired`] if the token's signature is valid but the
    /// token has expired, or [`AppError::TokenInvalid`] for any other decoding failure.
    pub fn validate_access_token(&self, token: &str) -> (r: AppResult<Claims>)
        ensures
            validates(token@, self.config.jwt_secret@, r),
    {
        let object = match jwt_decode(token, self.config.jwt_secret.as_str()) {
            Ok(object) => object,
            Err(_) => return Err(AppError::TokenInvalid),
        };
        match claims_from(&object) {
            Some(claims) => session_outcome(
                claims,
                jwt_check(token, self.config.jwt_secret.as_str()),
            ),
            None => Err(AppError::TokenInvalid),
        }
    }

    /// The record of a raw refresh token made at `now`, under an id.
    ///
    /// # Errors
    ///
    /// Fails where there is no date that many seconds ahead, and where the token
    /// is too long to be hashed.
    pub fn refresh_token_record(&self, user_id: Uuid, raw: String, now: i128, id: Uuid) -> (r: AppResult<
        NewRefreshToken,
    >)
        ensures
            match r {
                Ok(token) => {
                    &&& token.raw == raw
                    &&& expiry_instant(now, self.config.refresh_token_expiry_secs) matches Some(at)
                        && records(token, user_id, at)
                    &&& token.request->InsertRefreshToken_id == id
                },
                Err(e) => {
                    ||| e is Hashing && encode_utf8(raw@).len() > max_password_bytes()
                    ||| e is Internal && expiry_instant(
                        now,
                        self.config.refresh_token_expiry_secs,
                    ) is None
                },
            },
    {
        let token_hash = match hash_refresh_token(raw.as_str()) {
            Ok(hash) => hash,
            Err(e) => return Err(e),
        };
        match expiry_after(now, self.config.refresh_token_expiry_secs) {
            Some(at) => Ok(
                NewRefreshToken {
                    raw,
                    request: StoreRequest::InsertRefreshToken {
                        id,
                        user_id,
                        token_hash,
                        expires_at: Timestamp { unix_nanos: at, offset_secs: 0 },
                    },
                },
            ),
            None => Err(AppError::Internal("refresh token expiry out of range".to_owned())),
        }
    }

    /// Create a new opaque refresh token: the raw token string, and the request
    /// that persists its hash (the token itself is never stored in plaintext).
    ///
    /// # Errors
    ///
    /// Fails where the operating system gives no random bytes, and where the
    /// expiry is out of range.
    pub fn create_refresh_token(&self, user_id: Uuid) -> (r: AppResult<NewRefreshToken>)
        ensures
            match r {
                Ok(token) => {
                    &&& fresh_token(self.config, user_id, token)
                    &&& made_now(self.config, user_id, token)
                },
                Err(e) => e is Internal && (system_failed(32) || no_expiry_now(self.config)),
            },
    {
        let raw = match generate_opaque_token() {
            Ok(raw) => raw,
            Err(e) => return Err(e),
        };
        proof {
            lemma_utf8_len(raw@);
        }
        let now: i128 = now_utc();
        assert(clock_gave(now));
        self.refresh_token_record(user_id, raw, now, uuid_now_v7())
    }

    /// Create a new opaque refresh token by these draws.
    ///
    /// # Errors
    ///
    /// Fails where there are no random bytes, and where the expiry is out of range.
    pub fn create_refresh_token_by(&self, draws: &Draws, user_id: Uuid) -> (r: AppResult<
        NewRefreshToken,
    >)
        requires
            drawn(*draws),
        ensures
            match r {
                Ok(token) => {
                    &&& can_record(self.config, *draws)
                    &&& made_by_draws(self.config, user_id, *draws, token)
                    &&& fresh_token(self.config, user_id, token)
                },
                Err(e) => !can_record(self.config, *draws) && e is Internal,
            },
    {
        let raw = match &draws.secret {
            Some(secret) => hex_encode(secret.as_slice()),
            None => return Err(AppError::Internal("OS RNG failed".to_owned())),
        };
        proof {
            assert(hex_digits(draws.secret->Some_0@) == raw@);
            assert(opaque_token(raw@));
            lemma_utf8_len(raw@);
        }
        self.refresh_token_record(user_id, raw, draws.now, uuid_now_v7())
    }

    /// Begin to exchange a raw refresh token: look it up by its hash.
    ///
    /// # Errors
    ///
    /// Ends in [`AppError::Hashing`] if the token is too long to be hashed.
    pub fn rotate_refresh_token(&self, raw_token: &str) -> (r: Step)
        ensures
            looks_up(raw_token@, r),
    {
        match hash_refresh_token(raw_token) {
            Ok(token_hash) => Step::Ask {
                request: StoreRequest::FindRefreshToken { token_hash },
                then: Flow::FindingToken,
            },
            Err(e) => refuse(e),
        }
    }

    /// Decide at `now` what is done with a refresh token that was found: it is
    /// revoked, to be replaced by a new one; or, if it was revoked before or has
    /// expired, all tokens of its user are revoked.
    pub fn use_token(&self, row: RefreshTokenRow, now: i128) -> (r: Step)
        ensures
            r == rotation(row, now),
    {
        if row.revoked || row.expires_at.unix_nanos < now {
            Step::Ask {
                request: self.revoke_all_user_tokens(row.user_id),
                then: Flow::RefusingToken,
            }
        } else {
            Step::Ask {
                request: StoreRequest::RevokeRefreshToken { id: row.id },
                then: Flow::RevokingToken { user_id: row.user_id },
            }
        }
    }

    /// Go on with the refresh token that was looked up.
    ///
    /// # Errors
    ///
    /// Ends in [`AppError::RefreshTokenInvalid`] if there is none.
    pub fn check_token(&self, reply: StoreReply, draws: &Draws) -> (r: Step)
        requires
            drawn(*draws),
        ensures
            token_found(reply, r),
            reply matches StoreReply::RefreshToken(Some(row)) ==> r == rotation(row, draws.now),
    {
        match reply {
            StoreReply::RefreshToken(Some(row)) => self.use_token(row, draws.now),
            StoreReply::RefreshToken(None) => refuse(AppError::RefreshTokenInvalid),
            StoreReply::Failed(err) => store_failed(err),
            _ => unexpected_reply(),
        }
    }

    /// Refuse a refresh token, once all tokens of its user are revoked.
    pub fn refuse_token(&self, reply: StoreReply) -> (r: Step)
        ensures
            token_refused(reply, r),
    {
        match reply {
            StoreReply::Done => refuse(AppError::RefreshTokenInvalid),
            StoreReply::Failed(err) => store_failed(err),
            _ => unexpected_reply(),
        }
    }

    /// Record a new refresh token, once the old one is revoked.
    ///
    /// # Errors
    ///
    /// Fails where no refresh token can be made.
    pub fn replace_token(&self, user_id: Uuid, reply: StoreReply, draws: &Draws) -> (r: Step)
        requires
            drawn(*draws),
        ensures
            token_revoked(self.config, user_id, reply, r),
            reply is Done ==> replaced_by_draws(self.config, user_id, *draws, r),
    {
        match reply {
            StoreReply::Done => match self.create_refresh_token_by(draws, user_id) {
                Ok(token) => self.record_replacement(user_id, token),
                Err(e) => refuse(e),
            },
            StoreReply::Failed(err) => store_failed(err),
            _ => unexpected_reply(),
        }
    }

    /// Record a refresh token in place of one that was revoked.
    pub fn record_replacement(&self, user_id: Uuid, token: NewRefreshToken) -> (r: Step)
        ensures
            r == (Step::Ask {
                request: token.request,
                then: Flow::ReplacingToken { user_id, refresh_token: token.raw },
            }),
    {
        Step::Ask {
            request: token.request,
            then: Flow::ReplacingToken { user_id, refresh_token: token.raw },
        }
    }

    /// The request that revokes all refresh tokens belonging to a user.
    pub fn revoke_all_user_tokens(&self, user_id: Uuid) -> (r: StoreRequest)
        ensures
            r == (StoreRequest::RevokeUserTokens { user_id }),
    {
        StoreRequest::RevokeUserTokens { user_id }
    }
}

/// An access token gives back what it was issued for: whatever the validation
/// of a token that was issued under the same secret returns, it is the claims
/// that went in, or that the token has expired.
pub proof fn law_access_token_reads_back(
    token: Seq<char>,
    secret: Seq<char>,
    claims: ClaimsModel,
    r: AppResult<Claims>,
)
    requires
        signs(token, secret, claims),
        validates(token, secret, r),
    ensures
        match r {
            Ok(got) => got@ == claims,
            Err(e) => e is TokenExpired,
        },
{
    lemma_claim_names();
}

/// A validation goes by the clock. A well-signed token that needs no further check
/// gives its claims where its expiry does not lie before the second that the clock
/// gave, and has expired where it does, whatever else it claims.
pub proof fn law_validation_goes_by_the_clock(
    token: Seq<char>,
    secret: Seq<char>,
    claims: ClaimsModel,
    r: AppResult<Claims>,
)
    requires
        claims_of(token, secret) == Some(claims),
        checkable(jwt_claims(token, secret)->Some_0),
        validates(token, secret, r),
    ensures
        exists|now: i128|
            {
                &&& #[trigger] clock_gave(now)
                &&& now >= 0
                &&& match r {
                    Ok(got) => got@ == claims && now as int / 1_000_000_000 <= claims.exp,
                    Err(e) => e is TokenExpired && claims.exp < now as int / 1_000_000_000,
                }
            },
{
    let found = match r {
        Ok(_) => JwtCheck::Valid,
        Err(_) => JwtCheck::Expired,
    };
    assert(check_found(token, secret, found));
    let (t, s) = choose|t: &str, s: &str|
        t@ == token && s@ == secret && #[trigger] call_ensures(jwt_check, (t, s), found);
    assert(told_by_clock(claims.exp, found));
}

/// An access token is good for its lifetime and no longer: one that was issued at
/// one time that the clock gave is let through only at a time no later than a
/// lifetime after that, in whole seconds, and has expired only at a later one.
pub proof fn law_access_token_lives_its_lifetime(
    config: Config,
    issued_at: i128,
    user_id: Uuid,
    email: Seq<char>,
    display_name: Seq<char>,
    role: Role,
    auth_method: AuthMethod,
    token: Seq<char>,
    r: AppResult<Claims>,
)
    requires
        signed_at(config, issued_at, user_id, email, display_name, role, auth_method, token),
        validates(token, config.jwt_secret@, r),
    ensures
        exists|now: i128|
            {
                let until = issued_at as int / 1_000_000_000 + config.access_token_expiry_secs;
                &&& #[trigger] clock_gave(now)
                &&& now >= 0
                &&& match r {
                    Ok(got) => {
                        &&& now as int / 1_000_000_000 <= until
                        &&& got.sub == user_id
                        &&& got.email@ == email
                        &&& got.display_name@ == display_name
                        &&& got.role == role
                        &&& got.auth_method == auth_method
                    },
                    Err(e) => e is TokenExpired && until < now as int / 1_000_000_000,
                }
            },
{
    let claims = claims_at(
        config,
        (issued_at as int / 1_000_000_000) as u64,
        user_id,
        email,
        display_name,
        role,
        auth_method,
    );
    law_signed_claims_are_checkable(token, config.jwt_secret@, claims);
    law_validation_goes_by_the_clock(token, config.jwt_secret@, claims, r);
}

/// The claims of a token that was issued are checked in no further way.
pub proof fn law_signed_claims_are_checkable(
    token: Seq<char>,
    secret: Seq<char>,
    claims: ClaimsModel,
)
    requires
        signs(token, secret, claims),
    ensures
        jwt_claims(token, secret) matches Some(members) && checkable(members),
{
    lemma_claim_names();
}

/// A password matches the hash that was made of it, and every hash that was made
/// of it. Another password gets an answer from that hash, and never an error.
pub proof fn law_password_matches_its_hash(
    password: Seq<char>,
    hash: Seq<char>,
    other: Seq<char>,
    r: AppResult<bool>,
    other_r: AppResult<bool>,
)
    requires
        hashes(password, hash),
        verifies(password, hash, r),
        verifies(other, hash, other_r),
    ensures
        r == Ok::<bool, AppError>(true),
        other_r is Ok,
{
    assert(argon2id_check(other, hash) is Some);
}

/// A refresh token may be used until its lifetime is over, and not after, as long
/// as it is not revoked.
pub proof fn law_refresh_token_lives_its_lifetime(
    row: RefreshTokenRow,
    made: i128,
    secs: u64,
    now: i128,
)
    requires
        expiry_instant(made, secs) == Some(row.expires_at.unix_nanos as int),
    ensures
        usable(row, now) <==> !row.revoked && now <= made + secs * NANOS_PER_SEC,
{
}

/// With a refresh token that was revoked or has expired, nothing is done but to
/// revoke every token of its user.
pub proof fn law_unusable_token_revokes_all(row: RefreshTokenRow, now: i128)
    requires
        row.revoked || row.expires_at.unix_nanos < now,
    ensures
        rotation(row, now) == (Step::Ask {
            request: StoreRequest::RevokeUserTokens { user_id: row.user_id },
            then: Flow::RefusingToken,
        }),
{
}

/// A refresh token is looked up by the hash that it was recorded under.
pub proof fn law_refresh_token_is_found_by_its_hash(
    token: NewRefreshToken,
    user_id: Uuid,
    expires_at: int,
    step: Step,
)
    requires
        records(token, user_id, expires_at),
        looks_up(token.raw@, step),
    ensures
        match step {
            Step::Ask { request: StoreRequest::FindRefreshToken { token_hash }, .. } => token_hash@
                == token.request->InsertRefreshToken_token_hash@,
            _ => false,
        },
{
}

} // verus!
