//! Who is calling, and whether the caller may.
use crate::errors::{AppError, AppResult};
use crate::models::{AuthMethod, Claims, Role};
use crate::outside::headers::{authorization_field, header_text, Headers};
use crate::state::AppState;
use crate::text::same;
use vstd::prelude::*;
use vstd::string::*;

verus! {

use crate::models::ClaimsModel;
use crate::outside::headers::{ascii_text, header_fields, visible};
use crate::outside::clock::clock_gave;
use crate::outside::jwt::{
    check_found, checkable, jwt_check, jwt_claims, told_by_clock, JwtCheck,
};
use crate::services::token::{claims_of, law_signed_claims_are_checkable, signs};

/// Validates the JWT and holds the decoded [`Claims`] for a handler.
///
/// For role-guarded handlers, prefer [`RequireUser`] and [`RequireAdmin`].
#[derive(Debug)]
pub struct AuthUser(pub Claims);

/// Requires the caller to hold at least the `User` role.
#[derive(Debug)]
pub struct RequireUser(pub Claims);

/// Requires the caller to hold the `Admin` role.
#[derive(Debug)]
pub struct RequireAdmin(pub Claims);

/// Requires the token to have been issued via an OAuth 2.0 provider.
///
/// Use on endpoints that are only meaningful for OAuth sessions — for example,
/// listing or unlinking a connected provider identity (`GET /auth/connections`,
/// `DELETE /auth/connections/{provider}`).
#[derive(Debug)]
pub struct RequireOAuthSession(pub Claims);

/// What a handler asks of who calls it, beyond a valid token.
pub enum Guard {
    /// Nothing.
    Open,
    /// At least that role.
    AtLeast(Role),
    /// A token that was issued by that method.
    IssuedBy(AuthMethod),
}

/// The claims are good enough for the guard.
pub open spec fn passes(guard: Guard, claims: ClaimsModel) -> bool {
    match guard {
        Guard::Open => true,
        Guard::AtLeast(minimum) => claims.role.rank() >= minimum.rank(),
        Guard::IssuedBy(method) => claims.auth_method == method,
    }
}

/// What follows the bearer scheme in a text.
pub open spec fn after_bearer(text: Seq<char>) -> Option<Seq<char>> {
    if text.len() >= 7 && text.take(7) == "Bearer "@ {
        Some(text.skip(7))
    } else {
        None
    }
}

/// The bearer token of a request: what follows `Bearer ` in the `Authorization`
/// field, if that is there and is visible ASCII.
pub open spec fn bearer_in(fields: Map<Seq<char>, Seq<u8>>) -> Option<Seq<char>> {
    if fields.contains_key("authorization"@) && visible(fields["authorization"@]) {
        after_bearer(ascii_text(fields["authorization"@]))
    } else {
        None
    }
}

/// What a guard says of a request. Without a bearer token the header is missing.
/// A token that carries no claims is invalid. One that does is checked: where it is
/// found valid, it is let through with exactly its claims, or does not pass the
/// guard; it has expired where the check finds that, and is invalid only if it has
/// further claims that are checked.
pub open spec fn admits(
    secret: Seq<char>,
    fields: Map<Seq<char>, Seq<u8>>,
    guard: Guard,
    r: AppResult<Claims>,
) -> bool {
    match bearer_in(fields) {
        None => r matches Err(e) && e is MissingAuthHeader,
        Some(token) => match claims_of(token, secret) {
            None => r matches Err(e) && e is TokenInvalid,
            Some(claims) => match r {
                Ok(got) => {
                    &&& got@ == claims && passes(guard, claims)
                    &&& check_found(token, secret, JwtCheck::Valid)
                },
                Err(e) => {
                    ||| e is TokenExpired && check_found(token, secret, JwtCheck::Expired)
                    ||| e is TokenInvalid && !checkable(jwt_claims(token, secret)->Some_0)
                        && check_found(token, secret, JwtCheck::Rejected)
                    ||| e is Forbidden && !passes(guard, claims) && check_found(
                        token,
                        secret,
                        JwtCheck::Valid,
                    )
                },
            },
        },
    }
}

/// The token that follows the bearer scheme.
pub fn strip_bearer(text: &str) -> (r: Option<&str>)
    ensures
        match r {
            Some(token) => after_bearer(text@) == Some(token@),
            None => after_bearer(text@) is None,
        },
{
    proof {
        reveal_strlit("Bearer ");
    }
    let len: usize = text.unicode_len();
    if len >= 7 {
        let scheme = text.substring_char(0, 7);
        assert(scheme@ == text@.take(7));
        if same(scheme, "Bearer ") {
            let token = text.substring_char(7, len);
            assert(token@ == text@.skip(7));
            return Some(token);
        }
    }
    None
}

/// Extract a raw Bearer token from the `Authorization` header, if present.
pub fn extract_bearer(headers: &Headers) -> (r: Option<&str>)
    ensures
        match r {
            Some(token) => bearer_in(header_fields(*headers)) == Some(token@),
            None => bearer_in(header_fields(*headers)) is None,
        },
{
    match authorization_field(headers) {
        Some(value) => match header_text(value) {
            Some(text) => strip_bearer(text),
            None => None,
        },
        None => None,
    }
}

/// Return `Err(AppError::Forbidden)` if the claims do not meet the minimum role.
pub fn require_role(claims: &Claims, minimum: Role) -> (r: AppResult<()>)
    ensures
        match r {
            Ok(_) => passes(Guard::AtLeast(minimum), claims@),
            Err(e) => !passes(Guard::AtLeast(minimum), claims@) && e is Forbidden,
        },
{
    if claims.role.is_at_least(minimum) {
        Ok(())
    } else {
        Err(AppError::Forbidden)
    }
}

/// Return `Err(AppError::Forbidden)` if the token was not issued via the
/// expected authentication method.
pub fn require_auth_method(claims: &Claims, expected: AuthMethod) -> (r: AppResult<()>)
    ensures
        match r {
            Ok(_) => passes(Guard::IssuedBy(expected), claims@),
            Err(e) => !passes(Guard::IssuedBy(expected), claims@) && e is Forbidden,
        },
{
    if claims.auth_method == expected {
        Ok(())
    } else {
        Err(AppError::Forbidden)
    }
}

impl AuthUser {
    /// The caller of a request.
    ///
    /// # Errors
    ///
    /// Returns [`AppError::MissingAuthHeader`] without a bearer token, and what
    /// the validation of the token returns.
    pub fn from_request_parts(headers: &Headers, state: &AppState) -> (r: AppResult<Self>)
        ensures
            admits(
                state.token.config.jwt_secret@,
                header_fields(*headers),
                Guard::Open,
                match r {
                    Ok(user) => Ok(user.0),
                    Err(e) => Err(e),
                },
            ),
    {
        let token = match extract_bearer(headers) {
            Some(token) => token,
            None => return Err(AppError::MissingAuthHeader),
        };
        match state.token.validate_access_token(token) {
            Ok(claims) => Ok(AuthUser(claims)),
            Err(e) => Err(e),
        }
    }
}

impl RequireUser {
    /// The caller of a request, if at least a user.
    ///
    /// # Errors
    ///
    /// Fails as [`AuthUser::from_request_parts`] does, and with
    /// [`AppError::Forbidden`] if the role is too low.
    pub fn from_request_parts(headers: &Headers, state: &AppState) -> (r: AppResult<Self>)
        ensures
            admits(
                state.token.config.jwt_secret@,
                header_fields(*headers),
                Guard::AtLeast(Role::User),
                match r {
                    Ok(user) => Ok(user.0),
                    Err(e) => Err(e),
                },
            ),
    {
        Self::from_caller(AuthUser::from_request_parts(headers, state))
    }

    /// The caller that was made out, if the guard lets them through.
    ///
    /// # Errors
    ///
    /// Fails as the caller does, and with [`AppError::Forbidden`] if the guard keeps
    /// the caller out.
    pub fn from_caller(caller: AppResult<AuthUser>) -> (r: AppResult<Self>)
        ensures
            match caller {
                Ok(user) => if passes(Guard::AtLeast(Role::User), user.0@) {
                    r matches Ok(through) && through.0 == user.0
                } else {
                    r matches Err(e) && e is Forbidden
                },
                Err(e) => r == Err::<Self, AppError>(e),
            },
    {
        let claims = match caller {
            Ok(AuthUser(claims)) => claims,
            Err(e) => return Err(e),
        };
        match require_role(&claims, Role::User) {
            Ok(_) => Ok(RequireUser(claims)),
            Err(e) => Err(e),
        }
    }
}

impl RequireAdmin {
    /// The caller of a request, if an admin.
    ///
    /// # Errors
    ///
    /// Fails as [`AuthUser::from_request_parts`] does, and with
    /// [`AppError::Forbidden`] if the role is too low.
    pub fn from_request_parts(headers: &Headers, state: &AppState) -> (r: AppResult<Self>)
        ensures
            admits(
                state.token.config.jwt_secret@,
                header_fields(*headers),
                Guard::AtLeast(Role::Admin),
                match r {
                    Ok(user) => Ok(user.0),
                    Err(e) => Err(e),
                },
            ),
    {
        Self::from_caller(AuthUser::from_request_parts(headers, state))
    }

    /// The caller that was made out, if the guard lets them through.
    ///
    /// # Errors
    ///
    /// Fails as the caller does, and with [`AppError::Forbidden`] if the guard keeps
    /// the caller out.
    pub fn from_caller(caller: AppResult<AuthUser>) -> (r: AppResult<Self>)
        ensures
            match caller {
                Ok(user) => if passes(Guard::AtLeast(Role::Admin), user.0@) {
                    r matches Ok(through) && through.0 == user.0
                } else {
                    r matches Err(e) && e is Forbidden
                },
                Err(e) => r == Err::<Self, AppError>(e),
            },
    {
        let claims = match caller {
            Ok(AuthUser(claims)) => claims,
            Err(e) => return Err(e),
        };
        match require_role(&claims, Role::Admin) {
            Ok(_) => Ok(RequireAdmin(claims)),
            Err(e) => Err(e),
        }
    }
}

impl RequireOAuthSession {
    /// The caller of a request, if the session was opened via a provider.
    ///
    /// # Errors
    ///
    /// Fails as [`AuthUser::from_request_parts`] does, and with
    /// [`AppError::Forbidden`] if the token was issued via password login.
    pub fn from_request_parts(headers: &Headers, state: &AppState) -> (r: AppResult<Self>)
        ensures
            admits(
                state.token.config.jwt_secret@,
                header_fields(*headers),
                Guard::IssuedBy(AuthMethod::OAuth),
                match r {
                    Ok(user) => Ok(user.0),
                    Err(e) => Err(e),
                },
            ),
    {
        Self::from_caller(AuthUser::from_request_parts(headers, state))
    }

    /// The caller that was made out, if the guard lets them through.
    ///
    /// # Errors
    ///
    /// Fails as the caller does, and with [`AppError::Forbidden`] if the guard keeps
    /// the caller out.
    pub fn from_caller(caller: AppResult<AuthUser>) -> (r: AppResult<Self>)
        ensures
            match caller {
                Ok(user) => if passes(Guard::IssuedBy(AuthMethod::OAuth), user.0@) {
                    r matches Ok(through) && through.0 == user.0
                } else {
                    r matches Err(e) && e is Forbidden
                },
                Err(e) => r == Err::<Self, AppError>(e),
            },
    {
        let claims = match caller {
            Ok(AuthUser(claims)) => claims,
            Err(e) => return Err(e),
        };
        match require_auth_method(&claims, AuthMethod::OAuth) {
            Ok(_) => Ok(RequireOAuthSession(claims)),
            Err(e) => Err(e),
        }
    }
}

/// A token that was issued leads past the guards that its claims pass, as long as
/// it has not expired: a request that bears it is let through with the claims that
/// it was issued for, and is forbidden only what they do not reach.
pub proof fn law_issued_token_passes_its_guards(
    token: Seq<char>,
    secret: Seq<char>,
    claims: ClaimsModel,
    fields: Map<Seq<char>, Seq<u8>>,
    guard: Guard,
    r: AppResult<Claims>,
)
    requires
        signs(token, secret, claims),
        fields.contains_key("authorization"@),
        visible(fields["authorization"@]),
        ascii_text(fields["authorization"@]) == "Bearer "@ + token,
        admits(secret, fields, guard, r),
    ensures
        match r {
            Ok(got) => got@ == claims && passes(guard, claims),
            Err(e) => e is TokenExpired || (e is Forbidden && !passes(guard, claims)),
        },
{
    reveal_strlit("Bearer ");
    let text = "Bearer "@ + token;
    assert(text.take(7) =~= "Bearer "@);
    assert(text.skip(7) =~= token);
    law_signed_claims_are_checkable(token, secret, claims);
}

/// A guard goes by the clock. Whatever a well-signed token claims that needs no
/// further check, who bears it is let through, or forbidden, only while its expiry
/// does not lie before the second that the clock gave, and is told that it has
/// expired only where it does.
pub proof fn law_guards_go_by_the_clock(
    token: Seq<char>,
    secret: Seq<char>,
    claims: ClaimsModel,
    fields: Map<Seq<char>, Seq<u8>>,
    guard: Guard,
    r: AppResult<Claims>,
)
    requires
        bearer_in(fields) == Some(token),
        claims_of(token, secret) == Some(claims),
        checkable(jwt_claims(token, secret)->Some_0),
        admits(secret, fields, guard, r),
    ensures
        exists|now: i128|
            {
                &&& #[trigger] clock_gave(now)
                &&& now >= 0
                &&& match r {
                    Ok(got) => got@ == claims && now as int / 1_000_000_000 <= claims.exp,
                    Err(AppError::Forbidden) => {
                        !passes(guard, claims) && now as int / 1_000_000_000 <= claims.exp
                    },
                    Err(e) => e is TokenExpired && claims.exp < now as int / 1_000_000_000,
                }
            },
{
    let found = match r {
        Err(AppError::TokenExpired) => JwtCheck::Expired,
        _ => JwtCheck::Valid,
    };
    assert(check_found(token, secret, found));
    let (t, s) = choose|t: &str, s: &str|
        t@ == token && s@ == secret && #[trigger] call_ensures(jwt_check, (t, s), found);
    assert(told_by_clock(claims.exp, found));
}

/// A caller who is not let through is answered with `401`, or with `403` where
/// only the guard keeps out who is known.
pub proof fn law_refused_callers_are_answered(
    secret: Seq<char>,
    fields: Map<Seq<char>, Seq<u8>>,
    guard: Guard,
    e: AppError,
)
    requires
        admits(secret, fields, guard, Err(e)),
    ensures
        e.status() == 401 || e.status() == 403,
        guard is Open ==> e.status() == 401,
        e.status() == 403 ==> e is Forbidden && (bearer_in(fields) matches Some(token) && (
        claims_of(token, secret) matches Some(claims) && !passes(guard, claims))),
{
}

/// A guard that asks for more lets through no one whom one that asks for less
/// keeps out.
pub proof fn law_higher_guard_implies_lower(claims: ClaimsModel, higher: Role, lower: Role)
    requires
        higher.rank() >= lower.rank(),
        passes(Guard::AtLeast(higher), claims),
    ensures
        passes(Guard::AtLeast(lower), claims),
{
}

} // verus!
