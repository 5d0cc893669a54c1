//! User-facing endpoints.
use crate::middleware::RequireUser;
use crate::models::ChangePasswordRequest;
use crate::outside::headers::Headers;
use crate::services::flow::{refuse, Step};
use crate::state::AppState;
use vstd::prelude::*;

verus! {

use crate::errors::AppResult;
use crate::middleware::{admits, Guard};
use crate::models::{Claims, Role, Uuid};
use crate::outside::headers::header_fields;
use crate::services::flow::{refused, Flow};
use crate::services::store::StoreRequest;
use crate::services::user::{changes_password, deactivates};

/// The status of a request that succeeded.
pub const OK: u16 = 200;

/// The operation begins for a caller who passes the guard, and for no one else:
/// others are answered with what the guard says.
pub open spec fn guarded(
    state: AppState,
    headers: Headers,
    guard: Guard,
    begins: spec_fn(Uuid) -> bool,
    step: Step,
) -> bool {
    exists|caller: AppResult<Claims>|
        {
            &&& #[trigger] admits(
                state.token.config.jwt_secret@,
                header_fields(headers),
                guard,
                caller,
            )
            &&& match caller {
                Ok(claims) => begins(claims.sub),
                Err(e) => refused(step, e),
            }
        }
}

/// Return the profile of the currently authenticated user.
///
/// # Errors
///
/// Ends in an error if the caller is not let through or the user no longer
/// exists.
pub fn get_me(state: &AppState, headers: &Headers) -> (r: Step)
    ensures
        guarded(
            *state,
            *headers,
            Guard::AtLeast(Role::User),
            |id: Uuid|
                r == (Step::Ask {
                    request: StoreRequest::FindUserById { id },
                    then: Flow::FindingProfile,
                }),
            r,
        ),
{
    match RequireUser::from_request_parts(headers, state) {
        Ok(RequireUser(claims)) => state.user.profile(claims.sub),
        Err(e) => refuse(e),
    }
}

/// Change the authenticated user's password; all tokens of the user are revoked
/// then.
///
/// # Errors
///
/// Ends in an error if the caller is not let through or the current password is
/// incorrect.
pub fn change_password(state: &AppState, headers: &Headers, req: ChangePasswordRequest) -> (r: Step)
    ensures
        guarded(
            *state,
            *headers,
            Guard::AtLeast(Role::User),
            |id: Uuid|
                changes_password(
                    id,
                    req.current_password@,
                    req.new_password@,
                    Some("Password updated successfully"@),
                    r,
                ),
            r,
        ),
{
    match RequireUser::from_request_parts(headers, state) {
        Ok(RequireUser(claims)) => state.user.change_password_then(
            claims.sub,
            req.current_password.as_str(),
            req.new_password.as_str(),
            Some("Password updated successfully"),
        ),
        Err(e) => refuse(e),
    }
}

/// Deactivate (soft-delete) the authenticated user's account; all tokens of the
/// user are revoked then.
///
/// # Errors
///
/// Ends in an error if the caller is not let through.
pub fn deactivate_account(state: &AppState, headers: &Headers) -> (r: Step)
    ensures
        guarded(
            *state,
            *headers,
            Guard::AtLeast(Role::User),
            |id: Uuid| deactivates(id, Some("Account deactivated"@), r),
            r,
        ),
{
    match RequireUser::from_request_parts(headers, state) {
        Ok(RequireUser(claims)) => state.user.deactivate_then(
            claims.sub,
            Some("Account deactivated"),
        ),
        Err(e) => refuse(e),
    }
}

} // verus!
