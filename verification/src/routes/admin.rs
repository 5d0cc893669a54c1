//! Admin-only endpoints.
use crate::middleware::RequireAdmin;
use crate::models::{UpdateRoleRequest, Uuid};
use crate::outside::headers::Headers;
use crate::services::flow::{refuse, Step};
use crate::state::AppState;
use vstd::prelude::*;

verus! {

use crate::middleware::Guard;
use crate::models::Role;
use crate::routes::users::guarded;
use crate::services::flow::Flow;
use crate::services::store::StoreRequest;

/// Assign a new role to a user.
///
/// # Errors
///
/// Ends in an error if the caller is no admin or the user does not exist.
pub fn update_user_role(
    state: &AppState,
    headers: &Headers,
    user_id: Uuid,
    req: UpdateRoleRequest,
) -> (r: Step)
    ensures
        guarded(
            *state,
            *headers,
            Guard::AtLeast(Role::Admin),
            |id: Uuid|
                r == (Step::Ask {
                    request: StoreRequest::SetRole { user_id, role: req.role },
                    then: Flow::AssigningShownRole,
                }),
            r,
        ),
{
    match RequireAdmin::from_request_parts(headers, state) {
        Ok(RequireAdmin(_)) => state.user.update_role_shown(user_id, req.role),
        Err(e) => refuse(e),
    }
}

} // verus!
