//! What every request handler shares.
use crate::config::Config;
use crate::services::auth::AuthService;
use crate::services::oauth::StateStore;
use crate::services::token::TokenService;
use crate::services::user::UserService;
use std::sync::Arc;
use vstd::prelude::*;

verus! {

/// Shared application state cloned into every request handler.
#[derive(Debug, Clone)]
pub struct AppState {
    pub auth: AuthService,
    pub user: UserService,
    pub token: TokenService,
    /// Application configuration, used by OAuth routes to look up provider
    /// credentials without a separate service layer.
    pub config: Config,
    /// Short-lived PKCE/CSRF state store for the OAuth 2.0 flow.
    pub oauth_store: Arc<StateStore>,
}

impl AppState {
    #[must_use]
    pub fn new(
        auth: AuthService,
        user: UserService,
        token: TokenService,
        config: Config,
        oauth_store: Arc<StateStore>,
    ) -> (r: Self)
        ensures
            r.auth == auth,
            r.user == user,
            r.token == token,
            r.config == config,
            r.oauth_store == oauth_store,
    {
        AppState { auth, user, token, config, oauth_store }
    }
}

} // verus!
