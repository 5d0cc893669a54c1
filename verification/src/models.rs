//! Domain types: users, their credentials, and what the API takes and returns.
use crate::config::OAuthProvider;
use crate::outside::clock::{rfc3339, rfc3339_text};
use crate::text::same;
use vstd::prelude::*;
use vstd::std_specs::convert::FromSpecImpl;

verus! {

/// A UUID, by its 128-bit value.
pub type Uuid = u128;

/// An instant, seen at an offset from UTC.
#[derive(Debug, Clone, Copy, PartialEq, Eq, Structural)]
pub struct Timestamp {
    /// Nanoseconds from the Unix epoch.
    pub unix_nanos: i128,
    /// Offset from UTC in seconds.
    pub offset_secs: i32,
}

/// Access tier assigned to every user.
///
/// | Role    | Intended for                                          |
/// |---------|-------------------------------------------------------|
/// | `guest` | Provisional accounts or pre-verification users        |
/// | `user`  | Fully registered members (default on registration)    |
/// | `admin` | Operators with elevated privileges                    |
#[derive(Debug, Clone, Copy, PartialEq, Eq, Structural)]
pub enum Role {
    Guest,
    User,
    Admin,
}

/// How the session was established.
///
/// | Variant    | Issued by                                      |
/// |------------|------------------------------------------------|
/// | `password` | `POST /auth/login` (email + password)          |
/// | `oauth`    | `GET /auth/{provider}/callback` (OAuth 2.0)    |
#[derive(Debug, Clone, Copy, PartialEq, Eq, Structural)]
pub enum AuthMethod {
    Password,
    OAuth,
}

/// Claims embedded in every access token.
#[derive(Debug, Clone)]
pub struct Claims {
    /// Subject (the user's UUID).
    pub sub: Uuid,
    /// Issued-at (Unix timestamp seconds).
    pub iat: u64,
    /// Expiration (Unix timestamp seconds).
    pub exp: u64,
    pub email: String,
    pub display_name: String,
    /// Role at the time the token was issued.
    pub role: Role,
    /// Authentication method used to issue this token.
    pub auth_method: AuthMethod,
}

/// What claims say.
#[verifier::ext_equal]
pub struct ClaimsModel {
    pub sub: Uuid,
    pub iat: u64,
    pub exp: u64,
    pub email: Seq<char>,
    pub display_name: Seq<char>,
    pub role: Role,
    pub auth_method: AuthMethod,
}

impl View for Claims {
    type V = ClaimsModel;

    open spec fn view(&self) -> ClaimsModel {
        ClaimsModel {
            sub: self.sub,
            iat: self.iat,
            exp: self.exp,
            email: self.email@,
            display_name: self.display_name@,
            role: self.role,
            auth_method: self.auth_method,
        }
    }
}

/// The authentication method of claims that name none.
pub fn default_auth_method() -> (r: AuthMethod)
    ensures
        r == AuthMethod::Password,
{
    AuthMethod::Password
}

impl Role {
    /// The rank of a role.
    pub open spec fn rank(self) -> u8 {
        match self {
            Role::Guest => 0,
            Role::User => 1,
            Role::Admin => 2,
        }
    }

    /// The name of a role in tokens and API responses.
    pub open spec fn name(self) -> Seq<char> {
        match self {
            Role::Guest => "guest"@,
            Role::User => "user"@,
            Role::Admin => "admin"@,
        }
    }

    /// The role that a text names, if any.
    pub open spec fn named(text: Seq<char>) -> Option<Role> {
        if text == "guest"@ {
            Some(Role::Guest)
        } else if text == "user"@ {
            Some(Role::User)
        } else if text == "admin"@ {
            Some(Role::Admin)
        } else {
            None
        }
    }

    /// Returns `true` if this role is at least as privileged as `required`.
    ///
    /// Hierarchy (ascending): `Guest < User < Admin`.
    #[must_use]
    pub fn is_at_least(self, required: Role) -> (r: bool)
        ensures
            r == (self.rank() >= required.rank()),
    {
        self.level() >= required.level()
    }

    /// The rank of the role.
    pub fn level(self) -> (r: u8)
        ensures
            r == self.rank(),
    {
        match self {
            Role::Guest => 0,
            Role::User => 1,
            Role::Admin => 2,
        }
    }

    /// The name of the role.
    pub fn as_str(self) -> (r: &'static str)
        ensures
            r@ == self.name(),
    {
        match self {
            Role::Guest => "guest",
            Role::User => "user",
            Role::Admin => "admin",
        }
    }

    /// The role of that name.
    pub fn from_name(text: &str) -> (r: Option<Self>)
        ensures
            r == Self::named(text@),
    {
        if same(text, "guest") {
            Some(Role::Guest)
        } else if same(text, "user") {
            Some(Role::User)
        } else if same(text, "admin") {
            Some(Role::Admin)
        } else {
            None
        }
    }
}

impl AuthMethod {
    /// The name of a method in tokens.
    pub open spec fn name(self) -> Seq<char> {
        match self {
            AuthMethod::Password => "password"@,
            AuthMethod::OAuth => "oauth"@,
        }
    }

    /// The method that a text names, if any.
    pub open spec fn named(text: Seq<char>) -> Option<AuthMethod> {
        if text == "password"@ {
            Some(AuthMethod::Password)
        } else if text == "oauth"@ {
            Some(AuthMethod::OAuth)
        } else {
            None
        }
    }

    /// The name of the method.
    pub fn as_str(self) -> (r: &'static str)
        ensures
            r@ == self.name(),
    {
        match self {
            AuthMethod::Password => "password",
            AuthMethod::OAuth => "oauth",
        }
    }

    /// The method of that name.
    pub fn from_name(text: &str) -> (r: Option<Self>)
        ensures
            r == Self::named(text@),
    {
        if same(text, "password") {
            Some(AuthMethod::Password)
        } else if same(text, "oauth") {
            Some(AuthMethod::OAuth)
        } else {
            None
        }
    }
}

/// The roles are ranked: of any two one is at least as privileged as the other,
/// both only where they are the same role, and privilege carries over.
pub proof fn law_roles_are_ranked(a: Role, b: Role, c: Role)
    ensures
        a.rank() >= b.rank() || b.rank() >= a.rank(),
        a.rank() >= b.rank() && b.rank() >= a.rank() ==> a == b,
        a.rank() >= b.rank() && b.rank() >= c.rank() ==> a.rank() >= c.rank(),
        Role::Guest.rank() < Role::User.rank() < Role::Admin.rank(),
{
}

/// A role's name reads back as the role.
pub proof fn law_role_name_reads_back(role: Role)
    ensures
        Role::named(role.name()) == Some(role),
{
    reveal_strlit("guest");
    reveal_strlit("user");
    reveal_strlit("admin");
    assert("guest"@[0] == 'g');
    assert("admin"@[0] == 'a');
}

/// An authentication method's name reads back as the method.
pub proof fn law_method_name_reads_back(method: AuthMethod)
    ensures
        AuthMethod::named(method.name()) == Some(method),
{
    reveal_strlit("password");
    reveal_strlit("oauth");
    assert("password"@.len() == 8);
    assert("oauth"@.len() == 5);
}

/// OAuth provider identifier, as the database stores it.
#[derive(Debug, Clone, Copy, PartialEq, Eq, Structural)]
pub enum Provider {
    Google,
    GitHub,
}

impl From<OAuthProvider> for Provider {
    fn from(p: OAuthProvider) -> (r: Self) {
        match p {
            OAuthProvider::Google => Provider::Google,
            OAuthProvider::GitHub => Provider::GitHub,
        }
    }
}

impl FromSpecImpl<OAuthProvider> for Provider {
    open spec fn obeys_from_spec() -> bool {
        true
    }

    open spec fn from_spec(p: OAuthProvider) -> Provider {
        stored_provider(p)
    }
}

/// The identifier that stands for a provider in the database.
pub open spec fn stored_provider(p: OAuthProvider) -> Provider {
    match p {
        OAuthProvider::Google => Provider::Google,
        OAuthProvider::GitHub => Provider::GitHub,
    }
}

/// Canonical user row — pure identity, no credential data.
///
/// A user may have a [`LocalCredential`] and any number of [`OAuthCredential`]s; at
/// least one credential exists.
#[derive(Debug, Clone)]
pub struct User {
    pub id: Uuid,
    /// Primary contact address; unique across the table.
    pub email: String,
    /// Human-readable display name shown in the UI.
    pub display_name: String,
    pub role: Role,
    pub is_active: bool,
    pub created_at: Timestamp,
    pub updated_at: Timestamp,
}

/// Password credential for a locally-registered account.
///
/// An OAuth-only user has no such row.
#[derive(Debug, Clone)]
pub struct LocalCredential {
    pub user_id: Uuid,
    /// Login handle chosen at registration; unique across the table.
    pub username: String,
    /// Argon2id hash of the user's password.
    pub password_hash: String,
    pub created_at: Timestamp,
    pub updated_at: Timestamp,
}

/// OAuth 2.0 token set for a linked external provider.
#[derive(Debug, Clone)]
pub struct OAuthCredential {
    pub id: Uuid,
    pub user_id: Uuid,
    pub provider: Provider,
    /// Stable identifier issued by the provider (e.g. Google `sub`, GitHub `id`).
    pub provider_user_id: String,
    /// AES-GCM–encrypted access token, base64-encoded.
    pub access_token_enc: Option<String>,
    /// AES-GCM–encrypted refresh token, base64-encoded.
    pub refresh_token_enc: Option<String>,
    /// UTC instant at which `access_token_enc` expires.
    pub expires_at: Option<Timestamp>,
    pub created_at: Timestamp,
    pub updated_at: Timestamp,
}

/// Payload for `POST /auth/register`.
#[derive(Debug)]
pub struct RegisterRequest {
    /// Valid e-mail address; must be unique.
    pub email: String,
    /// Login handle; must be unique (3–32 chars).
    pub username: String,
    /// Plain-text password (min 8 chars). Stored only as an Argon2 hash.
    pub password: String,
}

/// Payload for `POST /auth/login`.
#[derive(Debug)]
pub struct LoginRequest {
    /// Registered e-mail address.
    pub email: String,
    /// Plain-text password.
    pub password: String,
}

/// Payload for `POST /auth/refresh`.
#[derive(Debug)]
pub struct RefreshRequest {
    /// Opaque refresh token previously issued by `/auth/login`.
    pub refresh_token: String,
}

/// Payload for `PUT /users/me/password`.
#[derive(Debug)]
pub struct ChangePasswordRequest {
    /// Current password for confirmation.
    pub current_password: String,
    /// New password (min 8 chars).
    pub new_password: String,
}

/// Payload for `PUT /admin/users/{id}/role`.
#[derive(Debug)]
pub struct UpdateRoleRequest {
    pub role: Role,
}

/// Returned by `/auth/register` and `/auth/login`.
#[derive(Debug)]
pub struct AuthResponse {
    /// Short-lived JWT Bearer token.
    pub access_token: String,
    /// Opaque token used to obtain a new access token.
    pub refresh_token: String,
    /// Seconds until the access token expires.
    pub expires_in: u64,
    /// Public user information.
    pub user: UserResponse,
}

/// Returned by `GET /users/me` and admin user endpoints.
#[derive(Debug)]
pub struct UserResponse {
    pub id: Uuid,
    pub email: String,
    pub display_name: String,
    /// `Some(username)` for locally-registered accounts; `None` for
    /// OAuth-only accounts that have never set a username.
    pub username: Option<String>,
    pub role: Role,
    /// Whether a local (password-based) credential exists for this user.
    pub has_local_credential: bool,
    pub created_at: String,
    pub updated_at: String,
}

/// View model combining a [`User`] with its optional [`LocalCredential`].
pub struct UserView {
    pub user: User,
    /// `None` for OAuth-only accounts.
    pub local_credential: Option<LocalCredential>,
}

/// The text that an instant is shown as: its RFC 3339 form, or nothing where it
/// has none.
pub open spec fn shown_instant(t: Timestamp) -> Seq<char> {
    match rfc3339_text(t.unix_nanos, t.offset_secs) {
        Some(text) => text,
        None => Seq::empty(),
    }
}

/// `r` is the public form of a user with that credential.
pub open spec fn shows_user(r: UserResponse, user: User, credential: Option<LocalCredential>) -> bool {
    &&& r.id == user.id
    &&& r.email == user.email
    &&& r.display_name == user.display_name
    &&& r.role == user.role
    &&& r.has_local_credential == credential is Some
    &&& match credential {
        Some(c) => r.username == Some(c.username),
        None => r.username is None,
    }
    &&& r.created_at@ == shown_instant(user.created_at)
    &&& r.updated_at@ == shown_instant(user.updated_at)
}

/// The text that an instant is shown as.
fn show_instant(t: Timestamp) -> (r: String)
    ensures
        r@ == shown_instant(t),
        0 <= t.unix_nanos <= crate::outside::clock::LAST_INSTANT && t.offset_secs == 0
            ==> rfc3339_text(t.unix_nanos, t.offset_secs) == Some(r@),
{
    match rfc3339(t.unix_nanos, t.offset_secs) {
        Some(text) => text,
        None => String::new(),
    }
}

impl From<UserView> for UserResponse {
    fn from(v: UserView) -> (r: Self)
        ensures
            shows_user(r, v.user, v.local_credential),
    {
        let user = v.user;
        let has_local_credential = v.local_credential.is_some();
        let username = match v.local_credential {
            Some(credential) => Some(credential.username),
            None => None,
        };
        UserResponse {
            id: user.id,
            email: user.email,
            display_name: user.display_name,
            username,
            role: user.role,
            has_local_credential,
            created_at: show_instant(user.created_at),
            updated_at: show_instant(user.updated_at),
        }
    }
}

impl FromSpecImpl<UserView> for UserResponse {
    open spec fn obeys_from_spec() -> bool {
        false
    }

    open spec fn from_spec(v: UserView) -> UserResponse {
        arbitrary()
    }
}

/// A user is shown with a username exactly if a local credential exists.
pub proof fn law_username_tells_the_credential(
    r: UserResponse,
    user: User,
    credential: Option<LocalCredential>,
)
    requires
        shows_user(r, user, credential),
    ensures
        r.has_local_credential <==> r.username is Some,
        r.has_local_credential <==> credential is Some,
{
}

/// Generic success acknowledgement.
#[derive(Debug)]
pub struct MessageResponse {
    pub message: String,
}

impl MessageResponse {
    /// An acknowledgement with that text.
    pub fn new(message: &str) -> (r: Self)
        ensures
            r.message@ == message@,
    {
        MessageResponse { message: message.to_owned() }
    }
}

} // verus!
