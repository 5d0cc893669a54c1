use yaima::config::OAuthProvider;
use yaima::models::{
    default_auth_method, AuthMethod, LocalCredential, MessageResponse, Provider, Role, Timestamp,
    User, UserResponse, UserView,
};

fn at(unix_nanos: i128) -> Timestamp {
    Timestamp { unix_nanos, offset_secs: 0 }
}

fn user() -> User {
    User {
        id: 7,
        email: "ada@example.com".to_owned(),
        display_name: "ada".to_owned(),
        role: Role::User,
        is_active: true,
        created_at: at(0),
        updated_at: at(1_700_000_000_000_000_000),
    }
}

fn credential() -> LocalCredential {
    LocalCredential {
        user_id: 7,
        username: "ada_l".to_owned(),
        password_hash: "hash".to_owned(),
        created_at: at(0),
        updated_at: at(0),
    }
}

#[test]
fn role_should_reach_itself_and_below_when_compared() {
    let roles = [Role::Guest, Role::User, Role::Admin];
    for (i, held) in roles.iter().enumerate() {
        for (j, required) in roles.iter().enumerate() {
            assert_eq!(held.is_at_least(*required), i >= j);
        }
    }
}

#[test]
fn role_should_have_rank_when_asked() {
    assert_eq!(Role::Guest.level(), 0);
    assert_eq!(Role::User.level(), 1);
    assert_eq!(Role::Admin.level(), 2);
}

#[test]
fn role_should_read_back_when_named() {
    for role in [Role::Guest, Role::User, Role::Admin] {
        assert_eq!(Role::from_name(role.as_str()), Some(role));
    }
    assert_eq!(Role::Admin.as_str(), "admin");
    assert_eq!(Role::from_name("Admin"), None);
    assert_eq!(Role::from_name(""), None);
}

#[test]
fn auth_method_should_read_back_when_named() {
    for method in [AuthMethod::Password, AuthMethod::OAuth] {
        assert_eq!(AuthMethod::from_name(method.as_str()), Some(method));
    }
    assert_eq!(AuthMethod::OAuth.as_str(), "oauth");
    assert_eq!(AuthMethod::from_name("magic"), None);
    assert_eq!(default_auth_method(), AuthMethod::Password);
}

#[test]
fn provider_should_stand_for_oauth_provider_when_stored() {
    assert_eq!(Provider::from(OAuthProvider::Google), Provider::Google);
    assert_eq!(Provider::from(OAuthProvider::GitHub), Provider::GitHub);
}

#[test]
fn user_response_should_show_username_when_credential_exists() {
    let shown = UserResponse::from(UserView { user: user(), local_credential: Some(credential()) });
    assert_eq!(shown.id, 7);
    assert_eq!(shown.email, "ada@example.com");
    assert_eq!(shown.display_name, "ada");
    assert_eq!(shown.username, Some("ada_l".to_owned()));
    assert_eq!(shown.role, Role::User);
    assert!(shown.has_local_credential);
    assert_eq!(shown.created_at, "1970-01-01T00:00:00Z");
    assert_eq!(shown.updated_at, "2023-11-14T22:13:20Z");
}

#[test]
fn user_response_should_have_no_username_when_account_is_oauth_only() {
    let shown = UserResponse::from(UserView { user: user(), local_credential: None });
    assert_eq!(shown.username, None);
    assert!(!shown.has_local_credential);
}

#[test]
fn user_response_should_keep_offset_when_instant_has_one() {
    let mut seen = user();
    seen.created_at = Timestamp { unix_nanos: 0, offset_secs: 7200 };
    let shown = UserResponse::from(UserView { user: seen, local_credential: None });
    assert_eq!(shown.created_at, "1970-01-01T02:00:00+02:00");
}

#[test]
fn user_response_should_show_nothing_when_instant_has_no_form() {
    let mut seen = user();
    seen.created_at = at(i128::MAX);
    let shown = UserResponse::from(UserView { user: seen, local_credential: None });
    assert_eq!(shown.created_at, "");
}

#[test]
fn message_response_should_hold_text_when_made() {
    assert_eq!(MessageResponse::new("Logged out").message, "Logged out");
}
