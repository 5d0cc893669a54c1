use yaima::config::{OAuthProvider, OAuthProviderConfig};
use yaima::errors::OAuthError;
use yaima::services::oauth::{
    authorization_request, build_authorization_url, exchange_code, fetch_github_primary_email,
    fetch_github_profile, fetch_google_profile, fetch_user_profile, provider_endpoints,
    provider_scopes, GitHubEmail, GitHubUserInfo, GoogleUserInfo, ProfileEndpoint, StateStore,
};

const VERIFIER: &str = "dBjftJeZ4CVP-mB92K27uhbUJU1p1r_wW1gFWFOEjXk";

fn credentials(redirect_uri: &str) -> OAuthProviderConfig {
    OAuthProviderConfig {
        client_id: "id".to_owned(),
        client_secret: "secret".to_owned(),
        redirect_uri: redirect_uri.to_owned(),
    }
}

fn some(text: &str) -> Option<String> {
    Some(text.to_owned())
}

#[test]
fn entry_should_hold_authorization_when_inserted() {
    let entry = StateStore::new().insert("abc", OAuthProvider::GitHub, VERIFIER);
    assert_eq!(entry.key, "oauth_state:abc");
    assert_eq!(entry.ttl_secs, 600);
    let stored: serde_json::Value = serde_json::from_str(&entry.payload).unwrap();
    assert_eq!(stored["provider"], "github");
    assert_eq!(stored["verifier_secret"], VERIFIER);
}

#[test]
fn verifier_should_come_back_when_state_is_taken() {
    let store = StateStore::new();
    let entry = store.insert("abc", OAuthProvider::Google, "a \"quoted\" verifier");
    let taken = store.take(Some(entry.payload), OAuthProvider::Google);
    assert_eq!(taken.unwrap(), "a \"quoted\" verifier");
}

#[test]
fn state_should_mismatch_when_provider_is_another() {
    let store = StateStore::new();
    let entry = store.insert("abc", OAuthProvider::Google, VERIFIER);
    assert!(matches!(
        store.take(Some(entry.payload), OAuthProvider::GitHub),
        Err(OAuthError::ProviderMismatch {
            expected: OAuthProvider::GitHub,
            actual: OAuthProvider::Google,
        })
    ));
}

#[test]
fn state_should_be_invalid_when_entry_is_absent_or_unreadable() {
    let store = StateStore::new();
    for raw in [
        None,
        some(""),
        some("[]"),
        some("{}"),
        some("{\"verifier_secret\":\"v\"}"),
        some("{\"verifier_secret\":\"v\",\"provider\":\"gitlab\"}"),
        some("{\"verifier_secret\":1,\"provider\":\"google\"}"),
    ] {
        assert!(matches!(
            store.take(raw, OAuthProvider::Google),
            Err(OAuthError::InvalidState)
        ));
    }
    let read = store.take(
        some(" {\"provider\":\"google\", \"verifier_secret\":\"v\", \"more\":null}"),
        OAuthProvider::Google,
    );
    assert_eq!(read.unwrap(), "v");
}

#[test]
fn keys_should_differ_when_states_do() {
    let store = StateStore::new();
    assert_ne!(store.key("a"), store.key("b"));
    assert_eq!(store.key(""), "oauth_state:");
}

#[test]
fn endpoints_should_be_the_providers_when_asked() {
    assert_eq!(
        provider_endpoints(OAuthProvider::Google),
        ("https://accounts.google.com/o/oauth2/v2/auth", "https://oauth2.googleapis.com/token")
    );
    assert_eq!(
        provider_endpoints(OAuthProvider::GitHub),
        (
            "https://github.com/login/oauth/authorize",
            "https://github.com/login/oauth/access_token"
        )
    );
    assert_eq!(provider_scopes(OAuthProvider::Google), vec!["openid", "email", "profile"]);
    assert_eq!(provider_scopes(OAuthProvider::GitHub), vec!["read:user", "user:email"]);
    assert_eq!(fetch_user_profile(OAuthProvider::Google), ProfileEndpoint::GoogleUser);
    assert_eq!(fetch_user_profile(OAuthProvider::GitHub), ProfileEndpoint::GitHubUser);
    assert_eq!(
        ProfileEndpoint::GoogleUser.url(),
        "https://www.googleapis.com/oauth2/v3/userinfo"
    );
    assert_eq!(ProfileEndpoint::GitHubUser.url(), "https://api.github.com/user");
    assert_eq!(ProfileEndpoint::GitHubEmails.url(), "https://api.github.com/user/emails");
    assert_eq!(ProfileEndpoint::GoogleUser.user_agent(), None);
    assert_eq!(ProfileEndpoint::GitHubUser.user_agent(), Some("your-app-name"));
    assert_eq!(ProfileEndpoint::GitHubEmails.user_agent(), Some("your-app-name"));
}

#[test]
fn consent_url_should_carry_the_challenge_when_built() {
    let request = authorization_request(
        OAuthProvider::GitHub,
        &credentials("https://app.example/cb"),
        &StateStore::new(),
        "st".to_owned(),
        VERIFIER.to_owned(),
    )
    .unwrap();
    assert_eq!(
        request.url,
        "https://github.com/login/oauth/authorize?response_type=code&client_id=id&state=st\
         &code_challenge=E9Melhoa2OwvFrEMTJguCHaoeK1t8URWbuGJSstw-cM&code_challenge_method=S256\
         &redirect_uri=https%3A%2F%2Fapp.example%2Fcb&scope=read%3Auser+user%3Aemail"
    );
    assert_eq!(request.state_key, "st");
    assert_eq!(request.entry.key, "oauth_state:st");
}

#[test]
fn authorization_should_be_the_same_when_only_the_secret_differs() {
    let build = |secret: &str| {
        let mut given = credentials("https://app.example/cb");
        given.client_secret = secret.to_owned();
        authorization_request(
            OAuthProvider::Google,
            &given,
            &StateStore::new(),
            "st".to_owned(),
            VERIFIER.to_owned(),
        )
        .unwrap()
    };
    let (a, b) = (build("one"), build("two"));
    assert_eq!(a.url, b.url);
    assert_eq!(a.state_key, b.state_key);
    assert_eq!(a.entry.key, b.entry.key);
    assert_eq!(a.entry.payload, b.entry.payload);
    assert_eq!(
        a.entry.payload,
        format!("{{\"provider\":\"google\",\"verifier_secret\":\"{VERIFIER}\"}}")
    );
}

#[test]
fn consent_url_should_be_fresh_when_built_twice() {
    let build = || {
        build_authorization_url(
            OAuthProvider::Google,
            &credentials("https://app.example/cb"),
            &StateStore::new(),
        )
        .unwrap()
    };
    let (a, b) = (build(), build());
    assert_ne!(a.state_key, b.state_key);
    assert_eq!(a.state_key.len(), 22);
    assert!(a.url.starts_with("https://accounts.google.com/o/oauth2/v2/auth?"));
    assert!(a.url.contains(&format!("state={}", a.state_key)));
    assert_eq!(a.entry.key, format!("oauth_state:{}", a.state_key));
    let verifier = StateStore::new().take(Some(a.entry.payload), OAuthProvider::Google).unwrap();
    assert_eq!(verifier.len(), 43);
}

#[test]
fn authorization_should_fail_when_redirect_uri_is_malformed() {
    let built = build_authorization_url(
        OAuthProvider::Google,
        &credentials("not a url"),
        &StateStore::new(),
    );
    assert!(matches!(
        built,
        Err(OAuthError::InvalidRedirectUri(text)) if text == "relative URL without a base"
    ));
}

#[test]
fn code_should_be_exchanged_when_configuration_is_good() {
    let exchange = exchange_code(
        OAuthProvider::Google,
        &credentials("https://app.example/cb"),
        "code".to_owned(),
        "verifier".to_owned(),
    )
    .unwrap();
    assert_eq!(exchange.token_url, "https://oauth2.googleapis.com/token");
    assert_eq!(exchange.client_id, "id");
    assert_eq!(exchange.client_secret, "secret");
    assert_eq!(exchange.redirect_uri, "https://app.example/cb");
    assert_eq!(exchange.code, "code");
    assert_eq!(exchange.verifier, "verifier");
    let refused = exchange_code(
        OAuthProvider::Google,
        &credentials(""),
        "code".to_owned(),
        "verifier".to_owned(),
    );
    assert!(matches!(refused, Err(OAuthError::InvalidRedirectUri(_))));
}

#[test]
fn google_profile_should_be_normalised_when_complete() {
    let profile = fetch_google_profile(GoogleUserInfo {
        sub: some("42"),
        email: some("ada@example.com"),
        name: some("Ada"),
        picture: some("https://pic"),
    })
    .unwrap();
    assert_eq!(profile.provider, OAuthProvider::Google);
    assert_eq!(profile.provider_user_id, "42");
    assert_eq!(profile.email, "ada@example.com");
    assert_eq!(profile.display_name, some("Ada"));
    assert_eq!(profile.avatar_url, some("https://pic"));
}

#[test]
fn google_profile_should_be_incomplete_when_a_field_is_absent() {
    let info = |sub, email| GoogleUserInfo { sub, email, name: None, picture: None };
    assert!(matches!(
        fetch_google_profile(info(None, None)),
        Err(OAuthError::IncompleteProfile("sub"))
    ));
    assert!(matches!(
        fetch_google_profile(info(some("1"), None)),
        Err(OAuthError::IncompleteProfile("email"))
    ));
}

fn github(id: Option<u64>, name: Option<String>, login: Option<String>) -> GitHubUserInfo {
    GitHubUserInfo { id, email: None, name, avatar_url: None, login }
}

#[test]
fn github_profile_should_go_by_login_when_name_is_absent() {
    let email = || "ada@example.com".to_owned();
    let profile = fetch_github_profile(github(Some(10), None, some("ada")), email()).unwrap();
    assert_eq!(profile.provider, OAuthProvider::GitHub);
    assert_eq!(profile.provider_user_id, "10");
    assert_eq!(profile.email, "ada@example.com");
    assert_eq!(profile.display_name, some("ada"));
    let profile = fetch_github_profile(github(Some(10), some("Ada"), some("ada")), email());
    assert_eq!(profile.unwrap().display_name, some("Ada"));
}

#[test]
fn github_profile_should_be_incomplete_when_a_field_is_absent() {
    let email = || "ada@example.com".to_owned();
    assert!(matches!(
        fetch_github_profile(github(None, None, None), email()),
        Err(OAuthError::IncompleteProfile("id"))
    ));
    assert!(matches!(
        fetch_github_profile(github(Some(1), None, None), email()),
        Err(OAuthError::IncompleteProfile("login"))
    ));
}

#[test]
fn primary_email_should_be_the_first_verified_when_there_are_several() {
    let mail = |email: &str, primary, verified| GitHubEmail {
        email: email.to_owned(),
        primary,
        verified,
    };
    let found = fetch_github_primary_email(vec![
        mail("a", true, false),
        mail("b", false, true),
        mail("c", true, true),
        mail("d", true, true),
    ]);
    assert_eq!(found.unwrap(), "c");
    assert!(matches!(
        fetch_github_primary_email(vec![mail("a", true, false)]),
        Err(OAuthError::IncompleteProfile("email"))
    ));
    assert!(matches!(
        fetch_github_primary_email(vec![]),
        Err(OAuthError::IncompleteProfile("email"))
    ));
}
