use yaima::config::{
    default_access_token_expiry, default_bind_addr, default_refresh_token_expiry, Config,
    ConfigError, OAuthConfig, OAuthProvider, Settings,
};

fn settings() -> Settings {
    Settings {
        database_url: "postgres://db".to_owned(),
        jwt_secret: "0123456789abcdef0123456789abcdef".to_owned(),
        redis_url: Some("redis://cache".to_owned()),
        access_token_expiry_secs: None,
        refresh_token_expiry_secs: None,
        bind_addr: None,
    }
}

fn vars(list: &[(&str, &str)]) -> Vec<(String, String)> {
    list.iter().map(|(k, v)| ((*k).to_owned(), (*v).to_owned())).collect()
}

fn google() -> Vec<(String, String)> {
    vars(&[
        ("OAUTH_GOOGLE_CLIENT_ID", "id"),
        ("OAUTH_GOOGLE_CLIENT_SECRET", "secret"),
        ("OAUTH_GOOGLE_REDIRECT_URI", "https://app/cb"),
    ])
}

#[test]
fn config_should_take_defaults_when_settings_are_absent() {
    let config = Config::from_env(settings(), &vec![]).unwrap();
    assert_eq!(config.access_token_expiry_secs, 900);
    assert_eq!(config.refresh_token_expiry_secs, 604_800);
    assert_eq!(config.bind_addr, "0.0.0.0:8080");
    assert_eq!(config.database_url, "postgres://db");
    assert!(config.oauth.provider(OAuthProvider::Google).is_none());
    assert!(config.oauth.provider(OAuthProvider::GitHub).is_none());
    assert_eq!(default_access_token_expiry(), 900);
    assert_eq!(default_refresh_token_expiry(), 604_800);
    assert_eq!(default_bind_addr(), "0.0.0.0:8080");
}

#[test]
fn config_should_keep_settings_when_given() {
    let mut given = settings();
    given.access_token_expiry_secs = Some(60);
    given.refresh_token_expiry_secs = Some(120);
    given.bind_addr = Some("127.0.0.1:80".to_owned());
    let config = Config::from_env(given, &google()).unwrap();
    assert_eq!(config.access_token_expiry_secs, 60);
    assert_eq!(config.refresh_token_expiry_secs, 120);
    assert_eq!(config.bind_addr, "127.0.0.1:80");
    let found = config.oauth.provider(OAuthProvider::Google).unwrap();
    assert_eq!(found.client_id, "id");
    assert_eq!(found.client_secret, "secret");
    assert_eq!(found.redirect_uri, "https://app/cb");
}

#[test]
fn config_should_be_refused_when_secret_is_short() {
    let mut given = settings();
    given.jwt_secret = "0123456789abcdef0123456789abcde".to_owned();
    assert_eq!(Config::from_env(given, &vec![]).err(), Some(ConfigError::JwtSecretTooShort));
    // Two bytes a character: 16 of them are enough.
    let mut given = settings();
    given.jwt_secret = "é".repeat(16);
    assert!(Config::from_env(given, &vec![]).is_ok());
}

#[test]
fn config_should_need_redis_only_when_a_provider_is_configured() {
    let mut given = settings();
    given.redis_url = None;
    assert!(Config::from_env(given.clone(), &vec![]).is_ok());
    assert_eq!(Config::from_env(given, &google()).err(), Some(ConfigError::RedisUrlMissing));
}

#[test]
fn provider_should_be_absent_when_one_variable_is() {
    for missing in 0..3 {
        let mut partial = google();
        partial.remove(missing);
        assert!(OAuthConfig::from_env(&partial).google.is_none());
    }
    assert!(OAuthConfig::from_env(&google()).google.is_some());
    assert!(OAuthConfig::from_env(&google()).github.is_none());
    assert!(OAuthConfig::default().google.is_none());
}

#[test]
fn provider_should_read_back_when_named() {
    for provider in [OAuthProvider::Google, OAuthProvider::GitHub] {
        assert_eq!(OAuthProvider::from_slug(provider.slug()), Some(provider));
    }
    assert_eq!(OAuthProvider::GitHub.slug(), "github");
    assert_eq!(OAuthProvider::from_slug("gitlab"), None);
    assert_eq!(OAuthProvider::from_slug("unknown"), None);
    assert_eq!(OAuthProvider::from_slug("Google"), None);
}
