//! Application configuration, made from environment variables.
use crate::text::same;
use vstd::prelude::*;
use vstd::string::*;
use vstd::utf8::*;

verus! {

/// The shortest secret that access tokens may be signed with, in bytes.
pub const MIN_SECRET_BYTES: usize = 32;

/// Application configuration loaded from environment variables.
#[derive(Debug, Clone)]
pub struct Config {
    /// Full `PostgreSQL` connection string.
    pub database_url: String,
    /// Secret used to sign JWT access tokens, at least 32 bytes long.
    pub jwt_secret: String,
    /// Redis connection URL used for the OAuth PKCE state store; there whenever
    /// a provider is configured.
    pub redis_url: Option<String>,
    /// Access token lifetime in seconds (default: 15 minutes).
    pub access_token_expiry_secs: u64,
    /// Refresh token lifetime in seconds (default: 7 days).
    pub refresh_token_expiry_secs: u64,
    /// TCP address the server binds to (default: 0.0.0.0:8080).
    pub bind_addr: String,
    /// OAuth 2.0 provider configurations.
    pub oauth: OAuthConfig,
}

/// The settings that the environment gives by their own names; those with a
/// default may be absent.
#[derive(Debug, Clone)]
pub struct Settings {
    pub database_url: String,
    pub jwt_secret: String,
    pub redis_url: Option<String>,
    pub access_token_expiry_secs: Option<u64>,
    pub refresh_token_expiry_secs: Option<u64>,
    pub bind_addr: Option<String>,
}

/// Why settings make no configuration.
#[derive(Debug, Clone, Copy, PartialEq, Eq, Structural)]
pub enum ConfigError {
    /// The signing secret is shorter than 32 bytes.
    JwtSecretTooShort,
    /// An OAuth provider is configured, and there is no Redis URL.
    RedisUrlMissing,
}

/// Top-level OAuth configuration grouping all supported providers.
///
/// A field is `None` when one of its environment variables is absent.
#[derive(Debug, Clone)]
pub struct OAuthConfig {
    /// Google OAuth 2.0 credentials.
    pub google: Option<OAuthProviderConfig>,
    /// GitHub OAuth 2.0 credentials.
    pub github: Option<OAuthProviderConfig>,
}

/// Per-provider OAuth 2.0 credentials and endpoint configuration.
#[derive(Debug, Clone)]
pub struct OAuthProviderConfig {
    /// OAuth application client ID issued by the provider.
    pub client_id: String,
    /// OAuth application client secret issued by the provider.
    pub client_secret: String,
    /// Absolute URI the provider redirects to after user consent.
    pub redirect_uri: String,
}

/// Supported OAuth 2.0 identity providers.
#[derive(Debug, Clone, Copy, PartialEq, Eq, Structural, Hash)]
pub enum OAuthProvider {
    Google,
    GitHub,
}

/// What a provider's credentials hold.
#[verifier::ext_equal]
pub struct ProviderCredentials {
    pub client_id: Seq<char>,
    pub client_secret: Seq<char>,
    pub redirect_uri: Seq<char>,
}

impl View for OAuthProviderConfig {
    type V = ProviderCredentials;

    open spec fn view(&self) -> ProviderCredentials {
        ProviderCredentials {
            client_id: self.client_id@,
            client_secret: self.client_secret@,
            redirect_uri: self.redirect_uri@,
        }
    }
}

/// What optional credentials hold.
pub open spec fn credentials_of(config: Option<OAuthProviderConfig>) -> Option<ProviderCredentials> {
    match config {
        Some(c) => Some(c@),
        None => None,
    }
}

/// The value of the first variable called `name`.
pub open spec fn variable(vars: Seq<(String, String)>, name: Seq<char>) -> Option<Seq<char>>
    decreases vars.len(),
{
    if vars.len() == 0 {
        None
    } else if vars[0].0@ == name {
        Some(vars[0].1@)
    } else {
        variable(vars.drop_first(), name)
    }
}

/// The credentials that three variables give: all three have to be there.
pub open spec fn credentials_in(
    vars: Seq<(String, String)>,
    client_id: Seq<char>,
    client_secret: Seq<char>,
    redirect_uri: Seq<char>,
) -> Option<ProviderCredentials> {
    match (variable(vars, client_id), variable(vars, client_secret), variable(vars, redirect_uri)) {
        (Some(id), Some(secret), Some(uri)) => Some(
            ProviderCredentials { client_id: id, client_secret: secret, redirect_uri: uri },
        ),
        _ => None,
    }
}

proof fn lemma_variable_skip(vars: Seq<(String, String)>, name: Seq<char>, n: int)
    requires
        0 <= n <= vars.len(),
        forall|k: int| 0 <= k < n ==> (#[trigger] vars[k]).0@ != name,
    ensures
        variable(vars, name) == variable(vars.skip(n), name),
    decreases n,
{
    if n == 0 {
        assert(vars.skip(0) =~= vars);
    } else {
        assert(forall|k: int| 0 <= k < n - 1 ==> vars.drop_first()[k] == vars[k + 1]);
        lemma_variable_skip(vars.drop_first(), name, n - 1);
        assert(vars.drop_first().skip(n - 1) =~= vars.skip(n));
    }
}

/// The value of the first variable called `name`, if there is one.
fn find_variable(vars: &Vec<(String, String)>, name: &str) -> (r: Option<String>)
    ensures
        match r {
            Some(value) => variable(vars@, name@) == Some(value@),
            None => variable(vars@, name@) is None,
        },
{
    let mut i: usize = 0;
    while i < vars.len()
        invariant
            i <= vars@.len(),
            forall|k: int| 0 <= k < i ==> (#[trigger] vars@[k]).0@ != name@,
        decreases vars@.len() - i,
    {
        if same(vars[i].0.as_str(), name) {
            proof {
                lemma_variable_skip(vars@, name@, i as int);
                assert(vars@.skip(i as int)[0] == vars@[i as int]);
            }
            return Some(vars[i].1.clone());
        }
        i += 1;
    }
    proof {
        lemma_variable_skip(vars@, name@, i as int);
    }
    None
}

fn find_credentials(
    vars: &Vec<(String, String)>,
    client_id: &str,
    client_secret: &str,
    redirect_uri: &str,
) -> (r: Option<OAuthProviderConfig>)
    ensures
        credentials_of(r) == credentials_in(vars@, client_id@, client_secret@, redirect_uri@),
{
    match (
        find_variable(vars, client_id),
        find_variable(vars, client_secret),
        find_variable(vars, redirect_uri),
    ) {
        (Some(client_id), Some(client_secret), Some(redirect_uri)) => Some(
            OAuthProviderConfig { client_id, client_secret, redirect_uri },
        ),
        _ => None,
    }
}

impl OAuthConfig {
    /// The credentials of Google that the variables give.
    pub open spec fn google_in(vars: Seq<(String, String)>) -> Option<ProviderCredentials> {
        credentials_in(
            vars,
            "OAUTH_GOOGLE_CLIENT_ID"@,
            "OAUTH_GOOGLE_CLIENT_SECRET"@,
            "OAUTH_GOOGLE_REDIRECT_URI"@,
        )
    }

    /// The credentials of GitHub that the variables give.
    pub open spec fn github_in(vars: Seq<(String, String)>) -> Option<ProviderCredentials> {
        credentials_in(
            vars,
            "OAUTH_GITHUB_CLIENT_ID"@,
            "OAUTH_GITHUB_CLIENT_SECRET"@,
            "OAUTH_GITHUB_REDIRECT_URI"@,
        )
    }

    /// The credentials configured for a provider.
    pub open spec fn credentials(self, provider: OAuthProvider) -> Option<ProviderCredentials> {
        match provider {
            OAuthProvider::Google => credentials_of(self.google),
            OAuthProvider::GitHub => credentials_of(self.github),
        }
    }

    /// Some provider is configured.
    pub open spec fn enabled(self) -> bool {
        self.google is Some || self.github is Some
    }

    /// Return the [`OAuthProviderConfig`] for a given [`OAuthProvider`], if configured.
    #[must_use]
    pub fn provider(&self, provider: OAuthProvider) -> (r: Option<&OAuthProviderConfig>)
        ensures
            match provider {
                OAuthProvider::Google => match r {
                    Some(c) => self.google == Some(*c),
                    None => self.google is None,
                },
                OAuthProvider::GitHub => match r {
                    Some(c) => self.github == Some(*c),
                    None => self.github is None,
                },
            },
    {
        match provider {
            OAuthProvider::Google => self.google.as_ref(),
            OAuthProvider::GitHub => self.github.as_ref(),
        }
    }

    /// The configuration of the providers whose three variables are all there.
    pub fn from_env(vars: &Vec<(String, String)>) -> (r: Self)
        ensures
            credentials_of(r.google) == Self::google_in(vars@),
            credentials_of(r.github) == Self::github_in(vars@),
    {
        let google = find_credentials(
            vars,
            "OAUTH_GOOGLE_CLIENT_ID",
            "OAUTH_GOOGLE_CLIENT_SECRET",
            "OAUTH_GOOGLE_REDIRECT_URI",
        );
        let github = find_credentials(
            vars,
            "OAUTH_GITHUB_CLIENT_ID",
            "OAUTH_GITHUB_CLIENT_SECRET",
            "OAUTH_GITHUB_REDIRECT_URI",
        );
        OAuthConfig { google, github }
    }
}

impl Default for OAuthConfig {
    fn default() -> (r: Self)
        ensures
            r.google is None,
            r.github is None,
    {
        OAuthConfig { google: None, github: None }
    }
}

impl Config {
    /// Make the configuration from the settings and the variables of the
    /// environment, with the defaults for what is absent.
    ///
    /// # Errors
    ///
    /// Refuses a signing secret of less than 32 bytes, and a configured OAuth
    /// provider without a Redis URL.
    pub fn from_env(settings: Settings, vars: &Vec<(String, String)>) -> (r: Result<Self, ConfigError>)
        ensures
            match r {
                Ok(config) => {
                    &&& encode_utf8(settings.jwt_secret@).len() >= MIN_SECRET_BYTES
                    &&& config.oauth.enabled() ==> config.redis_url is Some
                    &&& config.database_url == settings.database_url
                    &&& config.jwt_secret == settings.jwt_secret
                    &&& config.redis_url == settings.redis_url
                    &&& config.access_token_expiry_secs == (
                    match settings.access_token_expiry_secs {
                        Some(secs) => secs,
                        None => 900,
                    })
                    &&& config.refresh_token_expiry_secs == (
                    match settings.refresh_token_expiry_secs {
                        Some(secs) => secs,
                        None => 604_800,
                    })
                    &&& config.bind_addr@ == (match settings.bind_addr {
                        Some(addr) => addr@,
                        None => "0.0.0.0:8080"@,
                    })
                    &&& credentials_of(config.oauth.google) == OAuthConfig::google_in(vars@)
                    &&& credentials_of(config.oauth.github) == OAuthConfig::github_in(vars@)
                },
                Err(ConfigError::JwtSecretTooShort) => encode_utf8(settings.jwt_secret@).len()
                    < MIN_SECRET_BYTES,
                Err(ConfigError::RedisUrlMissing) => {
                    &&& encode_utf8(settings.jwt_secret@).len() >= MIN_SECRET_BYTES
                    &&& settings.redis_url is None
                    &&& OAuthConfig::google_in(vars@) is Some || OAuthConfig::github_in(
                        vars@,
                    ) is Some
                },
            },
    {
        if settings.jwt_secret.as_str().as_bytes().len() < MIN_SECRET_BYTES {
            return Err(ConfigError::JwtSecretTooShort);
        }
        let oauth = OAuthConfig::from_env(vars);
        if (oauth.google.is_some() || oauth.github.is_some()) && settings.redis_url.is_none() {
            return Err(ConfigError::RedisUrlMissing);
        }
        let access_token_expiry_secs: u64 = match settings.access_token_expiry_secs {
            Some(secs) => secs,
            None => default_access_token_expiry(),
        };
        let refresh_token_expiry_secs: u64 = match settings.refresh_token_expiry_secs {
            Some(secs) => secs,
            None => default_refresh_token_expiry(),
        };
        let bind_addr = match settings.bind_addr {
            Some(addr) => addr,
            None => default_bind_addr(),
        };
        Ok(
            Config {
                database_url: settings.database_url,
                jwt_secret: settings.jwt_secret,
                redis_url: settings.redis_url,
                access_token_expiry_secs,
                refresh_token_expiry_secs,
                bind_addr,
                oauth,
            },
        )
    }
}

impl OAuthProvider {
    /// The lowercase name of the provider.
    pub open spec fn name(self) -> Seq<char> {
        match self {
            OAuthProvider::Google => "google"@,
            OAuthProvider::GitHub => "github"@,
        }
    }

    /// The provider that a text names, if any.
    pub open spec fn named(text: Seq<char>) -> Option<OAuthProvider> {
        if text == "google"@ {
            Some(OAuthProvider::Google)
        } else if text == "github"@ {
            Some(OAuthProvider::GitHub)
        } else {
            None
        }
    }

    /// Parse a provider from a URL path segment; `None` for unrecognised strings.
    #[must_use]
    pub fn from_slug(slug: &str) -> (r: Option<Self>)
        ensures
            r == Self::named(slug@),
    {
        if same(slug, "google") {
            Some(OAuthProvider::Google)
        } else if same(slug, "github") {
            Some(OAuthProvider::GitHub)
        } else {
            None
        }
    }

    /// Return the lowercase URL path segment for this provider.
    #[must_use]
    pub fn slug(self) -> (r: &'static str)
        ensures
            r@ == self.name(),
    {
        match self {
            OAuthProvider::Google => "google",
            OAuthProvider::GitHub => "github",
        }
    }
}

/// Reading a provider's slug gives that provider back.
pub proof fn law_slug_reads_back(provider: OAuthProvider)
    ensures
        OAuthProvider::named(provider.name()) == Some(provider),
{
    reveal_strlit("google");
    reveal_strlit("github");
    assert("google"@[1] == 'o');
    assert("github"@[1] == 'i');
}

/// Nothing but a provider's slug reads as that provider.
pub proof fn law_only_slugs_read(text: Seq<char>, provider: OAuthProvider)
    requires
        OAuthProvider::named(text) == Some(provider),
    ensures
        text == provider.name(),
{
}

/// Access token lifetime where none is set: 15 minutes.
pub fn default_access_token_expiry() -> (r: u64)
    ensures
        r == 900,
{
    900
}

/// Refresh token lifetime where none is set: 7 days.
pub fn default_refresh_token_expiry() -> (r: u64)
    ensures
        r == 604_800,
{
    604_800
}

/// Address to bind to where none is set.
pub fn default_bind_addr() -> (r: String)
    ensures
        r@ == "0.0.0.0:8080"@,
{
    "0.0.0.0:8080".to_owned()
}

} // verus!
