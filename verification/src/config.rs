//! The service's configuration, checked from the values of its environment
//! variables.

use url::Url;
use vstd::prelude::*;
use vstd::utf8::encode_utf8;

verus! {

/// The service's configuration.
pub struct Config {
    pub bind_addr: String,
    pub database_url: String,
    pub backend_public_url: Url,
    pub github_client_id: String,
    pub github_client_secret: String,
    /// The HMAC key of session cookies, at least 64 bytes.
    pub session_secret: Vec<u8>,
    pub bootstrap_admin_github_login: Option<String>,
}

/// The values of the environment variables the configuration is read from
/// (`None` for a variable that is unset or not Unicode).
#[derive(Debug, Clone)]
pub struct ConfigVars {
    pub bind_addr: Option<String>,
    pub database_url: Option<String>,
    pub backend_public_url: Option<String>,
    pub github_client_id: Option<String>,
    pub github_client_secret: Option<String>,
    pub session_secret: Option<String>,
    pub bootstrap_admin_github_login: Option<String>,
}

/// Why the configuration is refused.
#[derive(Debug)]
pub enum ConfigError {
    /// A required variable is unset; its name.
    Missing(&'static str),
    /// `BACKEND_PUBLIC_URL` is no URL.
    BadUrl(url::ParseError),
    /// `SESSION_SECRET` is shorter than 64 bytes; its length.
    ShortSecret(usize),
}

/// What `Url::parse` gives for a string: the URL, or `None` when it is
/// refused.
pub uninterp spec fn parsed_url(s: Seq<char>) -> Option<Url>;

/// `url::Url::parse`: an absolute URL. The parse is a function of the text
/// alone; what it gives is named, and stated to be what is returned.
#[verifier::external_body]
fn parse_url(s: &str) -> (r: Result<Url, url::ParseError>)
    ensures
        r is Ok == parsed_url(s@) is Some,
        r matches Ok(u) ==> parsed_url(s@) == Some(u),
{
    Url::parse(s)
}

/// The address bound when `BIND_ADDR` is unset.
pub open spec fn default_bind_addr() -> Seq<char> {
    "127.0.0.1:3000"@
}

/// Which check refuses the variables first, in the order they are read:
/// `DATABASE_URL`, `BACKEND_PUBLIC_URL` and its parse, `GITHUB_CLIENT_ID`,
/// `GITHUB_CLIENT_SECRET`, `SESSION_SECRET` and its length.
pub open spec fn first_refusal(v: ConfigVars) -> Option<int> {
    if v.database_url is None {
        Some(0)
    } else if v.backend_public_url is None {
        Some(1)
    } else if parsed_url(v.backend_public_url->0@) is None {
        Some(2)
    } else if v.github_client_id is None {
        Some(3)
    } else if v.github_client_secret is None {
        Some(4)
    } else if v.session_secret is None {
        Some(5)
    } else if encode_utf8(v.session_secret->0@).len() < 64 {
        Some(6)
    } else {
        None
    }
}

fn copy_str_bytes(s: &str) -> (r: Vec<u8>)
    ensures
        r@ == encode_utf8(s@),
{
    let b = s.as_bytes();
    let mut r: Vec<u8> = Vec::new();
    for i in 0..b.len()
        invariant
            b@ == encode_utf8(s@),
            r@ == b@.take(i as int),
    {
        r.push(b[i]);
        assert(b@.take(i + 1) == b@.take(i as int).push(b@[i as int]));
    }
    assert(b@.take(b@.len() as int) == b@);
    r
}

impl Config {
    /// Checks the configuration variables. The bind address defaults to
    /// `127.0.0.1:3000`; the admin to promote is optional; the rest are
    /// required, the public URL must parse and the session secret must be
    /// at least 64 bytes.
    pub fn from_vars(v: ConfigVars) -> (r: Result<Config, ConfigError>)
        ensures
            first_refusal(v) == Some(0int) ==> (r matches Err(ConfigError::Missing(n)) && n@
                == "DATABASE_URL"@),
            first_refusal(v) == Some(1int) ==> (r matches Err(ConfigError::Missing(n)) && n@
                == "BACKEND_PUBLIC_URL"@),
            first_refusal(v) == Some(2int) ==> (r matches Err(ConfigError::BadUrl(_))),
            first_refusal(v) == Some(3int) ==> (r matches Err(ConfigError::Missing(n)) && n@
                == "GITHUB_CLIENT_ID"@),
            first_refusal(v) == Some(4int) ==> (r matches Err(ConfigError::Missing(n)) && n@
                == "GITHUB_CLIENT_SECRET"@),
            first_refusal(v) == Some(5int) ==> (r matches Err(ConfigError::Missing(n)) && n@
                == "SESSION_SECRET"@),
            first_refusal(v) == Some(6int) ==> (r matches Err(ConfigError::ShortSecret(len)) && len
                == encode_utf8(v.session_secret->0@).len()),
            first_refusal(v) is None ==> (r matches Ok(c) && c.bind_addr@ == (match v.bind_addr {
                Some(a) => a@,
                None => default_bind_addr(),
            }) && c.database_url == v.database_url->0 && c.github_client_id
                == v.github_client_id->0 && c.github_client_secret == v.github_client_secret->0
                && c.session_secret@ == encode_utf8(v.session_secret->0@)
                && c.bootstrap_admin_github_login == v.bootstrap_admin_github_login
                && parsed_url(v.backend_public_url->0@) == Some(c.backend_public_url)),
    {
        let bind_addr = match v.bind_addr {
            Some(a) => a,
            None => "127.0.0.1:3000".to_owned(),
        };
        let database_url = match v.database_url {
            Some(d) => d,
            None => return Err(ConfigError::Missing("DATABASE_URL")),
        };
        let url_text = match v.backend_public_url {
            Some(u) => u,
            None => return Err(ConfigError::Missing("BACKEND_PUBLIC_URL")),
        };
        let backend_public_url = match parse_url(url_text.as_str()) {
            Ok(u) => u,
            Err(e) => return Err(ConfigError::BadUrl(e)),
        };
        let github_client_id = match v.github_client_id {
            Some(c) => c,
            None => return Err(ConfigError::Missing("GITHUB_CLIENT_ID")),
        };
        let github_client_secret = match v.github_client_secret {
            Some(c) => c,
            None => return Err(ConfigError::Missing("GITHUB_CLIENT_SECRET")),
        };
        let secret = match v.session_secret {
            Some(s) => s,
            None => return Err(ConfigError::Missing("SESSION_SECRET")),
        };
        let session_secret = copy_str_bytes(secret.as_str());
        if session_secret.len() < 64 {
            return Err(ConfigError::ShortSecret(session_secret.len()));
        }
        Ok(Config {
            bind_addr,
            database_url,
            backend_public_url,
            github_client_id,
            github_client_secret,
            session_secret,
            bootstrap_admin_github_login: v.bootstrap_admin_github_login,
        })
    }
}

/// A configuration that is accepted has a session secret of at least 64
/// bytes, as a cookie signing key needs.
pub proof fn accepted_secret_is_long_enough(v: ConfigVars)
    requires
        first_refusal(v) is None,
    ensures
        encode_utf8(v.session_secret->0@).len() >= 64,
{
}

} // verus!
