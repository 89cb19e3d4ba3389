use exact::auth::{check_oauth_state, parse_i64, session_user_id, should_promote};
use exact::config::{Config, ConfigError, ConfigVars};

fn vars() -> ConfigVars {
    ConfigVars {
        bind_addr: None,
        database_url: Some("postgres://localhost/exact".to_string()),
        backend_public_url: Some("https://exact.run".to_string()),
        github_client_id: Some("id".to_string()),
        github_client_secret: Some("secret".to_string()),
        session_secret: Some("x".repeat(64)),
        bootstrap_admin_github_login: None,
    }
}

#[test]
fn config_accepts_complete_vars() {
    let c = Config::from_vars(vars()).unwrap();
    assert_eq!(c.bind_addr, "127.0.0.1:3000");
    assert_eq!(c.database_url, "postgres://localhost/exact");
    assert_eq!(c.backend_public_url.as_str(), "https://exact.run/");
    assert_eq!(c.session_secret.len(), 64);
    let c = Config::from_vars(ConfigVars { bind_addr: Some("0.0.0.0:80".to_string()), ..vars() }).unwrap();
    assert_eq!(c.bind_addr, "0.0.0.0:80");
}

#[test]
fn config_reports_first_missing_var() {
    let r = Config::from_vars(ConfigVars { database_url: None, github_client_id: None, ..vars() });
    assert!(matches!(r, Err(ConfigError::Missing("DATABASE_URL"))));
    let r = Config::from_vars(ConfigVars { backend_public_url: None, ..vars() });
    assert!(matches!(r, Err(ConfigError::Missing("BACKEND_PUBLIC_URL"))));
    let r = Config::from_vars(ConfigVars { github_client_id: None, ..vars() });
    assert!(matches!(r, Err(ConfigError::Missing("GITHUB_CLIENT_ID"))));
    let r = Config::from_vars(ConfigVars { github_client_secret: None, ..vars() });
    assert!(matches!(r, Err(ConfigError::Missing("GITHUB_CLIENT_SECRET"))));
    let r = Config::from_vars(ConfigVars { session_secret: None, ..vars() });
    assert!(matches!(r, Err(ConfigError::Missing("SESSION_SECRET"))));
}

#[test]
fn config_refuses_bad_url_and_short_secret() {
    let r = Config::from_vars(ConfigVars { backend_public_url: Some("not a url".to_string()), ..vars() });
    assert!(matches!(r, Err(ConfigError::BadUrl(_))));
    let r = Config::from_vars(ConfigVars { session_secret: Some("short".to_string()), ..vars() });
    assert!(matches!(r, Err(ConfigError::ShortSecret(5))));
    let r = Config::from_vars(ConfigVars { session_secret: Some("é".repeat(32)), ..vars() });
    assert!(r.is_ok());
}

#[test]
fn oauth_state_check() {
    assert!(check_oauth_state(Some("abc"), "abc").is_ok());
    let e = check_oauth_state(None, "abc").unwrap_err();
    assert_eq!((e.status, e.message), (400, "missing oauth state cookie"));
    let e = check_oauth_state(Some("abc"), "abd").unwrap_err();
    assert_eq!((e.status, e.message), (400, "oauth state mismatch"));
}

#[test]
fn bootstrap_admin_matches_without_case() {
    assert!(should_promote(Some("Octocat"), "octocat"));
    assert!(should_promote(Some("octocat"), "OCTOCAT"));
    assert!(!should_promote(Some("octocat"), "octocat2"));
    assert!(!should_promote(None, "octocat"));
}

#[test]
fn decimal_parsing_matches_std() {
    for s in ["0", "42", "-42", "+7", "-0", "9223372036854775807", "-9223372036854775808",
        "9223372036854775808", "-9223372036854775809", "", "-", "+", "1a", " 1", "00012",
        "99999999999999999999999", "٣"] {
        assert_eq!(parse_i64(s), s.parse::<i64>().ok(), "{s:?}");
    }
    assert_eq!(session_user_id(Some("17")), Some(17));
    assert_eq!(session_user_id(Some("x")), None);
    assert_eq!(session_user_id(None), None);
}

#[test]
fn public_url_is_the_parse_of_its_variable() {
    let c = Config::from_vars(ConfigVars {
        backend_public_url: Some("https://api.example.org/base/".to_string()),
        database_url: Some("https://not-this-one.example".to_string()),
        ..vars()
    })
    .unwrap();
    assert_eq!(c.backend_public_url, url::Url::parse("https://api.example.org/base/").unwrap());
}
