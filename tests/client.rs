use paastel::api_types::{bearer_token, AuthHeaderError};
use paastel::cli::{config_path, ensure_authenticated, paastel_config_dir, prompt_password, session_path, AuthConfig, AuthError, Config};
use paastel::pipeline::{build_request, push_request};

fn cfg(base_url: &str, token: &str) -> Config {
    Config { auth: AuthConfig { base_url: base_url.to_string(), token: token.to_string() } }
}

#[test]
fn config_files_live_under_the_client_directory() {
    assert_eq!(paastel_config_dir("/home/u/.config"), "/home/u/.config/paastel");
    assert_eq!(config_path("/home/u/.config"), "/home/u/.config/paastel/config.toml");
    assert_eq!(session_path("/home/u/.config/"), "/home/u/.config/paastel/session.toml");
}

#[test]
fn authentication_needs_token_then_endpoint() {
    assert_eq!(ensure_authenticated(cfg("http://x/graphql", "")).unwrap_err(), AuthError::NotAuthenticated);
    assert_eq!(ensure_authenticated(cfg("", "")).unwrap_err(), AuthError::NotAuthenticated);
    assert_eq!(ensure_authenticated(cfg("", "tok")).unwrap_err(), AuthError::MissingEndpoint);
    let ok = ensure_authenticated(cfg("http://x/graphql", "tok")).unwrap();
    assert_eq!(ok.auth.token, "tok");
    assert_eq!(ok.auth.base_url, "http://x/graphql");
}

#[test]
fn password_line_is_trimmed() {
    assert_eq!(prompt_password("  s3cret \r\n"), "s3cret");
    assert_eq!(prompt_password("\n"), "");
}

#[test]
fn bearer_header_gives_its_token() {
    assert_eq!(bearer_token("Bearer abc123").unwrap(), "abc123");
    assert_eq!(bearer_token("Bearer ").unwrap(), "");
    assert_eq!(bearer_token("bearer abc").unwrap_err(), AuthHeaderError::InvalidFormat);
    assert_eq!(bearer_token("Token abc").unwrap_err(), AuthHeaderError::InvalidFormat);
    assert_eq!(bearer_token("").unwrap_err(), AuthHeaderError::InvalidFormat);
}

#[test]
fn build_request_always_removes_intermediates() {
    let r = build_request("docker/Dockerfile", "localhost:5000/org/app:dev", true);
    assert_eq!(r.dockerfile, "docker/Dockerfile");
    assert_eq!(r.tag, "localhost:5000/org/app:dev");
    assert!(r.remove_intermediate);
    assert!(r.pull);
    assert!(!build_request("Dockerfile", "nginx", false).pull);
}

#[test]
fn push_request_splits_the_reference() {
    let r = push_request("localhost:5000/teste/nginx:dev");
    assert_eq!(r.repository, "localhost:5000/teste/nginx");
    assert_eq!(r.tag, "dev");
    let r = push_request("nginx");
    assert_eq!(r.repository, "nginx");
    assert_eq!(r.tag, "latest");
}
