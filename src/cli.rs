//! What the command-line client decides about its stored configuration.
use vstd::prelude::*;

use crate::text::{trim, trimmed};

verus! {

/// Credentials of the client: the GraphQL endpoint and the access token.
#[derive(Debug, Clone, Default)]
pub struct AuthConfig {
    pub base_url: String,
    pub token: String,
}

/// The global configuration of the client.
#[derive(Debug, Clone, Default)]
pub struct Config {
    pub auth: AuthConfig,
}

/// Why a command that needs a session cannot run.
#[derive(Debug, PartialEq, Eq, Structural)]
pub enum AuthError {
    /// No access token is stored.
    NotAuthenticated,
    /// No GraphQL endpoint is stored.
    MissingEndpoint,
}

/// `dir` joined with the relative `name`.
pub open spec fn join(dir: Seq<char>, name: Seq<char>) -> Seq<char> {
    if dir.len() == 0 || dir.last() == '/' {
        dir + name
    } else {
        dir + seq!['/'] + name
    }
}

/// `dir` joined with the relative `name`, as `Path::join` does for a
/// relative name.
fn join_path(dir: &str, name: &str) -> (r: String)
    ensures
        r@ == join(dir@, name@),
{
    let mut out = String::from_str(dir);
    let n = dir.unicode_len();
    if n > 0 && dir.get_char(n - 1) != '/' {
        out.append("/");
        proof {
            reveal_strlit("/");
        }
        assert(out@ =~= dir@ + seq!['/']);
    }
    out.append(name);
    out
}

/// The directory of the client's files under the user's configuration
/// directory.
pub fn paastel_config_dir(config_dir: &str) -> (r: String)
    ensures
        r@ == join(config_dir@, "paastel"@),
{
    join_path(config_dir, "paastel")
}

/// Where the configuration file lies, given the user's configuration directory.
pub fn config_path(config_dir: &str) -> (r: String)
    ensures
        r@ == join(join(config_dir@, "paastel"@), "config.toml"@),
{
    let dir = paastel_config_dir(config_dir);
    join_path(dir.as_str(), "config.toml")
}

/// Where the session file lies, given the user's configuration directory.
pub fn session_path(config_dir: &str) -> (r: String)
    ensures
        r@ == join(join(config_dir@, "paastel"@), "session.toml"@),
{
    let dir = paastel_config_dir(config_dir);
    join_path(dir.as_str(), "session.toml")
}

/// The stored configuration, when it holds both a token and an endpoint.
pub fn ensure_authenticated(cfg: Config) -> (r: Result<Config, AuthError>)
    ensures
        cfg.auth.token@.len() == 0 ==> r == Err::<Config, AuthError>(AuthError::NotAuthenticated),
        cfg.auth.token@.len() > 0 && cfg.auth.base_url@.len() == 0 ==> r == Err::<Config, AuthError>(
            AuthError::MissingEndpoint,
        ),
        cfg.auth.token@.len() > 0 && cfg.auth.base_url@.len() > 0 ==> r == Ok::<Config, AuthError>(
            cfg,
        ),
{
    if cfg.auth.token.as_str().unicode_len() == 0 {
        return Err(AuthError::NotAuthenticated);
    }
    if cfg.auth.base_url.as_str().unicode_len() == 0 {
        return Err(AuthError::MissingEndpoint);
    }
    Ok(cfg)
}

/// The password typed on the line `input`, without surrounding white space.
pub fn prompt_password(input: &str) -> (r: String)
    ensures
        r@ == trim(input@),
{
    trimmed(input)
}

} // verus!
