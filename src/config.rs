//! The startup configuration, from the values the environment gives.

use vstd::prelude::*;

verus! {

/// The value of a non-empty run of decimal digits.
pub open spec fn digits_value(s: Seq<char>) -> int
    decreases s.len(),
{
    if s.len() == 0 {
        0
    } else {
        digits_value(s.drop_last()) * 10 + (s.last() as int - '0' as int)
    }
}

/// `s` is a non-empty run of decimal digits.
pub open spec fn all_digits(s: Seq<char>) -> bool {
    s.len() > 0 && forall|i: int| 0 <= i < s.len() ==> '0' <= #[trigger] s[i] <= '9'
}

/// A `u16` written in decimal, with an optional leading `+` and nothing
/// else: no space, no other sign.
pub open spec fn decimal_u16(s: Seq<char>) -> Option<u16> {
    let d = if s.len() > 1 && s[0] == '+' {
        s.skip(1)
    } else {
        s
    };
    if all_digits(d) && digits_value(d) <= 65535 {
        Some(digits_value(d) as u16)
    } else {
        None
    }
}

/// Relies on `str::parse::<u16>`: an optional `+`, then decimal digits
/// whose value fits in a `u16`; anything else is an error.
#[verifier::external_body]
fn parse_u16(s: &str) -> (r: Option<u16>)
    ensures
        r == decimal_u16(s@),
{
    s.parse::<u16>().ok()
}

/// The port used when none is configured.
pub const DEFAULT_PORT: u16 = 8000;

/// The registry file used when none is configured.
pub open spec fn default_repos_path() -> Seq<char> {
    "repos.json"@
}

/// A configuration that cannot be used.
pub enum ConfigError {
    /// The port is not a decimal `u16`.
    InvalidPort,
}

/// The settings read once at startup.
pub struct Config {
    pub port: u16,
    pub repos_config_path: String,
    pub github_token: Option<String>,
}

impl Config {
    /// The configuration from the values configured, each `None` where it
    /// is not set: the port (8000 when unset), the path of the registry
    /// file (`repos.json` when unset) and the fallback credential.
    pub fn from_values(
        port: Option<String>,
        repos_config_path: Option<String>,
        github_token: Option<String>,
    ) -> (r: Result<Config, ConfigError>)
        ensures
            r is Err <==> (port matches Some(p) && decimal_u16(p@) is None),
            r matches Ok(c) ==> {
                &&& c.port == match port {
                    Some(p) => decimal_u16(p@)->Some_0,
                    None => DEFAULT_PORT,
                }
                &&& c.repos_config_path@ == match repos_config_path {
                    Some(p) => p@,
                    None => default_repos_path(),
                }
                &&& c.github_token.deep_view() == github_token.deep_view()
            },
    {
        let port = match port {
            Some(p) => match parse_u16(p.as_str()) {
                Some(v) => v,
                None => return Err(ConfigError::InvalidPort),
            },
            None => DEFAULT_PORT,
        };
        let repos_config_path = match repos_config_path {
            Some(p) => p,
            None => String::from_str("repos.json"),
        };
        Ok(Config { port, repos_config_path, github_token })
    }
}

} // verus!
