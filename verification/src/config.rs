//! Runtime configuration, from the values of the process environment.
use vstd::prelude::*;

use crate::text::{owned, parse_u16, parse_unsigned};

verus! {

/// Runtime configuration.
#[derive(Debug, Clone, PartialEq, Eq)]
pub struct Config {
    pub port: u16,
    pub database_url: String,
    pub github_username: String,
    pub etherscan_api_key: Option<String>,
    pub admin_api_key: String,
}

/// Why the environment cannot configure the server.
#[derive(Debug, Clone, PartialEq, Eq)]
pub enum ConfigError {
    /// `PORT` holds this text, which is no port number.
    InvalidPort(String),
}

/// A variable's value, or `default` when it is unset.
pub open spec fn value_or(value: Option<String>, default: Seq<char>) -> Seq<char> {
    match value {
        Some(v) => v@,
        None => default,
    }
}

fn value_or_default(value: Option<String>, default: &str) -> (r: String)
    ensures
        r@ == value_or(value, default@),
{
    match value {
        Some(v) => v,
        None => owned(default),
    }
}

impl Config {
    /// The configuration that the values of `PORT`, `DATABASE_URL`,
    /// `GITHUB_USERNAME`, `ETHERSCAN_API_KEY` and `ADMIN_API_KEY` give
    /// (`None` for a variable that is unset). Unset variables take their
    /// defaults; an empty Etherscan key counts as none; a `PORT` that is no
    /// decimal `u16` is refused.
    pub fn from_vars(
        port: Option<String>,
        database_url: Option<String>,
        github_username: Option<String>,
        etherscan_api_key: Option<String>,
        admin_api_key: Option<String>,
    ) -> (r: Result<Config, ConfigError>)
        ensures
            ({
                let port_text = value_or(port, "3001"@);
                match r {
                    Ok(c) => {
                        &&& parse_unsigned(port_text, 10, u16::MAX as int) == Some(c.port as int)
                        &&& c.database_url@ == value_or(database_url, "sqlite:data/pavkhemerak.db"@)
                        &&& c.github_username@ == value_or(github_username, "khemerak"@)
                        &&& c.admin_api_key@ == value_or(admin_api_key, "change-me-in-production"@)
                        &&& c.etherscan_api_key == match etherscan_api_key {
                            Some(k) => if k@.len() == 0 {
                                None
                            } else {
                                Some(k)
                            },
                            None => None,
                        }
                    },
                    Err(ConfigError::InvalidPort(text)) => {
                        &&& text@ == port_text
                        &&& parse_unsigned(port_text, 10, u16::MAX as int) is None
                    },
                }
            }),
    {
        let port_text = value_or_default(port, "3001");
        let port = match parse_u16(port_text.as_str()) {
            Some(p) => p,
            None => {
                return Err(ConfigError::InvalidPort(port_text));
            },
        };
        let etherscan_api_key = match etherscan_api_key {
            Some(k) => if k.as_str().is_empty() {
                None
            } else {
                Some(k)
            },
            None => None,
        };
        Ok(Config {
            port,
            database_url: value_or_default(database_url, "sqlite:data/pavkhemerak.db"),
            github_username: value_or_default(github_username, "khemerak"),
            etherscan_api_key,
            admin_api_key: value_or_default(admin_api_key, "change-me-in-production"),
        })
    }
}

} // verus!
