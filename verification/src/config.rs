//! Process-wide configuration, built once at startup and never mutated.

use vstd::prelude::*;

verus! {

/// A required configuration value was absent at startup.
#[derive(PartialEq, Eq, Structural, Clone, Copy, Debug)]
pub enum ConfigError {
    MissingSecret,
    MissingToken,
    MissingUrl,
}

/// The three required values and the optional listening port.
pub struct Config {
    /// The shared webhook secret.
    pub secret: Vec<u8>,
    /// The CI API token.
    pub token: Vec<u8>,
    /// The CI trigger URL, used for user-facing messaging.
    pub travis_url: Vec<u8>,
    /// The listening port.
    pub port: u16,
}

pub open spec fn is_digit(c: u8) -> bool {
    48 <= c <= 57
}

/// Reads decimal digits from `i` on, accumulating onto `acc`; `None` on a
/// non-digit or once the value passes the largest port number.
pub open spec fn spec_parse_digits(bs: Seq<u8>, i: int, acc: int) -> Option<int>
    decreases bs.len() - i,
{
    if !(0 <= i <= bs.len()) {
        None
    } else if i == bs.len() {
        Some(acc)
    } else if is_digit(bs[i]) && acc * 10 + (bs[i] - 48) <= 65535 {
        spec_parse_digits(bs, i + 1, acc * 10 + (bs[i] - 48))
    } else {
        None
    }
}

/// The port number a text value denotes: an optional leading `+`, then at
/// least one decimal digit, the whole value fitting a port number.
pub open spec fn spec_parse_port(bs: Seq<u8>) -> Option<int> {
    if bs.len() == 0 {
        None
    } else {
        let start: int = if bs[0] == 43 {
            1
        } else {
            0
        };
        if bs.len() == start {
            None
        } else {
            spec_parse_digits(bs, start, 0)
        }
    }
}

/// The port to listen on: the value the port variable denotes, or 8080 when
/// the variable is absent or does not denote a port number.
pub open spec fn spec_server_port(port_var: Option<Seq<u8>>) -> int {
    match port_var {
        None => 8080,
        Some(bs) => match spec_parse_port(bs) {
            None => 8080,
            Some(p) => p,
        },
    }
}

fn parse_digits(bs: &[u8], i: usize, acc: u16) -> (r: Option<u16>)
    requires
        i <= bs@.len(),
    ensures
        match r {
            Some(p) => spec_parse_digits(bs@, i as int, acc as int) == Some(p as int),
            None => spec_parse_digits(bs@, i as int, acc as int) is None,
        },
    decreases bs@.len() - i,
{
    if i == bs.len() {
        return Some(acc);
    }
    let c = bs[i];
    if 48 <= c && c <= 57 {
        let d = (c - 48) as u16;
        if acc <= 6553 && (acc < 6553 || d <= 5) {
            assert(acc * 10 + d <= 65535) by (nonlinear_arith)
                requires
                    acc <= 6553 && (acc < 6553 || d <= 5) && d <= 9,
            ;
            parse_digits(bs, i + 1, acc * 10 + d)
        } else {
            assert(acc as int * 10 + d > 65535) by (nonlinear_arith)
                requires
                    d <= 9 && (acc > 6553 || (acc == 6553 && d > 5)),
            ;
            None
        }
    } else {
        None
    }
}

/// Decides the listening port from the optional port variable: its decimal
/// value, or 8080 when it is absent or malformed.
pub fn get_server_port(port_var: Option<&[u8]>) -> (r: u16)
    ensures
        r as int == spec_server_port(
            match port_var {
                None => None,
                Some(bs) => Some(bs@),
            },
        ),
{
    match port_var {
        None => 8080,
        Some(bs) => {
            if bs.len() == 0 {
                return 8080;
            }
            let start: usize = if bs[0] == 43 {
                1
            } else {
                0
            };
            if bs.len() == start {
                return 8080;
            }
            match parse_digits(bs, start, 0) {
                Some(p) => p,
                None => 8080,
            }
        },
    }
}

impl Config {
    /// Builds the configuration from the optional raw values, failing on the
    /// first required value that is absent. Succeeds exactly when the secret,
    /// the token and the trigger URL are all present.
    pub fn new(
        secret: Option<Vec<u8>>,
        token: Option<Vec<u8>>,
        travis_url: Option<Vec<u8>>,
        port_var: Option<Vec<u8>>,
    ) -> (r: Result<Config, ConfigError>)
        ensures
            secret is None ==> r == Err::<Config, ConfigError>(ConfigError::MissingSecret),
            secret is Some && token is None ==> r == Err::<Config, ConfigError>(
                ConfigError::MissingToken,
            ),
            secret is Some && token is Some && travis_url is None ==> r == Err::<
                Config,
                ConfigError,
            >(ConfigError::MissingUrl),
            match r {
                Ok(c) => (secret matches Some(s) && c.secret@ == s@) && (token matches Some(t)
                    && c.token@ == t@) && (travis_url matches Some(u) && c.travis_url@ == u@) && (
                c.port as int == spec_server_port(
                    match port_var {
                        None => None,
                        Some(p) => Some(p@),
                    },
                )),
                Err(_) => secret is None || token is None || travis_url is None,
            },
    {
        let secret = match secret {
            None => {
                return Err(ConfigError::MissingSecret);
            },
            Some(s) => s,
        };
        let token = match token {
            None => {
                return Err(ConfigError::MissingToken);
            },
            Some(t) => t,
        };
        let travis_url = match travis_url {
            None => {
                return Err(ConfigError::MissingUrl);
            },
            Some(u) => u,
        };
        let port = match &port_var {
            None => get_server_port(None),
            Some(p) => get_server_port(Some(p.as_slice())),
        };
        Ok(Config { secret, token, travis_url, port })
    }
}

} // verus!
