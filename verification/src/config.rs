//! Process configuration.

use crate::uint::{all_digits, digits_value, parse_digits};
use vstd::prelude::*;

verus! {

/// Largest request body that is read, in bytes.
pub const MAX_REQUEST_SIZE: u64 = 16384;

/// Port that is listened on when none is configured.
pub const DEFAULT_PORT: u16 = 8080;

/// What the process was started with. It does not change afterwards.
#[derive(Debug, Clone, PartialEq, Eq)]
pub struct Config {
    pub port: u16,
    /// Upstream node to fork from whatever chain a request names.
    pub fork_url: Option<String>,
    /// Key of the explorer that names the contracts in traces.
    pub etherscan_key: Option<String>,
    /// Secret that every request must present.
    pub api_key: Option<String>,
    pub max_request_size: u64,
}

/// Why no configuration could be made.
#[derive(Debug, Clone, Copy, PartialEq, Eq, Structural)]
pub enum ConfigError {
    /// The port is no number from 0 to 65535.
    InvalidPort,
}

/// The digits of a port: the text without one leading `+`.
pub open spec fn port_digits(text: Seq<u8>) -> Seq<u8> {
    if text.len() > 0 && text[0] == 0x2b {
        text.skip(1)
    } else {
        text
    }
}

/// The port that a text denotes: decimal digits, at least one, after an
/// optional `+`, and no more than 65535.
pub open spec fn port_spec(text: Seq<u8>) -> Option<u16> {
    let digits = port_digits(text);
    if digits.len() > 0 && all_digits(digits, 10) && digits_value(digits, 10) <= 0xffff {
        Some(digits_value(digits, 10) as u16)
    } else {
        None
    }
}

/// The port to listen on: the configured one, or the default where none is set.
pub open spec fn port_of(port: Option<String>) -> Option<u16> {
    match port {
        Some(text) => port_spec(vstd::utf8::encode_utf8(text@)),
        None => Some(DEFAULT_PORT),
    }
}

/// A setting that is empty counts as not set.
pub open spec fn present(value: Option<String>) -> Option<String> {
    match value {
        Some(text) => if text@.len() == 0 {
            None
        } else {
            Some(text)
        },
        None => None,
    }
}

/// Reads a port number.
pub fn parse_port(text: &str) -> (port: Option<u16>)
    ensures
        port == port_spec(vstd::utf8::encode_utf8(text@)),
{
    let bytes = text.as_bytes();
    let from: usize = if bytes.len() > 0 && bytes[0] == 0x2b {
        1
    } else {
        0
    };
    assert(bytes@.skip(from as int) == port_digits(bytes@));
    match parse_digits(bytes, from, false) {
        Ok(value) => match value.as_u64() {
            Some(v) => if v <= 0xffff {
                Some(v as u16)
            } else {
                None
            },
            None => None,
        },
        Err(_) => None,
    }
}

/// Drops a setting that is empty.
pub fn non_empty(value: Option<String>) -> (r: Option<String>)
    ensures
        r == present(value),
{
    match value {
        Some(text) => if text.as_str().is_empty() {
            None
        } else {
            Some(text)
        },
        None => None,
    }
}

/// Makes the configuration from the values of the settings `PORT`, `FORK_URL`,
/// `ETHERSCAN_KEY` and `API_KEY`, each `None` where it is not set.
pub fn load_config(
    port: Option<String>,
    fork_url: Option<String>,
    etherscan_key: Option<String>,
    api_key: Option<String>,
) -> (r: Result<Config, ConfigError>)
    ensures
        match port_of(port) {
            Some(p) => r == Ok::<Config, ConfigError>(
                Config {
                    port: p,
                    fork_url: present(fork_url),
                    etherscan_key: present(etherscan_key),
                    api_key: present(api_key),
                    max_request_size: MAX_REQUEST_SIZE,
                },
            ),
            None => r == Err::<Config, ConfigError>(ConfigError::InvalidPort),
        },
{
    let port: u16 = match port {
        Some(text) => match parse_port(text.as_str()) {
            Some(p) => p,
            None => {
                return Err(ConfigError::InvalidPort);
            },
        },
        None => DEFAULT_PORT,
    };
    Ok(
        Config {
            port,
            fork_url: non_empty(fork_url),
            etherscan_key: non_empty(etherscan_key),
            api_key: non_empty(api_key),
            max_request_size: MAX_REQUEST_SIZE,
        },
    )
}

} // verus!
