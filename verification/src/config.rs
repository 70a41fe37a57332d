//! The settings that the site runs with, made from the values of its environment.
use crate::text::chars_of;
use std::sync::Arc;
use vstd::prelude::*;
use vstd::string::*;

verus! {

/// The settings of the site.
#[derive(Debug, PartialEq, Eq)]
pub struct State {
    /// The port to listen on; 3000 unless the environment names one.
    pub port: u16,
    /// The address to listen on; every address unless the environment names one.
    pub host: String,
    /// The directory of the static files.
    pub static_dir: String,
    /// The directory of the documents.
    pub data_dir: String,
}

/// What the handlers of the site share.
#[derive(Debug)]
pub struct AppState {
    pub config: Arc<State>,
}

/// Why the environment does not make settings.
#[derive(Clone, Copy, Debug, PartialEq, Eq)]
pub enum ConfigError {
    /// The port is not a number from 0 to 65535.
    InvalidPort,
    /// The directory of the static files is not named.
    MissingStaticDir,
    /// The directory of the documents is not named.
    MissingDataDir,
}

/// Whether a character is a decimal digit.
pub open spec fn is_digit(c: char) -> bool {
    '0' <= c && c <= '9'
}

/// The number that a sequence of decimal digits writes.
pub open spec fn decimal(digits: Seq<char>) -> nat
    decreases digits.len(),
{
    if digits.len() == 0 {
        0
    } else {
        decimal(digits.drop_last()) * 10 + ((digits.last() as u8) - 48) as nat
    }
}

/// The digits of a number written with or without a plus sign before it.
pub open spec fn unsigned(text: Seq<char>) -> Seq<char> {
    if text.len() > 0 && text[0] == '+' {
        text.drop_first()
    } else {
        text
    }
}

/// The port that a text names: one or more decimal digits, after at most one plus sign,
/// that write a number up to 65535.
pub open spec fn port_of(text: Seq<char>) -> Option<u16> {
    let digits = unsigned(text);
    if digits.len() > 0 && (forall|i: int| 0 <= i < digits.len() ==> is_digit(#[trigger] digits[i]))
        && decimal(digits) <= 65535 {
        Some(decimal(digits) as u16)
    } else {
        None
    }
}

/// A number does not get smaller when digits are written behind it.
proof fn lemma_decimal_grows(digits: Seq<char>, n: int)
    requires
        0 <= n <= digits.len(),
        forall|i: int| 0 <= i < digits.len() ==> is_digit(#[trigger] digits[i]),
    ensures
        decimal(digits.take(n)) <= decimal(digits),
    decreases digits.len() - n,
{
    if n == digits.len() {
        assert(digits.take(n) =~= digits);
    } else {
        lemma_decimal_grows(digits, n + 1);
        assert(digits.take(n + 1).drop_last() =~= digits.take(n));
    }
}

/// Reads a port number.
pub fn parse_port(text: &str) -> (port: Option<u16>)
    ensures
        port == port_of(text@),
{
    let chars = chars_of(text);
    let first: usize = if chars.len() > 0 && chars[0] == '+' {
        1
    } else {
        0
    };
    let ghost digits = unsigned(chars@);
    if first == chars.len() {
        return None;
    }
    let mut value: u32 = 0;
    let mut i: usize = first;
    while i < chars.len()
        invariant
            first <= i <= chars.len(),
            digits == chars@.subrange(first as int, chars.len() as int),
            digits == unsigned(text@),
            digits.len() > 0,
            forall|j: int| 0 <= j < i - first ==> is_digit(#[trigger] digits[j]),
            value == decimal(digits.take(i - first)),
            value <= 65535,
        decreases chars.len() - i,
    {
        let c = chars[i];
        if !('0' <= c && c <= '9') {
            assert(!is_digit(digits[i - first]));
            return None;
        }
        let digit: u32 = ((c as u8) - 48) as u32;
        value = value * 10 + digit;
        assert(digits.take(i - first + 1).drop_last() =~= digits.take(i - first));
        if value > 65535 {
            proof {
                if forall|j: int| 0 <= j < digits.len() ==> is_digit(#[trigger] digits[j]) {
                    lemma_decimal_grows(digits, i - first + 1);
                }
            }
            return None;
        }
        i = i + 1;
    }
    assert(digits.take(digits.len() as int) =~= digits);
    Some(value as u16)
}

impl State {
    /// Makes the settings from the values of `PORT`, `HOST`, `STATIC_DIR` and `DATA_DIR`,
    /// each `None` where the environment does not hold it.
    ///
    /// The port is 3000 and the host `0.0.0.0` where the environment names none. The
    /// port is looked at first, then the directory of the static files, then the
    /// directory of the documents: the first that fails is the error.
    pub fn from_values(
        port: Option<&str>,
        host: Option<&str>,
        static_dir: Option<&str>,
        data_dir: Option<&str>,
    ) -> (out: Result<State, ConfigError>)
        ensures
            ({
                let number = match port {
                    Some(text) => port_of(text@),
                    None => Some(3000u16),
                };
                match out {
                    Ok(state) => {
                        &&& number == Some(state.port)
                        &&& state.host@ == match host {
                            Some(host) => host@,
                            None => "0.0.0.0"@,
                        }
                        &&& static_dir matches Some(dir) && state.static_dir@ == dir@
                        &&& data_dir matches Some(dir) && state.data_dir@ == dir@
                    },
                    Err(ConfigError::InvalidPort) => number is None,
                    Err(ConfigError::MissingStaticDir) => number is Some && static_dir is None,
                    Err(ConfigError::MissingDataDir) => number is Some && static_dir is Some
                        && data_dir is None,
                }
            }),
    {
        let number = match port {
            Some(text) => parse_port(text),
            None => Some(3000),
        };
        let port = match number {
            Some(port) => port,
            None => {
                return Err(ConfigError::InvalidPort);
            },
        };
        let host = match host {
            Some(host) => String::from_str(host),
            None => String::from_str("0.0.0.0"),
        };
        let static_dir = match static_dir {
            Some(dir) => String::from_str(dir),
            None => {
                return Err(ConfigError::MissingStaticDir);
            },
        };
        let data_dir = match data_dir {
            Some(dir) => String::from_str(dir),
            None => {
                return Err(ConfigError::MissingDataDir);
            },
        };
        Ok(State { port, host, static_dir, data_dir })
    }
}

impl Clone for AppState {
    fn clone(&self) -> (copy: Self)
        ensures
            copy.config == self.config,
    {
        AppState { config: self.config.clone() }
    }
}

impl AppState {
    /// What the handlers share, around the given settings.
    pub fn new(config: State) -> (state: Self)
        ensures
            *state.config == config,
    {
        AppState { config: Arc::new(config) }
    }
}

} // verus!
