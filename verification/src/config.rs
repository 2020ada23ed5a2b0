//! What the host needs to know before it can serve: where the relational
//! store is, and on which address and port to listen.

use vstd::prelude::*;

verus! {

/// The port that is listened on when the environment names none.
pub const DEFAULT_PORT: u16 = 8000;

/// The address that is listened on when the environment names none.
pub const DEFAULT_HOST: &'static str = "0.0.0.0";

/// Why a variable of the environment has no value that can be used.
#[derive(Clone, Copy, Debug, PartialEq, Eq, Structural)]
pub enum VarError {
    /// The variable is not set.
    NotPresent,
    /// The variable is set to something that is no Unicode text.
    NotUnicode,
}

/// The settings of the host.
#[derive(Debug, PartialEq, Eq)]
pub struct Config {
    pub database_url: String,
    pub port: u16,
    pub host: String,
}

/// What a [`Config`] holds, as mathematical values.
pub struct ConfigView {
    pub database_url: Seq<char>,
    pub port: u16,
    pub host: Seq<char>,
}

impl View for Config {
    type V = ConfigView;

    open spec fn view(&self) -> ConfigView {
        ConfigView { database_url: self.database_url@, port: self.port, host: self.host@ }
    }
}

/// `c` is one of the ten decimal digits.
pub open spec fn is_digit(c: char) -> bool {
    '0' <= c <= '9'
}

/// The number that a decimal digit stands for.
pub open spec fn digit_value(c: char) -> nat {
    (c as u32 - '0' as u32) as nat
}

/// `text` is a decimal numeral: at least one character, and digits only.
pub open spec fn is_numeral(text: Seq<char>) -> bool {
    &&& text.len() > 0
    &&& forall|i: int| 0 <= i < text.len() ==> is_digit(#[trigger] text[i])
}

/// The number that a row of decimal digits stands for, read from the left.
pub open spec fn numeral_value(digits: Seq<char>) -> nat
    decreases digits.len(),
{
    if digits.len() == 0 {
        0
    } else {
        numeral_value(digits.drop_last()) * 10 + digit_value(digits.last())
    }
}

/// `text` without the plus sign that may stand before a number.
pub open spec fn unsigned_part(text: Seq<char>) -> Seq<char> {
    if text.len() > 0 && text[0] == '+' {
        text.skip(1)
    } else {
        text
    }
}

/// The port that `text` names: a decimal numeral of any length, with or
/// without a plus sign before it, whose value is at most 65535. Nothing else
/// names a port; blanks are not skipped.
pub open spec fn port_of(text: Seq<char>) -> Option<u16> {
    let digits = unsigned_part(text);
    if is_numeral(digits) && numeral_value(digits) <= u16::MAX {
        Some(numeral_value(digits) as u16)
    } else {
        None
    }
}

/// The settings that the three variables give. The address of the relational
/// store must be there; its absence is the only failure. The port and the
/// address to listen on fall back to [`DEFAULT_PORT`] and [`DEFAULT_HOST`].
pub open spec fn settings(
    database_url: Result<Seq<char>, VarError>,
    port: Option<Seq<char>>,
    host: Option<Seq<char>>,
) -> Result<ConfigView, VarError> {
    match database_url {
        Ok(url) => Ok(
            ConfigView {
                database_url: url,
                port: match port {
                    Some(text) => port_of(text).unwrap(),
                    None => DEFAULT_PORT,
                },
                host: match host {
                    Some(address) => address,
                    None => DEFAULT_HOST@,
                },
            },
        ),
        Err(error) => Err(error),
    }
}

/// A longer numeral is worth at least as much as any of its beginnings.
proof fn lemma_numeral_grows(digits: Seq<char>, length: int)
    requires
        0 <= length <= digits.len(),
    ensures
        numeral_value(digits.take(length)) <= numeral_value(digits),
    decreases digits.len(),
{
    if length == digits.len() {
        assert(digits.take(length) =~= digits);
    } else {
        lemma_numeral_grows(digits.drop_last(), length);
        assert(digits.drop_last().take(length) =~= digits.take(length));
    }
}

/// Reads a port number.
pub fn parse_port(text: &str) -> (port: Option<u16>)
    ensures
        port == port_of(text@),
{
    let length = text.unicode_len();
    let start: usize = if length > 0 && text.get_char(0) == '+' {
        1
    } else {
        0
    };
    let digits = text.substring_char(start, length);
    let count = length - start;
    if count == 0 {
        return None;
    }
    let mut value: u32 = 0;
    let mut index: usize = 0;
    while index < count
        invariant
            index <= count,
            count == digits@.len(),
            digits@ == unsigned_part(text@),
            forall|i: int| 0 <= i < index ==> is_digit(#[trigger] digits@[i]),
            value == numeral_value(digits@.take(index as int)),
            value <= u16::MAX,
        decreases count - index,
    {
        let c = digits.get_char(index);
        if c < '0' || c > '9' {
            return None;
        }
        let digit = c as u32 - '0' as u32;
        let longer = value * 10 + digit;
        proof {
            let taken = digits@.take(index as int + 1);
            assert(taken.drop_last() =~= digits@.take(index as int));
        }
        if longer > u16::MAX as u32 {
            proof {
                lemma_numeral_grows(digits@, index as int + 1);
            }
            return None;
        }
        value = longer;
        index = index + 1;
    }
    assert(digits@.take(count as int) =~= digits@);
    Some(value as u16)
}

impl Config {
    /// Puts the settings together from what the environment holds under
    /// `DATABASE_URL`, `PORT` and `HOST`. A variable that cannot be read is
    /// handed in as `None`, or with the reason where the reason is handed on.
    ///
    /// Where the address of the relational store is there, a port that is
    /// present must name a port: [`parse_port`] tells. Where the address is
    /// missing, the port is not looked at.
    pub fn from_env(
        database_url: Result<String, VarError>,
        port: Option<String>,
        host: Option<String>,
    ) -> (config: Result<Config, VarError>)
        requires
            database_url is Ok ==> (port matches Some(text) ==> port_of(text@) is Some),
        ensures
            config_result_view(config) == settings(
                url_view(database_url),
                port.deep_view(),
                host.deep_view(),
            ),
    {
        let database_url = match database_url {
            Ok(url) => url,
            Err(error) => {
                return Err(error);
            },
        };
        let port = match port {
            Some(text) => parse_port(text.as_str()).unwrap(),
            None => DEFAULT_PORT,
        };
        let host = match host {
            Some(address) => address,
            None => DEFAULT_HOST.to_owned(),
        };
        Ok(Config { database_url, port, host })
    }
}

/// What was read under `DATABASE_URL`, seen as mathematical values.
pub open spec fn url_view(database_url: Result<String, VarError>) -> Result<Seq<char>, VarError> {
    match database_url {
        Ok(url) => Ok(url@),
        Err(error) => Err(error),
    }
}

/// Settings or the reason why there are none, seen as mathematical values.
pub open spec fn config_result_view(config: Result<Config, VarError>) -> Result<
    ConfigView,
    VarError,
> {
    match config {
        Ok(config) => Ok(config@),
        Err(error) => Err(error),
    }
}

} // verus!
