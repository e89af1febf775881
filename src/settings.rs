//! Reading configuration values: text, numbers, switches and URLs, each with
//! its default or its error.
use vstd::prelude::*;
use crate::text::{is_ascii_digit, digits_value, joined, same_text};

verus! {

/// Why the configuration could not be loaded.
#[derive(Debug, Clone, PartialEq, Eq)]
pub enum ConfigError {
    MissingVar(String),
    InvalidUrl { name: String, value: String },
    InvalidNumber { name: String, value: String },
    Other(String),
}

/// The text that reports a configuration error.
pub open spec fn config_error_text(e: ConfigError) -> Seq<char> {
    match e {
        ConfigError::MissingVar(k) => "Missing required environment variable: "@ + k@,
        ConfigError::InvalidUrl { name, value } => "Invalid URL for "@ + name@ + ": "@ + value@,
        ConfigError::InvalidNumber { name, value } => "Invalid number for "@ + name@ + ": "@
            + value@,
        ConfigError::Other(m) => "General error: "@ + m@,
    }
}

impl ConfigError {
    /// The text that reports this error.
    pub fn message(&self) -> (r: String)
        ensures
            r@ == config_error_text(*self),
    {
        match self {
            ConfigError::MissingVar(k) => joined("Missing required environment variable: ", k.as_str()),
            ConfigError::InvalidUrl { name, value } => {
                let a = joined("Invalid URL for ", name.as_str());
                let b = joined(a.as_str(), ": ");
                joined(b.as_str(), value.as_str())
            },
            ConfigError::InvalidNumber { name, value } => {
                let a = joined("Invalid number for ", name.as_str());
                let b = joined(a.as_str(), ": ");
                joined(b.as_str(), value.as_str())
            },
            ConfigError::Other(m) => joined("General error: ", m.as_str()),
        }
    }
}

/// The value of a text setting, or its default when it is not set.
pub fn text_setting(value: Option<String>, default: &str) -> (r: String)
    ensures
        r@ == match value {
            Some(v) => v@,
            None => default@,
        },
{
    match value {
        Some(v) => v,
        None => default.to_string(),
    }
}

/// The unsigned integer at most `max` that a text spells in decimal: an
/// optional `+`, then one or more ASCII digits.
pub open spec fn decimal_unsigned(s: Seq<char>, max: int) -> Option<int> {
    let digits = if s.len() > 0 && s[0] == '+' { s.drop_first() } else { s };
    if digits.len() == 0 || !(forall|i: int| 0 <= i < digits.len() ==> is_ascii_digit(#[trigger] digits[i])) {
        None
    } else if digits_value(digits) > max {
        None
    } else {
        Some(digits_value(digits))
    }
}

/// Relies on `str::parse::<u32>`: it accepts exactly the texts that
/// `decimal_unsigned` describes for `u32`, with that value.
#[verifier::external_body]
fn parse_u32(s: &str) -> (r: Option<u32>)
    ensures
        r is Some <==> decimal_unsigned(s@, u32::MAX as int) is Some,
        r is Some ==> r->0 as int == decimal_unsigned(s@, u32::MAX as int)->0,
{
    s.parse::<u32>().ok()
}

/// Relies on `str::parse::<u16>`: it accepts exactly the texts that
/// `decimal_unsigned` describes for `u16`, with that value.
#[verifier::external_body]
fn parse_u16(s: &str) -> (r: Option<u16>)
    ensures
        r is Some <==> decimal_unsigned(s@, u16::MAX as int) is Some,
        r is Some ==> r->0 as int == decimal_unsigned(s@, u16::MAX as int)->0,
{
    s.parse::<u16>().ok()
}

/// A `u32` setting: its default when unset, its value when it is a decimal
/// number in range, else an invalid-number error naming the key and value.
pub fn u32_setting(key: &str, value: Option<String>, default: u32) -> (r: Result<u32, ConfigError>)
    ensures
        match value {
            None => r == Ok::<u32, ConfigError>(default),
            Some(v) => match decimal_unsigned(v@, u32::MAX as int) {
                Some(n) => r matches Ok(x) && x as int == n,
                None => r matches Err(ConfigError::InvalidNumber { name, value }) && name@ == key@
                    && value@ == v@,
            },
        },
{
    match value {
        None => Ok(default),
        Some(v) => match parse_u32(v.as_str()) {
            Some(n) => Ok(n),
            None => Err(ConfigError::InvalidNumber { name: key.to_string(), value: v }),
        },
    }
}

/// A `u16` setting, read as `u32_setting` reads a `u32`.
pub fn u16_setting(key: &str, value: Option<String>, default: u16) -> (r: Result<u16, ConfigError>)
    ensures
        match value {
            None => r == Ok::<u16, ConfigError>(default),
            Some(v) => match decimal_unsigned(v@, u16::MAX as int) {
                Some(n) => r matches Ok(x) && x as int == n,
                None => r matches Err(ConfigError::InvalidNumber { name, value }) && name@ == key@
                    && value@ == v@,
            },
        },
{
    match value {
        None => Ok(default),
        Some(v) => match parse_u16(v.as_str()) {
            Some(n) => Ok(n),
            None => Err(ConfigError::InvalidNumber { name: key.to_string(), value: v }),
        },
    }
}

/// The lower-case form of a text, as Unicode defines it.
pub uninterp spec fn lower_of(s: Seq<char>) -> Seq<char>;

/// Relies on `str::to_lowercase`: the result depends on the characters alone.
#[verifier::external_body]
fn lowercase(s: &str) -> (r: String)
    ensures
        r@ == lower_of(s@),
{
    s.to_lowercase()
}

/// The switch that a lower-cased setting spells.
pub open spec fn switch_of(v: Seq<char>) -> Option<bool> {
    if v == "1"@ || v == "true"@ || v == "yes"@ || v == "y"@ {
        Some(true)
    } else if v == "0"@ || v == "false"@ || v == "no"@ || v == "n"@ {
        Some(false)
    } else {
        None
    }
}

/// Reads an already lower-cased switch: `1`, `true`, `yes`, `y` or `0`,
/// `false`, `no`, `n`.
pub fn parse_switch(lowered: &str) -> (r: Option<bool>)
    ensures
        r == switch_of(lowered@),
{
    if same_text(lowered, "1") || same_text(lowered, "true") || same_text(lowered, "yes")
        || same_text(lowered, "y") {
        Some(true)
    } else if same_text(lowered, "0") || same_text(lowered, "false") || same_text(lowered, "no")
        || same_text(lowered, "n") {
        Some(false)
    } else {
        None
    }
}

/// `Invalid bool for <key>: <value>`
pub open spec fn invalid_switch_text(key: Seq<char>, value: Seq<char>) -> Seq<char> {
    "Invalid bool for "@ + key + ": "@ + value
}

/// A boolean setting, in any letter case: its default when unset, else the
/// switch it spells, else an error that names the key and value.
pub fn bool_setting(key: &str, value: Option<String>, default: bool) -> (r: Result<bool, ConfigError>)
    ensures
        match value {
            None => r == Ok::<bool, ConfigError>(default),
            Some(v) => match switch_of(lower_of(v@)) {
                Some(b) => r == Ok::<bool, ConfigError>(b),
                None => r matches Err(ConfigError::Other(m)) && m@ == invalid_switch_text(key@, v@),
            },
        },
{
    match value {
        None => Ok(default),
        Some(v) => {
            let lowered = lowercase(v.as_str());
            match parse_switch(lowered.as_str()) {
                Some(b) => Ok(b),
                None => {
                    let mut m = "Invalid bool for ".to_string();
                    m.append(key);
                    m.append(": ");
                    m.append(v.as_str());
                    Err(ConfigError::Other(m))
                },
            }
        },
    }
}

#[verifier::external_type_specification]
#[verifier::external_body]
pub struct ExUrl(url::Url);

/// Whether a text parses as an absolute URL.
pub uninterp spec fn parses_as_url(s: Seq<char>) -> bool;

/// Relies on `url::Url::parse`: whether it succeeds depends on the text alone.
#[verifier::external_body]
fn parse_url(s: &str) -> (r: Option<url::Url>)
    ensures
        r is Some <==> parses_as_url(s@),
{
    url::Url::parse(s).ok()
}

/// A required URL setting: missing-variable error when unset, invalid-URL
/// error (naming key and value) when it does not parse.
pub fn url_setting(key: &str, value: Option<String>) -> (r: Result<url::Url, ConfigError>)
    ensures
        match value {
            None => r matches Err(ConfigError::MissingVar(k)) && k@ == key@,
            Some(v) => if parses_as_url(v@) {
                r is Ok
            } else {
                r matches Err(ConfigError::InvalidUrl { name, value }) && name@ == key@ && value@
                    == v@
            },
        },
{
    match value {
        None => Err(ConfigError::MissingVar(key.to_string())),
        Some(v) => match parse_url(v.as_str()) {
            Some(u) => Ok(u),
            None => Err(ConfigError::InvalidUrl { name: key.to_string(), value: v }),
        },
    }
}

} // verus!
