//! What the program is configured with: the provider to fly with, where the
//! simulator listens, and how often the air data computer samples.
//!
//! The configuration arrives as one parsed YAML document. Its entries stand
//! two levels deep, a key within a section:
//!
//! ```yaml
//! provider:
//!   name: xpln11
//!   host: 127.0.0.1
//!   read_port: 49000
//!   write_port: 49001
//! adc:
//!   frame_rate: 100
//! ```

use vstd::prelude::*;
use yaml_rust::Yaml;

verus! {

/// `yaml_rust::Yaml`, one node of a parsed document. What the library reads
/// of it is named by [`yaml_strings`] and [`yaml_integers`].
#[verifier::external_type_specification]
#[verifier::external_body]
pub struct ExYaml(Yaml);

/// The strings that a document holds two levels deep, each under its section
/// and its key: an entry exists where the document is a mapping, the string
/// `section` is a key of it whose value is a mapping, and the string `key` is
/// a key of that mapping whose value is a string.
pub uninterp spec fn yaml_strings(config: Yaml) -> Map<(Seq<char>, Seq<char>), Seq<char>>;

/// The integers that a document holds two levels deep, each under its section
/// and its key, as `yaml_strings` holds the strings.
pub uninterp spec fn yaml_integers(config: Yaml) -> Map<(Seq<char>, Seq<char>), i64>;

/// The string that `config` holds at `key` of `section`, if it holds one.
pub open spec fn yaml_str_at(config: Yaml, section: Seq<char>, key: Seq<char>) -> Option<
    Seq<char>,
> {
    if yaml_strings(config).contains_key((section, key)) {
        Some(yaml_strings(config)[(section, key)])
    } else {
        None
    }
}

/// The integer that `config` holds at `key` of `section`, if it holds one.
pub open spec fn yaml_i64_at(config: Yaml, section: Seq<char>, key: Seq<char>) -> Option<i64> {
    if yaml_integers(config).contains_key((section, key)) {
        Some(yaml_integers(config)[(section, key)])
    } else {
        None
    }
}

/// Why a configuration was not taken.
#[derive(Debug, Clone, Copy, PartialEq, Eq)]
pub enum ConfigError {
    /// `provider.name` is missing or no string.
    MissingProviderName,
    /// `provider.name` names no provider.
    UnknownProvider,
    /// `provider.host` is missing or no string.
    MissingHost,
    /// `provider.read_port` is missing or no integer.
    MissingReadPort,
    /// `provider.write_port` is missing or no integer.
    MissingWritePort,
    /// `adc.frame_rate` is missing or no integer.
    MissingFrameRate,
    /// `adc.frame_rate` is negative.
    NegativeFrameRate,
}

/// The characters of an optional string.
pub open spec fn text_of(value: Option<String>) -> Option<Seq<char>> {
    match value {
        Some(text) => Some(text@),
        None => None,
    }
}

/// Looks `section` up in `config`, then `key` in what it finds, both with
/// `Yaml`'s index by `&str`, and reads the result with `Yaml::as_str`. The
/// index yields `Yaml::BadValue` wherever it finds nothing, and `as_str`
/// yields the string of a `Yaml::String` and `None` of anything else.
#[verifier::external_body]
pub(crate) fn config_str(config: &Yaml, section: &str, key: &str) -> (value: Option<String>)
    ensures
        value is Some <==> yaml_strings(*config).contains_key((section@, key@)),
        value matches Some(text) ==> text@ == yaml_strings(*config)[(section@, key@)],
{
    match config[section][key].as_str() {
        Some(text) => Some(text.to_owned()),
        None => None,
    }
}

/// Looks `section` up in `config`, then `key` in what it finds, both with
/// `Yaml`'s index by `&str`, and reads the result with `Yaml::as_i64`, which
/// yields the number of a `Yaml::Integer` and `None` of anything else.
#[verifier::external_body]
pub(crate) fn config_i64(config: &Yaml, section: &str, key: &str) -> (value: Option<i64>)
    ensures
        value is Some <==> yaml_integers(*config).contains_key((section@, key@)),
        value matches Some(number) ==> number == yaml_integers(*config)[(section@, key@)],
{
    config[section][key].as_i64()
}

/// The sampling period that a configuration entry stands for.
pub open spec fn frame_rate_of(entry: Option<i64>) -> Result<u64, ConfigError> {
    match entry {
        None => Err(ConfigError::MissingFrameRate),
        Some(millis) => if millis < 0 {
            Err(ConfigError::NegativeFrameRate)
        } else {
            Ok(millis as u64)
        },
    }
}

/// Checks the entry `adc.frame_rate`: the milliseconds between two samples of
/// the air data computer. It has to be there and cannot be negative.
pub fn check_frame_rate(entry: Option<i64>) -> (frame_rate: Result<u64, ConfigError>)
    ensures
        frame_rate == frame_rate_of(entry),
{
    match entry {
        None => Err(ConfigError::MissingFrameRate),
        Some(millis) => if millis < 0 {
            Err(ConfigError::NegativeFrameRate)
        } else {
            Ok(millis as u64)
        },
    }
}

/// Reads the sampling period of the air data computer from `config`.
pub fn adc_frame_rate(config: &Yaml) -> (frame_rate: Result<u64, ConfigError>)
    ensures
        frame_rate == frame_rate_of(yaml_i64_at(*config, "adc"@, "frame_rate"@)),
{
    check_frame_rate(config_i64(config, "adc", "frame_rate"))
}

} // verus!
