//! The X-Plane 11 provider: how the simulator's datagrams are read and
//! written, and what the live provider is configured with.
//!
//! The socket is not held here. Whoever owns it hands each datagram it
//! receives to [`XPLN11SensorsProvider`], and sends what
//! [`XPLN11FlightCtrlsProvider`] writes.

pub mod constants;
pub mod datagram;
pub mod dref;
pub mod sample;

pub use crate::providers::xpln11_provider::datagram::build_new_data_message;
pub use crate::providers::xpln11_provider::datagram::decode_data;
pub use crate::providers::xpln11_provider::datagram::decode_data_strict;
pub use crate::providers::xpln11_provider::datagram::decode_float_data;
pub use crate::providers::xpln11_provider::datagram::decode_fragment;
pub use crate::providers::xpln11_provider::datagram::decode_int_data;
pub use crate::providers::xpln11_provider::datagram::encode_data;
pub use crate::providers::xpln11_provider::datagram::encode_float_data;
pub use crate::providers::xpln11_provider::datagram::encode_fragment;
pub use crate::providers::xpln11_provider::datagram::encode_int_data;
pub use crate::providers::xpln11_provider::datagram::DecodeError;
pub use crate::providers::xpln11_provider::datagram::XPLN11UDPDataFragment;
pub use crate::providers::xpln11_provider::datagram::XPLN11UDPDataMessage;
pub use crate::providers::xpln11_provider::datagram::DATA_MESSAGE_BUFFER_SIZE_VALUE;
pub use crate::providers::xpln11_provider::datagram::DATA_MESSAGE_MIN_BYTES_SIZE_VALUE;
pub use crate::providers::xpln11_provider::datagram::DATA_MESSAGE_NO_DATA;
pub use crate::providers::xpln11_provider::dref::encode_dref;
pub use crate::providers::xpln11_provider::dref::DREF_MESSAGE_SIZE_VALUE;
pub use crate::providers::xpln11_provider::dref::YOKE_PITCH_RATIO;

use crate::binary32::ONE;
use crate::config::config_i64;
use crate::config::config_str;
use crate::config::text_of;
use crate::config::yaml_i64_at;
use crate::config::yaml_str_at;
use crate::config::ConfigError;
use crate::providers::xpln11_provider::datagram::decoded;
use crate::providers::xpln11_provider::dref::dref_message;
use crate::providers::xpln11_provider::sample::acquired;
use crate::sensors::AcquireError;
use crate::sensors::SensorsValues;
use vstd::prelude::*;
use vstd::string::StringSliceAdditionalSpecFns;
use vstd::utf8::is_ascii_chars;
use vstd::utf8::is_ascii_chars_encode_utf8;
use yaml_rust::Yaml;

verus! {

pub const NAME: &'static str = "XPLN11";

/// What the live provider is configured with: where the simulator listens
/// and on which ports it is read from and written to.
#[derive(Debug, Clone)]
pub struct XPLN11Provider {
    pub host: String,
    pub read_port: i64,
    pub write_port: i64,
}

/// A live provider's settings, with the host as its characters.
pub struct XPLN11ProviderView {
    pub host: Seq<char>,
    pub read_port: i64,
    pub write_port: i64,
}

impl View for XPLN11Provider {
    type V = XPLN11ProviderView;

    open spec fn view(&self) -> XPLN11ProviderView {
        XPLN11ProviderView {
            host: self.host@,
            read_port: self.read_port,
            write_port: self.write_port,
        }
    }
}

/// The live provider that the entries `provider.host`, `provider.read_port`
/// and `provider.write_port` of a configuration stand for. The first entry
/// that is missing, in this order, is the one that is reported.
pub open spec fn live_provider_of(
    host: Option<Seq<char>>,
    read_port: Option<i64>,
    write_port: Option<i64>,
) -> Result<XPLN11ProviderView, ConfigError> {
    if host is None {
        Err(ConfigError::MissingHost)
    } else if read_port is None {
        Err(ConfigError::MissingReadPort)
    } else if write_port is None {
        Err(ConfigError::MissingWritePort)
    } else {
        Ok(
            XPLN11ProviderView {
                host: host->Some_0,
                read_port: read_port->Some_0,
                write_port: write_port->Some_0,
            },
        )
    }
}

/// The settings of a provider that was or was not configured.
pub open spec fn provider_view(provider: Result<XPLN11Provider, ConfigError>) -> Result<
    XPLN11ProviderView,
    ConfigError,
> {
    match provider {
        Ok(settings) => Ok(settings@),
        Err(e) => Err(e),
    }
}

/// Checks the entries of the live provider: each has to be there.
pub fn xpl11_provider_from(host: Option<String>, read_port: Option<i64>, write_port: Option<i64>)
    -> (provider: Result<XPLN11Provider, ConfigError>)
    ensures
        provider_view(provider) == live_provider_of(text_of(host), read_port, write_port),
{
    match host {
        None => Err(ConfigError::MissingHost),
        Some(host) => match read_port {
            None => Err(ConfigError::MissingReadPort),
            Some(read_port) => match write_port {
                None => Err(ConfigError::MissingWritePort),
                Some(write_port) => Ok(
                    XPLN11Provider { host: host, read_port: read_port, write_port: write_port },
                ),
            },
        },
    }
}

/// Reads the live provider's settings from `config`.
pub fn xpl11_provider_init(config: &Yaml) -> (provider: Result<XPLN11Provider, ConfigError>)
    ensures
        provider_view(provider) == live_provider_of(
            yaml_str_at(*config, "provider"@, "host"@),
            yaml_i64_at(*config, "provider"@, "read_port"@),
            yaml_i64_at(*config, "provider"@, "write_port"@),
        ),
{
    let host = config_str(config, "provider", "host");
    let read_port = config_i64(config, "provider", "read_port");
    let write_port = config_i64(config, "provider", "write_port");
    xpl11_provider_from(host, read_port, write_port)
}

impl XPLN11Provider {
    pub fn name(&self) -> (name: &str)
        ensures
            name@ == "XPLN11"@,
    {
        NAME
    }

    /// The decoding half of the sensor source, for the port that is read.
    pub fn get_sensors(&self) -> (sensors: XPLN11SensorsProvider)
        ensures
            sensors.host@ == self.host@,
            sensors.port == self.read_port,
    {
        XPLN11SensorsProvider { host: self.host.clone(), port: self.read_port }
    }

    /// The encoding half of the flight-control sink, for the port that is
    /// written.
    pub fn get_flcs(&self) -> (flcs: XPLN11FlightCtrlsProvider)
        ensures
            flcs.host@ == self.host@,
            flcs.write_port == self.write_port,
    {
        XPLN11FlightCtrlsProvider { host: self.host.clone(), write_port: self.write_port }
    }
}

/// The encoding half of the live flight-control sink. Whoever owns the socket
/// sends what it writes to `host` and `write_port`.
#[derive(Debug, Clone)]
pub struct XPLN11FlightCtrlsProvider {
    pub host: String,
    pub write_port: i64,
}

impl XPLN11FlightCtrlsProvider {
    /// The datagram that this sink sends: it sets the yoke's pitch ratio to
    /// `1.0`.
    pub fn message(&self) -> (bytes: Vec<u8>)
        ensures
            bytes@ == dref_message(ONE, YOKE_PITCH_RATIO.spec_bytes()),
            bytes@.len() == 509,
    {
        proof {
            reveal_strlit("sim/joystick/yoke_pitch_ratio");
            assert(is_ascii_chars(YOKE_PITCH_RATIO@));
            is_ascii_chars_encode_utf8(YOKE_PITCH_RATIO@);
        }
        let path = YOKE_PITCH_RATIO.as_bytes();
        encode_dref(ONE, path).unwrap()
    }
}

/// The decoding half of the live sensor source. Whoever owns the socket at
/// `host` and `port` hands it each datagram as it arrives.
#[derive(Debug, Clone)]
pub struct XPLN11SensorsProvider {
    pub host: String,
    pub port: i64,
}

impl XPLN11SensorsProvider {
    /// Readies the source. The decoding half holds no connection: there is
    /// nothing to open.
    pub fn connect(&self) {
    }

    /// Ends the source. The decoding half holds no connection: there is
    /// nothing to close.
    pub fn close(&self) {
    }

    /// Decodes the datagram in the first `number_of_bytes` bytes of `buf`.
    pub fn get_data(&self, number_of_bytes: usize, buf: &[u8]) -> (result: Result<
        XPLN11UDPDataMessage,
        DecodeError,
    >)
        requires
            number_of_bytes <= buf@.len(),
        ensures
            result is Err <==> number_of_bytes < 9,
            result is Err ==> result->Err_0 == DecodeError::TooShort,
            result is Ok ==> result->Ok_0.prologue@ == "DATA"@,
            result is Ok ==> result->Ok_0.data@ == decoded(buf@.take(number_of_bytes as int)),
    {
        decode_data(number_of_bytes, buf)
    }

    /// Turns the datagram in the first `number_of_bytes` bytes of `buf` into
    /// one sample. A datagram that is not decoded yields no sample.
    pub fn acquire(&self, number_of_bytes: usize, buf: &[u8]) -> (result: Result<
        SensorsValues,
        AcquireError,
    >)
        requires
            number_of_bytes <= buf@.len(),
        ensures
            result == acquired(buf@.take(number_of_bytes as int)),
    {
        match self.get_data(number_of_bytes, buf) {
            Ok(message) => Ok(message.sensors_values()),
            Err(e) => Err(AcquireError::Frame(e)),
        }
    }
}

} // verus!
