//! Providers: each gives the avionics a source of sensor samples and a sink
//! for flight-control commands.

pub mod sim_mock_provider;
pub mod xpln11_provider;

use crate::config::config_str;
use crate::config::text_of;
use crate::config::yaml_str_at;
use crate::config::ConfigError;
use crate::flight_ctrl::FlightCtrlsProvider;
use crate::sensors::SensorsProvider;
use vstd::prelude::*;
use yaml_rust::Yaml;

verus! {

/// One provider: the live simulator or a stand-in.
pub trait Provider {
    /// Its source of sensor samples.
    type Sensors: SensorsProvider;

    /// Its sink for flight-control commands.
    type FlightCtrls: FlightCtrlsProvider;

    fn name(&self) -> &str;

    /// Readies the provider. Called once, before the source and the sink are
    /// asked for.
    fn init(&mut self);

    fn shutdown(&self);

    fn get_sensors(&self) -> Self::Sensors;

    fn get_flcs(&self) -> Self::FlightCtrls;
}

/// The providers that a configuration can name.
#[derive(Debug, Clone, Copy, PartialEq, Eq)]
pub enum SensorsProviderEnum {
    XPLN11,
    SIMMOCK,
}

impl SensorsProviderEnum {
    /// The name by which a configuration asks for this provider.
    pub open spec fn label(self) -> Seq<char> {
        match self {
            SensorsProviderEnum::XPLN11 => "xpln11"@,
            SensorsProviderEnum::SIMMOCK => "simmock"@,
        }
    }

    pub fn to_string(&self) -> (name: String)
        ensures
            name@ == self.label(),
    {
        match self {
            SensorsProviderEnum::XPLN11 => "xpln11".to_owned(),
            SensorsProviderEnum::SIMMOCK => "simmock".to_owned(),
        }
    }
}

/// The provider that the entry `provider.name` of a configuration stands
/// for.
pub open spec fn provider_of(name: Option<Seq<char>>) -> Result<SensorsProviderEnum, ConfigError> {
    match name {
        None => Err(ConfigError::MissingProviderName),
        Some(label) => if label == SensorsProviderEnum::XPLN11.label() {
            Ok(SensorsProviderEnum::XPLN11)
        } else if label == SensorsProviderEnum::SIMMOCK.label() {
            Ok(SensorsProviderEnum::SIMMOCK)
        } else {
            Err(ConfigError::UnknownProvider)
        },
    }
}

/// Checks the entry `provider.name`: it has to be there and has to be the
/// name of a provider.
pub fn provider_named(name: Option<String>) -> (provider: Result<SensorsProviderEnum, ConfigError>)
    ensures
        provider == provider_of(text_of(name)),
{
    match name {
        None => Err(ConfigError::MissingProviderName),
        Some(provider_name) => {
            if SensorsProviderEnum::XPLN11.to_string() == provider_name {
                Ok(SensorsProviderEnum::XPLN11)
            } else if SensorsProviderEnum::SIMMOCK.to_string() == provider_name {
                Ok(SensorsProviderEnum::SIMMOCK)
            } else {
                Err(ConfigError::UnknownProvider)
            }
        },
    }
}

/// Reads from `config` which provider to fly with.
pub fn resolve_provider(config: &Yaml) -> (provider: Result<SensorsProviderEnum, ConfigError>)
    ensures
        provider == provider_of(yaml_str_at(*config, "provider"@, "name"@)),
{
    provider_named(config_str(config, "provider", "name"))
}

} // verus!
