//! A stand-in for the simulator: its sensors report one fixed sample, and its
//! flight controls take every command and do nothing.

use crate::flight_ctrl::FlightCtrlsProvider;
use crate::providers::Provider;
use crate::sensors::AcquireError;
use crate::sensors::SensorsProvider;
use crate::sensors::SensorsValues;
use vstd::prelude::*;
use yaml_rust::Yaml;

verus! {

pub const NAME: &'static str = "SIMMOCK";

/// The stand-in provider.
#[derive(Debug, Clone, Copy, PartialEq, Eq)]
pub struct SimMockProvider {}

/// Its sensors: the same sample every time.
#[derive(Debug, Clone, Copy, PartialEq, Eq)]
pub struct SimMockSensorsProvider {}

/// Its flight controls: every command is taken and nothing is done.
#[derive(Debug, Clone, Copy, PartialEq, Eq)]
pub struct SimMockFlightCtrlsProvider {}

/// The sample that the stand-in reports: 250 kt, 10000 ft above mean sea
/// level, heading 180 degrees, level flight, 5 degrees of angle of attack,
/// Mach 0.5, 1 g. What it does not report is unset.
pub open spec fn mock_sample() -> SensorsValues {
    SensorsValues {
        ias: 0x437A_0000,
        alt_msl: 0x461C_4000,
        heading: 0x4334_0000,
        vs: 0,
        aoa: 0x40A0_0000,
        mach: 0x3F00_0000,
        g_load: 0x3F80_0000,
        ..SensorsValues::unset()
    }
}

impl Provider for SimMockProvider {
    type Sensors = SimMockSensorsProvider;

    type FlightCtrls = SimMockFlightCtrlsProvider;

    fn name(&self) -> (name: &str)
        ensures
            name@ == "SIMMOCK"@,
    {
        NAME
    }

    fn init(&mut self) {
    }

    fn shutdown(&self) {
    }

    fn get_sensors(&self) -> SimMockSensorsProvider {
        SimMockSensorsProvider {  }
    }

    fn get_flcs(&self) -> SimMockFlightCtrlsProvider {
        SimMockFlightCtrlsProvider {  }
    }
}

impl SensorsProvider for SimMockSensorsProvider {
    /// The stand-in yields its one sample and nothing else.
    open spec fn yields(&self, acquired: Result<SensorsValues, AcquireError>) -> bool {
        acquired == Ok::<SensorsValues, AcquireError>(mock_sample())
    }

    fn acquire(&self) -> (acquired: Result<SensorsValues, AcquireError>)
        ensures
            acquired == Ok::<SensorsValues, AcquireError>(mock_sample()),
    {
        Ok(
            SensorsValues::from(
                0x437A_0000,
                0x461C_4000,
                0,
                0x4334_0000,
                0,
                0x40A0_0000,
                0x3F00_0000,
                0x3F80_0000,
                0,
                0,
                0,
            ),
        )
    }
}

impl FlightCtrlsProvider for SimMockFlightCtrlsProvider {
    fn send(&self) {
    }
}

/// Builds the stand-in. It takes nothing from `config`.
pub fn simmock_provider_init(config: &Yaml) -> (provider: SimMockProvider) {
    SimMockProvider {  }
}

} // verus!
