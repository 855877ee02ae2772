//! The sensor source and the sample it yields.

use crate::providers::xpln11_provider::datagram::DecodeError;
use vstd::prelude::*;

verus! {

/// The word that a quantity holds until a source reports it: that of `0.0`.
pub const UNSET: u32 = 0;

/// Why a sensor source yielded no sample.
#[derive(Debug, Clone, Copy, PartialEq, Eq)]
pub enum AcquireError {
    /// The transport failed: a read timed out, or the socket reported an error.
    Transport,
    /// A datagram arrived and was not decoded.
    Frame(DecodeError),
}

/// A source of sensor samples: the live simulator or a stand-in.
pub trait SensorsProvider {
    /// Whether this source can yield `acquired`. A source says here what it
    /// knows of its own samples: a stand-in names the one sample it reports.
    /// A source that says nothing admits whatever may arrive, as one that
    /// reads the outside world has to.
    open spec fn yields(&self, acquired: Result<SensorsValues, AcquireError>) -> bool {
        true
    }

    /// Yields one sample, in knots, feet, degrees, Mach, g and feet per
    /// minute, or says why there is none this time.
    fn acquire(&self) -> (acquired: Result<SensorsValues, AcquireError>)
        ensures
            self.yields(acquired),
    ;
}

/// One sample of the sensors, each quantity as the word of a single-precision
/// number. A quantity that the source did not report holds `UNSET`.
#[derive(Debug, Clone, Copy, PartialEq, Eq)]
pub struct SensorsValues {
    pub ias: u32,
    pub alt_msl: u32,
    pub alt_agl: u32,
    pub heading: u32,
    pub vs: u32,
    pub aoa: u32,
    pub mach: u32,
    pub g_load: u32,
    pub pitch: u32,
    pub roll: u32,
    pub yaw: u32,
}

impl SensorsValues {
    /// The sample in which no quantity was reported.
    pub open spec fn unset() -> SensorsValues {
        SensorsValues {
            ias: 0,
            alt_msl: 0,
            alt_agl: 0,
            heading: 0,
            vs: 0,
            aoa: 0,
            mach: 0,
            g_load: 0,
            pitch: 0,
            roll: 0,
            yaw: 0,
        }
    }

    pub fn new() -> (values: SensorsValues)
        ensures
            values == Self::unset(),
    {
        SensorsValues {
            ias: 0,
            alt_msl: 0,
            alt_agl: 0,
            heading: 0,
            vs: 0,
            aoa: 0,
            mach: 0,
            g_load: 0,
            pitch: 0,
            roll: 0,
            yaw: 0,
        }
    }

    pub fn from(
        ias: u32,
        alt_msl: u32,
        alt_agl: u32,
        heading: u32,
        vs: u32,
        aoa: u32,
        mach: u32,
        g_load: u32,
        pitch: u32,
        roll: u32,
        yaw: u32,
    ) -> (values: SensorsValues)
        ensures
            values == (SensorsValues {
                ias,
                alt_msl,
                alt_agl,
                heading,
                vs,
                aoa,
                mach,
                g_load,
                pitch,
                roll,
                yaw,
            }),
    {
        SensorsValues { ias, alt_msl, alt_agl, heading, vs, aoa, mach, g_load, pitch, roll, yaw }
    }
}

} // verus!
