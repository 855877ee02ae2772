//! The avionics: the air data computer and the autopilot.

pub mod adc;
pub mod autopilot;

use crate::avionics::adc::Adc;
use crate::avionics::autopilot::Autopilot;
use crate::bus::APStateMessage;
use crate::bus::BusMessage;
use crate::flight_ctrl::FlightCtrlsProvider;
use crate::sensors::SensorsProvider;
use std::sync::mpsc::Receiver;
use std::sync::mpsc::Sender;
use vstd::prelude::*;

verus! {

/// The air data computer and the autopilot, wired to their links.
pub struct Avionics<S: SensorsProvider, F: FlightCtrlsProvider> {
    pub adc: Adc<S>,
    pub autopilot: Autopilot<F>,
}

/// Builds the avionics around a sensor source, a flight-control sink and the
/// ends of the two links: the air data computer sends on `adc_tx_gui` and
/// `adc_tx_ap`, the autopilot reads `rx_ap` and sends on `ap_tx_gui`. The
/// autopilot starts in its initial state.
pub fn avionics_init<S: SensorsProvider, F: FlightCtrlsProvider>(
    sensors: S,
    flcs: F,
    adc_tx_gui: Sender<BusMessage>,
    adc_tx_ap: Sender<BusMessage>,
    rx_ap: Receiver<BusMessage>,
    ap_tx_gui: Sender<BusMessage>,
) -> (avionics: Avionics<S, F>)
    ensures
        avionics.adc.sensors == sensors,
        avionics.adc.adc_tx_gui == adc_tx_gui,
        avionics.adc.adc_tx_ap == adc_tx_ap,
        avionics.autopilot.flcs == flcs,
        avionics.autopilot.rx_ap == rx_ap,
        avionics.autopilot.ap_tx_gui == ap_tx_gui,
        avionics.autopilot.ap_state == APStateMessage::initial(),
{
    let adc = Adc { sensors: sensors, adc_tx_gui: adc_tx_gui, adc_tx_ap: adc_tx_ap };
    let autopilot = Autopilot::from(flcs, rx_ap, ap_tx_gui);
    Avionics { adc: adc, autopilot: autopilot }
}

} // verus!
