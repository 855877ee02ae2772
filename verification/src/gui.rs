//! What the display holds of the aircraft, and how the bus changes it.

pub mod altitude_indicator;
pub mod common;

use crate::bus::APStateMessage;
use crate::bus::AdcDataMessage;
use crate::bus::BusMessage;
use crate::bus::BusReceiveError;
use vstd::prelude::*;

verus! {

/// The display's picture of the aircraft: the last sample of the air data and
/// the last state of the autopilot that reached it.
#[derive(Debug, Clone, Copy, PartialEq, Eq)]
pub struct GuiState {
    pub adc_state: AdcDataMessage,
    pub ap_state: APStateMessage,
}

/// The picture after the display was handed `received`: a sample replaces the
/// air data, a state replaces the autopilot's state, and anything else leaves
/// the picture as it is.
pub open spec fn picture_after(state: GuiState, received: Result<BusMessage, BusReceiveError>)
    -> GuiState {
    match received {
        Ok(BusMessage::AdcData(adc_data)) => GuiState { adc_state: adc_data, ..state },
        Ok(BusMessage::APState(ap_state)) => GuiState { ap_state: ap_state, ..state },
        _ => state,
    }
}

impl GuiState {
    /// The picture before any message: air data all zero, and the autopilot
    /// in its initial state.
    pub open spec fn initial() -> GuiState {
        GuiState { adc_state: AdcDataMessage::zeroed(), ap_state: APStateMessage::initial() }
    }

    pub fn new() -> (state: Self)
        ensures
            state == Self::initial(),
    {
        Self { adc_state: AdcDataMessage::new(), ap_state: APStateMessage::new() }
    }

    /// Takes in what the display's link handed over, and says whether the
    /// display's task goes on: it ends when the link has no sender left.
    pub fn handle_bus_message(&mut self, received: Result<BusMessage, BusReceiveError>) -> (goes_on:
        bool)
        ensures
            *final(self) == picture_after(*old(self), received),
            goes_on == (received != Err::<BusMessage, BusReceiveError>(
                BusReceiveError::Disconnected,
            )),
    {
        match received {
            Ok(bus_message) => {
                match bus_message {
                    BusMessage::AdcData(adc_data) => self.handle_adc_data_message(adc_data),
                    BusMessage::APState(ap_state) => self.handle_ap_state_message(ap_state),
                    _ => (),
                };
                true
            },
            Err(e) => match e {
                BusReceiveError::Empty => true,
                BusReceiveError::Disconnected => false,
            },
        }
    }

    pub fn handle_adc_data_message(&mut self, adc_data: AdcDataMessage)
        ensures
            *final(self) == (GuiState { adc_state: adc_data, ..*old(self) }),
    {
        self.adc_state = adc_data;
    }

    pub fn handle_ap_state_message(&mut self, ap_cmd: APStateMessage)
        ensures
            *final(self) == (GuiState { ap_state: ap_cmd, ..*old(self) }),
    {
        self.ap_state = ap_cmd;
    }
}

} // verus!
