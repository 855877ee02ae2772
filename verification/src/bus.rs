//! The messages that the air data computer, the autopilot and the display
//! exchange, and the links that carry them.
//!
//! Two links exist, made once at start. The air data computer and the
//! autopilot send to the display; the air data computer and the display send
//! to the autopilot. Each sender holds its own sending end, and each consumer
//! alone holds its receiving end.
//!
//! A link keeps the order of what one sender puts on it; between two senders
//! it promises no order. It holds any number of messages: a consumer that
//! stops reading lets it grow without bound. Sending never waits.
//!
//! A closed link is how a task learns that it has to stop. A sender whose
//! consumer is gone gets [`BusSendError`], a consumer whose senders are all
//! gone gets [`BusReceiveError::Disconnected`], and either ends its own task
//! and nothing else.

use std::sync::mpsc::Receiver;
use std::sync::mpsc::Sender;
use vstd::prelude::*;

verus! {

/// One message on a link.
#[derive(Debug, Clone, Copy, PartialEq, Eq)]
pub enum BusMessage {
    /// A sample of the sensors, from the air data computer.
    AdcData(AdcDataMessage),
    /// The autopilot's state, from the autopilot.
    APState(APStateMessage),
    /// A command for the autopilot, from the display.
    APCmd(APCmdPayload),
}

/// One sample of the air data, each quantity as the word of a
/// single-precision number: speed in knots, altitudes in feet, angles in
/// degrees, vertical speed in feet per minute.
#[derive(Debug, Clone, Copy, PartialEq, Eq)]
pub struct AdcDataMessage {
    pub ias: u32,
    pub alt_msl: u32,
    pub alt_agl: u32,
    pub heading: u32,
    pub vs: u32,
    pub aoa: u32,
    pub mach: u32,
    pub g_load: u32,
    pub pitch_angle: u32,
    pub roll_angle: u32,
    pub yaw: u32,
}

impl AdcDataMessage {
    /// The sample in which every quantity is `0.0`.
    pub open spec fn zeroed() -> AdcDataMessage {
        AdcDataMessage {
            ias: 0,
            alt_msl: 0,
            alt_agl: 0,
            heading: 0,
            vs: 0,
            aoa: 0,
            mach: 0,
            g_load: 0,
            pitch_angle: 0,
            roll_angle: 0,
            yaw: 0,
        }
    }

    pub fn new() -> (message: Self)
        ensures
            message == Self::zeroed(),
    {
        Self {
            ias: 0,
            alt_msl: 0,
            alt_agl: 0,
            heading: 0,
            vs: 0,
            aoa: 0,
            mach: 0,
            g_load: 0,
            pitch_angle: 0,
            roll_angle: 0,
            yaw: 0,
        }
    }
}

/// The autopilot's state: whether it is engaged, which modes are on, and the
/// targets it flies to, each target as the word of a single-precision number.
#[derive(Debug, Clone, Copy, PartialEq, Eq)]
pub struct APStateMessage {
    pub engaged: bool,
    pub alt_hold_mode: bool,
    pub vs_mode: bool,
    pub heading_mode: bool,
    pub auto_throttle_mode: bool,
    pub alt: u32,
    pub heading: u32,
    pub speed: u32,
    pub speed_unit: SpeedUnit,
    pub bank_angle: u32,
    pub vs: u32,
}

impl APStateMessage {
    /// The state at start: disengaged, every mode off, target altitude
    /// 15000 ft, heading 180 degrees, speed 250 kt indicated, bank 10 degrees,
    /// vertical speed 0.
    pub open spec fn initial() -> APStateMessage {
        APStateMessage {
            engaged: false,
            alt_hold_mode: false,
            vs_mode: false,
            heading_mode: false,
            auto_throttle_mode: false,
            alt: 0x466A_6000,
            heading: 0x4334_0000,
            speed: 0x437A_0000,
            speed_unit: SpeedUnit::IAS,
            bank_angle: 0x4120_0000,
            vs: 0,
        }
    }

    pub fn new() -> (state: Self)
        ensures
            state == Self::initial(),
    {
        Self {
            engaged: false,
            alt_hold_mode: false,
            vs_mode: false,
            heading_mode: false,
            auto_throttle_mode: false,
            alt: 0x466A_6000,
            heading: 0x4334_0000,
            speed: 0x437A_0000,
            speed_unit: SpeedUnit::IAS,
            bank_angle: 0x4120_0000,
            vs: 0,
        }
    }
}

/// A command for the autopilot.
#[derive(Debug, Clone, Copy, PartialEq, Eq)]
pub enum APCmdPayload {
    APEngage(bool),
    EnableAltHoldMode(bool),
    EnaleVSMode(bool),
    EnalbeHeadingHoldMode(bool),
    EnableAutoThrottleMode(bool),
    /// A target heading in whole degrees, and the side to turn to.
    SetHeading { heading: u8, turn_side: APTurnSide },
    /// A target speed, as the word of a single-precision number, and its unit.
    SetSpeed { speed: u32, unit: SpeedUnit },
    /// A target vertical speed, as the word of a single-precision number.
    SetVs(u32),
    /// A target altitude, as the word of a single-precision number.
    SetAlt(u32),
    /// A target bank angle in whole degrees.
    SetBankAngle(i8),
}

#[derive(Debug, Clone, Copy, PartialEq, Eq)]
pub enum APTurnSide {
    Left,
    Right,
}

#[derive(Debug, Clone, Copy, PartialEq, Eq)]
pub enum SpeedUnit {
    IAS,
    MACH,
}

/// The consumer at the end of a link.
#[derive(Debug, Clone, Copy, PartialEq, Eq)]
pub enum Link {
    /// The display.
    Gui,
    /// The autopilot.
    Autopilot,
}

/// A message could not be put on a link.
#[derive(Debug, Clone, Copy, PartialEq, Eq)]
pub enum BusSendError {
    /// The receiving end is gone. The sending task has to stop.
    Disconnected,
}

/// No message could be taken from a link.
#[derive(Debug, Clone, Copy, PartialEq, Eq)]
pub enum BusReceiveError {
    /// Nothing is waiting. More may come.
    Empty,
    /// Every sending end is gone and nothing is waiting. The receiving task
    /// has to stop.
    Disconnected,
}

/// `std::sync::mpsc::Sender`, the sending end of a link. It is carried and
/// handed to [`send`]; nothing of its inside is known here.
#[verifier::external_type_specification]
#[verifier::external_body]
#[verifier::reject_recursive_types(T)]
pub struct ExSender<T>(Sender<T>);

/// `std::sync::mpsc::Receiver`, the receiving end of a link. It is carried
/// and handed to [`try_recv`]; nothing of its inside is known here.
#[verifier::external_type_specification]
#[verifier::external_body]
#[verifier::reject_recursive_types(T)]
pub struct ExReceiver<T>(Receiver<T>);

/// Calls `std::sync::mpsc::Sender::send`, which never blocks, and tells its
/// error as [`BusSendError::Disconnected`]. Nothing is claimed of the outcome:
/// whether the message is accepted depends on whether the receiving end still
/// exists.
#[verifier::external_body]
pub(crate) fn send(link: &Sender<BusMessage>, message: BusMessage) -> (sent: Result<
    (),
    BusSendError,
>) {
    match link.send(message) {
        Ok(()) => Ok(()),
        Err(_) => Err(BusSendError::Disconnected),
    }
}

/// Calls `std::sync::mpsc::Receiver::try_recv`, which never blocks, and tells
/// each of its two errors as the [`BusReceiveError`] of the same name. Nothing
/// is claimed of the outcome: it depends on what the senders have done.
#[verifier::external_body]
pub(crate) fn try_recv(link: &Receiver<BusMessage>) -> (received: Result<
    BusMessage,
    BusReceiveError,
>) {
    match link.try_recv() {
        Ok(message) => Ok(message),
        Err(std::sync::mpsc::TryRecvError::Empty) => Err(BusReceiveError::Empty),
        Err(std::sync::mpsc::TryRecvError::Disconnected) => Err(BusReceiveError::Disconnected),
    }
}

} // verus!
