//! The autopilot: it owns the autopilot's state, applies each command that
//! the display sends, and tells the display the state that results.

use crate::binary32;
use crate::binary32::word_of_int;
use crate::bus::send;
use crate::bus::try_recv;
use crate::bus::APCmdPayload;
use crate::bus::APStateMessage;
use crate::bus::AdcDataMessage;
use crate::bus::BusMessage;
use crate::bus::BusReceiveError;
use crate::bus::BusSendError;
use crate::flight_ctrl::FlightCtrlsProvider;
use std::sync::mpsc::Receiver;
use std::sync::mpsc::Sender;
use vstd::prelude::*;

verus! {

/// The autopilot, with its flight-control sink, its receiving end of the link
/// from the air data computer and the display, and its sending end of the
/// link to the display.
pub struct Autopilot<F: FlightCtrlsProvider> {
    pub ap_state: APStateMessage,
    pub flcs: F,
    pub rx_ap: Receiver<BusMessage>,
    pub ap_tx_gui: Sender<BusMessage>,
}

/// What the autopilot did in one turn.
#[derive(Debug, Clone, Copy, PartialEq, Eq)]
pub enum ApTurn {
    /// Nothing was waiting on the link.
    Idle,
    /// A sample of the air data was taken in.
    AdcData(AdcDataMessage),
    /// A message that is not for the autopilot was dropped.
    Ignored(BusMessage),
    /// A command was applied, and the state that results was sent to the
    /// display, with this outcome.
    Applied { ap_state: APStateMessage, notified: Result<(), BusSendError> },
    /// Every sender to the autopilot is gone.
    Disconnected,
}

impl ApTurn {
    /// Whether this turn is the one that handing `received` to an autopilot in
    /// state `ap_state` makes. Only the outcome of the send to the display is
    /// left open: that is the link's to say.
    pub open spec fn reports(
        self,
        received: Result<BusMessage, BusReceiveError>,
        ap_state: APStateMessage,
    ) -> bool {
        match received {
            Ok(BusMessage::APCmd(ap_cmd)) => self is Applied && self->Applied_ap_state
                == ap_state.after(ap_cmd),
            Ok(BusMessage::AdcData(adc_data)) => self == ApTurn::AdcData(adc_data),
            Ok(BusMessage::APState(state)) => self == ApTurn::Ignored(BusMessage::APState(state)),
            Err(BusReceiveError::Empty) => self == ApTurn::Idle,
            Err(BusReceiveError::Disconnected) => self == ApTurn::Disconnected,
        }
    }

    /// Whether the task has to stop after this turn: its own link has no
    /// sender left, or the link to the display is closed.
    pub open spec fn ends_task(self) -> bool {
        self == ApTurn::Disconnected || (self matches ApTurn::Applied { notified, .. }
            && notified is Err)
    }

    pub fn is_last(&self) -> (last: bool)
        ensures
            last == self.ends_task(),
    {
        match self {
            ApTurn::Disconnected => true,
            ApTurn::Applied { ap_state: _, notified: Err(_) } => true,
            _ => false,
        }
    }
}

impl APStateMessage {
    /// The state after a command: the one field that the command names
    /// holds the command's value, and every other field is as before.
    /// `SetSpeed` names the speed and its unit.
    pub open spec fn after(self, ap_cmd: APCmdPayload) -> APStateMessage {
        match ap_cmd {
            APCmdPayload::APEngage(on) => APStateMessage { engaged: on, ..self },
            APCmdPayload::EnableAltHoldMode(on) => APStateMessage { alt_hold_mode: on, ..self },
            APCmdPayload::EnaleVSMode(on) => APStateMessage { vs_mode: on, ..self },
            APCmdPayload::EnalbeHeadingHoldMode(on) => APStateMessage { heading_mode: on, ..self },
            APCmdPayload::EnableAutoThrottleMode(on) => APStateMessage {
                auto_throttle_mode: on,
                ..self
            },
            APCmdPayload::SetHeading { heading, turn_side } => APStateMessage {
                heading: word_of_int(heading as int) as u32,
                ..self
            },
            APCmdPayload::SetSpeed { speed, unit } => APStateMessage {
                speed: speed,
                speed_unit: unit,
                ..self
            },
            APCmdPayload::SetVs(vs) => APStateMessage { vs: vs, ..self },
            APCmdPayload::SetAlt(alt) => APStateMessage { alt: alt, ..self },
            APCmdPayload::SetBankAngle(bank_angle) => APStateMessage {
                bank_angle: word_of_int(bank_angle as int) as u32,
                ..self
            },
        }
    }

    /// Applies a command to the state.
    pub fn apply(&mut self, ap_cmd: APCmdPayload)
        ensures
            *final(self) == old(self).after(ap_cmd),
    {
        match ap_cmd {
            APCmdPayload::APEngage(on) => {
                self.engaged = on;
            },
            APCmdPayload::EnableAltHoldMode(on) => {
                self.alt_hold_mode = on;
            },
            APCmdPayload::EnaleVSMode(on) => {
                self.vs_mode = on;
            },
            APCmdPayload::EnalbeHeadingHoldMode(on) => {
                self.heading_mode = on;
            },
            APCmdPayload::EnableAutoThrottleMode(on) => {
                self.auto_throttle_mode = on;
            },
            APCmdPayload::SetHeading { heading, turn_side: _ } => {
                self.heading = binary32::from_u8(heading);
            },
            APCmdPayload::SetSpeed { speed, unit } => {
                self.speed = speed;
                self.speed_unit = unit;
            },
            APCmdPayload::SetVs(vs) => {
                self.vs = vs;
            },
            APCmdPayload::SetAlt(alt) => {
                self.alt = alt;
            },
            APCmdPayload::SetBankAngle(bank_angle) => {
                self.bank_angle = binary32::from_i8(bank_angle);
            },
        }
    }
}

/// The state that the autopilot holds after it was handed `received`: a
/// command is applied, anything else leaves the state as it is.
pub open spec fn state_after(
    ap_state: APStateMessage,
    received: Result<BusMessage, BusReceiveError>,
) -> APStateMessage {
    match received {
        Ok(BusMessage::APCmd(ap_cmd)) => ap_state.after(ap_cmd),
        _ => ap_state,
    }
}

/// The message that the autopilot sends to the display after it was handed
/// `received`: the state that results from a command, and nothing otherwise.
pub open spec fn notice_after(
    ap_state: APStateMessage,
    received: Result<BusMessage, BusReceiveError>,
) -> Option<BusMessage> {
    match received {
        Ok(BusMessage::APCmd(ap_cmd)) => Some(BusMessage::APState(ap_state.after(ap_cmd))),
        _ => None,
    }
}

/// The message that tells the display a state of the autopilot.
pub fn state_notice(ap_state: APStateMessage) -> (notice: BusMessage)
    ensures
        notice == BusMessage::APState(ap_state),
{
    BusMessage::APState(ap_state)
}

/// The autopilot's reaction to what its link handed it: the state it holds
/// afterwards, and the message, if any, that it owes the display.
pub fn react(ap_state: APStateMessage, received: Result<BusMessage, BusReceiveError>) -> (reaction:
    (APStateMessage, Option<BusMessage>))
    ensures
        reaction.0 == state_after(ap_state, received),
        reaction.1 == notice_after(ap_state, received),
{
    match received {
        Ok(BusMessage::APCmd(ap_cmd)) => {
            let mut next = ap_state;
            next.apply(ap_cmd);
            (next, Some(state_notice(next)))
        },
        _ => (ap_state, None),
    }
}

/// A command applied twice in a row leaves the state that applying it once
/// leaves: a command overwrites and never accumulates.
pub proof fn lemma_command_idempotent(ap_state: APStateMessage, ap_cmd: APCmdPayload)
    ensures
        ap_state.after(ap_cmd).after(ap_cmd) == ap_state.after(ap_cmd),
{
}

/// Of two commands in a row that name the same field the second one counts.
pub proof fn lemma_set_alt_latest_counts(ap_state: APStateMessage, first: u32, second: u32)
    ensures
        ap_state.after(APCmdPayload::SetAlt(first)).after(APCmdPayload::SetAlt(second))
            == ap_state.after(APCmdPayload::SetAlt(second)),
{
}

/// Handing the autopilot the same message twice in a row leaves the state
/// that handing it once leaves, and the display is told the same state both
/// times: the state that the autopilot then holds.
pub proof fn lemma_event_idempotent(
    ap_state: APStateMessage,
    received: Result<BusMessage, BusReceiveError>,
)
    ensures
        state_after(state_after(ap_state, received), received) == state_after(ap_state, received),
        notice_after(state_after(ap_state, received), received) == notice_after(
            ap_state,
            received,
        ),
        notice_after(ap_state, received) matches Some(notice) ==> notice == BusMessage::APState(
            state_after(ap_state, received),
        ),
{
}

/// A fresh autopilot that is told an altitude holds that altitude, keeps
/// every other field at its initial value, and owes the display exactly one
/// message: that state.
pub proof fn lemma_fresh_set_alt(alt: u32)
    ensures
        state_after(
            APStateMessage::initial(),
            Ok(BusMessage::APCmd(APCmdPayload::SetAlt(alt))),
        ) == (APStateMessage { alt: alt, ..APStateMessage::initial() }),
        notice_after(
            APStateMessage::initial(),
            Ok(BusMessage::APCmd(APCmdPayload::SetAlt(alt))),
        ) == Some(BusMessage::APState(APStateMessage { alt: alt, ..APStateMessage::initial() })),
{
}

/// Told the same altitude twice, the autopilot owes the display the same
/// message both times, and that message carries the altitude it was told.
pub proof fn lemma_set_alt_twice_same_notice(ap_state: APStateMessage, alt: u32)
    ensures
        ({
            let told = Ok::<BusMessage, BusReceiveError>(
                BusMessage::APCmd(APCmdPayload::SetAlt(alt)),
            );
            let first = notice_after(ap_state, told);
            let second = notice_after(state_after(ap_state, told), told);
            &&& first == second
            &&& first == Some(BusMessage::APState(APStateMessage { alt: alt, ..ap_state }))
        }),
{
}

impl<F: FlightCtrlsProvider> Autopilot<F> {
    /// An autopilot in its initial state.
    pub fn from(flcs: F, rx_ap: Receiver<BusMessage>, ap_tx_gui: Sender<BusMessage>) -> (autopilot:
        Self)
        ensures
            autopilot.ap_state == APStateMessage::initial(),
            autopilot.flcs == flcs,
            autopilot.rx_ap == rx_ap,
            autopilot.ap_tx_gui == ap_tx_gui,
    {
        Self { ap_state: APStateMessage::new(), flcs: flcs, rx_ap: rx_ap, ap_tx_gui: ap_tx_gui }
    }

    /// Takes one message from the link, if one waits, and handles it as
    /// [`Autopilot::handle_event`] says: the turn and the state afterwards are
    /// those that something the link can hand over leads to. So the state
    /// changes only in a turn that applied a command, to the state that the
    /// turn carries, and that state is the old one after one command.
    pub fn handle_bus_message(&mut self) -> (turn: ApTurn)
        ensures
            exists|received: Result<BusMessage, BusReceiveError>| #[trigger]
                turn.reports(received, old(self).ap_state) && final(self).ap_state == state_after(
                    old(self).ap_state,
                    received,
                ),
            turn matches ApTurn::Applied { ap_state, .. } ==> final(self).ap_state == ap_state,
            !(turn is Applied) ==> final(self).ap_state == old(self).ap_state,
            final(self).flcs == old(self).flcs,
            final(self).rx_ap == old(self).rx_ap,
            final(self).ap_tx_gui == old(self).ap_tx_gui,
    {
        let received = try_recv(&self.rx_ap);
        self.handle_event(received)
    }

    /// Handles what the link handed over.
    ///
    /// A command is applied to the state, and the state that results is sent
    /// to the display once. A sample of the air data is taken in and changes
    /// nothing. A message of any other kind is dropped. An empty link leaves
    /// the autopilot idle; a link without senders ends its task.
    pub fn handle_event(&mut self, received: Result<BusMessage, BusReceiveError>) -> (turn: ApTurn)
        ensures
            final(self).ap_state == state_after(old(self).ap_state, received),
            final(self).flcs == old(self).flcs,
            final(self).rx_ap == old(self).rx_ap,
            final(self).ap_tx_gui == old(self).ap_tx_gui,
            turn.reports(received, old(self).ap_state),
    {
        match received {
            Ok(bus_message) => match bus_message {
                BusMessage::AdcData(adc_data) => {
                    self.handle_adc_data_message(adc_data);
                    ApTurn::AdcData(adc_data)
                },
                BusMessage::APCmd(ap_cmd) => {
                    let notified = self.handle_ap_cmd_message(ap_cmd);
                    ApTurn::Applied { ap_state: self.ap_state, notified: notified }
                },
                _ => ApTurn::Ignored(bus_message),
            },
            Err(e) => match e {
                BusReceiveError::Empty => ApTurn::Idle,
                BusReceiveError::Disconnected => ApTurn::Disconnected,
            },
        }
    }

    /// Takes in a sample of the air data. The autopilot does not steer by the
    /// sensors yet: the sample changes nothing.
    pub fn handle_adc_data_message(&mut self, adc_data: AdcDataMessage)
        ensures
            final(self).ap_state == old(self).ap_state,
            final(self).flcs == old(self).flcs,
            final(self).rx_ap == old(self).rx_ap,
            final(self).ap_tx_gui == old(self).ap_tx_gui,
    {
    }

    /// Applies a command and sends the state that results to the display:
    /// the autopilot takes the state that [`react`] gives as its own, and
    /// hands the one message that [`react`] owes the display to the link.
    pub fn handle_ap_cmd_message(&mut self, ap_cmd: APCmdPayload) -> (notified: Result<
        (),
        BusSendError,
    >)
        ensures
            final(self).ap_state == old(self).ap_state.after(ap_cmd),
            final(self).flcs == old(self).flcs,
            final(self).rx_ap == old(self).rx_ap,
            final(self).ap_tx_gui == old(self).ap_tx_gui,
    {
        let (next, notice) = react(self.ap_state, Ok(BusMessage::APCmd(ap_cmd)));
        self.ap_state = next;
        self.notify_observers(notice.unwrap())
    }

    /// Sets the target altitude.
    pub fn set_ap_alt(&mut self, alt: u32)
        ensures
            final(self).ap_state == old(self).ap_state.after(APCmdPayload::SetAlt(alt)),
            final(self).flcs == old(self).flcs,
            final(self).rx_ap == old(self).rx_ap,
            final(self).ap_tx_gui == old(self).ap_tx_gui,
    {
        self.ap_state.alt = alt;
    }

    /// Hands a notice to the link to the display.
    fn notify_observers(&self, notice: BusMessage) -> (notified: Result<(), BusSendError>) {
        send(&self.ap_tx_gui, notice)
    }
}

} // verus!
