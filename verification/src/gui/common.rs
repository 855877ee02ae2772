//! What the display's controls share.

use crate::bus::send;
use crate::bus::APCmdPayload;
use crate::bus::BusMessage;
use crate::bus::BusSendError;
use std::sync::mpsc::Sender;
use vstd::prelude::*;

verus! {

/// The bus message that carries a command to the autopilot.
pub fn ap_cmd_message(ap_cmd_payload: APCmdPayload) -> (bus_message: BusMessage)
    ensures
        bus_message == BusMessage::APCmd(ap_cmd_payload),
{
    BusMessage::APCmd(ap_cmd_payload)
}

/// Sends a command to the autopilot on the display's end of the link. What
/// comes back is the link's to say: an error means that the autopilot is gone.
pub fn send_ap_cmd(gui_tx_ap: &Sender<BusMessage>, ap_cmd_payload: APCmdPayload) -> (sent: Result<
    (),
    BusSendError,
>) {
    let bus_message: BusMessage = ap_cmd_message(ap_cmd_payload);
    send(gui_tx_ap, bus_message)
}

} // verus!
