use autopilot::bus::APCmdPayload;
use autopilot::bus::APStateMessage;
use autopilot::bus::AdcDataMessage;
use autopilot::bus::BusMessage;
use autopilot::bus::BusReceiveError;
use autopilot::bus::BusSendError;
use autopilot::gui::altitude_indicator::generate_alt_scale;
use autopilot::gui::common::ap_cmd_message;
use autopilot::gui::common::send_ap_cmd;
use autopilot::gui::GuiState;
use std::sync::mpsc::channel;
use std::sync::mpsc::TryRecvError;

#[test]
fn the_picture_starts_from_zero_air_data_and_the_initial_autopilot() {
    let state = GuiState::new();
    assert_eq!(state.adc_state, AdcDataMessage::new());
    assert_eq!(state.ap_state, APStateMessage::new());
}

#[test]
fn a_sample_replaces_the_air_data() {
    let mut state = GuiState::new();
    let sample = AdcDataMessage { ias: 250f32.to_bits(), ..AdcDataMessage::new() };
    assert!(state.handle_bus_message(Ok(BusMessage::AdcData(sample))));
    assert_eq!(state, GuiState { adc_state: sample, ap_state: APStateMessage::new() });
    let next = AdcDataMessage { heading: 90f32.to_bits(), ..AdcDataMessage::new() };
    state.handle_adc_data_message(next);
    assert_eq!(state, GuiState { adc_state: next, ap_state: APStateMessage::new() });
}

#[test]
fn a_state_replaces_the_autopilot_state() {
    let mut state = GuiState::new();
    let ap_state = APStateMessage { engaged: true, alt: 20_000f32.to_bits(), ..APStateMessage::new() };
    assert!(state.handle_bus_message(Ok(BusMessage::APState(ap_state))));
    assert_eq!(state, GuiState { adc_state: AdcDataMessage::new(), ap_state });
    state.handle_ap_state_message(APStateMessage::new());
    assert_eq!(state, GuiState::new());
}

#[test]
fn the_picture_ignores_commands_and_silence() {
    let mut state = GuiState::new();
    assert!(state.handle_bus_message(Ok(BusMessage::APCmd(APCmdPayload::APEngage(true)))));
    assert_eq!(state, GuiState::new());
    assert!(state.handle_bus_message(Err(BusReceiveError::Empty)));
    assert_eq!(state, GuiState::new());
    assert!(!state.handle_bus_message(Err(BusReceiveError::Disconnected)));
    assert_eq!(state, GuiState::new());
}

#[test]
fn a_command_is_sent_as_a_command_message() {
    let ap_cmd = APCmdPayload::SetAlt(15_500f32.to_bits());
    assert_eq!(ap_cmd_message(ap_cmd), BusMessage::APCmd(ap_cmd));
    let (tx_ap, rx_ap) = channel::<BusMessage>();
    assert_eq!(send_ap_cmd(&tx_ap, ap_cmd), Ok(()));
    assert_eq!(rx_ap.try_recv(), Ok(BusMessage::APCmd(ap_cmd)));
    assert_eq!(rx_ap.try_recv(), Err(TryRecvError::Empty));
    drop(rx_ap);
    assert_eq!(send_ap_cmd(&tx_ap, ap_cmd), Err(BusSendError::Disconnected));
}

#[test]
fn one_sender_keeps_its_order() {
    let (tx_ap, rx_ap) = channel::<BusMessage>();
    for feet in 0..50 {
        assert_eq!(send_ap_cmd(&tx_ap, APCmdPayload::SetAlt((feet as f32).to_bits())), Ok(()));
    }
    for feet in 0..50 {
        assert_eq!(
            rx_ap.try_recv(),
            Ok(BusMessage::APCmd(APCmdPayload::SetAlt((feet as f32).to_bits())))
        );
    }
}

#[test]
fn the_altitude_tape_steps_from_start_to_below_end() {
    assert_eq!(generate_alt_scale(9_600, 10_400, 100), vec![
        9_600, 9_700, 9_800, 9_900, 10_000, 10_100, 10_200, 10_300
    ]);
    assert_eq!(generate_alt_scale(0, 250, 100), vec![0, 100, 200]);
    assert_eq!(generate_alt_scale(0, 200, 100), vec![0, 100]);
    assert_eq!(generate_alt_scale(-400, 1, 100), vec![-400, -300, -200, -100, 0]);
    assert_eq!(generate_alt_scale(5, 5, 1), Vec::<i32>::new());
    assert_eq!(generate_alt_scale(6, 5, 1), Vec::<i32>::new());
    assert_eq!(generate_alt_scale(i32::MAX - 3, i32::MAX, 2), vec![i32::MAX - 3, i32::MAX - 1]);
    assert_eq!(generate_alt_scale(i32::MIN, i32::MAX, i32::MAX), vec![i32::MIN, -1, i32::MAX - 1]);
}
