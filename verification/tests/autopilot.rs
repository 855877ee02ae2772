use autopilot::avionics::autopilot::react;
use autopilot::avionics::autopilot::state_notice;
use autopilot::avionics::autopilot::ApTurn;
use autopilot::avionics::autopilot::Autopilot;
use autopilot::bus::APCmdPayload;
use autopilot::bus::APStateMessage;
use autopilot::bus::APTurnSide;
use autopilot::bus::AdcDataMessage;
use autopilot::bus::BusMessage;
use autopilot::bus::BusReceiveError;
use autopilot::bus::BusSendError;
use autopilot::bus::SpeedUnit;
use autopilot::providers::sim_mock_provider::SimMockFlightCtrlsProvider;
use std::sync::mpsc::channel;
use std::sync::mpsc::Receiver;
use std::sync::mpsc::Sender;
use std::sync::mpsc::TryRecvError;

fn wired() -> (Autopilot<SimMockFlightCtrlsProvider>, Sender<BusMessage>, Receiver<BusMessage>) {
    let (tx_ap, rx_ap) = channel::<BusMessage>();
    let (tx_gui, rx_gui) = channel::<BusMessage>();
    (Autopilot::from(SimMockFlightCtrlsProvider {}, rx_ap, tx_gui), tx_ap, rx_gui)
}

fn every_command() -> Vec<APCmdPayload> {
    vec![
        APCmdPayload::APEngage(true),
        APCmdPayload::APEngage(false),
        APCmdPayload::EnableAltHoldMode(true),
        APCmdPayload::EnaleVSMode(true),
        APCmdPayload::EnalbeHeadingHoldMode(true),
        APCmdPayload::EnableAutoThrottleMode(true),
        APCmdPayload::SetHeading { heading: 90, turn_side: APTurnSide::Left },
        APCmdPayload::SetHeading { heading: 0, turn_side: APTurnSide::Right },
        APCmdPayload::SetSpeed { speed: 0.78f32.to_bits(), unit: SpeedUnit::MACH },
        APCmdPayload::SetVs((-1500f32).to_bits()),
        APCmdPayload::SetAlt(15_000f32.to_bits()),
        APCmdPayload::SetAlt(32_000f32.to_bits()),
        APCmdPayload::SetBankAngle(-25),
        APCmdPayload::SetBankAngle(30),
    ]
}

#[test]
fn initial_state_is_disengaged_with_the_default_targets() {
    let state = APStateMessage::new();
    assert!(!state.engaged);
    assert!(!state.alt_hold_mode);
    assert!(!state.vs_mode);
    assert!(!state.heading_mode);
    assert!(!state.auto_throttle_mode);
    assert_eq!(f32::from_bits(state.alt), 15_000.0);
    assert_eq!(f32::from_bits(state.heading), 180.0);
    assert_eq!(f32::from_bits(state.speed), 250.0);
    assert_eq!(state.speed_unit, SpeedUnit::IAS);
    assert_eq!(f32::from_bits(state.bank_angle), 10.0);
    assert_eq!(f32::from_bits(state.vs), 0.0);
    let (autopilot, _tx_ap, _rx_gui) = wired();
    assert_eq!(autopilot.ap_state, state);
}

#[test]
fn each_command_overwrites_the_field_it_names() {
    let initial = APStateMessage::new();

    let mut state = initial;
    state.apply(APCmdPayload::APEngage(true));
    assert_eq!(state, APStateMessage { engaged: true, ..initial });

    let mut state = initial;
    state.apply(APCmdPayload::EnableAltHoldMode(true));
    assert_eq!(state, APStateMessage { alt_hold_mode: true, ..initial });

    let mut state = initial;
    state.apply(APCmdPayload::EnaleVSMode(true));
    assert_eq!(state, APStateMessage { vs_mode: true, ..initial });

    let mut state = initial;
    state.apply(APCmdPayload::EnalbeHeadingHoldMode(true));
    assert_eq!(state, APStateMessage { heading_mode: true, ..initial });

    let mut state = initial;
    state.apply(APCmdPayload::EnableAutoThrottleMode(true));
    assert_eq!(state, APStateMessage { auto_throttle_mode: true, ..initial });
    state.apply(APCmdPayload::EnableAutoThrottleMode(false));
    assert_eq!(state, initial);

    let mut state = initial;
    state.apply(APCmdPayload::SetHeading { heading: 90, turn_side: APTurnSide::Right });
    assert_eq!(state, APStateMessage { heading: 90f32.to_bits(), ..initial });

    let mut state = initial;
    state.apply(APCmdPayload::SetSpeed { speed: 0.78f32.to_bits(), unit: SpeedUnit::MACH });
    assert_eq!(
        state,
        APStateMessage { speed: 0.78f32.to_bits(), speed_unit: SpeedUnit::MACH, ..initial }
    );

    let mut state = initial;
    state.apply(APCmdPayload::SetVs((-1500f32).to_bits()));
    assert_eq!(state, APStateMessage { vs: (-1500f32).to_bits(), ..initial });

    let mut state = initial;
    state.apply(APCmdPayload::SetAlt(32_000f32.to_bits()));
    assert_eq!(state, APStateMessage { alt: 32_000f32.to_bits(), ..initial });

    let mut state = initial;
    state.apply(APCmdPayload::SetBankAngle(-25));
    assert_eq!(state, APStateMessage { bank_angle: (-25f32).to_bits(), ..initial });
}

#[test]
fn a_state_is_told_as_a_state_message() {
    let state = APStateMessage { engaged: true, alt: 9_000f32.to_bits(), ..APStateMessage::new() };
    assert_eq!(state_notice(state), BusMessage::APState(state));
    assert_ne!(state_notice(state), state_notice(APStateMessage::new()));
}

#[test]
fn a_fresh_autopilot_told_an_altitude_sends_that_state() {
    let (mut autopilot, _tx_ap, rx_gui) = wired();
    assert_eq!(autopilot.handle_ap_cmd_message(APCmdPayload::SetAlt(20_000f32.to_bits())), Ok(()));
    let expected = APStateMessage {
        engaged: false,
        alt_hold_mode: false,
        vs_mode: false,
        heading_mode: false,
        auto_throttle_mode: false,
        alt: 20_000f32.to_bits(),
        heading: 180f32.to_bits(),
        speed: 250f32.to_bits(),
        speed_unit: SpeedUnit::IAS,
        bank_angle: 10f32.to_bits(),
        vs: 0f32.to_bits(),
    };
    assert_eq!(autopilot.ap_state, expected);
    assert_eq!(rx_gui.try_recv(), Ok(BusMessage::APState(expected)));
    assert_eq!(rx_gui.try_recv(), Err(TryRecvError::Empty));
}

#[test]
fn every_command_is_followed_by_one_message_with_the_new_state() {
    let (mut autopilot, _tx_ap, rx_gui) = wired();
    for ap_cmd in every_command() {
        assert_eq!(autopilot.handle_ap_cmd_message(ap_cmd), Ok(()));
        assert_eq!(rx_gui.try_recv(), Ok(BusMessage::APState(autopilot.ap_state)));
        assert_eq!(rx_gui.try_recv(), Err(TryRecvError::Empty));
    }
}

#[test]
fn set_altitude_twice_is_set_altitude_once() {
    let mut once = APStateMessage::new();
    once.apply(APCmdPayload::SetAlt(15_000f32.to_bits()));
    let mut twice = once;
    twice.apply(APCmdPayload::SetAlt(15_000f32.to_bits()));
    assert_eq!(once, twice);
    assert_eq!(f32::from_bits(twice.alt), 15_000.0);
}

#[test]
fn every_command_twice_is_that_command_once() {
    for first in every_command() {
        let mut start = APStateMessage::new();
        start.apply(first);
        for ap_cmd in every_command() {
            let mut once = start;
            once.apply(ap_cmd);
            let mut twice = once;
            twice.apply(ap_cmd);
            assert_eq!(once, twice);
        }
    }
}

#[test]
fn react_applies_a_command_and_owes_the_display_the_state() {
    let initial = APStateMessage::new();
    let ap_cmd = APCmdPayload::SetAlt(20_000f32.to_bits());
    let (state, notice) = react(initial, Ok(BusMessage::APCmd(ap_cmd)));
    assert_eq!(state, APStateMessage { alt: 20_000f32.to_bits(), ..initial });
    assert_eq!(notice, Some(BusMessage::APState(state)));
    let (again, notice) = react(state, Ok(BusMessage::APCmd(ap_cmd)));
    assert_eq!(again, state);
    assert_eq!(notice, Some(BusMessage::APState(state)));
}

#[test]
fn react_leaves_the_state_on_anything_but_a_command() {
    let initial = APStateMessage::new();
    let sample = AdcDataMessage { ias: 250f32.to_bits(), ..AdcDataMessage::new() };
    assert_eq!(react(initial, Ok(BusMessage::AdcData(sample))), (initial, None));
    let other = APStateMessage { engaged: true, ..initial };
    assert_eq!(react(initial, Ok(BusMessage::APState(other))), (initial, None));
    assert_eq!(react(initial, Err(BusReceiveError::Empty)), (initial, None));
    assert_eq!(react(initial, Err(BusReceiveError::Disconnected)), (initial, None));
}

#[test]
fn a_command_on_the_link_reaches_the_display_as_one_state() {
    let (mut autopilot, tx_ap, rx_gui) = wired();
    tx_ap.send(BusMessage::APCmd(APCmdPayload::SetAlt(15_000f32.to_bits()))).unwrap();
    let turn = autopilot.handle_bus_message();
    let expected = APStateMessage::new();
    assert_eq!(turn, ApTurn::Applied { ap_state: expected, notified: Ok(()) });
    assert!(!turn.is_last());
    assert_eq!(rx_gui.try_recv(), Ok(BusMessage::APState(expected)));
    assert_eq!(rx_gui.try_recv(), Err(TryRecvError::Empty));

    tx_ap.send(BusMessage::APCmd(APCmdPayload::SetAlt(15_000f32.to_bits()))).unwrap();
    let turn = autopilot.handle_bus_message();
    assert_eq!(turn, ApTurn::Applied { ap_state: expected, notified: Ok(()) });
    assert_eq!(autopilot.ap_state, expected);
    assert_eq!(rx_gui.try_recv(), Ok(BusMessage::APState(expected)));
    assert_eq!(rx_gui.try_recv(), Err(TryRecvError::Empty));
}

#[test]
fn the_display_is_told_the_latest_value() {
    let (mut autopilot, tx_ap, rx_gui) = wired();
    let initial = APStateMessage::new();
    tx_ap.send(BusMessage::APCmd(APCmdPayload::SetAlt(16_000f32.to_bits()))).unwrap();
    tx_ap.send(BusMessage::APCmd(APCmdPayload::SetAlt(16_500f32.to_bits()))).unwrap();
    tx_ap.send(BusMessage::APCmd(APCmdPayload::APEngage(true))).unwrap();
    autopilot.handle_bus_message();
    autopilot.handle_bus_message();
    autopilot.handle_bus_message();
    assert_eq!(
        rx_gui.try_recv(),
        Ok(BusMessage::APState(APStateMessage { alt: 16_000f32.to_bits(), ..initial }))
    );
    assert_eq!(
        rx_gui.try_recv(),
        Ok(BusMessage::APState(APStateMessage { alt: 16_500f32.to_bits(), ..initial }))
    );
    assert_eq!(
        rx_gui.try_recv(),
        Ok(BusMessage::APState(APStateMessage {
            alt: 16_500f32.to_bits(),
            engaged: true,
            ..initial
        }))
    );
    assert_eq!(rx_gui.try_recv(), Err(TryRecvError::Empty));
    assert_eq!(f32::from_bits(autopilot.ap_state.alt), 16_500.0);
}

#[test]
fn a_sample_changes_nothing_and_tells_the_display_nothing() {
    let (mut autopilot, tx_ap, rx_gui) = wired();
    let sample = AdcDataMessage { ias: 250f32.to_bits(), ..AdcDataMessage::new() };
    tx_ap.send(BusMessage::AdcData(sample)).unwrap();
    let turn = autopilot.handle_bus_message();
    assert_eq!(turn, ApTurn::AdcData(sample));
    assert!(!turn.is_last());
    assert_eq!(autopilot.ap_state, APStateMessage::new());
    assert_eq!(rx_gui.try_recv(), Err(TryRecvError::Empty));
}

#[test]
fn a_state_message_is_ignored() {
    let (mut autopilot, tx_ap, rx_gui) = wired();
    let other = BusMessage::APState(APStateMessage { engaged: true, ..APStateMessage::new() });
    tx_ap.send(other).unwrap();
    assert_eq!(autopilot.handle_bus_message(), ApTurn::Ignored(other));
    assert_eq!(autopilot.ap_state, APStateMessage::new());
    assert_eq!(rx_gui.try_recv(), Err(TryRecvError::Empty));
}

#[test]
fn an_empty_link_leaves_the_autopilot_idle() {
    let (mut autopilot, _tx_ap, rx_gui) = wired();
    let turn = autopilot.handle_bus_message();
    assert_eq!(turn, ApTurn::Idle);
    assert!(!turn.is_last());
    assert_eq!(autopilot.ap_state, APStateMessage::new());
    assert_eq!(rx_gui.try_recv(), Err(TryRecvError::Empty));
}

#[test]
fn a_link_without_senders_ends_the_task() {
    let (mut autopilot, tx_ap, _rx_gui) = wired();
    tx_ap.send(BusMessage::APCmd(APCmdPayload::APEngage(true))).unwrap();
    drop(tx_ap);
    let turn = autopilot.handle_bus_message();
    assert!(matches!(turn, ApTurn::Applied { notified: Ok(()), .. }));
    let turn = autopilot.handle_bus_message();
    assert_eq!(turn, ApTurn::Disconnected);
    assert!(turn.is_last());
    assert!(autopilot.ap_state.engaged);
}

#[test]
fn a_closed_display_link_is_reported_and_the_command_still_counts() {
    let (mut autopilot, tx_ap, rx_gui) = wired();
    drop(rx_gui);
    tx_ap.send(BusMessage::APCmd(APCmdPayload::SetBankAngle(20))).unwrap();
    let turn = autopilot.handle_bus_message();
    let expected = APStateMessage { bank_angle: 20f32.to_bits(), ..APStateMessage::new() };
    assert_eq!(
        turn,
        ApTurn::Applied { ap_state: expected, notified: Err(BusSendError::Disconnected) }
    );
    assert!(turn.is_last());
    assert_eq!(autopilot.ap_state, expected);
    assert_eq!(
        autopilot.handle_ap_cmd_message(APCmdPayload::SetBankAngle(20)),
        Err(BusSendError::Disconnected)
    );
}

#[test]
fn handle_event_does_what_the_link_would_have_it_do() {
    let (mut autopilot, _tx_ap, rx_gui) = wired();
    let initial = APStateMessage::new();
    assert_eq!(autopilot.handle_event(Err(BusReceiveError::Empty)), ApTurn::Idle);
    assert_eq!(autopilot.handle_event(Err(BusReceiveError::Disconnected)), ApTurn::Disconnected);
    let turn = autopilot.handle_event(Ok(BusMessage::APCmd(APCmdPayload::SetHeading {
        heading: 45,
        turn_side: APTurnSide::Left,
    })));
    let expected = APStateMessage { heading: 45f32.to_bits(), ..initial };
    assert_eq!(turn, ApTurn::Applied { ap_state: expected, notified: Ok(()) });
    assert_eq!(rx_gui.try_recv(), Ok(BusMessage::APState(expected)));
    assert_eq!(rx_gui.try_recv(), Err(TryRecvError::Empty));
}

#[test]
fn the_parts_of_a_turn() {
    let (mut autopilot, _tx_ap, rx_gui) = wired();
    let initial = APStateMessage::new();
    autopilot.set_ap_alt(1_000f32.to_bits());
    assert_eq!(autopilot.ap_state, APStateMessage { alt: 1_000f32.to_bits(), ..initial });
    assert_eq!(rx_gui.try_recv(), Err(TryRecvError::Empty));
    autopilot.handle_adc_data_message(AdcDataMessage::new());
    assert_eq!(autopilot.ap_state, APStateMessage { alt: 1_000f32.to_bits(), ..initial });
    assert_eq!(autopilot.handle_ap_cmd_message(APCmdPayload::SetAlt(2_000f32.to_bits())), Ok(()));
    assert_eq!(
        rx_gui.try_recv(),
        Ok(BusMessage::APState(APStateMessage { alt: 2_000f32.to_bits(), ..initial }))
    );
    assert_eq!(rx_gui.try_recv(), Err(TryRecvError::Empty));
}
