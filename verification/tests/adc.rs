use autopilot::avionics::adc::end_cycle;
use autopilot::avionics::adc::Adc;
use autopilot::avionics::adc::AdcCycle;
use autopilot::avionics::adc::AdcFanOut;
use autopilot::avionics::adc::AdcRegistry;
use autopilot::avionics::avionics_init;
use autopilot::bus::APStateMessage;
use autopilot::bus::AdcDataMessage;
use autopilot::bus::BusMessage;
use autopilot::bus::BusSendError;
use autopilot::bus::Link;
use autopilot::providers::sim_mock_provider::SimMockFlightCtrlsProvider;
use autopilot::providers::sim_mock_provider::SimMockSensorsProvider;
use autopilot::providers::xpln11_provider::DecodeError;
use autopilot::providers::xpln11_provider::XPLN11SensorsProvider;
use autopilot::sensors::AcquireError;
use autopilot::sensors::SensorsProvider;
use autopilot::sensors::SensorsValues;
use std::sync::mpsc::channel;
use std::sync::mpsc::Receiver;
use std::sync::mpsc::TryRecvError;

/// A source that decodes one datagram, the same in each cycle.
struct ReplaySensors {
    decoder: XPLN11SensorsProvider,
    datagram: Vec<u8>,
}

impl SensorsProvider for ReplaySensors {
    fn acquire(&self) -> Result<SensorsValues, AcquireError> {
        self.decoder.acquire(self.datagram.len(), &self.datagram)
    }
}

/// A source whose transport is down.
struct DeadSensors {}

impl SensorsProvider for DeadSensors {
    fn acquire(&self) -> Result<SensorsValues, AcquireError> {
        Err(AcquireError::Transport)
    }
}

fn wired<S: SensorsProvider>(sensors: S) -> (Adc<S>, Receiver<BusMessage>, Receiver<BusMessage>) {
    let (tx_gui, rx_gui) = channel::<BusMessage>();
    let (tx_ap, rx_ap) = channel::<BusMessage>();
    (Adc { sensors, adc_tx_gui: tx_gui, adc_tx_ap: tx_ap }, rx_gui, rx_ap)
}

fn speeds_datagram(first: f32) -> Vec<u8> {
    let mut bytes: Vec<u8> = vec![b'D', b'A', b'T', b'A', b'*'];
    bytes.extend_from_slice(&3i32.to_le_bytes());
    bytes.extend_from_slice(&first.to_le_bytes());
    for _ in 0..7 {
        bytes.extend_from_slice(&(-999f32).to_le_bytes());
    }
    bytes
}

fn sample() -> SensorsValues {
    SensorsValues {
        ias: 250f32.to_bits(),
        alt_msl: 10_000f32.to_bits(),
        alt_agl: 9_000f32.to_bits(),
        heading: 180f32.to_bits(),
        vs: (-500f32).to_bits(),
        aoa: 5f32.to_bits(),
        mach: 0.5f32.to_bits(),
        g_load: 1f32.to_bits(),
        pitch: 2f32.to_bits(),
        roll: (-3f32).to_bits(),
        yaw: 181f32.to_bits(),
    }
}

fn copies(data: AdcDataMessage) -> AdcFanOut {
    AdcFanOut { gui: BusMessage::AdcData(data), ap: BusMessage::AdcData(data) }
}

fn payload() -> AdcDataMessage {
    AdcDataMessage {
        ias: 250f32.to_bits(),
        alt_msl: 10_000f32.to_bits(),
        alt_agl: 9_000f32.to_bits(),
        heading: 180f32.to_bits(),
        vs: (-500f32).to_bits(),
        aoa: 5f32.to_bits(),
        mach: 0.5f32.to_bits(),
        g_load: 1f32.to_bits(),
        pitch_angle: 2f32.to_bits(),
        roll_angle: (-3f32).to_bits(),
        yaw: 181f32.to_bits(),
    }
}

#[test]
fn new_messages_are_all_zero() {
    let data = AdcDataMessage::new();
    assert_eq!(
        data,
        AdcDataMessage {
            ias: 0,
            alt_msl: 0,
            alt_agl: 0,
            heading: 0,
            vs: 0,
            aoa: 0,
            mach: 0,
            g_load: 0,
            pitch_angle: 0,
            roll_angle: 0,
            yaw: 0,
        }
    );
    assert_eq!(AdcRegistry::new().to_adc_data(), data);
}

#[test]
fn the_registry_takes_every_quantity() {
    let (adc, _rx_gui, _rx_ap) = wired(DeadSensors {});
    let registry = adc.apply_sensors_values(sample());
    assert_eq!(
        registry,
        AdcRegistry {
            ias: 250f32.to_bits(),
            alt_msl: 10_000f32.to_bits(),
            alt_agl: 9_000f32.to_bits(),
            heading: 180f32.to_bits(),
            vs: (-500f32).to_bits(),
            aoa: 5f32.to_bits(),
            mach: 0.5f32.to_bits(),
            g_load: 1f32.to_bits(),
            pitch: 2f32.to_bits(),
            roll: (-3f32).to_bits(),
            yaw: 181f32.to_bits(),
        }
    );
    assert_eq!(registry.to_adc_data(), payload());
}

#[test]
fn the_yaw_is_carried_to_both_links() {
    let (adc, rx_gui, rx_ap) = wired(DeadSensors {});
    let one = SensorsValues { yaw: 10f32.to_bits(), ..sample() };
    let other = SensorsValues { yaw: 350f32.to_bits(), ..sample() };
    assert_ne!(adc.apply_sensors_values(one), adc.apply_sensors_values(other));
    assert_ne!(adc.fan_out(one), adc.fan_out(other));
    assert_eq!(
        adc.publish(Ok(other)),
        AdcCycle::Published(copies(AdcDataMessage { yaw: 350f32.to_bits(), ..payload() }))
    );
    for link in [&rx_gui, &rx_ap] {
        match link.try_recv() {
            Ok(BusMessage::AdcData(data)) => assert_eq!(f32::from_bits(data.yaw), 350.0),
            _ => panic!("the link holds no sample"),
        }
    }
}

#[test]
fn a_cycle_ends_on_what_the_links_answered() {
    let refused: Result<(), BusSendError> = Err(BusSendError::Disconnected);
    let taken: Result<(), BusSendError> = Ok(());
    let both = copies(payload());
    assert_eq!(end_cycle(both, taken, Some(taken)), AdcCycle::Published(both));
    assert_eq!(end_cycle(both, taken, Some(refused)), AdcCycle::LinkClosed(Link::Autopilot));
    assert_eq!(end_cycle(both, refused, None), AdcCycle::LinkClosed(Link::Gui));
    assert_eq!(end_cycle(both, refused, Some(taken)), AdcCycle::LinkClosed(Link::Gui));
    assert_eq!(end_cycle(both, refused, Some(refused)), AdcCycle::LinkClosed(Link::Gui));
    assert_eq!(end_cycle(both, taken, None), AdcCycle::LinkClosed(Link::Autopilot));
}

#[test]
fn fan_out_makes_two_copies_of_one_payload() {
    let (adc, rx_gui, rx_ap) = wired(DeadSensors {});
    let copies = adc.fan_out(sample());
    assert_eq!(copies.gui, BusMessage::AdcData(payload()));
    assert_eq!(copies.ap, BusMessage::AdcData(payload()));
    assert_eq!(rx_gui.try_recv(), Err(TryRecvError::Empty));
    assert_eq!(rx_ap.try_recv(), Err(TryRecvError::Empty));
}

#[test]
fn one_sample_reaches_each_consumer_once() {
    let (adc, rx_gui, rx_ap) = wired(DeadSensors {});
    let cycle = adc.publish(Ok(sample()));
    assert_eq!(cycle, AdcCycle::Published(copies(payload())));
    assert_eq!(rx_gui.try_recv(), Ok(BusMessage::AdcData(payload())));
    assert_eq!(rx_gui.try_recv(), Err(TryRecvError::Empty));
    assert_eq!(rx_ap.try_recv(), Ok(BusMessage::AdcData(payload())));
    assert_eq!(rx_ap.try_recv(), Err(TryRecvError::Empty));
}

#[test]
fn the_stand_in_is_published_cycle_by_cycle() {
    let (adc, rx_gui, rx_ap) = wired(SimMockSensorsProvider {});
    let expected = AdcDataMessage {
        ias: 250f32.to_bits(),
        alt_msl: 10_000f32.to_bits(),
        heading: 180f32.to_bits(),
        aoa: 5f32.to_bits(),
        mach: 0.5f32.to_bits(),
        g_load: 1f32.to_bits(),
        ..AdcDataMessage::new()
    };
    for _ in 0..3 {
        assert_eq!(adc.read_sensors(), AdcCycle::Published(copies(expected)));
    }
    for _ in 0..3 {
        assert_eq!(rx_gui.try_recv(), Ok(BusMessage::AdcData(expected)));
        assert_eq!(rx_ap.try_recv(), Ok(BusMessage::AdcData(expected)));
    }
    assert_eq!(rx_gui.try_recv(), Err(TryRecvError::Empty));
    assert_eq!(rx_ap.try_recv(), Err(TryRecvError::Empty));
}

#[test]
fn a_speeds_frame_ends_as_one_sensor_update_on_each_link() {
    let sensors = ReplaySensors {
        decoder: XPLN11SensorsProvider { host: String::from("127.0.0.1"), port: 49_000 },
        datagram: speeds_datagram(250.0),
    };
    let (adc, rx_gui, rx_ap) = wired(sensors);
    let expected = AdcDataMessage { ias: 250f32.to_bits(), ..AdcDataMessage::new() };
    assert_eq!(adc.read_sensors(), AdcCycle::Published(copies(expected)));

    let on_display = rx_gui.try_recv().unwrap();
    assert_eq!(on_display, BusMessage::AdcData(expected));
    match on_display {
        BusMessage::AdcData(data) => {
            assert_eq!(f32::from_bits(data.ias), 250.0);
            assert_eq!(f32::from_bits(data.alt_msl), 0.0);
            assert_eq!(f32::from_bits(data.alt_agl), 0.0);
            assert_eq!(f32::from_bits(data.heading), 0.0);
            assert_eq!(f32::from_bits(data.vs), 0.0);
            assert_eq!(f32::from_bits(data.aoa), 0.0);
            assert_eq!(f32::from_bits(data.mach), 0.0);
            assert_eq!(f32::from_bits(data.g_load), 0.0);
            assert_eq!(f32::from_bits(data.pitch_angle), 0.0);
            assert_eq!(f32::from_bits(data.roll_angle), 0.0);
            assert_eq!(f32::from_bits(data.yaw), 0.0);
        }
        _ => panic!("the display was sent something else than a sample"),
    }
    assert_eq!(rx_gui.try_recv(), Err(TryRecvError::Empty));

    // The autopilot's link carries the same sample and nothing else: no
    // command, no state.
    assert_eq!(rx_ap.try_recv(), Ok(BusMessage::AdcData(expected)));
    assert_eq!(rx_ap.try_recv(), Err(TryRecvError::Empty));
}

#[test]
fn without_a_sample_the_cycle_is_skipped() {
    let (adc, rx_gui, rx_ap) = wired(DeadSensors {});
    assert_eq!(adc.read_sensors(), AdcCycle::Skipped(AcquireError::Transport));
    assert_eq!(rx_gui.try_recv(), Err(TryRecvError::Empty));
    assert_eq!(rx_ap.try_recv(), Err(TryRecvError::Empty));

    let sensors = ReplaySensors {
        decoder: XPLN11SensorsProvider { host: String::from("127.0.0.1"), port: 49_000 },
        datagram: vec![b'D', b'A', b'T', b'A', b'*', 3, 0, 0],
    };
    let (adc, rx_gui, rx_ap) = wired(sensors);
    assert_eq!(
        adc.read_sensors(),
        AdcCycle::Skipped(AcquireError::Frame(DecodeError::TooShort))
    );
    assert_eq!(rx_gui.try_recv(), Err(TryRecvError::Empty));
    assert_eq!(rx_ap.try_recv(), Err(TryRecvError::Empty));
    assert_eq!(
        adc.publish(Err(AcquireError::Frame(DecodeError::MalformedFragment))),
        AdcCycle::Skipped(AcquireError::Frame(DecodeError::MalformedFragment))
    );
}

#[test]
fn a_closed_link_ends_the_cycle_under_its_name() {
    let (adc, rx_gui, rx_ap) = wired(SimMockSensorsProvider {});
    drop(rx_ap);
    assert_eq!(adc.read_sensors(), AdcCycle::LinkClosed(Link::Autopilot));
    assert!(matches!(rx_gui.try_recv(), Ok(BusMessage::AdcData(_))));

    let (adc, rx_gui, rx_ap) = wired(SimMockSensorsProvider {});
    drop(rx_gui);
    assert_eq!(adc.read_sensors(), AdcCycle::LinkClosed(Link::Gui));
    assert_eq!(rx_ap.try_recv(), Err(TryRecvError::Empty));
}

#[test]
fn the_avionics_start_wired_and_in_the_initial_state() {
    let (tx_gui, rx_gui) = channel::<BusMessage>();
    let (tx_ap, rx_ap) = channel::<BusMessage>();
    let mut avionics = avionics_init(
        SimMockSensorsProvider {},
        SimMockFlightCtrlsProvider {},
        tx_gui.clone(),
        tx_ap.clone(),
        rx_ap,
        tx_gui.clone(),
    );
    assert_eq!(avionics.autopilot.ap_state, APStateMessage::new());
    assert!(matches!(avionics.adc.read_sensors(), AdcCycle::Published(_)));
    assert!(matches!(rx_gui.try_recv(), Ok(BusMessage::AdcData(_))));
    assert!(matches!(
        avionics.autopilot.handle_bus_message(),
        autopilot::avionics::autopilot::ApTurn::AdcData(_)
    ));
    assert_eq!(rx_gui.try_recv(), Err(TryRecvError::Empty));
}
