//! The air data computer: it takes one sample from the sensors in each cycle
//! and publishes it, as it stands, to the display and to the autopilot.

use crate::bus::AdcDataMessage;
use crate::bus::BusMessage;
use crate::bus::BusSendError;
use crate::bus::Link;
use crate::bus::send;
use crate::providers::xpln11_provider::constants::XPLN11DataReadEnum;
use crate::providers::xpln11_provider::datagram::datagram;
use crate::providers::xpln11_provider::datagram::lemma_decode_round_trip;
use crate::providers::xpln11_provider::datagram::XPLN11UDPDataFragment;
use crate::providers::xpln11_provider::sample::acquired;
use crate::providers::xpln11_provider::sample::lemma_sample_is_written;
use crate::providers::xpln11_provider::sample::written_all;
use crate::sensors::AcquireError;
use crate::sensors::SensorsProvider;
use crate::sensors::SensorsValues;
use std::sync::mpsc::Sender;
use vstd::prelude::*;

verus! {

/// The air data computer, with its sensor source and its sending end of each
/// link.
pub struct Adc<S: SensorsProvider> {
    pub sensors: S,
    pub adc_tx_gui: Sender<BusMessage>,
    pub adc_tx_ap: Sender<BusMessage>,
}

/// The values that the air data computer holds for one cycle.
#[derive(Debug, Clone, Copy, PartialEq, Eq)]
pub struct AdcRegistry {
    pub ias: u32,
    pub alt_msl: u32,
    pub alt_agl: u32,
    pub heading: u32,
    pub vs: u32,
    pub aoa: u32,
    pub mach: u32,
    pub g_load: u32,
    pub pitch: u32,
    pub roll: u32,
    pub yaw: u32,
}

/// The two copies of one sample that a cycle puts on the links.
#[derive(Debug, Clone, Copy, PartialEq, Eq)]
pub struct AdcFanOut {
    /// The copy for the display.
    pub gui: BusMessage,
    /// The copy for the autopilot.
    pub ap: BusMessage,
}

/// How one cycle of the air data computer ended.
#[derive(Debug, Clone, Copy, PartialEq, Eq)]
pub enum AdcCycle {
    /// Both links took their copy of the sample: these are the two messages
    /// that were put on them.
    Published(AdcFanOut),
    /// The sensors yielded no sample. Nothing was sent; the next cycle tries
    /// again.
    Skipped(AcquireError),
    /// The link to this consumer is closed. The task has to stop.
    LinkClosed(Link),
}

/// The registry that a sample fills: every quantity of the sample, unchanged.
pub open spec fn registry_of(values: SensorsValues) -> AdcRegistry {
    AdcRegistry {
        ias: values.ias,
        alt_msl: values.alt_msl,
        alt_agl: values.alt_agl,
        heading: values.heading,
        vs: values.vs,
        aoa: values.aoa,
        mach: values.mach,
        g_load: values.g_load,
        pitch: values.pitch,
        roll: values.roll,
        yaw: values.yaw,
    }
}

/// Whether `cycle` is an end of a cycle in which the sensors yielded
/// `acquired`. Without a sample the cycle is skipped for the sensors' reason.
/// With one, the cycle publishes the two copies of the sample, unless a link
/// is closed: which link, if any, is the links' to say.
pub open spec fn ends(acquired: Result<SensorsValues, AcquireError>, cycle: AdcCycle) -> bool {
    match acquired {
        Err(e) => cycle == AdcCycle::Skipped(e),
        Ok(values) => cycle is LinkClosed || cycle == AdcCycle::Published(copies_of(values)),
    }
}

/// How a cycle that had a sample ends on what the links answered. A display
/// link that refused its copy closes the cycle under the display's name, and
/// the autopilot's copy is then not sent. Else an autopilot link that did not
/// take its copy closes the cycle under the autopilot's name. Only when both
/// links took their copy are the copies reported as published.
pub open spec fn cycle_end(
    copies: AdcFanOut,
    gui_sent: Result<(), BusSendError>,
    ap_sent: Option<Result<(), BusSendError>>,
) -> AdcCycle {
    match gui_sent {
        Err(_) => AdcCycle::LinkClosed(Link::Gui),
        Ok(_) => match ap_sent {
            Some(Ok(_)) => AdcCycle::Published(copies),
            _ => AdcCycle::LinkClosed(Link::Autopilot),
        },
    }
}

/// Ends a cycle that had a sample on what the two links answered: `gui_sent`
/// for the display's copy, and `ap_sent` for the autopilot's, which is `None`
/// where that copy was not sent.
pub fn end_cycle(
    copies: AdcFanOut,
    gui_sent: Result<(), BusSendError>,
    ap_sent: Option<Result<(), BusSendError>>,
) -> (cycle: AdcCycle)
    ensures
        cycle == cycle_end(copies, gui_sent, ap_sent),
        gui_sent is Err ==> cycle == AdcCycle::LinkClosed(Link::Gui),
        gui_sent is Ok && ap_sent == Some(Err::<(), BusSendError>(BusSendError::Disconnected))
            ==> cycle == AdcCycle::LinkClosed(Link::Autopilot),
        gui_sent is Ok && ap_sent == Some(Ok::<(), BusSendError>(())) ==> cycle
            == AdcCycle::Published(copies),
{
    match gui_sent {
        Err(_) => AdcCycle::LinkClosed(Link::Gui),
        Ok(()) => match ap_sent {
            Some(Ok(())) => AdcCycle::Published(copies),
            _ => AdcCycle::LinkClosed(Link::Autopilot),
        },
    }
}

/// The bus message that a sample is published as.
pub open spec fn sensor_update(values: SensorsValues) -> BusMessage {
    BusMessage::AdcData(registry_of(values).adc_data())
}

/// The two copies that a sample is published as: one sensor update for each
/// consumer, both with the same payload.
pub open spec fn copies_of(values: SensorsValues) -> AdcFanOut {
    AdcFanOut { gui: sensor_update(values), ap: sensor_update(values) }
}

impl AdcRegistry {
    /// The registry's values as the payload of a bus message.
    pub open spec fn adc_data(self) -> AdcDataMessage {
        AdcDataMessage {
            ias: self.ias,
            alt_msl: self.alt_msl,
            alt_agl: self.alt_agl,
            heading: self.heading,
            vs: self.vs,
            aoa: self.aoa,
            mach: self.mach,
            g_load: self.g_load,
            pitch_angle: self.pitch,
            roll_angle: self.roll,
            yaw: self.yaw,
        }
    }

    pub fn new() -> (registry: AdcRegistry)
        ensures
            registry == registry_of(SensorsValues::unset()),
    {
        AdcRegistry {
            ias: 0,
            alt_msl: 0,
            alt_agl: 0,
            heading: 0,
            vs: 0,
            aoa: 0,
            mach: 0,
            g_load: 0,
            pitch: 0,
            roll: 0,
            yaw: 0,
        }
    }

    pub fn to_adc_data(&self) -> (data: AdcDataMessage)
        ensures
            data == self.adc_data(),
    {
        AdcDataMessage {
            ias: self.ias,
            alt_msl: self.alt_msl,
            alt_agl: self.alt_agl,
            heading: self.heading,
            vs: self.vs,
            aoa: self.aoa,
            mach: self.mach,
            g_load: self.g_load,
            pitch_angle: self.pitch,
            roll_angle: self.roll,
            yaw: self.yaw,
        }
    }
}

/// One sample goes out as exactly one message for each consumer. Both are
/// sensor updates, and both carry every quantity of the sample, unchanged.
pub proof fn lemma_fan_out_same_payload(values: SensorsValues)
    ensures
        sensor_update(values) matches BusMessage::AdcData(data) && data == (AdcDataMessage {
            ias: values.ias,
            alt_msl: values.alt_msl,
            alt_agl: values.alt_agl,
            heading: values.heading,
            vs: values.vs,
            aoa: values.aoa,
            mach: values.mach,
            g_load: values.g_load,
            pitch_angle: values.pitch,
            roll_angle: values.roll,
            yaw: values.yaw,
        }),
{
}

/// A datagram that holds one fragment of the speeds group is published as a
/// sample whose indicated airspeed is the fragment's first field, bit for
/// bit, and whose other quantities are all zero.
pub proof fn lemma_speeds_datagram_published(prologue: Seq<u8>, fragment: XPLN11UDPDataFragment)
    requires
        prologue.len() == 5,
        fragment.index == XPLN11DataReadEnum::Speeds.number(),
    ensures
        acquired(datagram(prologue, seq![fragment])) matches Ok(values) && sensor_update(values)
            == BusMessage::AdcData(
            AdcDataMessage { ias: fragment.data1, ..AdcDataMessage::zeroed() },
        ),
{
    let fragments = seq![fragment];
    lemma_decode_round_trip(prologue, fragments);
    lemma_sample_is_written(fragments);
    assert(fragments.drop_last() =~= Seq::<XPLN11UDPDataFragment>::empty());
    reveal_with_fuel(written_all, 3);
}

impl<S: SensorsProvider> Adc<S> {
    /// Fills a registry from one sample.
    pub fn apply_sensors_values(&self, s_values: SensorsValues) -> (registry: AdcRegistry)
        ensures
            registry == registry_of(s_values),
    {
        AdcRegistry {
            ias: s_values.ias,
            alt_msl: s_values.alt_msl,
            alt_agl: s_values.alt_agl,
            heading: s_values.heading,
            vs: s_values.vs,
            aoa: s_values.aoa,
            mach: s_values.mach,
            g_load: s_values.g_load,
            pitch: s_values.pitch,
            roll: s_values.roll,
            yaw: s_values.yaw,
        }
    }

    /// What one sample puts on the links: one message for each consumer, both
    /// with the sample as their payload.
    pub fn fan_out(&self, s_values: SensorsValues) -> (copies: AdcFanOut)
        ensures
            copies == copies_of(s_values),
            copies.gui == sensor_update(s_values),
            copies.ap == sensor_update(s_values),
    {
        let adc_registry: AdcRegistry = self.apply_sensors_values(s_values);
        let adc_data: AdcDataMessage = adc_registry.to_adc_data();
        let gui_bus_message: BusMessage = BusMessage::AdcData(adc_data);
        let ap_bus_message: BusMessage = gui_bus_message.clone();
        AdcFanOut { gui: gui_bus_message, ap: ap_bus_message }
    }

    /// Runs one cycle: takes what the sensors yield and ends the cycle on it
    /// as [`Adc::publish`] says. The cycle that is reported is an end of
    /// something that the sensors can yield: it is skipped only for a reason
    /// that the sensors can give, and what it publishes are two sensor
    /// updates with one payload, that of a sample that the sensors can report.
    pub fn read_sensors(&self) -> (cycle: AdcCycle)
        ensures
            exists|acquired: Result<SensorsValues, AcquireError>| #[trigger]
                self.sensors.yields(acquired) && ends(acquired, cycle),
    {
        let acquired = self.sensors.acquire();
        self.publish(acquired)
    }

    /// Ends a cycle on what the sensors yielded.
    ///
    /// Without a sample the cycle is skipped and nothing is sent. With one,
    /// its copy for the display is sent, then its copy for the autopilot, and
    /// the cycle ends as [`end_cycle`] says of what the links answered: it
    /// reports the two copies, or the first link that refused its copy.
    pub fn publish(&self, acquired: Result<SensorsValues, AcquireError>) -> (cycle: AdcCycle)
        ensures
            ends(acquired, cycle),
    {
        match acquired {
            Ok(s_values) => {
                let copies = self.fan_out(s_values);
                let gui_sent = send(&self.adc_tx_gui, copies.gui);
                let ap_sent = match gui_sent {
                    Ok(()) => Some(send(&self.adc_tx_ap, copies.ap)),
                    Err(_) => None,
                };
                end_cycle(copies, gui_sent, ap_sent)
            },
            Err(e) => AdcCycle::Skipped(e),
        }
    }
}

} // verus!
