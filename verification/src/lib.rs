//! Telemetry decode-and-distribution core of a small autopilot.
//!
//! A flight simulator reports its state in UDP datagrams. This library decodes
//! such a datagram into indexed fragments, maps the fragments to one sample of
//! named physical quantities, and carries samples, autopilot commands and
//! autopilot state between the air data computer, the autopilot and the
//! display as tagged bus messages.
//!
//! Every physical quantity is a single-precision number. The library moves
//! such numbers and never computes with them, so it holds each one as the
//! 32-bit word of its IEEE-754 encoding; see [`binary32`].
//!
//! - [`providers`]: the simulator's datagrams, decoded and encoded, and the
//!   sample that a datagram reports.
//! - [`sensors`] and [`flight_ctrl`]: what a provider has to offer.
//! - [`bus`]: the messages and the links.
//! - [`avionics`]: the air data computer, which publishes samples, and the
//!   autopilot, which applies commands.
//! - [`gui`]: what the display holds of the aircraft.
//! - [`config`]: what the program is configured with.

pub mod avionics;
pub mod binary32;
pub mod bus;
pub mod config;
pub mod flight_ctrl;
pub mod gui;
pub mod providers;
pub mod sensors;
