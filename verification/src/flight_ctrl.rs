//! The sink that actuates the simulator's flight controls.

use vstd::prelude::*;

verus! {

/// A sink for flight-control commands: the live simulator or a stand-in.
pub trait FlightCtrlsProvider {
    /// Sends the current command to the controls.
    fn send(&self);
}

} // verus!
