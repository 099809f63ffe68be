//! Decision logic of a plant monitor: two sensor acquisition cycles, the
//! single-slot channels that carry their readings, and the display cycle that
//! renders each pair of readings with a partial redraw.
//!
//! Every cycle is a state machine that is handed the outcome of the last
//! outside operation and answers with the next operation to perform, so the
//! firmware around it only performs bus transfers, delays and drawing.

use vstd::prelude::*;

pub mod channel;
pub mod display;
pub mod layout;
pub mod light_sensor;
pub mod moisture_sensor;
pub mod text;

verus! {

/// The pause between two samples of a sensor, in milliseconds.
pub const COOLDOWN_MS: u64 = 1000;

} // verus!
