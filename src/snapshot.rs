//! The two records that the simulator publishes, as the library reads them.
//!
//! Every quantity is held in millionths of its unit (a fixed-point value),
//! so that `1_000_000` stands for `1.0`.

use vstd::prelude::*;

verus! {

/// The flight dynamics record: the fields that the output uses.
#[derive(Clone, Copy, Debug, PartialEq, Eq, Structural)]
pub struct FlightSnapshot {
    /// Indicated airspeed, in millionths of a knot.
    pub kias: i64,
    /// Vertical rate, in millionths of the producer's unit.
    pub z_dot: i64,
    /// Angle of attack, in millionths of a degree.
    pub alpha: i64,
    /// Landing gear position, in millionths (0 up, 1 000 000 down).
    pub gear_pos: i64,
    /// Speed brake deployment, in millionths (0 closed, 1 000 000 open).
    pub speed_brake: i64,
    /// Engine RPM fraction, in millionths.
    pub rpm: i64,
}

/// The session and event record: the flags and the one scalar the output uses.
#[derive(Clone, Copy, Debug, PartialEq, Eq, Structural)]
pub struct SessionSnapshot {
    pub on_ground: bool,
    /// Normal load factor, in millionths of a g.
    pub g_force: i64,
    pub paused: bool,
    pub ejecting: bool,
    pub end_flight: bool,
    pub exit_game: bool,
}

} // verus!
