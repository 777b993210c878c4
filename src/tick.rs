//! One tick of the main loop: stop on exit, otherwise send a line.

use vstd::prelude::*;

use crate::snapshot::{FlightSnapshot, SessionSnapshot};
use crate::transform::{flight_data_line, output_text};

verus! {

/// What the main loop does on one tick.
#[derive(Clone, Debug, PartialEq, Eq)]
pub enum TickAction {
    /// The simulator exited: leave the loop and send nothing more.
    Stop,
    /// Send this line as one datagram.
    Send(String),
}

/// Decides one tick from the two latest snapshots.
pub fn tick(f: &FlightSnapshot, s: &SessionSnapshot) -> (r: TickAction)
    ensures
        s.exit_game <==> r is Stop,
        !s.exit_game ==> (r matches TickAction::Send(line) && line@ == output_text(*f, *s)),
{
    if s.exit_game {
        TickAction::Stop
    } else {
        TickAction::Send(flight_data_line(f, s))
    }
}

} // verus!
