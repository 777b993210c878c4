//! Telemetry bridge between a flight simulator's shared memory and a
//! datagram consumer: unit conversion, output policy, the wire line, and
//! the decisions of the startup and tick loops.

pub mod acquisition;
pub mod settings;
pub mod snapshot;
pub mod text;
pub mod tick;
pub mod transform;
