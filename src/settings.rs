//! Fixed settings of the bridge: the peer and the two intervals.

use vstd::prelude::*;

use crate::text::{digits_of, push_digits};

verus! {

/// Where the lines go and how often the loops poll.
#[derive(Clone, Debug)]
pub struct Settings {
    pub host: String,
    pub port: u16,
    /// Sleep at the top of each tick, in milliseconds.
    pub tick_ms: u64,
    /// Sleep before each attempt to open a source, in milliseconds.
    pub poll_ms: u64,
}

impl Settings {
    /// The defaults: `localhost:29778`, a 10 ms tick, a 300 ms poll.
    pub fn standard() -> (r: Settings)
        ensures
            r.host@ == "localhost"@,
            r.port == 29778,
            r.tick_ms == 10,
            r.poll_ms == 300,
    {
        Settings { host: String::from_str("localhost"), port: 29778, tick_ms: 10, poll_ms: 300 }
    }

    /// The peer as `host:port`.
    pub fn peer_address(&self) -> (r: String)
        ensures
            r@ == self.host@ + seq![':'] + digits_of(self.port as nat),
    {
        let mut out = self.host.clone();
        out.append(":");
        proof {
            reveal_strlit(":");
        }
        push_digits(&mut out, self.port as u64);
        out
    }
}

} // verus!
