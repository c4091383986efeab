//! The port that the operating system handed out.

use vstd::prelude::*;

verus! {

/// Holds the answer to the last request for a free loopback port.
pub struct PortGenerator {
    selected_port: Option<u16>,
}

impl PortGenerator {
    /// The port that the last request gave; none before the first request
    /// and after a request that failed.
    pub closed spec fn port(&self) -> Option<u16> {
        self.selected_port
    }

    /// A generator with no port selected.
    pub fn new() -> (generator: Self)
        ensures
            generator.port() is None,
    {
        PortGenerator { selected_port: None }
    }

    /// Records the answer of the operating system to a request for a free
    /// loopback port: `assigned` is the port of a listener bound to port 0 and
    /// closed again, or `None` when binding or reading the address failed.
    /// A request that failed leaves no port selected: the port of an earlier
    /// request is never handed out in its place.
    pub fn generate(&mut self, assigned: Option<u16>) -> (generator: &mut Self)
        ensures
            generator.port() == assigned,
            *final(self) == *final(generator),
    {
        self.selected_port = assigned;
        self
    }

    /// The selected port, if the last request gave one.
    pub fn selected_port(&self) -> (port: Option<u16>)
        ensures
            port == self.port(),
    {
        self.selected_port
    }
}

} // verus!
