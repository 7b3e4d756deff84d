//! An I/O port number. Reading and writing a port are privileged
//! instructions and are left to the caller.

use vstd::prelude::*;

verus! {

/// A numbered I/O port.
#[derive(Clone, Copy, Debug)]
pub struct Port {
    port: u16,
}

impl View for Port {
    type V = u16;

    closed spec fn view(&self) -> u16 {
        self.port
    }
}

impl Port {
    /// The port numbered `port`.
    pub fn new(port: u16) -> (r: Self)
        ensures
            r@ == port,
    {
        Self { port: port }
    }

    /// The port's number.
    pub fn number(&self) -> (r: u16)
        ensures
            r == self@,
    {
        self.port
    }
}

} // verus!
