use vstd::prelude::*;

verus! {

/// How many workers serve requests side by side.
pub const WORKERS: usize = 8;

/// The largest request body, in bytes, that a create accepts; a larger one
/// takes the error path.
pub const BODY_LIMIT: usize = 4096;

/// The service's start-up settings: the port it listens on.
pub struct MessageApp {
    port: u16,
}

impl MessageApp {
    pub closed spec fn spec_port(&self) -> u16 {
        self.port
    }

    /// Settings for a service on `port`.
    pub fn new(port: u16) -> (r: MessageApp)
        ensures
            r.spec_port() == port,
    {
        MessageApp { port }
    }

    pub fn port(&self) -> (r: u16)
        ensures
            r == self.spec_port(),
    {
        self.port
    }
}

} // verus!
