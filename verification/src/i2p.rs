//! Bookkeeping for the embedded I2P router.

use vstd::prelude::*;
use crate::error::IIIError;

verus! {

/// The embedded I2P router, and whether it is running.
pub struct I2pManager {
    running: bool,
}

impl I2pManager {
    /// A router that has not been started.
    pub fn new() -> (r: Self)
        ensures
            !r.is_running_spec(),
    {
        I2pManager { running: false }
    }

    /// Whether the router is running.
    pub closed spec fn is_running_spec(&self) -> bool {
        self.running
    }

    /// Whether the router is running.
    pub fn is_running(&self) -> (r: bool)
        ensures
            r == self.is_running_spec(),
    {
        self.running
    }

    /// Records the outcome of asking the router to start on its SOCKS port:
    /// running when it started, an `I2p` error ("failed to start i2pd") and
    /// the state unchanged when it did not.
    pub fn start(&mut self, daemon_started: bool) -> (r: Result<(), IIIError>)
        ensures
            daemon_started <==> r is Ok,
            daemon_started ==> final(self).is_running_spec(),
            !daemon_started ==> final(self).is_running_spec() == old(self).is_running_spec(),
            r matches Err(e) && e matches IIIError::I2p(m) && m@ == "failed to start i2pd"@
                || r is Ok,
    {
        if daemon_started {
            self.running = true;
            Ok(())
        } else {
            Err(IIIError::I2p(String::from_str("failed to start i2pd")))
        }
    }

    /// Records that the router has been stopped.
    pub fn stop(&mut self)
        ensures
            !final(self).is_running_spec(),
    {
        self.running = false;
    }
}

} // verus!
