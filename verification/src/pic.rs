//! The interrupt controller: a gate between the devices' signals and the
//! processor, closed until it is enabled.

use vstd::prelude::*;

verus! {

/// The console has input, or has finished output.
pub const INTR_CONRDY: usize = 128;

/// The disk has finished a command.
pub const INTR_DSKRDY: usize = 129;

pub struct PIC {
    enabled: bool,
}

impl PIC {
    /// Whether signals are let through.
    pub closed spec fn is_enabled(&self) -> bool {
        self.enabled
    }

    /// A controller between devices and processor that lets nothing through
    /// yet.
    pub fn connect() -> (pic: PIC)
        ensures
            !pic.is_enabled(),
    {
        PIC { enabled: false }
    }

    /// Lets signals through from now on.
    pub fn enable(&mut self)
        ensures
            final(self).is_enabled(),
    {
        self.enabled = true;
    }

    /// What reaches the processor of a device's signal: the signal if the
    /// controller is enabled, nothing if not.
    pub fn forward(&self, signal: usize) -> (delivered: Option<usize>)
        ensures
            delivered == (if self.is_enabled() {
                Some(signal)
            } else {
                None
            }),
    {
        if self.enabled {
            Some(signal)
        } else {
            None
        }
    }
}

} // verus!
