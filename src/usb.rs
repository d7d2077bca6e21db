use vstd::prelude::*;

verus! {

/// Tracks whether the host has configured the USB device.
pub struct HidDeviceHandler {
    configured: bool,
}

impl HidDeviceHandler {
    pub closed spec fn is_up(&self) -> bool {
        self.configured
    }

    pub fn new() -> (r: Self)
        ensures
            !r.is_up(),
    {
        HidDeviceHandler { configured: false }
    }

    /// The device was enabled or disabled: either way it awaits configuration.
    pub fn enabled(&mut self, enabled: bool)
        ensures
            !final(self).is_up(),
    {
        self.configured = false;
    }

    /// A bus reset drops the configuration.
    pub fn reset(&mut self)
        ensures
            !final(self).is_up(),
    {
        self.configured = false;
    }

    /// A new address drops the configuration.
    pub fn addressed(&mut self, addr: u8)
        ensures
            !final(self).is_up(),
    {
        self.configured = false;
    }

    pub fn configured(&mut self, configured: bool)
        ensures
            final(self).is_up() == configured,
    {
        self.configured = configured;
    }

    pub fn is_configured(&self) -> (r: bool)
        ensures
            r == self.is_up(),
    {
        self.configured
    }
}

impl Default for HidDeviceHandler {
    fn default() -> (r: Self)
        ensures
            !r.is_up(),
    {
        HidDeviceHandler::new()
    }
}

} // verus!
