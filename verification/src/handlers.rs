//! The USB device-state bookkeeping behind the bus-event and report-request
//! callbacks.
//!
//! The transport's callback plumbing itself lives with the caller that owns
//! the USB stack; what is kept here is the state those callbacks maintain -
//! whether the device is currently configured - with its contract.

use vstd::prelude::*;

verus! {

/// Tracks whether the host has configured the device, as driven by the bus
/// events. The view of a value is that flag.
pub struct MyUsbHandler {
    configured: bool,
}

impl View for MyUsbHandler {
    type V = bool;

    closed spec fn view(&self) -> bool {
        self.configured
    }
}

impl MyUsbHandler {
    /// A handler for a device not yet configured.
    pub fn new() -> (r: MyUsbHandler)
        ensures
            !r@,
    {
        MyUsbHandler { configured: false }
    }

    /// The bus was enabled or disabled: the flag follows it.
    pub fn enabled(&mut self, enabled: bool)
        ensures
            final(self)@ == enabled,
    {
        self.configured = enabled;
    }

    /// The bus was reset: the device is no longer configured.
    pub fn reset(&mut self)
        ensures
            !final(self)@,
    {
        self.configured = false;
    }

    /// The host assigned an address; configuration is untouched.
    pub fn addressed(&mut self, _addr: u8)
        ensures
            final(self)@ == old(self)@,
    {
    }

    /// The host configured or deconfigured the device.
    pub fn configured(&mut self, configured: bool)
        ensures
            final(self)@ == configured,
    {
        self.configured = configured;
    }

    /// The bus was suspended or resumed; configuration is untouched.
    pub fn suspended(&mut self, _suspended: bool)
        ensures
            final(self)@ == old(self)@,
    {
    }

    /// Remote wakeup was enabled or disabled; configuration is untouched.
    pub fn remote_wakeup_enabled(&mut self, _enabled: bool)
        ensures
            final(self)@ == old(self)@,
    {
    }

    /// Whether the host currently has the device configured.
    pub fn is_configured(&self) -> (r: bool)
        ensures
            r == self@,
    {
        self.configured
    }
}

impl Default for MyUsbHandler {
    /// Same as [`MyUsbHandler::new`]: not configured.
    fn default() -> (r: MyUsbHandler)
        ensures
            !r@,
    {
        MyUsbHandler { configured: false }
    }
}

/// Answers the host's HID report requests. Every request is declined or
/// accepted without state, so the type carries none.
pub struct MyRequestHandler {}

} // verus!
