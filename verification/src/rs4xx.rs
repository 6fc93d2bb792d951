//! RS-422 and RS-485 transceiver configuration.
//!
//! Some transceivers can be configured in different electrical modes
//! (RS-232, RS-422, RS-485) from software. This configuration travels
//! through a control block of its own, separate from the ordinary port
//! settings; see [`crate::rs485_ioctl`] for its exact layout.
//!
//! Warning: kernel and driver support for these modes may be incomplete.
//! Unsupported options may silently be ignored by the kernel or the device
//! rather than reported; a caller that needs certainty must read the mode
//! back and compare.

use vstd::prelude::*;

verus! {

/// The mode of a transceiver.
#[derive(Debug, Clone, Eq, PartialEq, Structural)]
pub enum TransceiverMode {
    /// The default mode. If the transceiver supports RS-232 as well as
    /// RS-422 or RS-485, the default mode is usually RS-232.
    Default,
    /// RS-422 mode.
    Rs422,
    /// RS-485 mode. The kernel raises the RTS (request-to-send) signal
    /// before each transmission and drops it afterwards.
    Rs485(Rs485Config),
}

/// RS-485 specific configuration options.
///
/// Note that devices may silently ignore unsupported options instead of
/// raising an error.
#[derive(Debug, Copy, Clone, Eq, PartialEq, Structural)]
#[verifier::ext_equal]
pub struct Rs485Config {
    /// Whether full-duplex (or 4-wire) RS-485 mode is enabled: the receiver
    /// stays enabled while transmitting.
    pub full_duplex: bool,
    /// Whether the termination resistor for the RS-485 bus is enabled, on
    /// transceivers that can switch one.
    pub terminate_bus: bool,
    /// Milliseconds to wait after raising the RTS signal before starting
    /// transmission.
    pub delay_before_send_ms: u64,
    /// Milliseconds to hold the RTS signal after finishing a transmission.
    pub delay_after_send_ms: u64,
    /// Whether the level of the RTS signal is inverted: low during
    /// transmissions and high after.
    pub invert_rts: bool,
}

impl Rs485Config {
    /// The configuration with all options disabled and all delays zero.
    pub open spec fn spec_new() -> Rs485Config {
        Rs485Config {
            full_duplex: false,
            terminate_bus: false,
            delay_before_send_ms: 0,
            delay_after_send_ms: 0,
            invert_rts: false,
        }
    }

    /// Create a new RS-485 configuration with all options disabled and all
    /// delays set to zero.
    pub fn new() -> (r: Rs485Config)
        ensures
            r == Rs485Config::spec_new(),
    {
        Rs485Config {
            full_duplex: false,
            terminate_bus: false,
            delay_before_send_ms: 0,
            delay_after_send_ms: 0,
            invert_rts: false,
        }
    }

    /// Enable or disable full-duplex (or 4-wire) mode.
    ///
    /// Enable this if the device uses different twisted pairs for
    /// transmitting and receiving data; the receiver is then left enabled
    /// while transmitting.
    pub fn set_full_duplex(&mut self, enable: bool)
        ensures
            *final(self) == (Rs485Config { full_duplex: enable, ..*old(self) }),
    {
        self.full_duplex = enable;
    }

    /// Check if the full-duplex (or 4-wire) mode is enabled.
    pub fn get_full_duplex(&self) -> (r: bool)
        ensures
            r == self.full_duplex,
    {
        self.full_duplex
    }

    /// Enable or disable the bus termination resistor.
    pub fn set_bus_termination(&mut self, enable: bool)
        ensures
            *final(self) == (Rs485Config { terminate_bus: enable, ..*old(self) }),
    {
        self.terminate_bus = enable;
    }

    /// Check if the bus termination resistor is enabled.
    pub fn get_bus_termination(&self) -> (r: bool)
        ensures
            r == self.terminate_bus,
    {
        self.terminate_bus
    }

    /// Set the time in milliseconds to delay after setting the RTS signal,
    /// before starting a transmission.
    ///
    /// This may be needed to give some devices on the bus time to activate
    /// their receiver. The platform control block truncates the delay to
    /// its own field width when the mode is applied.
    pub fn set_delay_before_send(&mut self, delay_ms: u64)
        ensures
            *final(self) == (Rs485Config { delay_before_send_ms: delay_ms, ..*old(self) }),
    {
        self.delay_before_send_ms = delay_ms;
    }

    /// Get the time in milliseconds to delay after setting the RTS signal,
    /// before starting a transmission.
    pub fn get_delay_before_send(&self) -> (r: u64)
        ensures
            r == self.delay_before_send_ms,
    {
        self.delay_before_send_ms
    }

    /// Set the time in milliseconds to hold the RTS signal after finishing
    /// a transmission.
    ///
    /// This may be needed to give some devices on the bus time to fully
    /// receive the message before they disable their receiver. The platform
    /// control block truncates the delay to its own field width when the
    /// mode is applied.
    pub fn set_delay_after_send(&mut self, delay_ms: u64)
        ensures
            *final(self) == (Rs485Config { delay_after_send_ms: delay_ms, ..*old(self) }),
    {
        self.delay_after_send_ms = delay_ms;
    }

    /// Get the time in milliseconds to hold the RTS signal after finishing
    /// a transmission.
    pub fn get_delay_after_send(&self) -> (r: u64)
        ensures
            r == self.delay_after_send_ms,
    {
        self.delay_after_send_ms
    }

    /// Set whether to invert the level of the RTS signal: low during
    /// transmissions and high again after each transmission.
    pub fn set_invert_rts(&mut self, invert: bool)
        ensures
            *final(self) == (Rs485Config { invert_rts: invert, ..*old(self) }),
    {
        self.invert_rts = invert;
    }

    /// Check if the level of the RTS signal is inverted.
    pub fn get_invert_rts(&self) -> (r: bool)
        ensures
            r == self.invert_rts,
    {
        self.invert_rts
    }
}

impl Default for Rs485Config {
    /// The default configuration has all options disabled and all delays
    /// zero.
    fn default() -> (r: Rs485Config)
        ensures
            r == Rs485Config::spec_new(),
    {
        Rs485Config::new()
    }
}

impl From<Rs485Config> for TransceiverMode {
    fn from(other: Rs485Config) -> (r: TransceiverMode) {
        TransceiverMode::Rs485(other)
    }
}

impl vstd::std_specs::convert::FromSpecImpl<Rs485Config> for TransceiverMode {
    open spec fn obeys_from_spec() -> bool {
        true
    }

    open spec fn from_spec(v: Rs485Config) -> TransceiverMode {
        TransceiverMode::Rs485(v)
    }
}

} // verus!
