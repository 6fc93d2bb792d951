//! Configuring a serial port when it is opened.

use vstd::prelude::*;

use crate::settings::Settings;
use crate::settings::SettingsError;

verus! {

/// Trait for objects that can configure a serial port.
///
/// The simplest option is to pass a `u32`, which is used to set the baud
/// rate of the port. That will also disable all OS level input and output
/// modification, configure a character size of 8 bits with 1 stop bit, and
/// disable parity checks and flow control.
///
/// To open a serial port without modifying any settings, pass
/// [`KeepSettings`].
pub trait IntoSettings: Sized {
    /// Apply the configuration to an existing [`Settings`] struct.
    fn apply_to_settings(self, settings: &mut Settings) -> Result<(), SettingsError>;
}

impl IntoSettings for u32 {
    /// Applying a baud rate initializes raw mode and then sets the rate.
    fn apply_to_settings(self, settings: &mut Settings) -> (r: Result<(), SettingsError>)
        ensures
            r == Ok::<(), SettingsError>(()),
            final(settings)@ == old(settings)@.spec_set_raw().spec_set_baud_rate(self),
    {
        settings.set_raw();
        settings.set_baud_rate(self)
    }
}

/// A serial port "configuration" that simply keeps all existing settings.
///
/// Note: many platforms reset the configuration of a serial port when it is
/// no longer in use. You should normally explicitly configure the settings
/// that you care about.
pub struct KeepSettings;

impl IntoSettings for KeepSettings {
    /// Keeping the settings changes nothing and never fails.
    fn apply_to_settings(self, settings: &mut Settings) -> (r: Result<(), SettingsError>)
        ensures
            r == Ok::<(), SettingsError>(()),
            final(settings)@ == old(settings)@,
    {
        Ok(())
    }
}

} // verus!
