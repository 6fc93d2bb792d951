//! The Win32 native serial port settings model.
//!
//! On Windows a serial line is configured through a `DCB` control block.
//! This module holds the fields of that block that the settings translation
//! reads and writes, with each packed bitfield as a field of its own, and
//! gives each portable settings field its exact projection onto them. The
//! surrounding application moves a value of this model into and out of the
//! packed Win32 structure unchanged.

use vstd::prelude::*;

use crate::settings::CharSize;
use crate::settings::FlowControl;
use crate::settings::Parity;
use crate::settings::SettingsError;
use crate::settings::StopBits;

verus! {

/// Stop bit field value: one stop bit.
pub const ONESTOPBIT: u8 = 0;

/// Stop bit field value: two stop bits.
pub const TWOSTOPBITS: u8 = 2;

/// Parity field value: no parity.
pub const NOPARITY: u8 = 0;

/// Parity field value: odd parity.
pub const ODDPARITY: u8 = 1;

/// Parity field value: even parity.
pub const EVENPARITY: u8 = 2;

/// DTR control field value: the DTR line is held low.
pub const DTR_CONTROL_DISABLE: u8 = 0;

/// RTS control field value: the RTS line is held low.
pub const RTS_CONTROL_DISABLE: u8 = 0;

/// RTS control field value: the driver drives the RTS line for hardware
/// flow control.
pub const RTS_CONTROL_TOGGLE: u8 = 3;

/// The Win32 native serial port settings: the fields of a `DCB` control
/// block that the settings translation reads and writes, each packed
/// bitfield unpacked into a field of its own.
#[derive(Debug, Copy, Clone, Eq, PartialEq, Structural)]
#[verifier::ext_equal]
pub struct DCB {
    /// The baud rate in bits per second (`BaudRate`).
    pub baud_rate: u32,
    /// The number of data bits per character (`ByteSize`).
    pub byte_size: u8,
    /// The stop bit selector (`StopBits`).
    pub stop_bits: u8,
    /// The parity selector (`Parity`).
    pub parity: u8,
    /// Whether binary mode is enabled (`fBinary`).
    pub f_binary: bool,
    /// Whether parity checking is enabled (`fParity`).
    pub f_parity: bool,
    /// Whether output is gated on the CTS line (`fOutxCtsFlow`).
    pub f_outx_cts_flow: bool,
    /// Whether output is gated on the DSR line (`fOutxDsrFlow`).
    pub f_outx_dsr_flow: bool,
    /// The DTR line control selector (`fDtrControl`).
    pub f_dtr_control: u8,
    /// Whether received bytes are dropped while DSR is low
    /// (`fDsrSensitivity`).
    pub f_dsr_sensitivity: bool,
    /// Whether XON/XOFF flow control is used when transmitting (`fOutX`).
    pub f_outx: bool,
    /// Whether XON/XOFF flow control is used when receiving (`fInX`).
    pub f_inx: bool,
    /// Whether bytes with parity errors are replaced (`fErrorChar`).
    pub f_error_char: bool,
    /// Whether received null bytes are discarded (`fNull`).
    pub f_null: bool,
    /// The RTS line control selector (`fRtsControl`).
    pub f_rts_control: u8,
}

impl DCB {
    /// The control block after setting the baud rate field.
    pub open spec fn spec_set_baud_rate(self, baud_rate: u32) -> DCB {
        DCB { baud_rate, ..self }
    }

    /// Set the baud rate.
    ///
    /// The field holds the numeric rate directly, so this never fails; the
    /// device itself may still reject the rate when the configuration is
    /// applied.
    pub fn set_baud_rate(&mut self, baud_rate: u32) -> (r: Result<(), SettingsError>)
        ensures
            r == Ok::<(), SettingsError>(()),
            *final(self) == old(self).spec_set_baud_rate(baud_rate),
    {
        self.baud_rate = baud_rate;
        Ok(())
    }

    /// Get the baud rate.
    pub fn get_baud_rate(&self) -> (r: Result<u32, SettingsError>)
        ensures
            r == Ok::<u32, SettingsError>(self.baud_rate),
    {
        Ok(self.baud_rate)
    }

    /// The control block after setting the character size field.
    pub open spec fn spec_set_char_size(self, char_size: CharSize) -> DCB {
        DCB { byte_size: char_size.spec_as_u8(), ..self }
    }

    /// The character size encoded in the control block, or an error if the
    /// size field holds an unsupported count.
    pub open spec fn spec_get_char_size(self) -> Result<CharSize, SettingsError> {
        match CharSize::spec_from_int(self.byte_size as int) {
            Some(c) => Ok(c),
            None => Err(SettingsError::UnrecognizedCharSize),
        }
    }

    /// Set the number of bits in a character.
    pub fn set_char_size(&mut self, char_size: CharSize)
        ensures
            *final(self) == old(self).spec_set_char_size(char_size),
    {
        self.byte_size = char_size.as_u8();
    }

    /// Get the number of bits in a character.
    pub fn get_char_size(&self) -> (r: Result<CharSize, SettingsError>)
        ensures
            r == self.spec_get_char_size(),
    {
        if self.byte_size == 5 {
            Ok(CharSize::Bits5)
        } else if self.byte_size == 6 {
            Ok(CharSize::Bits6)
        } else if self.byte_size == 7 {
            Ok(CharSize::Bits7)
        } else if self.byte_size == 8 {
            Ok(CharSize::Bits8)
        } else {
            Err(SettingsError::UnrecognizedCharSize)
        }
    }

    /// The stop bit field value that encodes a portable stop bit count.
    pub open spec fn spec_stop_bits_value(stop_bits: StopBits) -> u8 {
        match stop_bits {
            StopBits::One => ONESTOPBIT,
            StopBits::Two => TWOSTOPBITS,
        }
    }

    /// The control block after setting the stop bit field.
    pub open spec fn spec_set_stop_bits(self, stop_bits: StopBits) -> DCB {
        DCB { stop_bits: Self::spec_stop_bits_value(stop_bits), ..self }
    }

    /// The stop bit count encoded in the control block, or an error if the
    /// field holds neither selector. The selector for one and a half stop
    /// bits has no portable counterpart and is reported as unsupported.
    pub open spec fn spec_get_stop_bits(self) -> Result<StopBits, SettingsError> {
        if self.stop_bits == ONESTOPBIT {
            Ok(StopBits::One)
        } else if self.stop_bits == TWOSTOPBITS {
            Ok(StopBits::Two)
        } else {
            Err(SettingsError::UnsupportedStopBits)
        }
    }

    /// Set the number of stop bits following each character.
    pub fn set_stop_bits(&mut self, stop_bits: StopBits)
        ensures
            *final(self) == old(self).spec_set_stop_bits(stop_bits),
    {
        self.stop_bits = match stop_bits {
            StopBits::One => ONESTOPBIT,
            StopBits::Two => TWOSTOPBITS,
        };
    }

    /// Get the number of stop bits following each character.
    pub fn get_stop_bits(&self) -> (r: Result<StopBits, SettingsError>)
        ensures
            r == self.spec_get_stop_bits(),
    {
        if self.stop_bits == ONESTOPBIT {
            Ok(StopBits::One)
        } else if self.stop_bits == TWOSTOPBITS {
            Ok(StopBits::Two)
        } else {
            Err(SettingsError::UnsupportedStopBits)
        }
    }

    /// The control block after setting the parity fields.
    pub open spec fn spec_set_parity(self, parity: Parity) -> DCB {
        match parity {
            Parity::Off => DCB { f_parity: false, parity: NOPARITY, ..self },
            Parity::Odd => DCB { f_parity: true, parity: ODDPARITY, ..self },
            Parity::Even => DCB { f_parity: true, parity: EVENPARITY, ..self },
        }
    }

    /// The parity check encoded in the control block. No parity is
    /// recognized whether or not checking is enabled; odd and even parity
    /// are recognized only with checking enabled; anything else is an error.
    pub open spec fn spec_get_parity(self) -> Result<Parity, SettingsError> {
        if self.parity == NOPARITY {
            Ok(Parity::Off)
        } else if self.parity == ODDPARITY && self.f_parity {
            Ok(Parity::Odd)
        } else if self.parity == EVENPARITY && self.f_parity {
            Ok(Parity::Even)
        } else {
            Err(SettingsError::UnsupportedParity)
        }
    }

    /// Set the parity check.
    pub fn set_parity(&mut self, parity: Parity)
        ensures
            *final(self) == old(self).spec_set_parity(parity),
    {
        match parity {
            Parity::Off => {
                self.f_parity = false;
                self.parity = NOPARITY;
            },
            Parity::Odd => {
                self.f_parity = true;
                self.parity = ODDPARITY;
            },
            Parity::Even => {
                self.f_parity = true;
                self.parity = EVENPARITY;
            },
        }
    }

    /// Get the parity check.
    pub fn get_parity(&self) -> (r: Result<Parity, SettingsError>)
        ensures
            r == self.spec_get_parity(),
    {
        if self.parity == NOPARITY {
            Ok(Parity::Off)
        } else if self.parity == ODDPARITY && self.f_parity {
            Ok(Parity::Odd)
        } else if self.parity == EVENPARITY && self.f_parity {
            Ok(Parity::Even)
        } else {
            Err(SettingsError::UnsupportedParity)
        }
    }

    /// The control block after setting the flow control fields. Every
    /// selector that could interfere with the chosen method is set to a
    /// known value, not left as it was.
    pub open spec fn spec_set_flow_control(self, flow_control: FlowControl) -> DCB {
        match flow_control {
            FlowControl::Off => DCB {
                f_inx: false,
                f_outx: false,
                f_dtr_control: DTR_CONTROL_DISABLE,
                f_dsr_sensitivity: false,
                f_outx_dsr_flow: false,
                f_rts_control: RTS_CONTROL_DISABLE,
                f_outx_cts_flow: false,
                ..self
            },
            FlowControl::XonXoff => DCB {
                f_inx: true,
                f_outx: true,
                f_dtr_control: DTR_CONTROL_DISABLE,
                f_dsr_sensitivity: false,
                f_outx_dsr_flow: false,
                f_rts_control: RTS_CONTROL_DISABLE,
                f_outx_cts_flow: false,
                ..self
            },
            FlowControl::RtsCts => DCB {
                f_inx: false,
                f_outx: false,
                f_dtr_control: DTR_CONTROL_DISABLE,
                f_dsr_sensitivity: false,
                f_outx_dsr_flow: false,
                f_rts_control: RTS_CONTROL_TOGGLE,
                f_outx_cts_flow: true,
                ..self
            },
        }
    }

    /// The flow control method encoded in the control block. Each portable
    /// value corresponds to exactly one combination of the six fields read;
    /// any other combination is an error, never a guess.
    pub open spec fn spec_get_flow_control(self) -> Result<FlowControl, SettingsError> {
        if !self.f_inx && !self.f_outx && !self.f_outx_cts_flow && !self.f_outx_dsr_flow
            && self.f_dtr_control == DTR_CONTROL_DISABLE && self.f_rts_control
            == RTS_CONTROL_DISABLE {
            Ok(FlowControl::Off)
        } else if self.f_inx && self.f_outx && !self.f_outx_cts_flow && !self.f_outx_dsr_flow
            && self.f_dtr_control == DTR_CONTROL_DISABLE && self.f_rts_control
            == RTS_CONTROL_DISABLE {
            Ok(FlowControl::XonXoff)
        } else if !self.f_inx && !self.f_outx && self.f_outx_cts_flow && !self.f_outx_dsr_flow
            && self.f_dtr_control == DTR_CONTROL_DISABLE && self.f_rts_control
            == RTS_CONTROL_TOGGLE {
            Ok(FlowControl::RtsCts)
        } else {
            Err(SettingsError::UnknownFlowControlConfiguration)
        }
    }

    /// Set the flow control mechanism.
    pub fn set_flow_control(&mut self, flow_control: FlowControl)
        ensures
            *final(self) == old(self).spec_set_flow_control(flow_control),
    {
        match flow_control {
            FlowControl::Off => {
                self.f_inx = false;
                self.f_outx = false;
                self.f_dtr_control = DTR_CONTROL_DISABLE;
                self.f_dsr_sensitivity = false;
                self.f_outx_dsr_flow = false;
                self.f_rts_control = RTS_CONTROL_DISABLE;
                self.f_outx_cts_flow = false;
            },
            FlowControl::XonXoff => {
                self.f_inx = true;
                self.f_outx = true;
                self.f_dtr_control = DTR_CONTROL_DISABLE;
                self.f_dsr_sensitivity = false;
                self.f_outx_dsr_flow = false;
                self.f_rts_control = RTS_CONTROL_DISABLE;
                self.f_outx_cts_flow = false;
            },
            FlowControl::RtsCts => {
                self.f_inx = false;
                self.f_outx = false;
                self.f_dtr_control = DTR_CONTROL_DISABLE;
                self.f_dsr_sensitivity = false;
                self.f_outx_dsr_flow = false;
                self.f_rts_control = RTS_CONTROL_TOGGLE;
                self.f_outx_cts_flow = true;
            },
        }
    }

    /// Get the flow control mechanism.
    pub fn get_flow_control(&self) -> (r: Result<FlowControl, SettingsError>)
        ensures
            r == self.spec_get_flow_control(),
    {
        if !self.f_inx && !self.f_outx && !self.f_outx_cts_flow && !self.f_outx_dsr_flow
            && self.f_dtr_control == DTR_CONTROL_DISABLE && self.f_rts_control
            == RTS_CONTROL_DISABLE {
            Ok(FlowControl::Off)
        } else if self.f_inx && self.f_outx && !self.f_outx_cts_flow && !self.f_outx_dsr_flow
            && self.f_dtr_control == DTR_CONTROL_DISABLE && self.f_rts_control
            == RTS_CONTROL_DISABLE {
            Ok(FlowControl::XonXoff)
        } else if !self.f_inx && !self.f_outx && self.f_outx_cts_flow && !self.f_outx_dsr_flow
            && self.f_dtr_control == DTR_CONTROL_DISABLE && self.f_rts_control
            == RTS_CONTROL_TOGGLE {
            Ok(FlowControl::RtsCts)
        } else {
            Err(SettingsError::UnknownFlowControlConfiguration)
        }
    }

    /// The control block after raw-mode initialization: eight data bits,
    /// one stop bit, no parity, no flow control, binary transfer on, and no
    /// byte replacement or suppression.
    pub open spec fn spec_set_raw(self) -> DCB {
        DCB {
            f_binary: true,
            f_error_char: false,
            f_null: false,
            ..(self.spec_set_char_size(CharSize::Bits8).spec_set_stop_bits(
                StopBits::One,
            ).spec_set_parity(Parity::Off).spec_set_flow_control(FlowControl::Off))
        }
    }

    /// Disable all OS level input and output processing.
    ///
    /// The configuration is set for 8 bit binary communication, one stop
    /// bit, no parity checks and no flow control. The result does not
    /// depend on the prior state of the fields it touches.
    pub fn set_raw(&mut self)
        ensures
            *final(self) == old(self).spec_set_raw(),
    {
        self.set_char_size(CharSize::Bits8);
        self.set_stop_bits(StopBits::One);
        self.set_parity(Parity::Off);
        self.set_flow_control(FlowControl::Off);
        self.f_binary = true;
        self.f_error_char = false;
        self.f_null = false;
    }
}

/// Every character size reads back as it was written, whatever the control
/// block held before.
pub proof fn lemma_dcb_char_size_round_trip(d: DCB, v: CharSize)
    ensures
        d.spec_set_char_size(v).spec_get_char_size() == Ok::<CharSize, SettingsError>(v),
{
}

/// Every stop bit count reads back as it was written, whatever the control
/// block held before.
pub proof fn lemma_dcb_stop_bits_round_trip(d: DCB, v: StopBits)
    ensures
        d.spec_set_stop_bits(v).spec_get_stop_bits() == Ok::<StopBits, SettingsError>(v),
{
}

/// Every parity choice reads back as it was written, whatever the control
/// block held before.
pub proof fn lemma_dcb_parity_round_trip(d: DCB, v: Parity)
    ensures
        d.spec_set_parity(v).spec_get_parity() == Ok::<Parity, SettingsError>(v),
{
}

/// Every flow control choice reads back as it was written, whatever the
/// control block held before.
pub proof fn lemma_dcb_flow_control_round_trip(d: DCB, v: FlowControl)
    ensures
        d.spec_set_flow_control(v).spec_get_flow_control() == Ok::<FlowControl, SettingsError>(v),
{
}

/// Initializing raw mode twice in a row produces the same control block as
/// initializing it once, starting from the same base state.
pub proof fn lemma_dcb_set_raw_idempotent(d: DCB)
    ensures
        d.spec_set_raw().spec_set_raw() == d.spec_set_raw(),
{
    assert(d.spec_set_raw().spec_set_raw() =~= d.spec_set_raw());
}


/// Decoding is strict: a control block whose flow control fields enable
/// XON/XOFF in one direction only decodes to an error, never to a silent
/// fallback.
pub proof fn lemma_dcb_flow_control_decode_strict(d: DCB)
    requires
        d.f_inx,
        !d.f_outx,
    ensures
        d.spec_get_flow_control() == Err::<FlowControl, SettingsError>(
            SettingsError::UnknownFlowControlConfiguration,
        ),
{
}


/// Encoding any one portable field leaves the decodes of the other fields
/// unchanged: each field of the portable model lives in fields of its own
/// in this control block.
pub proof fn lemma_dcb_fields_independent(d: DCB, size: CharSize, stop: StopBits, par: Parity)
    ensures
        d.spec_set_char_size(size).spec_get_stop_bits() == d.spec_get_stop_bits(),
        d.spec_set_char_size(size).spec_get_parity() == d.spec_get_parity(),
        d.spec_set_char_size(size).spec_get_flow_control() == d.spec_get_flow_control(),
        d.spec_set_stop_bits(stop).spec_get_char_size() == d.spec_get_char_size(),
        d.spec_set_stop_bits(stop).spec_get_parity() == d.spec_get_parity(),
        d.spec_set_stop_bits(stop).spec_get_flow_control() == d.spec_get_flow_control(),
        d.spec_set_parity(par).spec_get_char_size() == d.spec_get_char_size(),
        d.spec_set_parity(par).spec_get_stop_bits() == d.spec_get_stop_bits(),
        d.spec_set_parity(par).spec_get_flow_control() == d.spec_get_flow_control(),
        d.spec_set_baud_rate(0).spec_get_char_size() == d.spec_get_char_size(),
        d.spec_set_baud_rate(0).spec_get_stop_bits() == d.spec_get_stop_bits(),
        d.spec_set_baud_rate(0).spec_get_parity() == d.spec_get_parity(),
        d.spec_set_baud_rate(0).spec_get_flow_control() == d.spec_get_flow_control(),
{
}

} // verus!
