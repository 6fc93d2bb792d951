//! The POSIX native serial port settings model.
//!
//! A serial line on a POSIX system is configured through a `termios`-style
//! control block: four packed flag words, the control characters, and the
//! input and output speed. This module holds that block as plain integers
//! and gives each portable settings field its bit-exact projection onto it,
//! following the generic Linux layout of the flag bits. The surrounding
//! application moves a value of this model into and out of the kernel's
//! structure unchanged; everything the logic reads or writes is here.

use vstd::prelude::*;

use crate::settings::CharSize;
use crate::settings::FlowControl;
use crate::settings::Parity;
use crate::settings::SettingsError;
use crate::settings::StopBits;

verus! {

/// Input flag: ignore break conditions.
pub const IGNBRK: u32 = 0x1;

/// Input flag: signal an interrupt on a break condition.
pub const BRKINT: u32 = 0x2;

/// Input flag: ignore bytes with framing or parity errors.
pub const IGNPAR: u32 = 0x4;

/// Input flag: mark bytes with framing or parity errors.
pub const PARMRK: u32 = 0x8;

/// Input flag: strip the eighth bit off each received byte.
pub const ISTRIP: u32 = 0x20;

/// Input flag: translate a received newline to a carriage return.
pub const INLCR: u32 = 0x40;

/// Input flag: discard received carriage returns.
pub const IGNCR: u32 = 0x80;

/// Input flag: translate a received carriage return to a newline.
pub const ICRNL: u32 = 0x100;

/// Input flag: enable XON/XOFF flow control on output.
pub const IXON: u32 = 0x400;

/// Input flag: enable XON/XOFF flow control on input.
pub const IXOFF: u32 = 0x1000;

/// Output flag: enable output processing.
pub const OPOST: u32 = 0x1;

/// Control flag mask: the character size bits.
pub const CSIZE: u32 = 0x30;

/// Control flag: five bits per character.
pub const CS5: u32 = 0x00;

/// Control flag: six bits per character.
pub const CS6: u32 = 0x10;

/// Control flag: seven bits per character.
pub const CS7: u32 = 0x20;

/// Control flag: eight bits per character.
pub const CS8: u32 = 0x30;

/// Control flag: send two stop bits instead of one.
pub const CSTOPB: u32 = 0x40;

/// Control flag: enable parity generation and checking.
pub const PARENB: u32 = 0x100;

/// Control flag: use odd parity instead of even.
pub const PARODD: u32 = 0x200;

/// Control flag: enable RTS/CTS flow control.
pub const CRTSCTS: u32 = 0x80000000;

/// Control flag mask: the output baud rate bits.
pub const CBAUD: u32 = 0x100F;

/// Control flag: the extended baud rate bit.
pub const CBAUDEX: u32 = 0x1000;

/// Baud bits: the speed is given numerically in the speed fields.
pub const BOTHER: u32 = 0x1000;

/// Shift distance from the output baud bits to the input baud bits.
pub const IBSHIFT: u32 = 16;

/// Local flag: enable signal generation from control characters.
pub const ISIG: u32 = 0x1;

/// Local flag: enable canonical (line-buffered) input.
pub const ICANON: u32 = 0x2;

/// Local flag: echo received characters.
pub const ECHO: u32 = 0x8;

/// Local flag: echo newlines even when echo is off.
pub const ECHONL: u32 = 0x40;

/// Local flag: enable implementation-defined input processing.
pub const IEXTEN: u32 = 0x8000;

/// The POSIX native serial port settings: the fields of a `termios`-style
/// control block that the settings translation reads and writes, as plain
/// integers, in the generic Linux bit layout.
#[derive(Debug, Copy, Clone, Eq, PartialEq, Structural)]
#[verifier::ext_equal]
pub struct RawTermios {
    /// The input mode flags (`c_iflag`).
    pub iflag: u32,
    /// The output mode flags (`c_oflag`).
    pub oflag: u32,
    /// The control mode flags (`c_cflag`).
    pub cflag: u32,
    /// The local mode flags (`c_lflag`).
    pub lflag: u32,
    /// The line discipline (`c_line`).
    pub line: u8,
    /// The minimum number of bytes for a read (`c_cc[VMIN]`).
    pub cc_vmin: u8,
    /// The read timeout in deciseconds (`c_cc[VTIME]`).
    pub cc_vtime: u8,
    /// The numeric input speed (`c_ispeed`).
    pub ispeed: u32,
    /// The numeric output speed (`c_ospeed`).
    pub ospeed: u32,
}

impl RawTermios {
    /// The character size bits that encode a portable character size.
    pub open spec fn spec_char_size_bits(char_size: CharSize) -> u32 {
        match char_size {
            CharSize::Bits5 => CS5,
            CharSize::Bits6 => CS6,
            CharSize::Bits7 => CS7,
            CharSize::Bits8 => CS8,
        }
    }

    /// The control block after setting the character size bits.
    pub open spec fn spec_set_char_size(self, char_size: CharSize) -> RawTermios {
        RawTermios { cflag: (self.cflag & !CSIZE) | Self::spec_char_size_bits(char_size), ..self }
    }

    /// The character size encoded in the control block, or an error if the
    /// character size bits hold the reserved pattern.
    pub open spec fn spec_get_char_size(self) -> Result<CharSize, SettingsError> {
        if self.cflag & CSIZE == CS5 {
            Ok(CharSize::Bits5)
        } else if self.cflag & CSIZE == CS6 {
            Ok(CharSize::Bits6)
        } else if self.cflag & CSIZE == CS7 {
            Ok(CharSize::Bits7)
        } else if self.cflag & CSIZE == CS8 {
            Ok(CharSize::Bits8)
        } else {
            Err(SettingsError::UnrecognizedCharSize)
        }
    }

    /// Set the number of bits in a character.
    pub fn set_char_size(&mut self, char_size: CharSize)
        ensures
            *final(self) == old(self).spec_set_char_size(char_size),
    {
        let bits: u32 = match char_size {
            CharSize::Bits5 => CS5,
            CharSize::Bits6 => CS6,
            CharSize::Bits7 => CS7,
            CharSize::Bits8 => CS8,
        };
        self.cflag = (self.cflag & !CSIZE) | bits;
    }

    /// Get the number of bits in a character.
    pub fn get_char_size(&self) -> (r: Result<CharSize, SettingsError>)
        ensures
            r == self.spec_get_char_size(),
    {
        let bits = self.cflag & CSIZE;
        if bits == CS5 {
            Ok(CharSize::Bits5)
        } else if bits == CS6 {
            Ok(CharSize::Bits6)
        } else if bits == CS7 {
            Ok(CharSize::Bits7)
        } else if bits == CS8 {
            Ok(CharSize::Bits8)
        } else {
            Err(SettingsError::UnrecognizedCharSize)
        }
    }

    /// The control block after setting the stop bit flag.
    pub open spec fn spec_set_stop_bits(self, stop_bits: StopBits) -> RawTermios {
        match stop_bits {
            StopBits::One => RawTermios { cflag: self.cflag & !CSTOPB, ..self },
            StopBits::Two => RawTermios { cflag: self.cflag | CSTOPB, ..self },
        }
    }

    /// The stop bit count encoded in the control block.
    pub open spec fn spec_get_stop_bits(self) -> StopBits {
        if self.cflag & CSTOPB == 0 {
            StopBits::One
        } else {
            StopBits::Two
        }
    }

    /// Set the number of stop bits following each character.
    pub fn set_stop_bits(&mut self, stop_bits: StopBits)
        ensures
            *final(self) == old(self).spec_set_stop_bits(stop_bits),
    {
        match stop_bits {
            StopBits::One => {
                self.cflag = self.cflag & !CSTOPB;
            },
            StopBits::Two => {
                self.cflag = self.cflag | CSTOPB;
            },
        }
    }

    /// Get the number of stop bits following each character.
    pub fn get_stop_bits(&self) -> (r: Result<StopBits, SettingsError>)
        ensures
            r == Ok::<StopBits, SettingsError>(self.spec_get_stop_bits()),
    {
        if self.cflag & CSTOPB == 0 {
            Ok(StopBits::One)
        } else {
            Ok(StopBits::Two)
        }
    }

    /// The control block after setting the parity flags.
    pub open spec fn spec_set_parity(self, parity: Parity) -> RawTermios {
        match parity {
            Parity::Off => RawTermios { cflag: self.cflag & !PARODD & !PARENB, ..self },
            Parity::Even => RawTermios { cflag: (self.cflag & !PARODD) | PARENB, ..self },
            Parity::Odd => RawTermios { cflag: self.cflag | PARODD | PARENB, ..self },
        }
    }

    /// The parity check encoded in the control block. When parity generation
    /// is disabled, the odd/even bit is irrelevant and the parity is off.
    pub open spec fn spec_get_parity(self) -> Parity {
        if self.cflag & PARENB == 0 {
            Parity::Off
        } else if self.cflag & PARODD != 0 {
            Parity::Odd
        } else {
            Parity::Even
        }
    }

    /// Set the parity check.
    pub fn set_parity(&mut self, parity: Parity)
        ensures
            *final(self) == old(self).spec_set_parity(parity),
    {
        match parity {
            Parity::Off => {
                self.cflag = self.cflag & !PARODD & !PARENB;
            },
            Parity::Even => {
                self.cflag = (self.cflag & !PARODD) | PARENB;
            },
            Parity::Odd => {
                self.cflag = self.cflag | PARODD | PARENB;
            },
        }
    }

    /// Get the parity check.
    pub fn get_parity(&self) -> (r: Result<Parity, SettingsError>)
        ensures
            r == Ok::<Parity, SettingsError>(self.spec_get_parity()),
    {
        if self.cflag & PARENB == 0 {
            Ok(Parity::Off)
        } else if self.cflag & PARODD != 0 {
            Ok(Parity::Odd)
        } else {
            Ok(Parity::Even)
        }
    }

    /// The control block after setting the flow control flags.
    pub open spec fn spec_set_flow_control(self, flow_control: FlowControl) -> RawTermios {
        match flow_control {
            FlowControl::Off => RawTermios {
                iflag: self.iflag & !(IXON | IXOFF),
                cflag: self.cflag & !CRTSCTS,
                ..self
            },
            FlowControl::XonXoff => RawTermios {
                iflag: self.iflag | IXON | IXOFF,
                cflag: self.cflag & !CRTSCTS,
                ..self
            },
            FlowControl::RtsCts => RawTermios {
                iflag: self.iflag & !(IXON | IXOFF),
                cflag: self.cflag | CRTSCTS,
                ..self
            },
        }
    }

    /// The flow control method encoded in the control block. The three
    /// portable values correspond to exactly one combination of the three
    /// flags each; any other combination is an error, never a guess.
    pub open spec fn spec_get_flow_control(self) -> Result<FlowControl, SettingsError> {
        let ixon = self.iflag & IXON != 0;
        let ixoff = self.iflag & IXOFF != 0;
        let crtscts = self.cflag & CRTSCTS != 0;
        if !crtscts && !ixon && !ixoff {
            Ok(FlowControl::Off)
        } else if crtscts && !ixon && !ixoff {
            Ok(FlowControl::RtsCts)
        } else if !crtscts && ixon && ixoff {
            Ok(FlowControl::XonXoff)
        } else {
            Err(SettingsError::UnknownFlowControlConfiguration)
        }
    }

    /// Set the flow control mechanism.
    pub fn set_flow_control(&mut self, flow_control: FlowControl)
        ensures
            *final(self) == old(self).spec_set_flow_control(flow_control),
    {
        match flow_control {
            FlowControl::Off => {
                self.iflag = self.iflag & !(IXON | IXOFF);
                self.cflag = self.cflag & !CRTSCTS;
            },
            FlowControl::XonXoff => {
                self.iflag = self.iflag | IXON | IXOFF;
                self.cflag = self.cflag & !CRTSCTS;
            },
            FlowControl::RtsCts => {
                self.iflag = self.iflag & !(IXON | IXOFF);
                self.cflag = self.cflag | CRTSCTS;
            },
        }
    }

    /// Get the flow control mechanism.
    pub fn get_flow_control(&self) -> (r: Result<FlowControl, SettingsError>)
        ensures
            r == self.spec_get_flow_control(),
    {
        let ixon = self.iflag & IXON != 0;
        let ixoff = self.iflag & IXOFF != 0;
        let crtscts = self.cflag & CRTSCTS != 0;
        if !crtscts && !ixon && !ixoff {
            Ok(FlowControl::Off)
        } else if crtscts && !ixon && !ixoff {
            Ok(FlowControl::RtsCts)
        } else if !crtscts && ixon && ixoff {
            Ok(FlowControl::XonXoff)
        } else {
            Err(SettingsError::UnknownFlowControlConfiguration)
        }
    }

    /// The input flags after raw-mode initialization: all input processing
    /// off, break conditions and parity errors ignored, XON/XOFF off.
    pub open spec fn spec_raw_iflag(x: u32) -> u32 {
        ((x & !(IGNBRK | BRKINT | PARMRK | ISTRIP | INLCR | IGNCR | ICRNL | IXON)) | IGNBRK
            | IGNPAR) & !(IXON | IXOFF)
    }

    /// The output flags after raw-mode initialization: output processing off.
    pub open spec fn spec_raw_oflag(x: u32) -> u32 {
        x & !OPOST
    }

    /// The control flags after raw-mode initialization: eight bits per
    /// character, one stop bit, parity and RTS/CTS flow control off.
    pub open spec fn spec_raw_cflag(x: u32) -> u32 {
        ((((x & !(CSIZE | PARENB)) | CS8) & !CSIZE | CS8) & !CSTOPB) & !PARODD & !PARENB
            & !CRTSCTS
    }

    /// The local flags after raw-mode initialization: echo, canonical input,
    /// signal generation and extended processing off.
    pub open spec fn spec_raw_lflag(x: u32) -> u32 {
        x & !(ECHO | ECHONL | ICANON | ISIG | IEXTEN)
    }

    /// The control block after raw-mode initialization. Only the four flag
    /// words and the two control characters change; the speeds and the line
    /// discipline pass through.
    pub open spec fn spec_set_raw(self) -> RawTermios {
        RawTermios {
            iflag: Self::spec_raw_iflag(self.iflag),
            oflag: Self::spec_raw_oflag(self.oflag),
            cflag: Self::spec_raw_cflag(self.cflag),
            lflag: Self::spec_raw_lflag(self.lflag),
            cc_vmin: 1,
            cc_vtime: 0,
            ..self
        }
    }

    /// Disable all OS level input and output processing.
    ///
    /// All input and output processing will be disabled, and the
    /// configuration will be set for 8 bit binary communication, one stop
    /// bit, no parity checks and no flow control. The result does not depend
    /// on the prior state of the flags it touches.
    pub fn set_raw(&mut self)
        ensures
            *final(self) == old(self).spec_set_raw(),
    {
        self.iflag = (self.iflag & !(IGNBRK | BRKINT | PARMRK | ISTRIP | INLCR | IGNCR | ICRNL
            | IXON)) | IGNBRK | IGNPAR;
        self.oflag = self.oflag & !OPOST;
        self.cflag = (self.cflag & !(CSIZE | PARENB)) | CS8;
        self.lflag = self.lflag & !(ECHO | ECHONL | ICANON | ISIG | IEXTEN);
        self.cc_vmin = 1;
        self.cc_vtime = 0;
        self.set_char_size(CharSize::Bits8);
        self.set_stop_bits(StopBits::One);
        self.set_parity(Parity::Off);
        self.set_flow_control(FlowControl::Off);
    }

    /// The control block after setting a numeric baud rate: the baud bits of
    /// the control flags select the numeric speed fields, which hold the
    /// rate for both directions.
    pub open spec fn spec_set_baud_rate(self, baud_rate: u32) -> RawTermios {
        RawTermios {
            cflag: (self.cflag & !(CBAUD | (CBAUD << IBSHIFT))) | BOTHER | (BOTHER << IBSHIFT),
            ospeed: baud_rate,
            ispeed: baud_rate,
            ..self
        }
    }

    /// The baud rate encoded in the control block: the numeric speed field
    /// when the baud bits select it, otherwise the rate listed for the baud
    /// bits, or an error if they are listed nowhere.
    pub open spec fn spec_get_baud_rate(self) -> Result<u32, SettingsError> {
        if self.cflag & CBAUD == BOTHER {
            Ok(self.ospeed)
        } else {
            match spec_baud_rate_for_bits(self.cflag & CBAUD) {
                Some(rate) => Ok(rate),
                None => Err(SettingsError::UnrecognizedBaudRate),
            }
        }
    }

    /// Set the baud rate, using the numeric speed fields.
    ///
    /// On this platform family any numeric rate can be requested, so this
    /// never fails; the device itself may still reject the rate when the
    /// configuration is applied.
    pub fn set_baud_rate(&mut self, baud_rate: u32) -> (r: Result<(), SettingsError>)
        ensures
            r == Ok::<(), SettingsError>(()),
            *final(self) == old(self).spec_set_baud_rate(baud_rate),
    {
        self.cflag = (self.cflag & !(CBAUD | (CBAUD << IBSHIFT))) | BOTHER | (BOTHER << IBSHIFT);
        self.ospeed = baud_rate;
        self.ispeed = baud_rate;
        Ok(())
    }

    /// Set the baud rate to one of the discrete rates of the enumerated
    /// table, as platforms without numeric speed fields require.
    ///
    /// Fails with [`SettingsError::UnsupportedBaudRate`], leaving the block
    /// unchanged, when the rate is not in the table.
    pub fn set_discrete_baud_rate(&mut self, baud_rate: u32) -> (r: Result<(), SettingsError>)
        ensures
            (match spec_baud_bits_for_rate(baud_rate) {
                Some(bits) => r == Ok::<(), SettingsError>(()) && *final(self) == (RawTermios {
                    cflag: (old(self).cflag & !CBAUD) | bits,
                    ..*old(self)
                }),
                None => r == Err::<(), SettingsError>(SettingsError::UnsupportedBaudRate)
                    && *final(self) == *old(self),
            }),
    {
        match baud_bits_for_rate(baud_rate) {
            Some(bits) => {
                self.cflag = (self.cflag & !CBAUD) | bits;
                Ok(())
            },
            None => Err(SettingsError::UnsupportedBaudRate),
        }
    }

    /// Get the baud rate.
    pub fn get_baud_rate(&self) -> (r: Result<u32, SettingsError>)
        ensures
            r == self.spec_get_baud_rate(),
    {
        if self.cflag & CBAUD == BOTHER {
            Ok(self.ospeed)
        } else {
            match baud_rate_for_bits(self.cflag & CBAUD) {
                Some(rate) => Ok(rate),
                None => Err(SettingsError::UnrecognizedBaudRate),
            }
        }
    }

    /// Whether two control blocks are the same configuration: equal flag
    /// words and equal speeds.
    pub open spec fn spec_is_same(self, other: RawTermios) -> bool {
        &&& self.cflag == other.cflag
        &&& self.iflag == other.iflag
        &&& self.oflag == other.oflag
        &&& self.lflag == other.lflag
        &&& self.ispeed == other.ispeed
        &&& self.ospeed == other.ospeed
    }

    /// Check whether two control blocks hold the same configuration.
    pub fn is_same(&self, other: &RawTermios) -> (r: bool)
        ensures
            r == self.spec_is_same(*other),
    {
        self.cflag == other.cflag && self.iflag == other.iflag && self.oflag == other.oflag
            && self.lflag == other.lflag && self.ispeed == other.ispeed && self.ospeed
            == other.ospeed
    }

    /// Whether this control block, read back from the device, matches a
    /// requested one. All fields but the baud bits must match exactly; the
    /// decoded baud rate may deviate by up to one fortieth (2.5%) of the
    /// requested rate, allowing for clock-divisor rounding. When neither
    /// side's baud bits can be decoded the rates are treated as matching,
    /// and when only one side fails to decode they do not match.
    pub open spec fn spec_matches_requested(self, requested: RawTermios) -> bool {
        let no_baud = !(CBAUD | CBAUDEX | ((CBAUD | CBAUDEX) << IBSHIFT));
        &&& self.cflag & no_baud == requested.cflag & no_baud
        &&& self.iflag == requested.iflag
        &&& self.oflag == requested.oflag
        &&& self.lflag == requested.lflag
        &&& self.cc_vmin == requested.cc_vmin
        &&& self.cc_vtime == requested.cc_vtime
        &&& self.line == requested.line
        &&& match (self.spec_get_baud_rate(), requested.spec_get_baud_rate()) {
            (Ok(actual), Ok(req)) => abs_diff(actual, req) <= req / 40,
            (Err(_), Err(_)) => true,
            _ => false,
        }
    }

    /// Check whether this control block, read back from the device, matches
    /// the requested one, tolerating a bounded deviation of the baud rate.
    pub fn matches_requested(&self, requested: &RawTermios) -> (r: bool)
        ensures
            r == self.spec_matches_requested(*requested),
    {
        let no_baud: u32 = !(CBAUD | CBAUDEX | ((CBAUD | CBAUDEX) << IBSHIFT));
        let same = self.cflag & no_baud == requested.cflag & no_baud && self.iflag
            == requested.iflag && self.oflag == requested.oflag && self.lflag == requested.lflag
            && self.cc_vmin == requested.cc_vmin && self.cc_vtime == requested.cc_vtime
            && self.line == requested.line;
        if !same {
            return false;
        }
        match (self.get_baud_rate(), requested.get_baud_rate()) {
            (Ok(actual), Ok(req)) => {
                let diff = if actual >= req {
                    actual - req
                } else {
                    req - actual
                };
                diff <= req / 40
            },
            (Err(_), Err(_)) => true,
            _ => false,
        }
    }
}

/// The baud bits of the enumerated table that encode a discrete rate, if
/// the rate is listed.
pub open spec fn spec_baud_bits_for_rate(rate: u32) -> Option<u32> {
        if rate == 50 {
            Some(1u32)
        } else if rate == 75 {
            Some(2u32)
        } else if rate == 110 {
            Some(3u32)
        } else if rate == 134 {
            Some(4u32)
        } else if rate == 150 {
            Some(5u32)
        } else if rate == 200 {
            Some(6u32)
        } else if rate == 300 {
            Some(7u32)
        } else if rate == 600 {
            Some(8u32)
        } else if rate == 1200 {
            Some(9u32)
        } else if rate == 1800 {
            Some(10u32)
        } else if rate == 2400 {
            Some(11u32)
        } else if rate == 4800 {
            Some(12u32)
        } else if rate == 9600 {
            Some(13u32)
        } else if rate == 19200 {
            Some(14u32)
        } else if rate == 38400 {
            Some(15u32)
        } else if rate == 57600 {
            Some(0x1001u32)
        } else if rate == 115200 {
            Some(0x1002u32)
        } else if rate == 230400 {
            Some(0x1003u32)
        } else if rate == 460800 {
            Some(0x1004u32)
        } else if rate == 500000 {
            Some(0x1005u32)
        } else if rate == 576000 {
            Some(0x1006u32)
        } else if rate == 921600 {
            Some(0x1007u32)
        } else if rate == 1000000 {
            Some(0x1008u32)
        } else if rate == 1152000 {
            Some(0x1009u32)
        } else if rate == 1500000 {
            Some(0x100Au32)
        } else if rate == 2000000 {
            Some(0x100Bu32)
        } else if rate == 2500000 {
            Some(0x100Cu32)
        } else if rate == 3000000 {
            Some(0x100Du32)
        } else if rate == 3500000 {
            Some(0x100Eu32)
        } else if rate == 4000000 {
            Some(0x100Fu32)
        } else {
            None
        }
}

/// The discrete rate of the enumerated table that a set of baud bits
/// encodes, if the bits are listed.
pub open spec fn spec_baud_rate_for_bits(bits: u32) -> Option<u32> {
        if bits == 1 {
            Some(50u32)
        } else if bits == 2 {
            Some(75u32)
        } else if bits == 3 {
            Some(110u32)
        } else if bits == 4 {
            Some(134u32)
        } else if bits == 5 {
            Some(150u32)
        } else if bits == 6 {
            Some(200u32)
        } else if bits == 7 {
            Some(300u32)
        } else if bits == 8 {
            Some(600u32)
        } else if bits == 9 {
            Some(1200u32)
        } else if bits == 10 {
            Some(1800u32)
        } else if bits == 11 {
            Some(2400u32)
        } else if bits == 12 {
            Some(4800u32)
        } else if bits == 13 {
            Some(9600u32)
        } else if bits == 14 {
            Some(19200u32)
        } else if bits == 15 {
            Some(38400u32)
        } else if bits == 0x1001 {
            Some(57600u32)
        } else if bits == 0x1002 {
            Some(115200u32)
        } else if bits == 0x1003 {
            Some(230400u32)
        } else if bits == 0x1004 {
            Some(460800u32)
        } else if bits == 0x1005 {
            Some(500000u32)
        } else if bits == 0x1006 {
            Some(576000u32)
        } else if bits == 0x1007 {
            Some(921600u32)
        } else if bits == 0x1008 {
            Some(1000000u32)
        } else if bits == 0x1009 {
            Some(1152000u32)
        } else if bits == 0x100A {
            Some(1500000u32)
        } else if bits == 0x100B {
            Some(2000000u32)
        } else if bits == 0x100C {
            Some(2500000u32)
        } else if bits == 0x100D {
            Some(3000000u32)
        } else if bits == 0x100E {
            Some(3500000u32)
        } else if bits == 0x100F {
            Some(4000000u32)
        } else {
            None
        }
}

/// Look up the baud bits that encode a discrete rate.
pub fn baud_bits_for_rate(rate: u32) -> (r: Option<u32>)
    ensures
        r == spec_baud_bits_for_rate(rate),
{
        if rate == 50 {
            Some(1u32)
        } else if rate == 75 {
            Some(2u32)
        } else if rate == 110 {
            Some(3u32)
        } else if rate == 134 {
            Some(4u32)
        } else if rate == 150 {
            Some(5u32)
        } else if rate == 200 {
            Some(6u32)
        } else if rate == 300 {
            Some(7u32)
        } else if rate == 600 {
            Some(8u32)
        } else if rate == 1200 {
            Some(9u32)
        } else if rate == 1800 {
            Some(10u32)
        } else if rate == 2400 {
            Some(11u32)
        } else if rate == 4800 {
            Some(12u32)
        } else if rate == 9600 {
            Some(13u32)
        } else if rate == 19200 {
            Some(14u32)
        } else if rate == 38400 {
            Some(15u32)
        } else if rate == 57600 {
            Some(0x1001u32)
        } else if rate == 115200 {
            Some(0x1002u32)
        } else if rate == 230400 {
            Some(0x1003u32)
        } else if rate == 460800 {
            Some(0x1004u32)
        } else if rate == 500000 {
            Some(0x1005u32)
        } else if rate == 576000 {
            Some(0x1006u32)
        } else if rate == 921600 {
            Some(0x1007u32)
        } else if rate == 1000000 {
            Some(0x1008u32)
        } else if rate == 1152000 {
            Some(0x1009u32)
        } else if rate == 1500000 {
            Some(0x100Au32)
        } else if rate == 2000000 {
            Some(0x100Bu32)
        } else if rate == 2500000 {
            Some(0x100Cu32)
        } else if rate == 3000000 {
            Some(0x100Du32)
        } else if rate == 3500000 {
            Some(0x100Eu32)
        } else if rate == 4000000 {
            Some(0x100Fu32)
        } else {
            None
        }
}

/// Look up the discrete rate that a set of baud bits encodes.
pub fn baud_rate_for_bits(bits: u32) -> (r: Option<u32>)
    ensures
        r == spec_baud_rate_for_bits(bits),
{
        if bits == 1 {
            Some(50u32)
        } else if bits == 2 {
            Some(75u32)
        } else if bits == 3 {
            Some(110u32)
        } else if bits == 4 {
            Some(134u32)
        } else if bits == 5 {
            Some(150u32)
        } else if bits == 6 {
            Some(200u32)
        } else if bits == 7 {
            Some(300u32)
        } else if bits == 8 {
            Some(600u32)
        } else if bits == 9 {
            Some(1200u32)
        } else if bits == 10 {
            Some(1800u32)
        } else if bits == 11 {
            Some(2400u32)
        } else if bits == 12 {
            Some(4800u32)
        } else if bits == 13 {
            Some(9600u32)
        } else if bits == 14 {
            Some(19200u32)
        } else if bits == 15 {
            Some(38400u32)
        } else if bits == 0x1001 {
            Some(57600u32)
        } else if bits == 0x1002 {
            Some(115200u32)
        } else if bits == 0x1003 {
            Some(230400u32)
        } else if bits == 0x1004 {
            Some(460800u32)
        } else if bits == 0x1005 {
            Some(500000u32)
        } else if bits == 0x1006 {
            Some(576000u32)
        } else if bits == 0x1007 {
            Some(921600u32)
        } else if bits == 0x1008 {
            Some(1000000u32)
        } else if bits == 0x1009 {
            Some(1152000u32)
        } else if bits == 0x100A {
            Some(1500000u32)
        } else if bits == 0x100B {
            Some(2000000u32)
        } else if bits == 0x100C {
            Some(2500000u32)
        } else if bits == 0x100D {
            Some(3000000u32)
        } else if bits == 0x100E {
            Some(3500000u32)
        } else if bits == 0x100F {
            Some(4000000u32)
        } else {
            None
        }
}

/// The absolute difference of two rates.
pub open spec fn abs_diff(a: u32, b: u32) -> int {
    if a >= b {
        a - b
    } else {
        b - a
    }
}

/// Initializing raw mode twice in a row produces the same control block as
/// initializing it once, starting from the same base state.
pub proof fn lemma_set_raw_idempotent(t: RawTermios)
    ensures
        t.spec_set_raw().spec_set_raw() == t.spec_set_raw(),
{
    let a = t.spec_set_raw();
    let b = a.spec_set_raw();
    let x = t.iflag;
    assert(RawTermios::spec_raw_iflag(RawTermios::spec_raw_iflag(x))
        == RawTermios::spec_raw_iflag(x)) by (bit_vector);
    let x = t.oflag;
    assert(RawTermios::spec_raw_oflag(RawTermios::spec_raw_oflag(x))
        == RawTermios::spec_raw_oflag(x)) by (bit_vector);
    let x = t.cflag;
    assert(RawTermios::spec_raw_cflag(RawTermios::spec_raw_cflag(x))
        == RawTermios::spec_raw_cflag(x)) by (bit_vector);
    let x = t.lflag;
    assert(RawTermios::spec_raw_lflag(RawTermios::spec_raw_lflag(x))
        == RawTermios::spec_raw_lflag(x)) by (bit_vector);
    assert(b =~= a);
}

/// A numeric baud rate reads back exactly as it was written, whatever the
/// control block held before.
pub proof fn lemma_baud_rate_round_trip(t: RawTermios, rate: u32)
    ensures
        t.spec_set_baud_rate(rate).spec_get_baud_rate() == Ok::<u32, SettingsError>(rate),
{
    let x = t.cflag;
    assert(((x & !(0x100Fu32 | (0x100Fu32 << 16))) | 0x1000u32 | (0x1000u32 << 16)) & 0x100Fu32
        == 0x1000u32) by (bit_vector);
}

/// The two directions of the enumerated baud table are inverse: the rate of
/// the bits of a listed rate is that rate, and the bits of the rate of
/// listed bits are those bits.
pub proof fn lemma_baud_table_inverse(rate: u32, bits: u32)
    ensures
        spec_baud_bits_for_rate(rate) == Some(bits) ==> spec_baud_rate_for_bits(bits) == Some(
            rate,
        ),
        spec_baud_rate_for_bits(bits) == Some(rate) ==> spec_baud_bits_for_rate(rate) == Some(
            bits,
        ),
{
}

/// Every character size reads back as it was written, whatever the control
/// block held before.
pub proof fn lemma_char_size_round_trip(t: RawTermios, v: CharSize)
    ensures
        t.spec_set_char_size(v).spec_get_char_size() == Ok::<CharSize, SettingsError>(v),
{
    let x = t.cflag;
    assert(((x & !0x30u32) | 0x00u32) & 0x30u32 == 0x00u32 && ((x & !0x30u32) | 0x10u32)
        & 0x30u32 == 0x10u32 && ((x & !0x30u32) | 0x20u32) & 0x30u32 == 0x20u32 && ((x & !0x30u32)
        | 0x30u32) & 0x30u32 == 0x30u32) by (bit_vector);
}

/// Every stop bit count reads back as it was written, whatever the control
/// block held before.
pub proof fn lemma_stop_bits_round_trip(t: RawTermios, v: StopBits)
    ensures
        t.spec_set_stop_bits(v).spec_get_stop_bits() == v,
{
    let x = t.cflag;
    assert((x & !0x40u32) & 0x40u32 == 0u32 && (x | 0x40u32) & 0x40u32 != 0u32) by (bit_vector);
}

/// Every parity choice reads back as it was written, whatever the control
/// block held before.
pub proof fn lemma_parity_round_trip(t: RawTermios, v: Parity)
    ensures
        t.spec_set_parity(v).spec_get_parity() == v,
{
    let x = t.cflag;
    assert((x & !0x200u32 & !0x100u32) & 0x100u32 == 0u32 && ((x & !0x200u32) | 0x100u32)
        & 0x100u32 != 0u32 && ((x & !0x200u32) | 0x100u32) & 0x200u32 == 0u32 && (x | 0x200u32
        | 0x100u32) & 0x100u32 != 0u32 && (x | 0x200u32 | 0x100u32) & 0x200u32 != 0u32)
        by (bit_vector);
}

/// Every flow control choice reads back as it was written, whatever the
/// control block held before.
pub proof fn lemma_flow_control_round_trip(t: RawTermios, v: FlowControl)
    ensures
        t.spec_set_flow_control(v).spec_get_flow_control() == Ok::<
            FlowControl,
            SettingsError,
        >(v),
{
    let i = t.iflag;
    let c = t.cflag;
    assert((i & !(0x400u32 | 0x1000u32)) & 0x400u32 == 0u32 && (i & !(0x400u32 | 0x1000u32))
        & 0x1000u32 == 0u32 && (i | 0x400u32 | 0x1000u32) & 0x400u32 != 0u32 && (i | 0x400u32
        | 0x1000u32) & 0x1000u32 != 0u32) by (bit_vector);
    assert((c & !0x80000000u32) & 0x80000000u32 == 0u32 && (c | 0x80000000u32) & 0x80000000u32
        != 0u32) by (bit_vector);
}


/// A read-back configuration accepted against a request keeps the baud
/// rate within one fortieth (2.5%) of the requested rate, or both sides'
/// baud bits were undecodable and the rates are treated as matching; an
/// accepted configuration never pairs a decodable rate with an undecodable
/// one.
pub proof fn lemma_accepted_baud_within_tolerance(applied: RawTermios, requested: RawTermios)
    requires
        applied.spec_matches_requested(requested),
    ensures
        (match (applied.spec_get_baud_rate(), requested.spec_get_baud_rate()) {
            (Ok(actual), Ok(req)) => abs_diff(actual, req) <= req / 40,
            (Err(_), Err(_)) => true,
            _ => false,
        }),
{
}

/// Decoding is strict: a control block whose flow control bits enable
/// XON/XOFF in one direction only, with hardware flow control off, decodes
/// to an error, never to a silent fallback.
pub proof fn lemma_flow_control_decode_strict(t: RawTermios)
    requires
        t.iflag & IXON != 0,
        t.iflag & IXOFF == 0,
        t.cflag & CRTSCTS == 0,
    ensures
        t.spec_get_flow_control() == Err::<FlowControl, SettingsError>(
            SettingsError::UnknownFlowControlConfiguration,
        ),
{
}


/// A configuration read back unchanged always matches the request: the
/// comparison never rejects a device that honoured the configuration
/// exactly.
pub proof fn lemma_matches_requested_reflexive(t: RawTermios)
    ensures
        t.spec_matches_requested(t),
{
}


/// Encoding the character size leaves the decodes of every other field
/// unchanged.
pub proof fn lemma_set_char_size_preserves_others(t: RawTermios, v: CharSize)
    ensures
        t.spec_set_char_size(v).spec_get_stop_bits() == t.spec_get_stop_bits(),
        t.spec_set_char_size(v).spec_get_parity() == t.spec_get_parity(),
        t.spec_set_char_size(v).spec_get_flow_control() == t.spec_get_flow_control(),
        t.spec_set_char_size(v).spec_get_baud_rate() == t.spec_get_baud_rate(),
{
    let x = t.cflag;
    let b = RawTermios::spec_char_size_bits(v);
    assert(b == 0u32 || b == 0x10u32 || b == 0x20u32 || b == 0x30u32);
    assert(b & 0x30u32 == b) by (bit_vector)
        requires
            b == 0u32 || b == 0x10u32 || b == 0x20u32 || b == 0x30u32,
    ;
    assert(((x & !0x30u32) | b) & 0x40u32 == x & 0x40u32 && ((x & !0x30u32) | b) & 0x100u32 == x
        & 0x100u32 && ((x & !0x30u32) | b) & 0x200u32 == x & 0x200u32 && ((x & !0x30u32) | b)
        & 0x80000000u32 == x & 0x80000000u32 && ((x & !0x30u32) | b) & 0x100Fu32 == x
        & 0x100Fu32) by (bit_vector)
        requires
            b & 0x30u32 == b,
    ;
}

/// Encoding the stop bit count leaves the decodes of every other field
/// unchanged.
pub proof fn lemma_set_stop_bits_preserves_others(t: RawTermios, v: StopBits)
    ensures
        t.spec_set_stop_bits(v).spec_get_char_size() == t.spec_get_char_size(),
        t.spec_set_stop_bits(v).spec_get_parity() == t.spec_get_parity(),
        t.spec_set_stop_bits(v).spec_get_flow_control() == t.spec_get_flow_control(),
        t.spec_set_stop_bits(v).spec_get_baud_rate() == t.spec_get_baud_rate(),
{
    let x = t.cflag;
    assert((x & !0x40u32) & 0x30u32 == x & 0x30u32 && (x & !0x40u32) & 0x100u32 == x & 0x100u32
        && (x & !0x40u32) & 0x200u32 == x & 0x200u32 && (x & !0x40u32) & 0x80000000u32 == x
        & 0x80000000u32 && (x & !0x40u32) & 0x100Fu32 == x & 0x100Fu32 && (x | 0x40u32)
        & 0x30u32 == x & 0x30u32 && (x | 0x40u32) & 0x100u32 == x & 0x100u32 && (x | 0x40u32)
        & 0x200u32 == x & 0x200u32 && (x | 0x40u32) & 0x80000000u32 == x & 0x80000000u32 && (x
        | 0x40u32) & 0x100Fu32 == x & 0x100Fu32) by (bit_vector);
}

/// Encoding the parity leaves the decodes of every other field unchanged.
pub proof fn lemma_set_parity_preserves_others(t: RawTermios, v: Parity)
    ensures
        t.spec_set_parity(v).spec_get_char_size() == t.spec_get_char_size(),
        t.spec_set_parity(v).spec_get_stop_bits() == t.spec_get_stop_bits(),
        t.spec_set_parity(v).spec_get_flow_control() == t.spec_get_flow_control(),
        t.spec_set_parity(v).spec_get_baud_rate() == t.spec_get_baud_rate(),
{
    let x = t.cflag;
    assert((x & !0x200u32 & !0x100u32) & 0x30u32 == x & 0x30u32 && (x & !0x200u32 & !0x100u32)
        & 0x40u32 == x & 0x40u32 && (x & !0x200u32 & !0x100u32) & 0x80000000u32 == x
        & 0x80000000u32 && (x & !0x200u32 & !0x100u32) & 0x100Fu32 == x & 0x100Fu32 && ((x
        & !0x200u32) | 0x100u32) & 0x30u32 == x & 0x30u32 && ((x & !0x200u32) | 0x100u32)
        & 0x40u32 == x & 0x40u32 && ((x & !0x200u32) | 0x100u32) & 0x80000000u32 == x
        & 0x80000000u32 && ((x & !0x200u32) | 0x100u32) & 0x100Fu32 == x & 0x100Fu32 && (x
        | 0x200u32 | 0x100u32) & 0x30u32 == x & 0x30u32 && (x | 0x200u32 | 0x100u32) & 0x40u32
        == x & 0x40u32 && (x | 0x200u32 | 0x100u32) & 0x80000000u32 == x & 0x80000000u32 && (x
        | 0x200u32 | 0x100u32) & 0x100Fu32 == x & 0x100Fu32) by (bit_vector);
}

/// Encoding the flow control leaves the decodes of every other field
/// unchanged.
pub proof fn lemma_set_flow_control_preserves_others(t: RawTermios, v: FlowControl)
    ensures
        t.spec_set_flow_control(v).spec_get_char_size() == t.spec_get_char_size(),
        t.spec_set_flow_control(v).spec_get_stop_bits() == t.spec_get_stop_bits(),
        t.spec_set_flow_control(v).spec_get_parity() == t.spec_get_parity(),
        t.spec_set_flow_control(v).spec_get_baud_rate() == t.spec_get_baud_rate(),
{
    let x = t.cflag;
    assert((x & !0x80000000u32) & 0x30u32 == x & 0x30u32 && (x & !0x80000000u32) & 0x40u32 == x
        & 0x40u32 && (x & !0x80000000u32) & 0x100u32 == x & 0x100u32 && (x & !0x80000000u32)
        & 0x200u32 == x & 0x200u32 && (x & !0x80000000u32) & 0x100Fu32 == x & 0x100Fu32 && (x
        | 0x80000000u32) & 0x30u32 == x & 0x30u32 && (x | 0x80000000u32) & 0x40u32 == x
        & 0x40u32 && (x | 0x80000000u32) & 0x100u32 == x & 0x100u32 && (x | 0x80000000u32)
        & 0x200u32 == x & 0x200u32 && (x | 0x80000000u32) & 0x100Fu32 == x & 0x100Fu32)
        by (bit_vector);
}

/// Encoding a numeric baud rate leaves the decodes of every other field
/// unchanged.
pub proof fn lemma_set_baud_rate_preserves_others(t: RawTermios, rate: u32)
    ensures
        t.spec_set_baud_rate(rate).spec_get_char_size() == t.spec_get_char_size(),
        t.spec_set_baud_rate(rate).spec_get_stop_bits() == t.spec_get_stop_bits(),
        t.spec_set_baud_rate(rate).spec_get_parity() == t.spec_get_parity(),
        t.spec_set_baud_rate(rate).spec_get_flow_control() == t.spec_get_flow_control(),
{
    let x = t.cflag;
    let y = (x & !(0x100Fu32 | (0x100Fu32 << 16))) | 0x1000u32 | (0x1000u32 << 16);
    assert(y & 0x30u32 == x & 0x30u32 && y & 0x40u32 == x & 0x40u32 && y & 0x100u32 == x
        & 0x100u32 && y & 0x200u32 == x & 0x200u32 && y & 0x80000000u32 == x & 0x80000000u32)
        by (bit_vector)
        requires
            y == ((x & !(0x100Fu32 | (0x100Fu32 << 16))) | 0x1000u32 | (0x1000u32 << 16)),
    ;
}

} // verus!
