//! Serial port configuration logic with verified settings translation.
//!
//! This crate models the configuration of a serial (RS-232/422/485) port:
//! the portable settings (baud rate, character size, stop bits, parity, flow
//! control), their bit-exact projection onto the native control structures of
//! the supported platform families (a POSIX `termios`-style block and a Win32
//! `DCB`-style block), the tolerant read-back comparison used to confirm that
//! a configuration was honoured, the RS-485/422 transceiver-mode control
//! block, and the decision logic of timeout-bounded reads and writes.
//!
//! Every encode/decode pair is proved to be inverse over the supported
//! domain, and decoding never guesses: a native bit pattern that matches no
//! portable value is reported as an error.
//!
//! The operating system calls themselves (opening a device, the ioctl and
//! read/write system calls) are left to the surrounding application; this
//! crate computes what to hand them and interprets what they return.

pub mod dcb;
mod into_settings;
pub mod rs485_ioctl;
pub mod rs4xx;
mod settings;
pub mod termios;
pub mod timeouts;
pub mod transfer;

pub use dcb::DCB;
pub use into_settings::IntoSettings;
pub use into_settings::KeepSettings;
pub use rs4xx::Rs485Config;
pub use rs4xx::TransceiverMode;
pub use rs485_ioctl::SerialRs485;
pub use settings::CharSize;
pub use settings::FlowControl;
pub use settings::Parity;
pub use settings::Settings;
pub use settings::SettingsError;
pub use settings::StopBits;
pub use settings::TryFromError;
pub use settings::COMMON_BAUD_RATES;
pub use termios::RawTermios;
pub use timeouts::CommTimeouts;
pub use timeouts::DEFAULT_TIMEOUT_MS;
pub use transfer::IoErrorKind;
pub use transfer::TransferStep;
