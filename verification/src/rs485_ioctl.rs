//! The kernel control block for RS-485/422 transceiver modes.
//!
//! On Linux the transceiver mode travels through a fixed-layout structure
//! (`struct serial_rs485`) carried by a dedicated ioctl, separate from the
//! ordinary port settings. This module holds that structure as plain
//! integers and translates it from and to the portable
//! [`TransceiverMode`][crate::rs4xx::TransceiverMode]. The translation is a
//! pure bit-flag composition; only the delays are truncated, to the
//! millisecond fields of the structure. The ioctl itself belongs to the
//! surrounding application, which moves a value of this model into and out
//! of the kernel structure unchanged, with its padding zeroed.

use vstd::prelude::*;

use crate::rs4xx::Rs485Config;
use crate::rs4xx::TransceiverMode;

verus! {

/// Flag: RS-485 mode is enabled. Without it the other flags are void.
pub const SER_RS485_ENABLED: u32 = 0x1;

/// Flag: the RTS signal is high while sending.
pub const SER_RS485_RTS_ON_SEND: u32 = 0x2;

/// Flag: the RTS signal is high after sending.
pub const SER_RS485_RTS_AFTER_SEND: u32 = 0x4;

/// Flag: the receiver stays enabled while transmitting.
pub const SER_RS485_RX_DURING_TX: u32 = 0x10;

/// Flag: the bus termination resistor is enabled.
pub const SER_RS485_TERMINATE_BUS: u32 = 0x20;

/// Flag: addressing mode B is enabled.
pub const SER_RS485_ADDRB: u32 = 0x40;

/// Flag: receive filtering on the configured address is enabled.
pub const SER_RS485_ADDR_RECV: u32 = 0x80;

/// Flag: transmissions carry the configured destination address.
pub const SER_RS485_ADDR_DEST: u32 = 0x100;

/// Flag: the transceiver runs in RS-422 mode.
pub const SER_RS485_MODE_RS422: u32 = 0x200;

/// A 64-bit millisecond count reduced to the 32-bit delay fields: values
/// over `u32::MAX` saturate.
pub open spec fn spec_saturate_delay(ms: u64) -> u32 {
    if ms > u32::MAX {
        u32::MAX
    } else {
        ms as u32
    }
}

/// The RS-485 serial configuration control block, with the layout of the
/// kernel's `struct serial_rs485`: the flag word, the two millisecond
/// delays, and the two addressing bytes.
#[derive(Debug, Copy, Clone, Eq, PartialEq, Structural)]
#[verifier::ext_equal]
pub struct SerialRs485 {
    /// The mode flags (`flags`).
    pub flags: u32,
    /// Milliseconds to wait after raising RTS before sending
    /// (`delay_rts_before_send`).
    pub delay_rts_before_send_ms: u32,
    /// Milliseconds to hold RTS after sending (`delay_rts_after_send`).
    pub delay_rts_after_send_ms: u32,
    /// The receive filter address (`addr_recv`).
    pub addr_recv: u8,
    /// The destination address (`addr_dest`).
    pub addr_dest: u8,
}

impl SerialRs485 {
    /// The control block with the given flags and everything else zeroed.
    pub open spec fn spec_new_with_flags(flags: u32) -> SerialRs485 {
        SerialRs485 {
            flags,
            delay_rts_before_send_ms: 0,
            delay_rts_after_send_ms: 0,
            addr_recv: 0,
            addr_dest: 0,
        }
    }

    /// Create a control block with the specified flags and otherwise all
    /// fields zeroed.
    pub fn new_with_flags(flags: u32) -> (r: SerialRs485)
        ensures
            r == SerialRs485::spec_new_with_flags(flags),
    {
        SerialRs485 {
            flags,
            delay_rts_before_send_ms: 0,
            delay_rts_after_send_ms: 0,
            addr_recv: 0,
            addr_dest: 0,
        }
    }

    /// Create a control block for RS-422 mode. The receive-during-transmit
    /// flag is added as a fallback for drivers that do not know the RS-422
    /// flag.
    pub fn new_rs422() -> (r: SerialRs485)
        ensures
            r == SerialRs485::spec_new_with_flags(
                SER_RS485_ENABLED | SER_RS485_MODE_RS422 | SER_RS485_RX_DURING_TX,
            ),
    {
        SerialRs485::new_with_flags(SER_RS485_ENABLED | SER_RS485_MODE_RS422
            | SER_RS485_RX_DURING_TX)
    }

    /// Enable or disable RS-485 mode. Unless enabled, none of the other
    /// settings take effect.
    pub fn set_enabled(&mut self, enabled: bool)
        ensures
            enabled ==> final(self).flags == old(self).flags | SER_RS485_ENABLED,
            !enabled ==> final(self).flags == old(self).flags & !SER_RS485_ENABLED,
            final(self).delay_rts_before_send_ms == old(self).delay_rts_before_send_ms,
            final(self).delay_rts_after_send_ms == old(self).delay_rts_after_send_ms,
            final(self).addr_recv == old(self).addr_recv,
            final(self).addr_dest == old(self).addr_dest,
    {
        if enabled {
            self.flags = self.flags | SER_RS485_ENABLED;
        } else {
            self.flags = self.flags & !SER_RS485_ENABLED;
        }
    }

    /// Choose whether RTS is high (`true`) or low (`false`) while sending.
    pub fn set_rts_on_send(&mut self, rts_on_send: bool)
        ensures
            rts_on_send ==> final(self).flags == old(self).flags | SER_RS485_RTS_ON_SEND,
            !rts_on_send ==> final(self).flags == old(self).flags & !SER_RS485_RTS_ON_SEND,
            final(self).delay_rts_before_send_ms == old(self).delay_rts_before_send_ms,
            final(self).delay_rts_after_send_ms == old(self).delay_rts_after_send_ms,
            final(self).addr_recv == old(self).addr_recv,
            final(self).addr_dest == old(self).addr_dest,
    {
        if rts_on_send {
            self.flags = self.flags | SER_RS485_RTS_ON_SEND;
        } else {
            self.flags = self.flags & !SER_RS485_RTS_ON_SEND;
        }
    }

    /// Choose whether RTS is high (`true`) or low (`false`) after sending.
    pub fn set_rts_after_send(&mut self, rts_after_send: bool)
        ensures
            rts_after_send ==> final(self).flags == old(self).flags | SER_RS485_RTS_AFTER_SEND,
            !rts_after_send ==> final(self).flags == old(self).flags & !SER_RS485_RTS_AFTER_SEND,
            final(self).delay_rts_before_send_ms == old(self).delay_rts_before_send_ms,
            final(self).delay_rts_after_send_ms == old(self).delay_rts_after_send_ms,
            final(self).addr_recv == old(self).addr_recv,
            final(self).addr_dest == old(self).addr_dest,
    {
        if rts_after_send {
            self.flags = self.flags | SER_RS485_RTS_AFTER_SEND;
        } else {
            self.flags = self.flags & !SER_RS485_RTS_AFTER_SEND;
        }
    }

    /// Allow or forbid receiving while transmitting.
    pub fn set_rx_during_tx(&mut self, rx_during_tx: bool)
        ensures
            rx_during_tx ==> final(self).flags == old(self).flags | SER_RS485_RX_DURING_TX,
            !rx_during_tx ==> final(self).flags == old(self).flags & !SER_RS485_RX_DURING_TX,
            final(self).delay_rts_before_send_ms == old(self).delay_rts_before_send_ms,
            final(self).delay_rts_after_send_ms == old(self).delay_rts_after_send_ms,
            final(self).addr_recv == old(self).addr_recv,
            final(self).addr_dest == old(self).addr_dest,
    {
        if rx_during_tx {
            self.flags = self.flags | SER_RS485_RX_DURING_TX;
        } else {
            self.flags = self.flags & !SER_RS485_RX_DURING_TX;
        }
    }

    /// Enable or disable the bus termination resistor.
    pub fn set_terminate_bus(&mut self, terminate_bus: bool)
        ensures
            terminate_bus ==> final(self).flags == old(self).flags | SER_RS485_TERMINATE_BUS,
            !terminate_bus ==> final(self).flags == old(self).flags & !SER_RS485_TERMINATE_BUS,
            final(self).delay_rts_before_send_ms == old(self).delay_rts_before_send_ms,
            final(self).delay_rts_after_send_ms == old(self).delay_rts_after_send_ms,
            final(self).addr_recv == old(self).addr_recv,
            final(self).addr_dest == old(self).addr_dest,
    {
        if terminate_bus {
            self.flags = self.flags | SER_RS485_TERMINATE_BUS;
        } else {
            self.flags = self.flags & !SER_RS485_TERMINATE_BUS;
        }
    }

    /// Enable or disable RS-422 mode.
    pub fn set_mode_rs422(&mut self, mode_rs422: bool)
        ensures
            mode_rs422 ==> final(self).flags == old(self).flags | SER_RS485_MODE_RS422,
            !mode_rs422 ==> final(self).flags == old(self).flags & !SER_RS485_MODE_RS422,
            final(self).delay_rts_before_send_ms == old(self).delay_rts_before_send_ms,
            final(self).delay_rts_after_send_ms == old(self).delay_rts_after_send_ms,
            final(self).addr_recv == old(self).addr_recv,
            final(self).addr_dest == old(self).addr_dest,
    {
        if mode_rs422 {
            self.flags = self.flags | SER_RS485_MODE_RS422;
        } else {
            self.flags = self.flags & !SER_RS485_MODE_RS422;
        }
    }

    /// Set the delay before sending, in milliseconds.
    pub fn delay_rts_before_send_ms(&mut self, delay: u32)
        ensures
            *final(self) == (SerialRs485 { delay_rts_before_send_ms: delay, ..*old(self) }),
    {
        self.delay_rts_before_send_ms = delay;
    }

    /// Set the delay after sending, in milliseconds.
    pub fn delay_rts_after_send_ms(&mut self, delay: u32)
        ensures
            *final(self) == (SerialRs485 { delay_rts_after_send_ms: delay, ..*old(self) }),
    {
        self.delay_rts_after_send_ms = delay;
    }

    /// The flag word that encodes an RS-485 configuration: enabled, the
    /// options as their flags, and the RTS level on or after send according
    /// to the inversion choice.
    pub open spec fn spec_config_flags(config: Rs485Config) -> u32 {
        let flags = SER_RS485_ENABLED;
        let flags = if config.full_duplex {
            flags | SER_RS485_RX_DURING_TX
        } else {
            flags
        };
        let flags = if config.terminate_bus {
            flags | SER_RS485_TERMINATE_BUS
        } else {
            flags
        };
        if config.invert_rts {
            flags | SER_RS485_RTS_AFTER_SEND
        } else {
            flags | SER_RS485_RTS_ON_SEND
        }
    }

    /// The control block that encodes an RS-485 configuration: the flag
    /// word, the delays truncated to the 32-bit millisecond fields, and the
    /// addressing bytes zero.
    pub open spec fn spec_for_config(config: Rs485Config) -> SerialRs485 {
        SerialRs485 {
            flags: Self::spec_config_flags(config),
            delay_rts_before_send_ms: spec_saturate_delay(config.delay_before_send_ms),
            delay_rts_after_send_ms: spec_saturate_delay(config.delay_after_send_ms),
            addr_recv: 0,
            addr_dest: 0,
        }
    }

    /// The control block that encodes a transceiver mode. The default mode
    /// clears the enabled flag and zeroes every other field.
    pub open spec fn spec_for_mode(mode: TransceiverMode) -> SerialRs485 {
        match mode {
            TransceiverMode::Default => Self::spec_new_with_flags(0),
            TransceiverMode::Rs422 => Self::spec_new_with_flags(
                SER_RS485_ENABLED | SER_RS485_MODE_RS422 | SER_RS485_RX_DURING_TX,
            ),
            TransceiverMode::Rs485(config) => Self::spec_for_config(config),
        }
    }

    /// Encode an RS-485 configuration in a control block.
    pub fn for_config(config: &Rs485Config) -> (r: SerialRs485)
        ensures
            r == SerialRs485::spec_for_config(*config),
    {
        let flags = SER_RS485_ENABLED;
        let flags = if config.full_duplex {
            flags | SER_RS485_RX_DURING_TX
        } else {
            flags
        };
        let flags = if config.terminate_bus {
            flags | SER_RS485_TERMINATE_BUS
        } else {
            flags
        };
        let flags = if config.invert_rts {
            flags | SER_RS485_RTS_AFTER_SEND
        } else {
            flags | SER_RS485_RTS_ON_SEND
        };
        let delay_rts_before_send_ms: u32 = if config.delay_before_send_ms > 0xFFFF_FFFF {
            0xFFFF_FFFF
        } else {
            config.delay_before_send_ms as u32
        };
        let delay_rts_after_send_ms: u32 = if config.delay_after_send_ms > 0xFFFF_FFFF {
            0xFFFF_FFFF
        } else {
            config.delay_after_send_ms as u32
        };
        SerialRs485 {
            flags,
            delay_rts_before_send_ms,
            delay_rts_after_send_ms,
            addr_recv: 0,
            addr_dest: 0,
        }
    }

    /// Encode a transceiver mode in a control block.
    pub fn for_mode(mode: &TransceiverMode) -> (r: SerialRs485)
        ensures
            r == SerialRs485::spec_for_mode(*mode),
    {
        match mode {
            TransceiverMode::Default => SerialRs485::new_with_flags(0),
            TransceiverMode::Rs422 => SerialRs485::new_rs422(),
            TransceiverMode::Rs485(config) => SerialRs485::for_config(config),
        }
    }

    /// The transceiver mode that a control block encodes. A block without
    /// the enabled flag is the default mode; one with the RS-422 flag is
    /// RS-422; any other enabled block is an RS-485 configuration, whose
    /// RTS inversion is the absence of the RTS-on-send level.
    pub open spec fn spec_to_mode(self) -> TransceiverMode {
        if self.flags & SER_RS485_ENABLED == 0 {
            TransceiverMode::Default
        } else if self.flags & SER_RS485_MODE_RS422 != 0 {
            TransceiverMode::Rs422
        } else {
            TransceiverMode::Rs485(
                Rs485Config {
                    full_duplex: self.flags & SER_RS485_RX_DURING_TX != 0,
                    terminate_bus: self.flags & SER_RS485_TERMINATE_BUS != 0,
                    delay_before_send_ms: self.delay_rts_before_send_ms as u64,
                    delay_after_send_ms: self.delay_rts_after_send_ms as u64,
                    invert_rts: self.flags & SER_RS485_RTS_ON_SEND == 0,
                },
            )
        }
    }

    /// Decode the transceiver mode that this control block encodes.
    pub fn to_mode(&self) -> (r: TransceiverMode)
        ensures
            r == self.spec_to_mode(),
    {
        if self.flags & SER_RS485_ENABLED == 0 {
            return TransceiverMode::Default;
        }
        if self.flags & SER_RS485_MODE_RS422 != 0 {
            return TransceiverMode::Rs422;
        }
        let mut config = Rs485Config::new();
        config.set_full_duplex(self.flags & SER_RS485_RX_DURING_TX != 0);
        config.set_bus_termination(self.flags & SER_RS485_TERMINATE_BUS != 0);
        config.set_invert_rts(self.flags & SER_RS485_RTS_ON_SEND == 0);
        config.set_delay_before_send(self.delay_rts_before_send_ms as u64);
        config.set_delay_after_send(self.delay_rts_after_send_ms as u64);
        proof {
            assert(config =~= self.spec_to_mode()->Rs485_0);
        }
        TransceiverMode::Rs485(config)
    }
}

impl Default for SerialRs485 {
    /// The default control block has every flag and field zero.
    fn default() -> (r: SerialRs485)
        ensures
            r == SerialRs485::spec_new_with_flags(0),
    {
        SerialRs485::new_with_flags(0)
    }
}

/// An RS-485 configuration encoded in a control block and decoded back
/// reproduces all five fields exactly, as long as each delay fits the
/// 32-bit millisecond fields of the block.
pub proof fn lemma_rs485_config_round_trip(config: Rs485Config)
    requires
        config.delay_before_send_ms <= u32::MAX,
        config.delay_after_send_ms <= u32::MAX,
    ensures
        SerialRs485::spec_for_config(config).spec_to_mode() == TransceiverMode::Rs485(config),
{
    let fd = config.full_duplex;
    let tb = config.terminate_bus;
    let inv = config.invert_rts;
    let f0 = SER_RS485_ENABLED;
    let f1 = if fd {
        f0 | SER_RS485_RX_DURING_TX
    } else {
        f0
    };
    let f2 = if tb {
        f1 | SER_RS485_TERMINATE_BUS
    } else {
        f1
    };
    let f3 = if inv {
        f2 | SER_RS485_RTS_AFTER_SEND
    } else {
        f2 | SER_RS485_RTS_ON_SEND
    };
    assert(SerialRs485::spec_config_flags(config) == f3);
    assert(f3 & 0x1u32 != 0 && f3 & 0x200u32 == 0 && ((f3 & 0x10u32 != 0) == fd) && ((f3
        & 0x20u32 != 0) == tb) && ((f3 & 0x2u32 == 0) == inv)) by (bit_vector)
        requires
            f1 == (if fd {
                f0 | 0x10u32
            } else {
                f0
            }),
            f2 == (if tb {
                f1 | 0x20u32
            } else {
                f1
            }),
            f3 == (if inv {
                f2 | 0x4u32
            } else {
                f2 | 0x2u32
            }),
            f0 == 0x1u32,
    ;
    let before = config.delay_before_send_ms;
    let after = config.delay_after_send_ms;
    assert(before <= 0xFFFF_FFFFu64 ==> (before as u32) as u64 == before) by (bit_vector);
    assert(after <= 0xFFFF_FFFFu64 ==> (after as u32) as u64 == after) by (bit_vector);
    assert(SerialRs485::spec_for_config(config).spec_to_mode()->Rs485_0 =~= config);
}

/// Every transceiver mode encoded in a control block and decoded back
/// reproduces itself, as long as the delays of an RS-485 configuration fit
/// the 32-bit millisecond fields of the block.
pub proof fn lemma_transceiver_mode_round_trip(mode: TransceiverMode)
    requires
        (mode matches TransceiverMode::Rs485(config) ==> config.delay_before_send_ms <= u32::MAX
            && config.delay_after_send_ms <= u32::MAX),
    ensures
        SerialRs485::spec_for_mode(mode).spec_to_mode() == mode,
{
    match mode {
        TransceiverMode::Default => {
            assert(0u32 & 0x1u32 == 0) by (bit_vector);
        },
        TransceiverMode::Rs422 => {
            assert((0x1u32 | 0x200u32 | 0x10u32) & 0x1u32 != 0 && (0x1u32 | 0x200u32 | 0x10u32)
                & 0x200u32 != 0) by (bit_vector);
        },
        TransceiverMode::Rs485(config) => {
            lemma_rs485_config_round_trip(config);
        },
    }
}

} // verus!
