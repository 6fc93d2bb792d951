//! Timeout bookkeeping for reads and writes.
//!
//! Both platform families bound a read or a write by a single per-call
//! timeout in milliseconds. On POSIX the timeout is handed directly to the
//! readiness wait; on Windows it has to be carried by the per-handle comm
//! timeout structure, whose interval and multiplier fields are pinned to
//! sentinel values so that only the constant field is in effect and a call
//! behaves as a single-shot bounded wait, as it does on POSIX.

use vstd::prelude::*;

verus! {

/// The read and write timeout, in milliseconds, that a freshly opened port
/// starts with.
pub const DEFAULT_TIMEOUT_MS: u32 = 100;

/// A duration in milliseconds, reduced to the range a timeout field can
/// hold: values over `u32::MAX` milliseconds saturate.
pub open spec fn spec_timeout_ms_from_millis(millis: u128) -> u32 {
    if millis > u32::MAX {
        u32::MAX
    } else {
        millis as u32
    }
}

/// Reduce a duration in milliseconds to the range a timeout field can hold.
pub fn timeout_ms_from_millis(millis: u128) -> (r: u32)
    ensures
        r == spec_timeout_ms_from_millis(millis),
{
    if millis > 0xFFFF_FFFF {
        0xFFFF_FFFF
    } else {
        millis as u32
    }
}

/// Windows specific timeouts for a serial port.
///
/// The five fields mirror the Win32 `COMMTIMEOUTS` structure. Note that
/// freely chosen read timeouts can easily make the port time out on every
/// read; the [`CommTimeouts::with_read_timeout`] discipline keeps the
/// fields in the one configuration whose behaviour matches the POSIX
/// single-shot timeout.
#[derive(Debug, Copy, Clone, Eq, PartialEq, Structural)]
#[verifier::ext_equal]
pub struct CommTimeouts {
    /// The largest allowed gap, in milliseconds, between two received bytes
    /// (`ReadIntervalTimeout`).
    pub read_interval_timeout: u32,
    /// The per-byte read timeout multiplier in milliseconds
    /// (`ReadTotalTimeoutMultiplier`).
    pub read_total_timeout_multiplier: u32,
    /// The constant read timeout in milliseconds
    /// (`ReadTotalTimeoutConstant`).
    pub read_total_timeout_constant: u32,
    /// The per-byte write timeout multiplier in milliseconds
    /// (`WriteTotalTimeoutMultiplier`).
    pub write_total_timeout_multiplier: u32,
    /// The constant write timeout in milliseconds
    /// (`WriteTotalTimeoutConstant`).
    pub write_total_timeout_constant: u32,
}

impl CommTimeouts {
    /// The timeout structure after carrying a read timeout: the interval
    /// and the multiplier are pinned to their sentinel maximum, and the
    /// constant holds the timeout, kept away from the two reserved values
    /// zero and the maximum. The write fields pass through.
    pub open spec fn spec_with_read_timeout(self, timeout_ms: u32) -> CommTimeouts {
        CommTimeouts {
            read_interval_timeout: u32::MAX,
            read_total_timeout_multiplier: u32::MAX,
            read_total_timeout_constant: if timeout_ms == 0 {
                1
            } else if timeout_ms == u32::MAX {
                (u32::MAX - 1) as u32
            } else {
                timeout_ms
            },
            ..self
        }
    }

    /// Carry a read timeout in the structure, pinning the interval and the
    /// multiplier so that a read behaves as a single-shot bounded wait.
    pub fn with_read_timeout(self, timeout_ms: u32) -> (r: CommTimeouts)
        ensures
            r == self.spec_with_read_timeout(timeout_ms),
    {
        let constant: u32 = if timeout_ms == 0 {
            1
        } else if timeout_ms == 0xFFFF_FFFF {
            0xFFFF_FFFE
        } else {
            timeout_ms
        };
        CommTimeouts {
            read_interval_timeout: 0xFFFF_FFFF,
            read_total_timeout_multiplier: 0xFFFF_FFFF,
            read_total_timeout_constant: constant,
            ..self
        }
    }

    /// The timeout structure after carrying a write timeout: the multiplier
    /// is zero and the constant holds the timeout. The read fields pass
    /// through.
    pub open spec fn spec_with_write_timeout(self, timeout_ms: u32) -> CommTimeouts {
        CommTimeouts {
            write_total_timeout_multiplier: 0,
            write_total_timeout_constant: timeout_ms,
            ..self
        }
    }

    /// Carry a write timeout in the structure.
    pub fn with_write_timeout(self, timeout_ms: u32) -> (r: CommTimeouts)
        ensures
            r == self.spec_with_write_timeout(timeout_ms),
    {
        CommTimeouts {
            write_total_timeout_multiplier: 0,
            write_total_timeout_constant: timeout_ms,
            ..self
        }
    }
}

/// Carrying a read timeout leaves the read constant in the open interval
/// between the two reserved values, within one millisecond of the request,
/// and a later write timeout does not disturb the read fields, nor a read
/// timeout the write fields.
pub proof fn lemma_comm_timeouts_independent(t: CommTimeouts, read_ms: u32, write_ms: u32)
    ensures
        t.spec_with_read_timeout(read_ms).spec_with_write_timeout(write_ms)
            == t.spec_with_write_timeout(write_ms).spec_with_read_timeout(read_ms),
        0 < t.spec_with_read_timeout(read_ms).read_total_timeout_constant < u32::MAX,
        t.spec_with_read_timeout(
            read_ms,
        ).read_total_timeout_constant - read_ms <= 1,
        read_ms - t.spec_with_read_timeout(read_ms).read_total_timeout_constant
            <= 1,
        t.spec_with_write_timeout(write_ms).write_total_timeout_constant == write_ms,
{
    assert(t.spec_with_read_timeout(read_ms).spec_with_write_timeout(write_ms)
        =~= t.spec_with_write_timeout(write_ms).spec_with_read_timeout(read_ms));
}

} // verus!
