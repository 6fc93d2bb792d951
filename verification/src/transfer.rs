//! Decision logic of timeout-bounded reads and writes.
//!
//! A single read or write runs as a small state machine: wait for readiness
//! or completion within the configured timeout, perform the transfer,
//! absorb signal interruptions, and translate the platform's way of
//! reporting timeouts and closed peers into one uniform scheme. The waits
//! and the transfer system calls themselves belong to the surrounding
//! application; the functions here decide, from what a call reported, what
//! the operation does next, and their contracts pin that decision exactly.

use vstd::prelude::*;

verus! {

/// The raw error number for a system call interrupted by a signal.
pub const EINTR: i32 = 4;

/// Flush selector: discard the input buffer.
pub const TCIFLUSH: i32 = 0;

/// Flush selector: discard the output buffer.
pub const TCOFLUSH: i32 = 1;

/// Flush selector: discard both buffers.
pub const TCIOFLUSH: i32 = 2;

/// Purge flag: discard the Win32 output buffer.
pub const PURGE_TXCLEAR: u32 = 0x4;

/// Purge flag: discard the Win32 input buffer.
pub const PURGE_RXCLEAR: u32 = 0x8;

/// The kinds of failure a read or a write reports.
///
/// Platform error values that play no role in the transfer discipline are
/// carried as [`IoErrorKind::Other`] and passed to the caller unchanged.
#[derive(Debug, Copy, Clone, Eq, PartialEq, Structural)]
pub enum IoErrorKind {
    /// No data could be transferred within the configured timeout window.
    /// Safe to retry.
    TimedOut,
    /// The call was interrupted by a signal before transferring anything.
    /// Absorbed by the retry discipline, never shown by a whole operation.
    Interrupted,
    /// The peer closed the connection while a read still needed data.
    UnexpectedEof,
    /// A write made no progress although no error was reported.
    WriteZero,
    /// The platform reported a broken pipe. On a read this means the end of
    /// the stream; the read discipline translates it to a transfer of zero
    /// bytes.
    BrokenPipe,
    /// Any other platform error, passed through uninterpreted.
    Other,
}

/// The outcome of the readiness wait that precedes a POSIX transfer:
/// proceed when the descriptor became ready, fail with a timeout when the
/// wait elapsed first.
pub fn poll_outcome(ready: bool) -> (r: Result<(), IoErrorKind>)
    ensures
        ready ==> r == Ok::<(), IoErrorKind>(()),
        !ready ==> r == Err::<(), IoErrorKind>(IoErrorKind::TimedOut),
{
    if ready {
        Ok(())
    } else {
        Err(IoErrorKind::TimedOut)
    }
}

/// Whether a failed transfer call is repeated at once: exactly when the
/// platform reported an interruption by a signal. The interruption is
/// thereby absorbed; callers never observe it.
pub fn should_retry_transfer(raw_os_error: i32) -> (r: bool)
    ensures
        r == (raw_os_error == EINTR),
{
    raw_os_error == EINTR
}

/// What a step of a whole-buffer operation does next.
#[derive(Debug, Copy, Clone, Eq, PartialEq, Structural)]
pub enum TransferStep {
    /// This many bytes of the remaining buffer were transferred; go on with
    /// the rest.
    Progress(usize),
    /// The single call was interrupted; repeat it without consuming any of
    /// the buffer.
    Retry,
    /// Give the whole operation up with this error.
    Fail(IoErrorKind),
}

/// Decide, from the outcome of one read call, how a read of an exact number
/// of bytes goes on. A read of zero bytes means the stream ended while data
/// was still owed; an interruption is absorbed; any other error ends the
/// operation.
pub fn read_exact_step(result: Result<usize, IoErrorKind>, remaining: usize) -> (r: TransferStep)
    requires
        remaining > 0,
    ensures
        (match result {
            Ok(n) => if n == 0 {
                r == TransferStep::Fail(IoErrorKind::UnexpectedEof)
            } else if n <= remaining {
                r == TransferStep::Progress(n)
            } else {
                r == TransferStep::Progress(remaining)
            },
            Err(e) => if e == IoErrorKind::Interrupted {
                r == TransferStep::Retry
            } else {
                r == TransferStep::Fail(e)
            },
        }),
        r matches TransferStep::Progress(n) ==> 0 < n <= remaining,
{
    match result {
        Ok(n) => {
            if n == 0 {
                TransferStep::Fail(IoErrorKind::UnexpectedEof)
            } else if n <= remaining {
                TransferStep::Progress(n)
            } else {
                TransferStep::Progress(remaining)
            }
        },
        Err(e) => {
            if e == IoErrorKind::Interrupted {
                TransferStep::Retry
            } else {
                TransferStep::Fail(e)
            }
        },
    }
}

/// Decide, from the outcome of one write call, how a write of a whole
/// buffer goes on. A write of zero bytes is reported as such, never spun
/// on; an interruption is absorbed; any other error ends the operation.
pub fn write_all_step(result: Result<usize, IoErrorKind>, remaining: usize) -> (r: TransferStep)
    requires
        remaining > 0,
    ensures
        (match result {
            Ok(n) => if n == 0 {
                r == TransferStep::Fail(IoErrorKind::WriteZero)
            } else if n <= remaining {
                r == TransferStep::Progress(n)
            } else {
                r == TransferStep::Progress(remaining)
            },
            Err(e) => if e == IoErrorKind::Interrupted {
                r == TransferStep::Retry
            } else {
                r == TransferStep::Fail(e)
            },
        }),
        r matches TransferStep::Progress(n) ==> 0 < n <= remaining,
{
    match result {
        Ok(n) => {
            if n == 0 {
                TransferStep::Fail(IoErrorKind::WriteZero)
            } else if n <= remaining {
                TransferStep::Progress(n)
            } else {
                TransferStep::Progress(remaining)
            }
        },
        Err(e) => {
            if e == IoErrorKind::Interrupted {
                TransferStep::Retry
            } else {
                TransferStep::Fail(e)
            }
        },
    }
}

/// Translate a broken pipe into the end of the stream: a transfer of zero
/// bytes. Windows reports a closed peer this way on reads; POSIX reads
/// report it as a zero-length transfer directly, so after this translation
/// the two platforms agree.
pub fn map_broken_pipe(result: Result<usize, IoErrorKind>) -> (r: Result<usize, IoErrorKind>)
    ensures
        (match result {
            Err(e) => if e == IoErrorKind::BrokenPipe {
                r == Ok::<usize, IoErrorKind>(0)
            } else {
                r == result
            },
            Ok(_) => r == result,
        }),
{
    match result {
        Err(e) => {
            if e == IoErrorKind::BrokenPipe {
                Ok(0)
            } else {
                Err(e)
            }
        },
        Ok(n) => Ok(n),
    }
}

/// Interpret the completion of a Win32 overlapped transfer: the platform
/// reports a timeout as a successful transfer of zero bytes, which is
/// turned back into a timeout error; a successful transfer keeps its count;
/// a failure keeps its error.
pub fn interpret_overlapped_completion(result: Result<u32, IoErrorKind>) -> (r: Result<
    usize,
    IoErrorKind,
>)
    ensures
        (match result {
            Ok(n) => if n == 0 {
                r == Err::<usize, IoErrorKind>(IoErrorKind::TimedOut)
            } else {
                r == Ok::<usize, IoErrorKind>(n as usize)
            },
            Err(e) => r == Err::<usize, IoErrorKind>(e),
        }),
{
    match result {
        Ok(n) => {
            if n == 0 {
                Err(IoErrorKind::TimedOut)
            } else {
                Ok(n as usize)
            }
        },
        Err(e) => Err(e),
    }
}

/// The flush selector for discarding the chosen kernel buffers of a POSIX
/// port. Discarding neither buffer yields the input selector, whose value
/// is zero; callers ask for at least one side.
pub fn posix_discard_flags(discard_input: bool, discard_output: bool) -> (r: i32)
    ensures
        discard_input && discard_output ==> r == TCIOFLUSH,
        discard_input && !discard_output ==> r == TCIFLUSH,
        !discard_input && discard_output ==> r == TCOFLUSH,
        !discard_input && !discard_output ==> r == TCIFLUSH,
{
    if discard_input && discard_output {
        TCIOFLUSH
    } else if discard_input {
        TCIFLUSH
    } else if discard_output {
        TCOFLUSH
    } else {
        TCIFLUSH
    }
}

/// The purge flags for discarding the chosen kernel buffers of a Win32
/// port: the input purge flag, the output purge flag, both, or neither.
pub fn win32_purge_flags(discard_input: bool, discard_output: bool) -> (r: u32)
    ensures
        discard_input && discard_output ==> r == PURGE_RXCLEAR + PURGE_TXCLEAR,
        discard_input && !discard_output ==> r == PURGE_RXCLEAR,
        !discard_input && discard_output ==> r == PURGE_TXCLEAR,
        !discard_input && !discard_output ==> r == 0,
{
    if discard_input && discard_output {
        PURGE_RXCLEAR + PURGE_TXCLEAR
    } else if discard_input {
        PURGE_RXCLEAR
    } else if discard_output {
        PURGE_TXCLEAR
    } else {
        0
    }
}


/// What a Win32 overlapped transfer call reported when it was started.
#[derive(Debug, Copy, Clone, Eq, PartialEq, Structural)]
pub enum WinTransferStart {
    /// The call finished at once and transferred this many bytes.
    Done(u32),
    /// The call was queued; its outcome arrives with the completion wait.
    Pending,
    /// The call failed.
    Failed(IoErrorKind),
}

/// What the operation does after starting an overlapped transfer.
#[derive(Debug, Copy, Clone, Eq, PartialEq)]
pub enum OverlappedAction {
    /// The operation is over, with this result.
    Finish(Result<usize, IoErrorKind>),
    /// Wait for the queued transfer to complete.
    Await,
}

/// Decide how an overlapped read goes on after its start: an immediate
/// transfer of zero bytes is a timeout, a broken pipe is the end of the
/// stream, a queued transfer is awaited, and any other failure ends the
/// read.
pub fn overlapped_read_start(start: WinTransferStart) -> (r: OverlappedAction)
    ensures
        (match start {
            WinTransferStart::Done(n) => if n == 0 {
                r == OverlappedAction::Finish(Err::<usize, IoErrorKind>(IoErrorKind::TimedOut))
            } else {
                r == OverlappedAction::Finish(Ok::<usize, IoErrorKind>(n as usize))
            },
            WinTransferStart::Pending => r == OverlappedAction::Await,
            WinTransferStart::Failed(e) => if e == IoErrorKind::BrokenPipe {
                r == OverlappedAction::Finish(Ok::<usize, IoErrorKind>(0))
            } else {
                r == OverlappedAction::Finish(Err::<usize, IoErrorKind>(e))
            },
        }),
{
    match start {
        WinTransferStart::Done(n) => {
            if n == 0 {
                OverlappedAction::Finish(Err(IoErrorKind::TimedOut))
            } else {
                OverlappedAction::Finish(Ok(n as usize))
            }
        },
        WinTransferStart::Pending => OverlappedAction::Await,
        WinTransferStart::Failed(e) => OverlappedAction::Finish(map_broken_pipe(Err(e))),
    }
}

/// Decide how an overlapped write goes on after its start: as for a read,
/// except that a broken pipe stays an error, since only reads treat it as
/// the end of the stream.
pub fn overlapped_write_start(start: WinTransferStart) -> (r: OverlappedAction)
    ensures
        (match start {
            WinTransferStart::Done(n) => if n == 0 {
                r == OverlappedAction::Finish(Err::<usize, IoErrorKind>(IoErrorKind::TimedOut))
            } else {
                r == OverlappedAction::Finish(Ok::<usize, IoErrorKind>(n as usize))
            },
            WinTransferStart::Pending => r == OverlappedAction::Await,
            WinTransferStart::Failed(e) => r == OverlappedAction::Finish(Err::<
                usize,
                IoErrorKind,
            >(e)),
        }),
{
    match start {
        WinTransferStart::Done(n) => {
            if n == 0 {
                OverlappedAction::Finish(Err(IoErrorKind::TimedOut))
            } else {
                OverlappedAction::Finish(Ok(n as usize))
            }
        },
        WinTransferStart::Pending => OverlappedAction::Await,
        WinTransferStart::Failed(e) => OverlappedAction::Finish(Err(e)),
    }
}

} // verus!

