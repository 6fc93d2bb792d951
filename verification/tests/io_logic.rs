use serial2::timeouts::timeout_ms_from_millis;
use serial2::transfer;
use serial2::transfer::overlapped_read_start;
use serial2::transfer::overlapped_write_start;
use serial2::transfer::OverlappedAction;
use serial2::transfer::WinTransferStart;
use serial2::transfer::map_broken_pipe;
use serial2::transfer::poll_outcome;
use serial2::transfer::read_exact_step;
use serial2::transfer::should_retry_transfer;
use serial2::transfer::write_all_step;
use serial2::CommTimeouts;
use serial2::IoErrorKind;
use serial2::TransferStep;

fn base_timeouts() -> CommTimeouts {
    CommTimeouts {
        read_interval_timeout: 7,
        read_total_timeout_multiplier: 8,
        read_total_timeout_constant: 9,
        write_total_timeout_multiplier: 10,
        write_total_timeout_constant: 11,
    }
}

#[test]
fn empty_channel_read_times_out() {
    // A readiness wait that elapses turns into a timeout error, never into
    // a spurious empty read.
    assert_eq!(poll_outcome(false), Err(IoErrorKind::TimedOut));
    assert_eq!(poll_outcome(true), Ok(()));
}

#[test]
fn interrupted_transfers_are_retried() {
    assert!(should_retry_transfer(transfer::EINTR));
    assert!(!should_retry_transfer(0));
    assert!(!should_retry_transfer(11));

    assert_eq!(
        read_exact_step(Err(IoErrorKind::Interrupted), 6),
        TransferStep::Retry
    );
    assert_eq!(
        write_all_step(Err(IoErrorKind::Interrupted), 6),
        TransferStep::Retry
    );
}

#[test]
fn read_exact_steps() {
    assert_eq!(read_exact_step(Ok(4), 6), TransferStep::Progress(4));
    assert_eq!(read_exact_step(Ok(6), 6), TransferStep::Progress(6));
    assert_eq!(read_exact_step(Ok(9), 6), TransferStep::Progress(6));
    assert_eq!(
        read_exact_step(Ok(0), 6),
        TransferStep::Fail(IoErrorKind::UnexpectedEof)
    );
    assert_eq!(
        read_exact_step(Err(IoErrorKind::TimedOut), 6),
        TransferStep::Fail(IoErrorKind::TimedOut)
    );
}

#[test]
fn write_all_steps() {
    assert_eq!(write_all_step(Ok(4), 6), TransferStep::Progress(4));
    assert_eq!(write_all_step(Ok(6), 6), TransferStep::Progress(6));
    assert_eq!(
        write_all_step(Ok(0), 6),
        TransferStep::Fail(IoErrorKind::WriteZero)
    );
    assert_eq!(
        write_all_step(Err(IoErrorKind::TimedOut), 6),
        TransferStep::Fail(IoErrorKind::TimedOut)
    );
}

#[test]
fn broken_pipe_reads_as_end_of_stream() {
    assert_eq!(map_broken_pipe(Err(IoErrorKind::BrokenPipe)), Ok(0));
    assert_eq!(
        map_broken_pipe(Err(IoErrorKind::TimedOut)),
        Err(IoErrorKind::TimedOut)
    );
    assert_eq!(map_broken_pipe(Ok(5)), Ok(5));
}

#[test]
fn overlapped_completion_timeouts() {
    // Windows reports a timeout as a successful transfer of zero bytes.
    assert_eq!(
        transfer::interpret_overlapped_completion(Ok(0)),
        Err(IoErrorKind::TimedOut)
    );
    assert_eq!(transfer::interpret_overlapped_completion(Ok(17)), Ok(17));
    assert_eq!(
        transfer::interpret_overlapped_completion(Err(IoErrorKind::Other)),
        Err(IoErrorKind::Other)
    );
}

#[test]
fn comm_timeouts_carry_single_shot_read_timeout() {
    let t = base_timeouts().with_read_timeout(50);
    assert_eq!(t.read_interval_timeout, u32::MAX);
    assert_eq!(t.read_total_timeout_multiplier, u32::MAX);
    assert_eq!(t.read_total_timeout_constant, 50);
    assert_eq!(t.write_total_timeout_multiplier, 10);
    assert_eq!(t.write_total_timeout_constant, 11);

    // The reserved values zero and the maximum are kept away from.
    assert_eq!(base_timeouts().with_read_timeout(0).read_total_timeout_constant, 1);
    assert_eq!(
        base_timeouts().with_read_timeout(u32::MAX).read_total_timeout_constant,
        u32::MAX - 1
    );

    let t = base_timeouts().with_write_timeout(75);
    assert_eq!(t.write_total_timeout_multiplier, 0);
    assert_eq!(t.write_total_timeout_constant, 75);
    assert_eq!(t.read_interval_timeout, 7);
    assert_eq!(t.read_total_timeout_constant, 9);
}

#[test]
fn timeout_milliseconds_saturate() {
    assert_eq!(timeout_ms_from_millis(0), 0);
    assert_eq!(timeout_ms_from_millis(100), 100);
    assert_eq!(timeout_ms_from_millis(u128::from(u32::MAX)), u32::MAX);
    assert_eq!(timeout_ms_from_millis(u128::from(u32::MAX) + 1), u32::MAX);
    assert_eq!(serial2::DEFAULT_TIMEOUT_MS, 100);
}

#[test]
fn discard_selectors() {
    assert_eq!(transfer::posix_discard_flags(true, true), transfer::TCIOFLUSH);
    assert_eq!(transfer::posix_discard_flags(true, false), transfer::TCIFLUSH);
    assert_eq!(transfer::posix_discard_flags(false, true), transfer::TCOFLUSH);

    assert_eq!(
        transfer::win32_purge_flags(true, true),
        transfer::PURGE_RXCLEAR | transfer::PURGE_TXCLEAR
    );
    assert_eq!(transfer::win32_purge_flags(true, false), transfer::PURGE_RXCLEAR);
    assert_eq!(transfer::win32_purge_flags(false, true), transfer::PURGE_TXCLEAR);
    assert_eq!(transfer::win32_purge_flags(false, false), 0);
}

#[test]
fn overlapped_start_decisions() {
    // A start that completes with zero bytes is a timeout.
    assert_eq!(
        overlapped_read_start(WinTransferStart::Done(0)),
        OverlappedAction::Finish(Err(IoErrorKind::TimedOut))
    );
    assert_eq!(
        overlapped_read_start(WinTransferStart::Done(12)),
        OverlappedAction::Finish(Ok(12))
    );
    // A broken pipe is the end of the stream on reads only.
    assert_eq!(
        overlapped_read_start(WinTransferStart::Failed(IoErrorKind::BrokenPipe)),
        OverlappedAction::Finish(Ok(0))
    );
    assert_eq!(
        overlapped_write_start(WinTransferStart::Failed(IoErrorKind::BrokenPipe)),
        OverlappedAction::Finish(Err(IoErrorKind::BrokenPipe))
    );
    // A queued transfer is awaited.
    assert_eq!(overlapped_read_start(WinTransferStart::Pending), OverlappedAction::Await);
    assert_eq!(overlapped_write_start(WinTransferStart::Pending), OverlappedAction::Await);
    assert_eq!(
        overlapped_write_start(WinTransferStart::Done(0)),
        OverlappedAction::Finish(Err(IoErrorKind::TimedOut))
    );
    assert_eq!(
        overlapped_write_start(WinTransferStart::Failed(IoErrorKind::Other)),
        OverlappedAction::Finish(Err(IoErrorKind::Other))
    );
}
