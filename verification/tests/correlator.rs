//! The enter/exit correlator and its rendered lines.

use sikte::records::{SyscallData, SyscallState};
use sikte::subscriber::{EventSubscriber, ExitReport, ShellSubscriber};
use sikte::textfmt::{format_exit_line, format_orphan_line};

fn enter(tgid: i32, pid: i32, ts: u64, id: i64) -> SyscallData {
    SyscallData { timestamp: ts, tgid, pid, state: SyscallState::AtEnter { syscall_id: id } }
}

fn exit(tgid: i32, pid: i32, ts: u64, ret: i64) -> SyscallData {
    SyscallData { timestamp: ts, tgid, pid, state: SyscallState::AtExit { syscall_ret: ret } }
}

#[test]
fn matched_pair_reports_duration_and_name_payload() {
    let mut sub = ShellSubscriber::new();
    assert_eq!(sub.read_syscall(&enter(10, 11, 1_000, 59)), None);
    let report = sub.read_syscall(&exit(10, 11, 3_500, 0));
    assert_eq!(
        report,
        Some(ExitReport::Matched { pid: 10, tid: 11, syscall_id: 59, elapsed_ns: 2_500 })
    );
    assert_eq!(sub.total_ns(), 2_500);
}

/// An exit with no filed enter is an orphan, and prints the exact line
/// `(pid/tid) ??? (took ??? us)` — once.
#[test]
fn orphan_exit_prints_placeholder_line_once() {
    let mut sub = ShellSubscriber::new();
    let report = sub.read_syscall(&exit(20, 21, 500, 0));
    assert_eq!(report, Some(ExitReport::Orphan { pid: 20, tid: 21 }));
    let line = format_orphan_line(20, 21);
    assert_eq!(String::from_utf8(line).unwrap(), "(20/21) ??? (took ??? us)");
    // the orphan did not disturb the state: a full pair still matches
    assert_eq!(sub.read_syscall(&enter(20, 21, 1_000, 1)), None);
    assert!(matches!(
        sub.read_syscall(&exit(20, 21, 2_000, 0)),
        Some(ExitReport::Matched { .. })
    ));
    assert_eq!(sub.total_ns(), 1_000);
}

#[test]
fn exit_line_renders_microseconds_with_two_decimals() {
    let line = format_exit_line(3, 4, &b"read".to_vec(), 2_500);
    assert_eq!(String::from_utf8(line).unwrap(), "(3/4) read (took 2.50 us)");
    let line = format_exit_line(-1, 7, &b"write".to_vec(), 999);
    assert_eq!(String::from_utf8(line).unwrap(), "(-1/7) write (took 0.99 us)");
    let line = format_exit_line(1, 1, &b"nanosleep".to_vec(), 1_000_007);
    assert_eq!(String::from_utf8(line).unwrap(), "(1/1) nanosleep (took 1000.00 us)");
}

/// A later enter for the same thread overwrites the stale one: the exit is
/// matched against the most recent enter.
#[test]
fn overwritten_enter_uses_latest_timestamp() {
    let mut sub = ShellSubscriber::new();
    sub.read_syscall(&enter(1, 2, 100, 5));
    sub.read_syscall(&enter(1, 2, 400, 6));
    let report = sub.read_syscall(&exit(1, 2, 500, 0));
    assert_eq!(
        report,
        Some(ExitReport::Matched { pid: 1, tid: 2, syscall_id: 6, elapsed_ns: 100 })
    );
}

/// Cross-CPU skew can order an exit before its enter; the duration
/// saturates at zero instead of wrapping.
#[test]
fn negative_delta_saturates_to_zero() {
    let mut sub = ShellSubscriber::new();
    sub.read_syscall(&enter(1, 2, 1_000, 5));
    let report = sub.read_syscall(&exit(1, 2, 900, 0));
    assert_eq!(
        report,
        Some(ExitReport::Matched { pid: 1, tid: 2, syscall_id: 5, elapsed_ns: 0 })
    );
    assert_eq!(sub.total_ns(), 0);
}

/// The running total is the sum of matched durations over all threads;
/// orphans and unmatched enters contribute nothing.
#[test]
fn total_is_sum_over_matched_pairs() {
    let mut sub = ShellSubscriber::new();
    sub.read_syscall(&enter(1, 2, 100, 5));
    sub.read_syscall(&enter(1, 3, 200, 6));
    sub.read_syscall(&exit(1, 2, 400, 0)); // 300
    sub.read_syscall(&exit(1, 9, 999, 0)); // orphan: nothing
    sub.read_syscall(&exit(1, 3, 450, 0)); // 250
    sub.read_syscall(&enter(1, 4, 500, 7)); // never exits: nothing
    assert_eq!(sub.total_ns(), 550);
}

#[test]
fn total_line_renders_running_total() {
    let mut sub = ShellSubscriber::new();
    sub.read_syscall(&enter(1, 2, 0, 5));
    sub.read_syscall(&exit(1, 2, 1_234_560, 0));
    let line = sub.total_line();
    assert_eq!(String::from_utf8(line).unwrap(), "Total 1234.56 us");
}

/// Per-thread streams that strictly alternate never overwrite an entry and
/// orphan only their first record; interleaving across threads is free.
#[test]
fn alternating_streams_have_no_overwrites() {
    let mut sub = ShellSubscriber::new();
    // thread 2 starts with an orphan exit (probe attached mid-syscall)
    assert!(matches!(
        sub.read_syscall(&exit(1, 2, 50, 0)),
        Some(ExitReport::Orphan { .. })
    ));
    // afterwards both threads alternate cleanly: every exit matches
    sub.read_syscall(&enter(1, 2, 100, 0));
    sub.read_syscall(&enter(1, 3, 110, 1));
    assert!(matches!(
        sub.read_syscall(&exit(1, 2, 200, 0)),
        Some(ExitReport::Matched { .. })
    ));
    assert!(matches!(
        sub.read_syscall(&exit(1, 3, 210, 0)),
        Some(ExitReport::Matched { .. })
    ));
    assert_eq!(sub.total_ns(), 200);
}

#[test]
fn get_name_is_shell() {
    let sub = ShellSubscriber::new();
    assert_eq!(sub.get_name(), "Shell");
}
