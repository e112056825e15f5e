//! The kernel plane model: filtering, drop accounting, fork propagation.

use sikte::probes::TracePlane;
use sikte::records::{SyscallData, SyscallState};
use sikte::sched_process::SchedProcessData;

fn pack(tgid: i32, pid: i32) -> u64 {
    ((tgid as u32 as u64) << 32) | (pid as u32 as u64)
}

/// A child that the tracer admitted makes a `read` syscall (number 0 on
/// x86-64); the record that reaches the consumer carries that number.
#[test]
fn child_read_syscall_is_observed() {
    let mut plane = TracePlane::new(1024, 64);
    plane.seed_pid(1000).expect("allowlist has room");
    let read_syscall: i64 = 0;
    assert_eq!(plane.on_sys_enter(pack(1000, 1001), 50, read_syscall), 0);
    assert_eq!(plane.on_sys_exit(pack(1000, 1001), 80, 1), 0);
    let rec = plane.pop_syscall_record().expect("enter record queued");
    assert_eq!(
        rec,
        SyscallData {
            timestamp: 50,
            tgid: 1000,
            pid: 1001,
            state: SyscallState::AtEnter { syscall_id: read_syscall },
        }
    );
    let rec = plane.pop_syscall_record().expect("exit record queued");
    assert_eq!(rec.state, SyscallState::AtExit { syscall_ret: 1 });
    assert!(plane.pop_syscall_record().is_none());
}

#[test]
fn untraced_processes_are_filtered_out() {
    let mut plane = TracePlane::new(1024, 64);
    plane.seed_pid(7).expect("allowlist has room");
    assert_eq!(plane.on_sys_enter(pack(8, 8), 1, 2), 0);
    assert!(plane.pop_syscall_record().is_none());
    assert_eq!(plane.syscall_drop_count(), 0);
}

/// Every refused reservation produces one warning entry carrying tgid, pid
/// and payload, returns the drop sentinel, and queues no event.
#[test]
fn full_ring_drops_are_accounted() {
    let mut plane = TracePlane::new(2, 64);
    plane.seed_pid(5).expect("allowlist has room");
    assert_eq!(plane.on_sys_enter(pack(5, 6), 10, 100), 0);
    assert_eq!(plane.on_sys_enter(pack(5, 6), 11, 101), 0);
    // ring full: both of these are dropped
    assert_eq!(plane.on_sys_enter(pack(5, 6), 12, 102), 1);
    assert_eq!(plane.on_sys_exit(pack(5, 7), 13, -1), 1);
    assert_eq!(plane.syscall_drop_count(), 2);
    let logs = plane.syscall_drop_logs();
    assert_eq!(logs[0].tgid, 5);
    assert_eq!(logs[0].pid, 6);
    assert_eq!(logs[0].payload, 102);
    assert!(logs[0].at_enter);
    assert_eq!(logs[1].tgid, 5);
    assert_eq!(logs[1].pid, 7);
    assert_eq!(logs[1].payload, -1);
    assert!(!logs[1].at_enter);
    // only the two submitted records are queued
    assert_eq!(plane.pop_syscall_record().unwrap().timestamp, 10);
    assert_eq!(plane.pop_syscall_record().unwrap().timestamp, 11);
    assert!(plane.pop_syscall_record().is_none());
}

/// The singleton admits one fork of the named parent: the child joins the
/// allowlist, its syscalls are observed, and its exit retires it.
#[test]
fn fork_propagation_through_singleton() {
    let mut plane = TracePlane::new(1024, 64);
    let my_pid = 4000;
    let child = 4001;
    plane.set_track_next_fork(my_pid);
    assert!(plane.is_siktes_new_fork(my_pid));
    assert!(!plane.is_siktes_new_fork(child));

    assert_eq!(plane.on_sched_process_fork(my_pid, child), 0);
    assert!(plane.is_tgid_in_allowlist(child));
    // the singleton fired once and was cleared
    assert!(!plane.is_siktes_new_fork(my_pid));
    assert_eq!(plane.on_sched_process_fork(my_pid, 4002), 0);
    assert!(!plane.is_tgid_in_allowlist(4002));

    // the child's syscalls are observed
    assert_eq!(plane.on_sys_enter(pack(child, child), 5, 0), 0);
    assert!(plane.pop_syscall_record().is_some());

    // after the child exits, it is gone from the allowlist
    assert_eq!(plane.on_sched_process_exit(child), 0);
    assert!(!plane.is_tgid_in_allowlist(child));

    match plane.pop_sched_event().expect("fork event queued") {
        SchedProcessData::Fork(f) => {
            assert_eq!(f.parent_pid, my_pid);
            assert_eq!(f.child_pid, child);
        }
        other => panic!("expected a fork event, got {:?}", other),
    }
    match plane.pop_sched_event().expect("exit event queued") {
        SchedProcessData::Exit(e) => assert_eq!(e.pid, child),
        other => panic!("expected an exit event, got {:?}", other),
    }
}

/// A traced parent's fork also admits the child, without the singleton.
#[test]
fn fork_propagation_through_allowlist() {
    let mut plane = TracePlane::new(1024, 64);
    plane.seed_pid(100).expect("allowlist has room");
    assert_eq!(plane.on_sched_process_fork(100, 101), 0);
    assert!(plane.is_tgid_in_allowlist(101));
    // an unrelated fork is ignored
    assert_eq!(plane.on_sched_process_fork(999, 998), 0);
    assert!(!plane.is_tgid_in_allowlist(998));
}

#[test]
fn exit_of_untraced_process_is_ignored() {
    let mut plane = TracePlane::new(1024, 64);
    assert_eq!(plane.on_sched_process_exit(12345), 0);
    assert!(plane.pop_sched_event().is_none());
}
