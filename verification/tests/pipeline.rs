//! The whole data path: probe model, wire bytes, drainer, bus, correlator.

use sikte::events::{Event, RecvOutcome, SubscriberAction, subscription_step};
use sikte::probes::TracePlane;
use sikte::publisher::{
    BatchControl, ItemOutcome, Requirements, SysEnterProgram, SysExitProgram, SyscallPublisher,
};
use sikte::records::encode_record;
use sikte::subscriber::{EventSubscriber, ExitReport, ShellSubscriber};

fn pack(tgid: i32, pid: i32) -> u64 {
    ((tgid as u32 as u64) << 32) | (pid as u32 as u64)
}

/// Records travel from the probe through their encoded bytes, the drainer
/// and the bus to the correlator, which accounts the pair's duration.
#[test]
fn records_flow_from_probe_to_correlator() {
    let mut plane = TracePlane::new(1024, 64);
    plane.seed_pid(300).expect("allowlist has room");
    assert_eq!(plane.on_sys_enter(pack(300, 301), 10_000, 0), 0);
    assert_eq!(plane.on_sys_exit(pack(300, 301), 12_500, 1), 0);

    let mut publisher =
        SyscallPublisher::new(Requirements::new(SysEnterProgram::new(), SysExitProgram::new()));
    assert_eq!(publisher.on_wake(false), BatchControl::Continue);

    let mut subscriber = ShellSubscriber::new();
    let mut reports = Vec::new();
    while let Some(rec) = plane.pop_syscall_record() {
        let bytes = encode_record(&rec);
        match publisher.process_item(&bytes, true) {
            ItemOutcome::Publish(decoded) => {
                // the bus broadcasts the event; the subscriber receives it
                let event = Event::Syscall(decoded);
                match subscription_step(RecvOutcome::Delivered(event)) {
                    SubscriberAction::Handle(Event::Syscall(data)) => {
                        if let Some(report) = subscriber.read_syscall(&data) {
                            reports.push(report);
                        }
                    }
                    other => panic!("expected the event to be handled, got {:?}", other),
                }
            }
            ItemOutcome::Skip(e) => panic!("probe-built record failed to decode: {:?}", e),
        }
        assert_eq!(publisher.after_item(false), BatchControl::Continue);
    }

    assert_eq!(publisher.batch_total(), 2);
    assert_eq!(
        reports,
        vec![ExitReport::Matched { pid: 300, tid: 301, syscall_id: 0, elapsed_ns: 2_500 }]
    );
    assert_eq!(subscriber.total_ns(), 2_500);
}
