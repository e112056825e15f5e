//! A lagging subscriber on the real broadcast channel: pushed past
//! capacity, the slow receiver is told how much it lost and still observes
//! an unbroken suffix; the fast receiver misses nothing and the publisher
//! is never slowed.

use sikte::events::{Event, RecvOutcome, SubscriberAction, subscription_step};
use sikte::records::{SyscallData, SyscallState};
use tokio::sync::broadcast;
use tokio::sync::broadcast::error::TryRecvError;

fn event(ts: u64) -> Event {
    Event::Syscall(SyscallData {
        timestamp: ts,
        tgid: 1,
        pid: 2,
        state: SyscallState::AtEnter { syscall_id: 0 },
    })
}

fn timestamp_of(ev: Event) -> u64 {
    let Event::Syscall(data) = ev;
    data.timestamp
}

#[test]
fn lagged_subscriber_loses_oldest_and_resumes_in_order() {
    let (tx, mut slow) = broadcast::channel::<Event>(4);
    let mut fast = tx.subscribe();

    let mut fast_seen: Vec<u64> = Vec::new();
    for ts in 0..10u64 {
        tx.send(event(ts)).expect("receivers are live");
        // the fast subscriber keeps up, reading as events arrive
        while let Ok(ev) = fast.try_recv() {
            fast_seen.push(timestamp_of(ev));
        }
    }
    // the fast subscriber observed every event, in order
    assert_eq!(fast_seen, (0..10).collect::<Vec<_>>());

    // the sleeping subscriber is told how much it lost: n >= 1
    let lag = match slow.try_recv() {
        Err(TryRecvError::Lagged(n)) => n,
        other => panic!("expected a lag report, got {:?}", other),
    };
    assert!(lag >= 1);
    // the supervisor's decision for a lag is to log and continue
    assert_eq!(
        subscription_step(RecvOutcome::Lagged(lag)),
        SubscriberAction::LogLagAndContinue(lag)
    );

    // after the lag, the slow subscriber sees an unbroken suffix
    let mut suffix: Vec<u64> = Vec::new();
    while let Ok(ev) = slow.try_recv() {
        suffix.push(timestamp_of(ev));
    }
    assert_eq!(suffix.len() as u64, 10 - lag);
    assert_eq!(suffix, (lag..10).collect::<Vec<_>>());
}

#[test]
fn closed_channel_stops_the_subscriber() {
    let (tx, mut rx) = broadcast::channel::<Event>(4);
    drop(tx);
    match rx.try_recv() {
        Err(TryRecvError::Closed) => {}
        other => panic!("expected the channel to be closed, got {:?}", other),
    }
    assert_eq!(subscription_step(RecvOutcome::Closed), SubscriberAction::Stop);
}
