//! Events on the bus, and the subscriber supervisor's decisions.
//!
//! The bus is a bounded broadcast channel: publishers never block on slow
//! subscribers; a subscriber that falls behind loses the oldest events and
//! is told by how many. The channel itself lives with the async runtime;
//! what is decided here is how a subscriber task answers each receive
//! outcome: handle a delivered event, log and carry on after a lag, stop
//! cleanly when the bus closes.

use vstd::prelude::*;
use crate::records::SyscallData;

verus! {

/// Slot capacity of the broadcast bus.
pub const EVENT_BUS_CAPACITY: usize = 1usize << 16;

/// One event on the bus.
#[derive(Copy, Clone, PartialEq, Eq, Structural, Debug)]
pub enum Event {
    /// A decoded syscall record.
    Syscall(SyscallData),
}

/// What one receive on the bus produced for a subscriber task.
#[derive(Copy, Clone, PartialEq, Eq, Structural, Debug)]
pub enum RecvOutcome {
    /// An event arrived.
    Delivered(Event),
    /// The subscriber lagged and lost this many oldest events.
    Lagged(u64),
    /// The bus was dropped; no more events will come.
    Closed,
}

/// What the subscriber supervisor does with a receive outcome.
#[derive(Copy, Clone, PartialEq, Eq, Structural, Debug)]
pub enum SubscriberAction {
    /// Hand the event to the subscriber.
    Handle(Event),
    /// Log the lag and keep receiving: lossy by design, never upstream
    /// pressure.
    LogLagAndContinue(u64),
    /// Exit the subscription loop cleanly.
    Stop,
}

/// What one send on the bus produced for the publisher.
#[derive(Copy, Clone, PartialEq, Eq, Structural, Debug)]
pub enum SendOutcome {
    /// At least one subscriber was live to receive the event.
    Delivered,
    /// No subscriber was live; the event went nowhere.
    NoReceivers,
}

/// What the drainer does after a send.
#[derive(Copy, Clone, PartialEq, Eq, Structural, Debug)]
pub enum PublisherSendAction {
    /// Go on with the next record.
    Continue,
    /// Log the refused send and yield once — subscribers may simply not be
    /// ready yet; the drainer itself is never dropped for it.
    LogAndYieldOnce,
}

/// The drainer's reaction to one send outcome.
pub fn publisher_send_step(outcome: SendOutcome) -> (a: PublisherSendAction)
    ensures
        a == (match outcome {
            SendOutcome::Delivered => PublisherSendAction::Continue,
            SendOutcome::NoReceivers => PublisherSendAction::LogAndYieldOnce,
        }),
{
    match outcome {
        SendOutcome::Delivered => PublisherSendAction::Continue,
        SendOutcome::NoReceivers => PublisherSendAction::LogAndYieldOnce,
    }
}

/// The subscriber supervisor's reaction to one receive outcome.
pub fn subscription_step(outcome: RecvOutcome) -> (a: SubscriberAction)
    ensures
        a == (match outcome {
            RecvOutcome::Delivered(ev) => SubscriberAction::Handle(ev),
            RecvOutcome::Lagged(n) => SubscriberAction::LogLagAndContinue(n),
            RecvOutcome::Closed => SubscriberAction::Stop,
        }),
{
    match outcome {
        RecvOutcome::Delivered(ev) => SubscriberAction::Handle(ev),
        RecvOutcome::Lagged(n) => SubscriberAction::LogLagAndContinue(n),
        RecvOutcome::Closed => SubscriberAction::Stop,
    }
}

} // verus!
