//! Verified core of a Linux syscall tracer.
//!
//! A kernel-side program filters syscall entry/exit events through a TGID
//! allowlist and emits fixed-layout records into a ring buffer; a userspace
//! drainer decodes those records and fans them out to subscribers, one of
//! which correlates enter/exit pairs per thread and accounts durations.
//!
//! This crate holds the verified data plane: the wire format and its codec,
//! the models of the kernel-resident maps and probe logic, the drainer's
//! batching and interrupt discipline, the enter/exit correlator, and the
//! admission of traced targets. The unverified rim (eBPF loading, async
//! runtime, terminal output) lives outside and drives these functions.

pub mod allowlist;
pub mod cli;
pub mod events;
pub mod probes;
pub mod publisher;
pub mod records;
pub mod rings;
pub mod sched_process;
pub mod subscriber;
pub mod textfmt;
