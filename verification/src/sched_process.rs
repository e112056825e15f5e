//! Fork/exit notifications emitted by the scheduler probes.
//!
//! These events ride a small kernel ring buffer of their own and tell the
//! orchestrator which processes joined or left the traced set.

use vstd::prelude::*;
use crate::records::PidT;

verus! {

/// Byte capacity of the sched-process ring buffer.
pub const MAX_SCHED_PROCESS_EVENTS: u32 = 1u32 << 10;

/// A process joined the traced set by forking from a traced parent.
#[derive(Copy, Clone, PartialEq, Eq, Structural, Debug)]
pub struct SchedProcessForkData {
    pub parent_pid: PidT,
    pub child_pid: PidT,
}

/// A traced process exited and left the allowlist.
#[derive(Copy, Clone, PartialEq, Eq, Structural, Debug)]
pub struct SchedProcessExitData {
    pub pid: PidT,
}

/// One notification from the scheduler probes.
#[derive(Copy, Clone, PartialEq, Eq, Structural, Debug)]
pub enum SchedProcessData {
    Fork(SchedProcessForkData),
    Exit(SchedProcessExitData),
}

} // verus!
