//! The syscall publisher: the decision core of the ring-buffer drainer.
//!
//! The drainer task wakes when the ring-buffer file descriptor is readable,
//! consumes raw items in a tight loop, decodes each into a typed event, and
//! hands decoded records to the event bus. Every [`YIELD_LIMIT`] records it
//! reaches a checkpoint: it tests the shared interrupt flag — returning to
//! its supervisor when set — and otherwise yields cooperatively so the
//! runtime stays live. Invalid items are skipped, never fatal.
//!
//! The surrounding task owns the file descriptor, the channel and the
//! atomic flag; it feeds this state machine the raw bytes, the observed
//! alignment and the flag value, and performs the actions it decides.

use vstd::prelude::*;
use crate::records::{DecodeError, SyscallData, decode_record, spec_decode_record, RECORD_BYTES};

verus! {

/// Records between two checkpoints of the drainer loop.
pub const YIELD_LIMIT: u32 = 1000;

/// Witness that the `sys_enter` program is loaded and attached; issued by
/// the loader, and only meaningful while the attachment lives. The
/// constructors are public only so that the unverified loader can mint
/// the tokens; nothing inside this crate creates one, so holding a token
/// still stands for the loader's work.
pub struct SysEnterProgram {
    _private: (),
}

impl SysEnterProgram {
    /// Issued by the loader once the `sys_enter` attachment is live.
    pub fn new() -> SysEnterProgram {
        SysEnterProgram { _private: () }
    }
}

/// Witness that the `sys_exit` program is loaded and attached.
pub struct SysExitProgram {
    _private: (),
}

impl SysExitProgram {
    /// Issued by the loader once the `sys_exit` attachment is live.
    pub fn new() -> SysExitProgram {
        SysExitProgram { _private: () }
    }
}

/// Witness that the `sched_process_fork` program is loaded and attached.
pub struct SchedProcessForkProgram {
    _private: (),
}

impl SchedProcessForkProgram {
    /// Issued by the loader once the fork attachment is live.
    pub fn new() -> SchedProcessForkProgram {
        SchedProcessForkProgram { _private: () }
    }
}

/// Witness that the `sched_process_exit` program is loaded and attached.
pub struct SchedProcessExitProgram {
    _private: (),
}

impl SchedProcessExitProgram {
    /// Issued by the loader once the exit attachment is live.
    pub fn new() -> SchedProcessExitProgram {
        SchedProcessExitProgram { _private: () }
    }
}

/// What a syscall publisher requires to exist: both probes attached. The
/// tokens are held, not used; their lifetime is the attachment's.
pub struct Requirements {
    _sys_enter: SysEnterProgram,
    _sys_exit: SysExitProgram,
}

impl Requirements {
    /// Bundle the two attachment witnesses.
    pub fn new(sys_enter: SysEnterProgram, sys_exit: SysExitProgram) -> Requirements {
        Requirements { _sys_enter: sys_enter, _sys_exit: sys_exit }
    }
}

/// What the drainer does with one raw ring-buffer item.
#[derive(Copy, Clone, PartialEq, Eq, Structural, Debug)]
pub enum ItemOutcome {
    /// A valid record: send it on the bus.
    Publish(SyscallData),
    /// An invalid item: log the reason and continue with the next.
    Skip(DecodeError),
}

/// What the drainer loop does after an item, or on waking.
#[derive(Copy, Clone, PartialEq, Eq, Structural, Debug)]
pub enum BatchControl {
    /// Keep draining.
    Continue,
    /// Yield to the runtime, then keep draining.
    YieldNow,
    /// The interrupt flag is set: return to the supervisor.
    Interrupt,
}

/// Checkpoint decision: at a batch boundary the flag decides between
/// returning and yielding; in between the loop continues untouched.
pub open spec fn spec_checkpoint(batch_pos: u32, interrupted: bool) -> (u32, BatchControl) {
    if batch_pos == YIELD_LIMIT {
        (0u32, if interrupted {
            BatchControl::Interrupt
        } else {
            BatchControl::YieldNow
        })
    } else {
        (batch_pos, BatchControl::Continue)
    }
}

/// One item under a set interrupt flag: the position advances, and the
/// checkpoint fires exactly at the batch boundary.
pub open spec fn spec_item_step_interrupted(batch_pos: u32) -> (u32, BatchControl)
    recommends
        batch_pos < YIELD_LIMIT,
{
    spec_checkpoint((batch_pos + 1) as u32, true)
}

/// The control the drainer reaches after `n` further items, the interrupt
/// flag being set throughout.
pub open spec fn spec_drain_control(batch_pos: u32, n: nat) -> (u32, BatchControl)
    recommends
        batch_pos < YIELD_LIMIT,
    decreases n,
{
    if n == 0 {
        (batch_pos, BatchControl::Continue)
    } else {
        let (p2, c) = spec_item_step_interrupted(batch_pos);
        if n == 1 || c != BatchControl::Continue {
            (p2, c)
        } else {
            spec_drain_control(p2, (n - 1) as nat)
        }
    }
}

/// Once the interrupt flag is set, the drainer returns within at most one
/// batch: from any in-batch position it reaches a checkpoint that answers
/// `Interrupt` after `YIELD_LIMIT - batch_pos` further items, which is at
/// most `YIELD_LIMIT`. (The other exit, a wake of the readiness future, is
/// `on_wake`, which answers `Interrupt` at once.)
pub proof fn lemma_interrupt_within_one_batch(batch_pos: u32)
    requires
        batch_pos < YIELD_LIMIT,
    ensures
        YIELD_LIMIT - batch_pos <= YIELD_LIMIT,
        spec_drain_control(batch_pos, (YIELD_LIMIT - batch_pos) as nat).1
            == BatchControl::Interrupt,
    decreases YIELD_LIMIT - batch_pos,
{
    if batch_pos + 1 == YIELD_LIMIT {
    } else {
        lemma_interrupt_within_one_batch((batch_pos + 1) as u32);
    }
}

/// Drains the syscall ring buffer and publishes decoded records. Holds the
/// probe attachments it requires and the loop counters of the current
/// invocation.
pub struct SyscallPublisher {
    _requirements: Requirements,
    batch_pos: u32,
    total: u64,
}

impl SyscallPublisher {
    /// Position inside the current batch: records since the last checkpoint.
    pub closed spec fn batch_pos(&self) -> u32 {
        self.batch_pos
    }

    /// Records drained in the current invocation (saturating).
    pub closed spec fn total(&self) -> u64 {
        self.total
    }

    /// Internal shape: the position never passes the batch boundary.
    pub closed spec fn wf(&self) -> bool {
        self.batch_pos <= YIELD_LIMIT
    }

    /// A publisher for a ring whose probes are attached; the counters start
    /// at zero.
    pub fn new(requirements: Requirements) -> (r: SyscallPublisher)
        ensures
            r.wf(),
            r.batch_pos() == 0,
            r.total() == 0,
    {
        SyscallPublisher { _requirements: requirements, batch_pos: 0, total: 0 }
    }

    /// On waking for readability: reset the invocation's counters, and
    /// return at once if the interrupt flag is already set.
    pub fn on_wake(&mut self, interrupted: bool) -> (c: BatchControl)
        ensures
            final(self).wf(),
            final(self).batch_pos() == 0,
            final(self).total() == 0,
            c == (if interrupted {
                BatchControl::Interrupt
            } else {
                BatchControl::Continue
            }),
    {
        self.batch_pos = 0;
        self.total = 0;
        if interrupted {
            BatchControl::Interrupt
        } else {
            BatchControl::Continue
        }
    }

    /// Decode one raw item: a valid record is published, an invalid one is
    /// skipped with its reason; either way it counts toward the batch.
    pub fn process_item(&mut self, bytes: &[u8], aligned: bool) -> (o: ItemOutcome)
        requires
            old(self).wf(),
            old(self).batch_pos() < YIELD_LIMIT,
        ensures
            final(self).wf(),
            final(self).batch_pos() == old(self).batch_pos() + 1,
            final(self).total() == (if old(self).total() < u64::MAX {
                old(self).total() + 1
            } else {
                old(self).total() as int
            }),
            (o is Publish) <==> (bytes@.len() == RECORD_BYTES && aligned && spec_decode_record(
                bytes@,
            ) is Some),
            o is Publish ==> Some(o->Publish_0) == spec_decode_record(bytes@),
            o is Skip ==> Err::<SyscallData, DecodeError>(o->Skip_0) == decode_result_spec(
                bytes@,
                aligned,
            ),
    {
        self.batch_pos = self.batch_pos + 1;
        if self.total < u64::MAX {
            self.total = self.total + 1;
        }
        match decode_record(bytes, aligned) {
            Ok(rec) => ItemOutcome::Publish(rec),
            Err(e) => ItemOutcome::Skip(e),
        }
    }

    /// The checkpoint after each item: at a batch boundary, return if
    /// interrupted, else yield; in between, continue.
    pub fn after_item(&mut self, interrupted: bool) -> (c: BatchControl)
        requires
            old(self).wf(),
        ensures
            final(self).wf(),
            final(self).total() == old(self).total(),
            (final(self).batch_pos(), c) == spec_checkpoint(old(self).batch_pos(), interrupted),
    {
        if self.batch_pos == YIELD_LIMIT {
            self.batch_pos = 0;
            if interrupted {
                BatchControl::Interrupt
            } else {
                BatchControl::YieldNow
            }
        } else {
            BatchControl::Continue
        }
    }

    /// Records drained in the current invocation; what `publish_events`
    /// reports when the ring runs empty.
    pub fn batch_total(&self) -> (n: u64)
        ensures
            n == self.total(),
    {
        self.total
    }
}

/// The full decode verdict for an item, errors included.
pub open spec fn decode_result_spec(bytes: Seq<u8>, aligned: bool) -> Result<
    SyscallData,
    DecodeError,
> {
    if bytes.len() != RECORD_BYTES {
        Err(DecodeError::WrongLength)
    } else if !aligned {
        Err(DecodeError::Misaligned)
    } else if wire_tag_invalid(bytes) {
        Err(DecodeError::InvalidTag)
    } else if crate::records::wire_pad(bytes) != 0 {
        Err(DecodeError::NonZeroPadding)
    } else {
        Ok(spec_decode_record(bytes).unwrap())
    }
}

/// Whether the tag field of a 32-byte buffer is out of range.
pub open spec fn wire_tag_invalid(bytes: Seq<u8>) -> bool {
    crate::records::wire_tag(bytes) != crate::records::TAG_AT_ENTER
        && crate::records::wire_tag(bytes) != crate::records::TAG_AT_EXIT
}

} // verus!
