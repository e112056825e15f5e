//! The kernel-side event plane: probe decisions and map maintenance.
//!
//! Four probes share this state. The `sys_enter`/`sys_exit` handlers test
//! the caller's thread-group id against the allowlist, build a fixed-layout
//! record and submit it to the syscall ring, accounting a drop with a log
//! entry when the ring is full. The `sched_process_fork` handler extends the
//! allowlist to children of traced parents (or of the process named in the
//! track-next-fork singleton, which it then clears); the
//! `sched_process_exit` handler retires dead processes from the allowlist.
//! Both emit notifications on a second, smaller ring.
//!
//! Every transition is given twice: as a spec-level step function over the
//! abstract [`PlaneView`], and as an executable method proved equal to it.
//! The step function supports the trace-level guarantee
//! [`lemma_syscall_emitted_only_while_allowed`]: a syscall record can only
//! ever be emitted at a moment its thread-group id is in the allowlist.

use vstd::prelude::*;
use crate::allowlist::{AllowlistError, NUM_ALLOWED_PIDS, PidAllowList};
use crate::records::{PidT, SyscallData, SyscallState, TAG_AT_ENTER, state_payload, state_tag};
use crate::rings::RingBuffer;
use crate::sched_process::{SchedProcessData, SchedProcessExitData, SchedProcessForkData};

verus! {

/// High 32 bits of the kernel's packed pid/tgid word: the thread-group id.
pub open spec fn spec_split_tgid(pid_tgid: u64) -> PidT {
    (pid_tgid >> 32) as i32
}

/// Low 32 bits of the kernel's packed pid/tgid word: the task id.
pub open spec fn spec_split_pid(pid_tgid: u64) -> PidT {
    (pid_tgid & 0xffff_ffff) as i32
}

/// Split off the thread-group id from a packed pid/tgid word.
pub fn split_tgid(pid_tgid: u64) -> (r: PidT)
    ensures
        r == spec_split_tgid(pid_tgid),
{
    #[verifier::truncate] ((pid_tgid >> 32) as i32)
}

/// Split off the task id from a packed pid/tgid word.
pub fn split_pid(pid_tgid: u64) -> (r: PidT)
    ensures
        r == spec_split_pid(pid_tgid),
{
    #[verifier::truncate] ((pid_tgid & 0xffff_ffff) as i32)
}

/// The warning a probe logs when the syscall ring refuses a reservation:
/// the ids and payload of the record that was lost.
#[derive(Copy, Clone, PartialEq, Eq, Structural, Debug)]
pub struct SyscallDropLog {
    pub tgid: PidT,
    pub pid: PidT,
    pub payload: i64,
    pub at_enter: bool,
}

/// One stimulus to the kernel plane: a probe firing or a userspace write.
#[derive(Copy, Clone, PartialEq, Eq, Structural, Debug)]
pub enum PlaneInput {
    /// The `sys_enter` raw tracepoint fired in some task.
    SysEnter { pid_tgid: u64, timestamp: u64, syscall_id: i64 },
    /// The `sys_exit` raw tracepoint fired in some task.
    SysExit { pid_tgid: u64, timestamp: u64, syscall_ret: i64 },
    /// The scheduler reported a fork.
    SchedFork { parent_pid: PidT, child_pid: PidT },
    /// The scheduler reported a process exit.
    SchedExit { pid: PidT },
    /// Userspace armed the track-next-fork singleton.
    TrackNextFork { pid: PidT },
    /// Userspace seeded one id into the allowlist.
    Seed { pid: PidT },
}

/// Abstract state of the kernel plane.
#[verifier::ext_equal]
pub struct PlaneView {
    /// The traced thread-group ids.
    pub allow: Set<PidT>,
    /// The track-next-fork singleton, if armed.
    pub track_next_fork: Option<PidT>,
    /// Records queued in the syscall ring, oldest first.
    pub syscall_ring: Seq<SyscallData>,
    /// Notifications queued in the sched-process ring, oldest first.
    pub sched_ring: Seq<SchedProcessData>,
    /// Drop warnings for refused syscall-ring reservations, oldest first.
    pub syscall_drops: Seq<SyscallDropLog>,
    /// Sched-process notifications lost to a full sched ring, oldest first.
    pub sched_drops: Seq<SchedProcessData>,
    /// Record capacity of the syscall ring.
    pub syscall_capacity: nat,
    /// Record capacity of the sched-process ring.
    pub sched_capacity: nat,
}

/// Step of the `sys_enter` and `sys_exit` probes: filter by allowlist, then
/// submit the record or account the drop. The return code is the probe's:
/// zero on the fast path and on submission, one for a dropped record.
pub open spec fn spec_syscall_probe(
    v: PlaneView,
    pid_tgid: u64,
    timestamp: u64,
    state: SyscallState,
) -> (PlaneView, u32) {
    let tgid = spec_split_tgid(pid_tgid);
    let pid = spec_split_pid(pid_tgid);
    if !v.allow.contains(tgid) {
        (v, 0)
    } else {
        let rec = SyscallData { timestamp, tgid, pid, state };
        if v.syscall_ring.len() < v.syscall_capacity {
            (PlaneView { syscall_ring: v.syscall_ring.push(rec), ..v }, 0)
        } else {
            let log = SyscallDropLog {
                tgid,
                pid,
                payload: state_payload(state),
                at_enter: state_tag(state) == TAG_AT_ENTER,
            };
            (PlaneView { syscall_drops: v.syscall_drops.push(log), ..v }, 1)
        }
    }
}

/// Step of the fork probe: children of traced parents (or of the process
/// the singleton names) join the allowlist; the singleton fires at most
/// once. Insertion into a full allowlist fails the probe without a
/// notification.
pub open spec fn spec_sched_fork(v: PlaneView, parent_pid: PidT, child_pid: PidT) -> (
    PlaneView,
    u32,
) {
    if !v.allow.contains(parent_pid) && v.track_next_fork != Some(parent_pid) {
        (v, 0)
    } else if !v.allow.contains(child_pid) && v.allow.len() >= NUM_ALLOWED_PIDS {
        (v, 1)
    } else {
        let allow2 = v.allow.insert(child_pid);
        let track2 = if v.track_next_fork == Some(parent_pid) {
            Option::<PidT>::None
        } else {
            v.track_next_fork
        };
        let ev = SchedProcessData::Fork(SchedProcessForkData { parent_pid, child_pid });
        if v.sched_ring.len() < v.sched_capacity {
            (
                PlaneView {
                    allow: allow2,
                    track_next_fork: track2,
                    sched_ring: v.sched_ring.push(ev),
                    ..v
                },
                0,
            )
        } else {
            (
                PlaneView {
                    allow: allow2,
                    track_next_fork: track2,
                    sched_drops: v.sched_drops.push(ev),
                    ..v
                },
                1,
            )
        }
    }
}

/// Step of the exit probe: traced processes leave the allowlist when they
/// die, with a notification on the sched ring.
pub open spec fn spec_sched_exit(v: PlaneView, pid: PidT) -> (PlaneView, u32) {
    if !v.allow.contains(pid) {
        (v, 0)
    } else {
        let allow2 = v.allow.remove(pid);
        let ev = SchedProcessData::Exit(SchedProcessExitData { pid });
        if v.sched_ring.len() < v.sched_capacity {
            (PlaneView { allow: allow2, sched_ring: v.sched_ring.push(ev), ..v }, 0)
        } else {
            (PlaneView { allow: allow2, sched_drops: v.sched_drops.push(ev), ..v }, 1)
        }
    }
}

/// Step of a userspace seeding write: insert one id, refused only when the
/// map is full and the id is new.
pub open spec fn spec_seed(v: PlaneView, pid: PidT) -> (PlaneView, u32) {
    if v.allow.contains(pid) || v.allow.len() < NUM_ALLOWED_PIDS {
        (PlaneView { allow: v.allow.insert(pid), ..v }, 0)
    } else {
        (v, 1)
    }
}

/// One transition of the kernel plane.
pub open spec fn plane_step(v: PlaneView, input: PlaneInput) -> (PlaneView, u32) {
    match input {
        PlaneInput::SysEnter { pid_tgid, timestamp, syscall_id } => spec_syscall_probe(
            v,
            pid_tgid,
            timestamp,
            SyscallState::AtEnter { syscall_id },
        ),
        PlaneInput::SysExit { pid_tgid, timestamp, syscall_ret } => spec_syscall_probe(
            v,
            pid_tgid,
            timestamp,
            SyscallState::AtExit { syscall_ret },
        ),
        PlaneInput::SchedFork { parent_pid, child_pid } => spec_sched_fork(
            v,
            parent_pid,
            child_pid,
        ),
        PlaneInput::SchedExit { pid } => spec_sched_exit(v, pid),
        PlaneInput::TrackNextFork { pid } => (
            PlaneView { track_next_fork: Some(pid), ..v },
            0,
        ),
        PlaneInput::Seed { pid } => spec_seed(v, pid),
    }
}

/// The state after a whole sequence of stimuli.
pub open spec fn plane_run(v: PlaneView, inputs: Seq<PlaneInput>) -> PlaneView
    decreases inputs.len(),
{
    if inputs.len() == 0 {
        v
    } else {
        plane_step(plane_run(v, inputs.drop_last()), inputs.last()).0
    }
}

/// A single step either leaves the syscall ring alone or appends one record
/// whose thread-group id is in the allowlist at that moment.
pub proof fn lemma_step_ring_growth(v: PlaneView, input: PlaneInput)
    ensures
        ({
            let w = plane_step(v, input).0;
            ||| w.syscall_ring == v.syscall_ring
            ||| (w.syscall_ring.len() == v.syscall_ring.len() + 1 && w.syscall_ring
                == v.syscall_ring.push(w.syscall_ring.last()) && v.allow.contains(
                w.syscall_ring.last().tgid,
            ))
        }),
{
}

/// The allowlist-before-observation guarantee: every syscall record a run
/// leaves in the ring was pushed at a step at which its thread-group id was
/// already in the allowlist. In particular a forked child's records can
/// only follow the fork step that inserted the child.
pub proof fn lemma_syscall_emitted_only_while_allowed(
    v0: PlaneView,
    inputs: Seq<PlaneInput>,
    j: int,
)
    requires
        v0.syscall_ring.len() <= j < plane_run(v0, inputs).syscall_ring.len(),
    ensures
        exists|k: int|
            #![trigger inputs.take(k)]
            0 <= k < inputs.len() && {
                let pre = plane_run(v0, inputs.take(k));
                let post = plane_run(v0, inputs.take(k + 1));
                &&& pre.syscall_ring.len() == j
                &&& post.syscall_ring == pre.syscall_ring.push(
                    plane_run(v0, inputs).syscall_ring[j],
                )
                &&& pre.allow.contains(plane_run(v0, inputs).syscall_ring[j].tgid)
            },
    decreases inputs.len(),
{
    let w = plane_run(v0, inputs);
    if inputs.len() == 0 {
        assert(false);
    } else {
        let shorter = inputs.drop_last();
        let p = plane_run(v0, shorter);
        lemma_step_ring_growth(p, inputs.last());
        if j < p.syscall_ring.len() {
            lemma_syscall_emitted_only_while_allowed(v0, shorter, j);
            let k = choose|k: int|
                #![trigger shorter.take(k)]
                0 <= k < shorter.len() && {
                    let pre = plane_run(v0, shorter.take(k));
                    let post = plane_run(v0, shorter.take(k + 1));
                    &&& pre.syscall_ring.len() == j
                    &&& post.syscall_ring == pre.syscall_ring.push(p.syscall_ring[j])
                    &&& pre.allow.contains(p.syscall_ring[j].tgid)
                };
            assert(shorter.take(k) =~= inputs.take(k));
            assert(shorter.take(k + 1) =~= inputs.take(k + 1));
            assert(w.syscall_ring[j] == p.syscall_ring[j]);
        } else {
            let k = inputs.len() - 1;
            assert(inputs.take(k) =~= shorter);
            assert(inputs.take(k + 1) =~= inputs);
            assert(w.syscall_ring == p.syscall_ring.push(w.syscall_ring.last()));
            assert(w.syscall_ring[j] == w.syscall_ring.last());
        }
    }
}

/// A thread-group id that the allowlist holds at some point of a run but
/// did not hold at the start got there by an explicit admission step: a
/// fork of a qualifying parent that inserted it as the child, or a
/// userspace seed of that very id. Together with
/// [`lemma_syscall_emitted_only_while_allowed`] this closes the fork
/// guarantee: a forked process's records can only follow the fork (or
/// seed) step that admitted it.
pub proof fn lemma_membership_has_an_admission_step(
    v0: PlaneView,
    inputs: Seq<PlaneInput>,
    t: PidT,
)
    requires
        !v0.allow.contains(t),
        plane_run(v0, inputs).allow.contains(t),
    ensures
        exists|m: int|
            #![trigger inputs.take(m)]
            0 <= m < inputs.len() && {
                let pre = plane_run(v0, inputs.take(m));
                &&& !pre.allow.contains(t)
                &&& plane_step(pre, inputs[m]).0.allow.contains(t)
                &&& match inputs[m] {
                    PlaneInput::SchedFork { parent_pid, child_pid } => child_pid == t && (
                    pre.allow.contains(parent_pid) || pre.track_next_fork == Some(parent_pid)),
                    PlaneInput::Seed { pid } => pid == t,
                    _ => false,
                }
            },
    decreases inputs.len(),
{
    if inputs.len() == 0 {
        assert(false);
    } else {
        let shorter = inputs.drop_last();
        let p = plane_run(v0, shorter);
        if p.allow.contains(t) {
            lemma_membership_has_an_admission_step(v0, shorter, t);
            let m = choose|m: int|
                #![trigger shorter.take(m)]
                0 <= m < shorter.len() && {
                    let pre = plane_run(v0, shorter.take(m));
                    &&& !pre.allow.contains(t)
                    &&& plane_step(pre, shorter[m]).0.allow.contains(t)
                    &&& match shorter[m] {
                        PlaneInput::SchedFork { parent_pid, child_pid } => child_pid == t && (
                        pre.allow.contains(parent_pid) || pre.track_next_fork == Some(
                            parent_pid,
                        )),
                        PlaneInput::Seed { pid } => pid == t,
                        _ => false,
                    }
                };
            assert(shorter.take(m) =~= inputs.take(m));
            assert(inputs[m] == shorter[m]);
        } else {
            let m = inputs.len() - 1;
            assert(inputs.take(m) =~= shorter);
            assert(inputs[m] == inputs.last());
            let w = plane_step(p, inputs.last()).0;
            assert(w == plane_run(v0, inputs));
            match inputs.last() {
                PlaneInput::SysEnter { .. } => {
                    assert(w.allow == p.allow);
                },
                PlaneInput::SysExit { .. } => {
                    assert(w.allow == p.allow);
                },
                PlaneInput::SchedFork { parent_pid, child_pid } => {
                    assert(child_pid == t);
                },
                PlaneInput::SchedExit { .. } => {
                    assert(false);
                },
                PlaneInput::TrackNextFork { .. } => {
                    assert(w.allow == p.allow);
                },
                PlaneInput::Seed { pid } => {
                    assert(pid == t);
                },
            }
        }
    }
}

/// A qualifying fork admits the child at once: after a fork step whose
/// parent is traced (or named by the singleton) and whose insertion is not
/// refused by a full map, the child is in the allowlist. Together with
/// [`lemma_syscall_emitted_only_while_allowed`] this places the child in
/// the allowlist before any of its syscall records can exist.
pub proof fn lemma_fork_admits_child(v: PlaneView, parent_pid: PidT, child_pid: PidT)
    requires
        v.allow.contains(parent_pid) || v.track_next_fork == Some(parent_pid),
        v.allow.contains(child_pid) || v.allow.len() < NUM_ALLOWED_PIDS,
    ensures
        plane_step(v, (PlaneInput::SchedFork { parent_pid, child_pid })).0.allow.contains(
            child_pid,
        ),
{
}

/// A process that exits leaves the allowlist at once.
pub proof fn lemma_exit_retires_process(v: PlaneView, pid: PidT)
    ensures
        !plane_step(v, (PlaneInput::SchedExit { pid })).0.allow.contains(pid),
{
}

/// The kernel plane: allowlist, singleton, both rings, drop accounting.
pub struct TracePlane {
    allow: PidAllowList,
    track_next_fork: Option<PidT>,
    syscall_ring: RingBuffer<SyscallData>,
    sched_ring: RingBuffer<SchedProcessData>,
    syscall_drops: Vec<SyscallDropLog>,
    sched_drops: Vec<SchedProcessData>,
}

impl View for TracePlane {
    type V = PlaneView;

    closed spec fn view(&self) -> PlaneView {
        PlaneView {
            allow: self.allow@,
            track_next_fork: self.track_next_fork,
            syscall_ring: self.syscall_ring@,
            sched_ring: self.sched_ring@,
            syscall_drops: self.syscall_drops@,
            sched_drops: self.sched_drops@,
            syscall_capacity: self.syscall_ring.spec_capacity(),
            sched_capacity: self.sched_ring.spec_capacity(),
        }
    }
}

impl TracePlane {
    /// Internal shape: the component invariants hold.
    pub closed spec fn wf(&self) -> bool {
        self.allow.wf() && self.syscall_ring.wf() && self.sched_ring.wf()
    }

    /// A fresh plane: empty allowlist and rings, disarmed singleton.
    pub fn new(syscall_capacity: usize, sched_capacity: usize) -> (r: TracePlane)
        ensures
            r.wf(),
            r@.allow == Set::<PidT>::empty(),
            r@.track_next_fork is None,
            r@.syscall_ring == Seq::<SyscallData>::empty(),
            r@.sched_ring == Seq::<SchedProcessData>::empty(),
            r@.syscall_drops == Seq::<SyscallDropLog>::empty(),
            r@.sched_drops == Seq::<SchedProcessData>::empty(),
            r@.syscall_capacity == syscall_capacity,
            r@.sched_capacity == sched_capacity,
    {
        let r = TracePlane {
            allow: PidAllowList::new(),
            track_next_fork: None,
            syscall_ring: RingBuffer::new(syscall_capacity),
            sched_ring: RingBuffer::new(sched_capacity),
            syscall_drops: Vec::new(),
            sched_drops: Vec::new(),
        };
        proof {
            assert(r@.syscall_ring =~= Seq::<SyscallData>::empty());
            assert(r@.sched_ring =~= Seq::<SchedProcessData>::empty());
            assert(r@.syscall_drops =~= Seq::<SyscallDropLog>::empty());
            assert(r@.sched_drops =~= Seq::<SchedProcessData>::empty());
        }
        r
    }

    /// The fast-path membership test the probes run first.
    pub fn is_tgid_in_allowlist(&self, tgid: PidT) -> (r: bool)
        ensures
            r == self@.allow.contains(tgid),
    {
        self.allow.contains(tgid)
    }

    /// Whether the singleton names this parent: the fork probe's second
    /// acceptance test.
    pub fn is_siktes_new_fork(&self, parent_pid: PidT) -> (r: bool)
        ensures
            r == (self@.track_next_fork == Some(parent_pid)),
    {
        match self.track_next_fork {
            Some(p) => p == parent_pid,
            None => false,
        }
    }

    /// The `sys_enter` probe body: filter, build the entry record, submit
    /// or account the drop.
    pub fn on_sys_enter(&mut self, pid_tgid: u64, timestamp: u64, syscall_id: i64) -> (r: u32)
        requires
            old(self).wf(),
        ensures
            final(self).wf(),
            (final(self)@, r) == plane_step(
                old(self)@,
                (PlaneInput::SysEnter { pid_tgid, timestamp, syscall_id }),
            ),
    {
        let tgid = split_tgid(pid_tgid);
        if !self.allow.contains(tgid) {
            return 0;
        }
        let pid = split_pid(pid_tgid);
        let rec = SyscallData { timestamp, tgid, pid, state: SyscallState::AtEnter { syscall_id } };
        if self.syscall_ring.try_submit(rec) {
            0
        } else {
            self.syscall_drops.push(
                SyscallDropLog { tgid, pid, payload: syscall_id, at_enter: true },
            );
            1
        }
    }

    /// The `sys_exit` probe body: filter, build the exit record, submit or
    /// account the drop.
    pub fn on_sys_exit(&mut self, pid_tgid: u64, timestamp: u64, syscall_ret: i64) -> (r: u32)
        requires
            old(self).wf(),
        ensures
            final(self).wf(),
            (final(self)@, r) == plane_step(
                old(self)@,
                (PlaneInput::SysExit { pid_tgid, timestamp, syscall_ret }),
            ),
    {
        let tgid = split_tgid(pid_tgid);
        if !self.allow.contains(tgid) {
            return 0;
        }
        let pid = split_pid(pid_tgid);
        let rec = SyscallData { timestamp, tgid, pid, state: SyscallState::AtExit { syscall_ret } };
        if self.syscall_ring.try_submit(rec) {
            0
        } else {
            self.syscall_drops.push(
                SyscallDropLog { tgid, pid, payload: syscall_ret, at_enter: false },
            );
            1
        }
    }

    /// The fork probe body: accept children of traced parents or of the
    /// singleton's process, insert them, clear a fired singleton, notify.
    pub fn on_sched_process_fork(&mut self, parent_pid: PidT, child_pid: PidT) -> (r: u32)
        requires
            old(self).wf(),
        ensures
            final(self).wf(),
            (final(self)@, r) == plane_step(
                old(self)@,
                (PlaneInput::SchedFork { parent_pid, child_pid }),
            ),
    {
        let in_allow = self.allow.contains(parent_pid);
        let is_tracked = self.is_siktes_new_fork(parent_pid);
        if !in_allow && !is_tracked {
            return 0;
        }
        proof {
            self.allow.lemma_wf_len();
        }
        match self.allow.insert(child_pid) {
            Err(_) => {
                return 1;
            },
            Ok(()) => {},
        }
        proof {
            if old(self)@.allow.contains(child_pid) {
                assert(old(self)@.allow.insert(child_pid) =~= old(self)@.allow);
            }
        }
        if is_tracked {
            self.track_next_fork = None;
        }
        let ev = SchedProcessData::Fork(SchedProcessForkData { parent_pid, child_pid });
        if self.sched_ring.try_submit(ev) {
            0
        } else {
            self.sched_drops.push(ev);
            1
        }
    }

    /// The exit probe body: retire a traced process from the allowlist and
    /// notify.
    pub fn on_sched_process_exit(&mut self, pid: PidT) -> (r: u32)
        requires
            old(self).wf(),
        ensures
            final(self).wf(),
            (final(self)@, r) == plane_step(old(self)@, (PlaneInput::SchedExit { pid })),
    {
        let present = self.allow.contains(pid);
        if !present {
            return 0;
        }
        match self.allow.remove(pid) {
            Err(_) => {
                proof {
                    assert(false);
                }
                1
            },
            Ok(()) => {
                let ev = SchedProcessData::Exit(SchedProcessExitData { pid });
                if self.sched_ring.try_submit(ev) {
                    0
                } else {
                    self.sched_drops.push(ev);
                    1
                }
            },
        }
    }

    /// Arm the track-next-fork singleton: userspace writes its own pid here
    /// just before spawning the command it wants traced.
    pub fn set_track_next_fork(&mut self, pid: PidT)
        requires
            old(self).wf(),
        ensures
            final(self).wf(),
            (final(self)@, 0u32) == plane_step(old(self)@, (PlaneInput::TrackNextFork { pid })),
    {
        self.track_next_fork = Some(pid);
    }

    /// Seed one thread-group id from userspace.
    pub fn seed_pid(&mut self, pid: PidT) -> (r: Result<(), AllowlistError>)
        requires
            old(self).wf(),
        ensures
            final(self).wf(),
            r is Ok <==> (old(self)@.allow.contains(pid) || old(self)@.allow.len()
                < NUM_ALLOWED_PIDS),
            ({
                let (v2, code) = plane_step(old(self)@, (PlaneInput::Seed { pid }));
                final(self)@ == v2 && (r is Ok <==> code == 0)
            }),
    {
        proof {
            self.allow.lemma_wf_len();
        }
        let r = self.allow.insert(pid);
        proof {
            if old(self)@.allow.contains(pid) {
                assert(old(self)@.allow.insert(pid) =~= old(self)@.allow);
            }
        }
        r
    }

    /// Userspace consumption of the syscall ring: the oldest record, if any.
    pub fn pop_syscall_record(&mut self) -> (r: Option<SyscallData>)
        requires
            old(self).wf(),
        ensures
            final(self).wf(),
            old(self)@.syscall_ring.len() == 0 ==> r is None && final(self)@ == old(self)@,
            old(self)@.syscall_ring.len() > 0 ==> r == Some(old(self)@.syscall_ring[0])
                && final(self)@ == (PlaneView {
                syscall_ring: old(self)@.syscall_ring.subrange(
                    1,
                    old(self)@.syscall_ring.len() as int,
                ),
                ..old(self)@
            }),
    {
        self.syscall_ring.pop_next()
    }

    /// Userspace consumption of the sched-process ring.
    pub fn pop_sched_event(&mut self) -> (r: Option<SchedProcessData>)
        requires
            old(self).wf(),
        ensures
            final(self).wf(),
            old(self)@.sched_ring.len() == 0 ==> r is None && final(self)@ == old(self)@,
            old(self)@.sched_ring.len() > 0 ==> r == Some(old(self)@.sched_ring[0])
                && final(self)@ == (PlaneView {
                sched_ring: old(self)@.sched_ring.subrange(1, old(self)@.sched_ring.len() as int),
                ..old(self)@
            }),
    {
        self.sched_ring.pop_next()
    }

    /// The drop warnings accumulated so far, oldest first.
    pub fn syscall_drop_logs(&self) -> (r: &Vec<SyscallDropLog>)
        ensures
            r@ == self@.syscall_drops,
    {
        &self.syscall_drops
    }

    /// How many syscall records have been dropped.
    pub fn syscall_drop_count(&self) -> (n: usize)
        ensures
            n == self@.syscall_drops.len(),
    {
        self.syscall_drops.len()
    }
}

} // verus!
