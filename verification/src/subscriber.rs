//! The enter/exit correlator: the terminal subscriber's state machine.
//!
//! The correlator consumes decoded syscall records. Each `AtEnter` is filed
//! under its thread id, overwriting any stale predecessor: a thread is
//! inside at most one syscall at a time, so an overwrite means the matching
//! exit was lost. Each `AtExit` retires the filed entry, accounts the
//! saturating timestamp difference into a running nanosecond total, and
//! reports the pair; an exit with no filed entry is an orphan — common
//! right after attaching, when a thread is already inside a syscall.
//!
//! Two stream-level laws close the module: under the kernel's per-thread
//! ordering, entries are never overwritten and orphans occur only as a
//! thread's first record ([`lemma_alternating_stream_correlates_cleanly`]);
//! and the running total is exactly the sum of the matched pairs' durations
//! ([`lemma_total_is_sum_of_matched_pairs`]).

use vstd::prelude::*;
use std::collections::HashMap;
use crate::records::{PidT, SyscallData, SyscallState, state_payload};
use crate::textfmt::{format_total_line, spec_total_line};

verus! {

broadcast use vstd::std_specs::hash::group_hash_axioms;

/// Saturating difference of two timestamps: cross-CPU skew can make an
/// exit appear earlier than its enter; the defined result is then zero.
pub open spec fn spec_elapsed(enter_ts: u64, exit_ts: u64) -> u64 {
    if exit_ts >= enter_ts {
        (exit_ts - enter_ts) as u64
    } else {
        0u64
    }
}

/// Saturating accumulation of one duration into the running total.
pub open spec fn spec_accumulate(total: u128, elapsed: u64) -> u128 {
    if total + elapsed <= u128::MAX {
        (total + elapsed) as u128
    } else {
        u128::MAX
    }
}

/// What the correlator reports for one exit record.
#[derive(Copy, Clone, PartialEq, Eq, Structural, Debug)]
pub enum ExitReport {
    /// The thread's filed enter was found: the syscall number it carried
    /// and the saturating duration of the pair.
    Matched { pid: PidT, tid: PidT, syscall_id: i64, elapsed_ns: u64 },
    /// No enter was filed for this thread.
    Orphan { pid: PidT, tid: PidT },
}

/// Abstract correlator state: the filed enters and the running total.
#[verifier::ext_equal]
pub struct CorrelatorView {
    /// Per-thread most recent unmatched `AtEnter` record.
    pub pending: Map<PidT, SyscallData>,
    /// Accumulated saturating durations of all matched pairs, in
    /// nanoseconds.
    pub total_ns: u128,
}

/// One record through the correlator: the next state and what is reported.
pub open spec fn spec_read_syscall(v: CorrelatorView, r: SyscallData) -> (
    CorrelatorView,
    Option<ExitReport>,
) {
    match r.state {
        SyscallState::AtEnter { .. } => (
            CorrelatorView { pending: v.pending.insert(r.pid, r), ..v },
            None::<ExitReport>,
        ),
        SyscallState::AtExit { .. } => {
            if v.pending.contains_key(r.pid) {
                let last = v.pending[r.pid];
                let elapsed = spec_elapsed(last.timestamp, r.timestamp);
                (
                    CorrelatorView {
                        pending: v.pending.remove(r.pid),
                        total_ns: spec_accumulate(v.total_ns, elapsed),
                    },
                    Some(
                        ExitReport::Matched {
                            pid: r.tgid,
                            tid: r.pid,
                            syscall_id: state_payload(last.state),
                            elapsed_ns: elapsed,
                        },
                    ),
                )
            } else {
                (v, Some(ExitReport::Orphan { pid: r.tgid, tid: r.pid }))
            }
        },
    }
}

/// The correlator state reached from fresh after a whole stream.
pub open spec fn run_correlator(s: Seq<SyscallData>) -> CorrelatorView
    decreases s.len(),
{
    if s.len() == 0 {
        CorrelatorView { pending: Map::empty(), total_ns: 0 }
    } else {
        spec_read_syscall(run_correlator(s.drop_last()), s.last()).0
    }
}

/// Reads syscall events from the bus.
pub trait EventSubscriber {
    /// The subscriber's name, for the supervisor's logs.
    fn get_name(&self) -> &'static str;

    /// Consume one record; the returned report, if any, is a line to show.
    fn read_syscall(&mut self, syscall_data: &SyscallData) -> Option<ExitReport>;
}

/// The shell subscriber: correlates pairs and renders lines for stdout.
pub struct ShellSubscriber {
    thr_to_last_sys_enter: HashMap<PidT, SyscallData>,
    total_ns: u128,
}

impl View for ShellSubscriber {
    type V = CorrelatorView;

    closed spec fn view(&self) -> CorrelatorView {
        CorrelatorView { pending: self.thr_to_last_sys_enter@, total_ns: self.total_ns }
    }
}

impl ShellSubscriber {
    /// A fresh correlator: nothing filed, zero total.
    pub fn new() -> (r: ShellSubscriber)
        ensures
            r@.pending == Map::<PidT, SyscallData>::empty(),
            r@.total_ns == 0,
    {
        ShellSubscriber { thr_to_last_sys_enter: HashMap::new(), total_ns: 0 }
    }

    /// The accumulated total so far, in nanoseconds.
    pub fn total_ns(&self) -> (t: u128)
        ensures
            t == self@.total_ns,
    {
        self.total_ns
    }

    /// The teardown line: the running total as microseconds with two
    /// decimals.
    pub fn total_line(&self) -> (line: Vec<u8>)
        ensures
            line@ == spec_total_line(self@.total_ns as nat),
    {
        format_total_line(self.total_ns)
    }
}

impl EventSubscriber for ShellSubscriber {
    fn get_name(&self) -> &'static str {
        "Shell"
    }

    /// File an enter; match or orphan an exit, accounting the duration.
    fn read_syscall(&mut self, syscall_data: &SyscallData) -> (r: Option<ExitReport>)
        ensures
            ({
                let (v2, rep) = spec_read_syscall(old(self)@, *syscall_data);
                final(self)@ == v2 && r == rep
            }),
    {
        let tid = syscall_data.pid;
        match syscall_data.state {
            SyscallState::AtEnter { .. } => {
                self.thr_to_last_sys_enter.insert(tid, *syscall_data);
                None
            },
            SyscallState::AtExit { .. } => {
                match self.thr_to_last_sys_enter.remove(&tid) {
                    Some(last) => {
                        let elapsed: u64 = if syscall_data.timestamp >= last.timestamp {
                            syscall_data.timestamp - last.timestamp
                        } else {
                            0
                        };
                        let payload = match last.state {
                            SyscallState::AtEnter { syscall_id } => syscall_id,
                            SyscallState::AtExit { syscall_ret } => syscall_ret,
                        };
                        if self.total_ns <= u128::MAX - elapsed as u128 {
                            self.total_ns = self.total_ns + elapsed as u128;
                        } else {
                            self.total_ns = u128::MAX;
                        }
                        Some(
                            ExitReport::Matched {
                                pid: syscall_data.tgid,
                                tid,
                                syscall_id: payload,
                                elapsed_ns: elapsed,
                            },
                        )
                    },
                    None => Some(ExitReport::Orphan { pid: syscall_data.tgid, tid }),
                }
            },
        }
    }
}

/// The matched pairs a stream produces, in match order: each exit joined
/// with the enter that was filed for its thread at that moment.
pub open spec fn spec_matched_pairs(s: Seq<SyscallData>) -> Seq<(SyscallData, SyscallData)>
    decreases s.len(),
{
    if s.len() == 0 {
        Seq::empty()
    } else {
        let prev = run_correlator(s.drop_last());
        let r = s.last();
        let rest = spec_matched_pairs(s.drop_last());
        if r.state is AtExit && prev.pending.contains_key(r.pid) {
            rest.push((prev.pending[r.pid], r))
        } else {
            rest
        }
    }
}

/// The summed saturating durations of a pair list.
pub open spec fn spec_pairs_duration_sum(ps: Seq<(SyscallData, SyscallData)>) -> int
    decreases ps.len(),
{
    if ps.len() == 0 {
        0
    } else {
        spec_pairs_duration_sum(ps.drop_last()) + spec_elapsed(
            ps.last().0.timestamp,
            ps.last().1.timestamp,
        )
    }
}

/// Durations are nonnegative, so the sum only grows.
pub proof fn lemma_pairs_sum_nonneg(ps: Seq<(SyscallData, SyscallData)>)
    ensures
        spec_pairs_duration_sum(ps) >= 0,
    decreases ps.len(),
{
    if ps.len() > 0 {
        lemma_pairs_sum_nonneg(ps.drop_last());
    }
}

/// The correlator's accumulated total equals the sum of the saturating
/// durations `max(0, exit.ts - enter.ts)` over all matched pairs it
/// observed. (Stated below the saturation point of the 128-bit
/// accumulator, which a real stream cannot reach.)
pub proof fn lemma_total_is_sum_of_matched_pairs(s: Seq<SyscallData>)
    requires
        spec_pairs_duration_sum(spec_matched_pairs(s)) <= u128::MAX,
    ensures
        run_correlator(s).total_ns == spec_pairs_duration_sum(spec_matched_pairs(s)),
    decreases s.len(),
{
    if s.len() > 0 {
        let shorter = s.drop_last();
        let prev = run_correlator(shorter);
        let r = s.last();
        let rest = spec_matched_pairs(shorter);
        lemma_pairs_sum_nonneg(rest);
        if r.state is AtExit && prev.pending.contains_key(r.pid) {
            let pair = (prev.pending[r.pid], r);
            assert(spec_matched_pairs(s) == rest.push(pair));
            assert(rest.push(pair).drop_last() =~= rest);
            assert(spec_pairs_duration_sum(rest.push(pair)) == spec_pairs_duration_sum(rest)
                + spec_elapsed(pair.0.timestamp, pair.1.timestamp));
            lemma_total_is_sum_of_matched_pairs(shorter);
        } else {
            assert(spec_matched_pairs(s) == rest);
            lemma_total_is_sum_of_matched_pairs(shorter);
        }
    }
}

/// The records of one thread, in stream order.
pub open spec fn proj(s: Seq<SyscallData>, t: PidT) -> Seq<SyscallData>
    decreases s.len(),
{
    if s.len() == 0 {
        Seq::empty()
    } else if s.last().pid == t {
        proj(s.drop_last(), t).push(s.last())
    } else {
        proj(s.drop_last(), t)
    }
}

/// Whether a record is a syscall entry.
pub open spec fn is_enter(r: SyscallData) -> bool {
    r.state is AtEnter
}

/// Adjacent records strictly alternate between enter and exit.
pub open spec fn alternates(p: Seq<SyscallData>) -> bool {
    forall|i: int| 0 <= i < p.len() - 1 ==> (is_enter(p[i]) <==> !is_enter(#[trigger] p[i + 1]))
}

/// A thread has a pending entry exactly when its projection so far ends
/// with an enter, and then the pending record is that enter.
pub proof fn lemma_pending_tracks_projection(s: Seq<SyscallData>, t: PidT)
    ensures
        ({
            let v = run_correlator(s);
            let p = proj(s, t);
            &&& (v.pending.contains_key(t) <==> (p.len() > 0 && is_enter(p.last())))
            &&& (v.pending.contains_key(t) ==> v.pending[t] == p.last() && p.last().pid == t)
        }),
    decreases s.len(),
{
    if s.len() > 0 {
        lemma_pending_tracks_projection(s.drop_last(), t);
    }
}

/// Each stream prefix projects to a prefix of the whole projection.
pub proof fn lemma_proj_take_prefix(s: Seq<SyscallData>, t: PidT, j: int)
    requires
        0 <= j <= s.len(),
    ensures
        proj(s.take(j), t).is_prefix_of(proj(s, t)),
    decreases s.len() - j,
{
    if j == s.len() {
        assert(s.take(j) =~= s);
    } else {
        lemma_proj_take_prefix(s, t, j + 1);
        assert(s.take(j + 1).drop_last() =~= s.take(j));
        assert(s.take(j + 1).last() == s[j]);
        let pj = proj(s.take(j), t);
        let pj1 = proj(s.take(j + 1), t);
        if s[j].pid == t {
            assert(pj1 == pj.push(s[j]));
        } else {
            assert(pj1 == pj);
        }
        assert(pj.is_prefix_of(pj1));
        assert(pj.is_prefix_of(proj(s, t))) by {
            let whole = proj(s, t);
            assert(pj1 =~= whole.subrange(0, pj1.len() as int));
            assert(pj =~= pj1.subrange(0, pj.len() as int));
            assert(pj =~= whole.subrange(0, pj.len() as int));
        };
    }
}

/// Under the kernel's per-thread ordering — a thread's records strictly
/// alternate between enter and exit — the correlator never overwrites a
/// filed enter, and an exit finds nothing filed only when it is the
/// thread's very first record: orphans occur only at the start.
pub proof fn lemma_alternating_stream_correlates_cleanly(s: Seq<SyscallData>, i: int, t: PidT)
    requires
        alternates(proj(s, t)),
        0 <= i < s.len(),
        s[i].pid == t,
    ensures
        is_enter(s[i]) ==> !run_correlator(s.take(i)).pending.contains_key(t),
        !is_enter(s[i]) && !run_correlator(s.take(i)).pending.contains_key(t) ==> proj(
            s.take(i),
            t,
        ).len() == 0,
{
    let p_i = proj(s.take(i), t);
    lemma_pending_tracks_projection(s.take(i), t);
    lemma_proj_take_prefix(s, t, i);
    lemma_proj_take_prefix(s, t, i + 1);
    assert(s.take(i + 1).drop_last() =~= s.take(i));
    assert(s.take(i + 1).last() == s[i]);
    assert(proj(s.take(i + 1), t) == p_i.push(s[i]));
    let whole = proj(s, t);
    let q = p_i.push(s[i]);
    assert(q.is_prefix_of(whole));
    assert(q =~= whole.subrange(0, q.len() as int));
    assert(q == whole.subrange(0, q.len() as int));
    assert(q[p_i.len() as int] == s[i]);
    assert(whole.subrange(0, q.len() as int)[p_i.len() as int] == whole[p_i.len() as int]);
    assert(whole[p_i.len() as int] == s[i]);
    if p_i.len() > 0 {
        assert(whole[p_i.len() - 1] == p_i.last());
        assert(is_enter(whole[p_i.len() - 1]) <==> !is_enter(whole[p_i.len() - 1 + 1]));
    }
}

} // verus!
