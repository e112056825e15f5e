//! Command-line data model and target admission.
//!
//! The argument parser itself is an external collaborator; these are the
//! parsed shapes it produces and the decisions taken on them: which of the
//! two target forms was given, whether anything is being traced at all,
//! and what admission must do — insert a pid list into the allowlist, or
//! spawn a command and trace the child. Seeding the allowlist from a pid
//! list is the verified loop at the end.

use vstd::prelude::*;
use crate::allowlist::{AllowlistError, NUM_ALLOWED_PIDS, PidAllowList};
use crate::records::PidT;

verus! {

/// What to trace: a set of existing processes, or a command to spawn.
#[derive(Clone, Debug)]
pub enum Target {
    Pid(Vec<PidT>),
    Command(Vec<String>),
}

/// The mutually exclusive target arguments: exactly one is given.
#[derive(Debug)]
pub struct TargetArgs {
    /// Process ids to trace.
    pub pid: Option<Vec<PidT>>,
    /// Command to execute and trace.
    pub command: Option<Vec<String>>,
}

impl TargetArgs {
    /// The parser guarantees exactly one of the two forms.
    pub open spec fn wf(&self) -> bool {
        (self.pid is Some) <==> !(self.command is Some)
    }

    /// The ergonomic enum form of the target.
    pub fn to_target(&self) -> (t: Target)
        requires
            self.wf(),
        ensures
            self.pid is Some ==> t is Pid && t->Pid_0@ == self.pid.unwrap()@,
            self.command is Some ==> t is Command && t->Command_0@ == self.command.unwrap()@,
    {
        match (&self.pid, &self.command) {
            (Some(pids), None) => {
                let v = pids.clone();
                proof {
                    assert(v@ =~= pids@);
                }
                Target::Pid(v)
            },
            (None, Some(cmd)) => {
                let v = cmd.clone();
                proof {
                    assert(v@ =~= cmd@);
                }
                Target::Command(v)
            },
            (Some(_), Some(_)) => unreached(),
            (None, None) => unreached(),
        }
    }
}

/// Which planes to trace.
#[derive(Copy, Clone, PartialEq, Eq, Structural, Debug)]
pub struct TracingOptions {
    /// Trace syscalls.
    pub syscalls: bool,
    /// Trace perf events.
    pub perf_events: bool,
}

impl TracingOptions {
    /// Whether these options select anything to trace; recording nothing
    /// is rejected at the command line.
    pub fn selects_any(&self) -> (b: bool)
        ensures
            b == (self.syscalls || self.perf_events),
    {
        self.syscalls || self.perf_events
    }
}

/// Arguments of the `record` subcommand.
#[derive(Debug)]
pub struct RecordArgs {
    pub target: TargetArgs,
    pub options: TracingOptions,
}

/// The subcommands.
#[derive(Debug)]
pub enum Commands {
    /// Record traces from processes.
    Record(RecordArgs),
}

/// The parsed command line.
#[derive(Debug)]
pub struct Cli {
    pub command: Commands,
}

impl Cli {
    /// The check applied after parsing: a recording must trace something.
    pub fn is_valid(&self) -> (ok: bool)
        ensures
            ok == (match self.command {
                Commands::Record(ref args) => args.options.syscalls || args.options.perf_events,
            }),
    {
        match &self.command {
            Commands::Record(args) => args.options.selects_any(),
        }
    }
}

/// Rejections of a target before any process is touched.
#[derive(Copy, Clone, PartialEq, Eq, Structural, Debug)]
pub enum AdmissionError {
    /// A `Command` target with no words: nothing to spawn.
    EmptyCommand,
}

/// What admission will do for an accepted target.
#[derive(Debug)]
pub enum AdmissionPlan {
    /// Insert these existing pids into the allowlist.
    InsertPids(Vec<PidT>),
    /// Spawn this program with these arguments and trace the child.
    Spawn { program: String, args: Vec<String> },
}

/// Decide what admission does for a target: a pid list is inserted as it
/// stands; a command is split into program and arguments, and an empty
/// command is refused.
pub fn admission_plan(target: &Target) -> (r: Result<AdmissionPlan, AdmissionError>)
    ensures
        match *target {
            Target::Pid(ref pids) => r is Ok && r.unwrap() is InsertPids
                && r.unwrap()->InsertPids_0@ == pids@,
            Target::Command(ref cmd) => {
                if cmd@.len() == 0 {
                    r == Err::<AdmissionPlan, AdmissionError>(AdmissionError::EmptyCommand)
                } else {
                    r is Ok && r.unwrap() is Spawn && r.unwrap()->Spawn_program == cmd@[0]
                        && r.unwrap()->Spawn_args@ == cmd@.subrange(1, cmd@.len() as int)
                }
            },
        },
{
    match target {
        Target::Pid(pids) => {
            let v = pids.clone();
            proof {
                assert(v@ =~= pids@);
            }
            Ok(AdmissionPlan::InsertPids(v))
        },
        Target::Command(cmd) => {
            if cmd.len() == 0 {
                Err(AdmissionError::EmptyCommand)
            } else {
                let program = cmd[0].clone();
                let n = cmd.len();
                let mut args: Vec<String> = Vec::new();
                let mut i: usize = 1;
                proof {
                    assert(args@ =~= cmd@.subrange(1, 1));
                }
                while i < n
                    invariant
                        n == cmd@.len(),
                        1 <= i <= n,
                        args@ == cmd@.subrange(1, i as int),
                    decreases n - i,
                {
                    args.push(cmd[i].clone());
                    proof {
                        assert(args@ =~= cmd@.subrange(1, i as int + 1));
                    }
                    i += 1;
                }
                Ok(AdmissionPlan::Spawn { program, args })
            }
        },
    }
}

/// Seed the allowlist with every pid of the target list, in order,
/// stopping at the first refused insertion. Insertion is refused only by a
/// full map, so seeding succeeds exactly when the seeded set fits the
/// map's capacity — and then the allowlist has gained exactly the listed
/// ids.
pub fn add_pids_to_allowlist(allow: &mut PidAllowList, pids: &Vec<PidT>) -> (r: Result<
    (),
    AllowlistError,
>)
    requires
        old(allow).wf(),
    ensures
        final(allow).wf(),
        r is Ok <==> old(allow)@.union(pids@.to_set()).len() <= NUM_ALLOWED_PIDS,
        r is Ok ==> final(allow)@ == old(allow)@.union(pids@.to_set()),
        r is Err ==> r == Err::<(), AllowlistError>(AllowlistError::Full) && (exists|k: int|
            #![trigger pids@.take(k)]
            0 <= k < pids@.len() && final(allow)@ == old(allow)@.union(pids@.take(k).to_set())),
{
    let n = pids.len();
    let mut i: usize = 0;
    proof {
        assert(allow@ =~= old(allow)@.union(pids@.take(0).to_set()));
    }
    while i < n
        invariant
            old(allow).wf(),
            allow.wf(),
            n == pids@.len(),
            0 <= i <= n,
            allow@ == old(allow)@.union(pids@.take(i as int).to_set()),
        decreases n - i,
    {
        let pid = pids[i];
        let ghost pre_insert = allow@;
        match allow.insert(pid) {
            Ok(()) => {},
            Err(e) => {
                proof {
                    old(allow).lemma_wf_len();
                    lemma_refusal_means_overfull(old(allow)@, pids@, i as int, pre_insert);
                }
                return Err(e);
            },
        }
        proof {
            assert(pids@.take(i as int + 1).drop_last() =~= pids@.take(i as int));
            assert(pids@.take(i as int + 1).last() == pids@[i as int]);
            assert forall|x: PidT| pids@.take(i as int + 1).to_set().contains(x) implies (
            pids@.take(i as int).to_set().contains(x) || x == pid) by {
                let q = pids@.take(i as int + 1);
                let j = choose|j: int| 0 <= j < q.len() && q[j] == x;
                if j < q.len() - 1 {
                    assert(pids@.take(i as int)[j] == x);
                }
            };
            assert forall|x: PidT| pids@.take(i as int).to_set().contains(x) implies pids@.take(
                i as int + 1,
            ).to_set().contains(x) by {
                let p = pids@.take(i as int);
                let j = choose|j: int| 0 <= j < p.len() && p[j] == x;
                assert(pids@.take(i as int + 1)[j] == x);
            };
            assert(pids@.take(i as int + 1).to_set().contains(pid)) by {
                assert(pids@.take(i as int + 1)[i as int] == pid);
            };
            assert(allow@ =~= old(allow)@.union(pids@.take(i as int + 1).to_set()));
        }
        i += 1;
    }
    proof {
        assert(pids@.take(n as int) =~= pids@);
        allow.lemma_wf_len();
    }
    Ok(())
}

/// A refused insertion pins the failure to capacity: the ids admitted so
/// far already fill the map and the next one is new, so the whole seeded
/// union cannot fit either.
proof fn lemma_refusal_means_overfull(base: Set<PidT>, pids: Seq<PidT>, i: int, cur: Set<PidT>)
    requires
        base.finite(),
        0 <= i < pids.len(),
        cur == base.union(pids.take(i).to_set()),
        !cur.contains(pids[i]),
        cur.len() >= NUM_ALLOWED_PIDS,
    ensures
        base.union(pids.to_set()).len() > NUM_ALLOWED_PIDS,
{
    let u = base.union(pids.to_set());
    vstd::seq_lib::seq_to_set_is_finite::<PidT>(pids.take(i));
    vstd::seq_lib::seq_to_set_is_finite::<PidT>(pids);
    let grown = cur.insert(pids[i]);
    assert(grown.len() == cur.len() + 1);
    assert(grown.subset_of(u)) by {
        assert forall|x: PidT| grown.contains(x) implies u.contains(x) by {
            if x == pids[i] {
                assert(pids.to_set().contains(x));
            } else if !base.contains(x) {
                let p = pids.take(i);
                let j = choose|j: int| 0 <= j < p.len() && p[j] == x;
                assert(pids[j] == x);
                assert(pids.to_set().contains(x));
            }
        };
    };
    vstd::set_lib::lemma_len_subset(grown, u);
}

} // verus!
