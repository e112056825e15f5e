//! Model of the kernel TGID allowlist.
//!
//! The kernel map is a set of thread-group ids with a fixed capacity of 1024
//! entries; probes test membership on their fast path, userspace seeds it,
//! and the fork/exit probes maintain it. This model captures exactly that
//! set semantics: single-key atomic insert and remove, O(1)-spirit lookup,
//! and the capacity bound.

use vstd::prelude::*;
use vstd::seq_lib::*;
use crate::records::PidT;

verus! {

/// Maximum number of thread-group ids the allowlist can hold.
pub const NUM_ALLOWED_PIDS: u32 = 1u32 << 10;

/// Failures of single-key allowlist operations, mirroring the kernel map's
/// error conditions.
#[derive(Copy, Clone, PartialEq, Eq, Structural, Debug)]
pub enum AllowlistError {
    /// Insertion of a new key into a full map.
    Full,
    /// Removal of a key that is not present.
    NotFound,
}

/// The set of traced thread-group ids.
pub struct PidAllowList {
    pids: Vec<PidT>,
}

impl View for PidAllowList {
    type V = Set<PidT>;

    closed spec fn view(&self) -> Set<PidT> {
        self.pids@.to_set()
    }
}

impl PidAllowList {
    /// Internal shape: one slot per key, within the kernel map's capacity.
    pub closed spec fn wf(&self) -> bool {
        self.pids@.no_duplicates() && self.pids@.len() <= NUM_ALLOWED_PIDS
    }

    /// A well-formed allowlist holds a finite set of at most
    /// `NUM_ALLOWED_PIDS` keys.
    pub proof fn lemma_wf_len(&self)
        requires
            self.wf(),
        ensures
            self@.finite(),
            self@.len() <= NUM_ALLOWED_PIDS,
    {
        self.pids@.unique_seq_to_set();
    }

    /// An empty allowlist.
    pub fn new() -> (r: PidAllowList)
        ensures
            r.wf(),
            r@ == Set::<PidT>::empty(),
    {
        let r = PidAllowList { pids: Vec::new() };
        proof {
            assert(r@ =~= Set::<PidT>::empty());
        }
        r
    }

    /// Membership test, as run by the probes' fast path.
    pub fn contains(&self, pid: PidT) -> (r: bool)
        ensures
            r == self@.contains(pid),
    {
        let n = self.pids.len();
        let mut i: usize = 0;
        while i < n
            invariant
                n == self.pids@.len(),
                0 <= i <= n,
                forall|j: int| 0 <= j < i ==> self.pids@[j] != pid,
            decreases n - i,
        {
            if self.pids[i] == pid {
                assert(self.pids@.contains(pid));
                return true;
            }
            i += 1;
        }
        assert(!self.pids@.contains(pid));
        false
    }

    /// Number of tracked ids.
    pub fn len(&self) -> (n: usize)
        requires
            self.wf(),
        ensures
            n == self@.len(),
    {
        proof {
            self.pids@.unique_seq_to_set();
        }
        self.pids.len()
    }

    /// Insert a thread-group id. Inserting a present key succeeds and changes
    /// nothing (the kernel map overwrites the unused value slot); a new key
    /// is accepted exactly while the map is below capacity.
    pub fn insert(&mut self, pid: PidT) -> (r: Result<(), AllowlistError>)
        requires
            old(self).wf(),
        ensures
            final(self).wf(),
            r is Ok <==> (old(self)@.contains(pid) || old(self)@.len() < NUM_ALLOWED_PIDS),
            old(self)@.contains(pid) ==> r is Ok && final(self)@ == old(self)@,
            !old(self)@.contains(pid) && old(self)@.len() < NUM_ALLOWED_PIDS ==> r is Ok
                && final(self)@ == old(self)@.insert(pid),
            r is Err ==> r == Err::<(), AllowlistError>(AllowlistError::Full)
                && *final(self) == *old(self),
    {
        proof {
            self.lemma_wf_len();
        }
        if self.contains(pid) {
            return Ok(());
        }
        if self.pids.len() < NUM_ALLOWED_PIDS as usize {
            self.pids.push(pid);
            proof {
                let pre = old(self).pids@;
                let post = self.pids@;
                pre.unique_seq_to_set();
                assert(post[post.len() - 1] == pid);
                assert forall|j: int, k: int| 0 <= j < k < post.len() implies post[j] != post[k] by {
                    if k < post.len() - 1 {
                        assert(pre[j] != pre[k]);
                    } else {
                        assert(post[j] == pre[j]);
                        assert(pre.contains(pre[j]));
                    }
                };
                assert(self@ =~= old(self)@.insert(pid)) by {
                    assert forall|x: PidT| post.contains(x) implies (pre.contains(x) || x == pid)
                    by {
                        let j = choose|j: int| 0 <= j < post.len() && post[j] == x;
                        if j < post.len() - 1 {
                            assert(pre[j] == x);
                        }
                    };
                    assert forall|x: PidT| pre.contains(x) implies post.contains(x) by {
                        let j = choose|j: int| 0 <= j < pre.len() && pre[j] == x;
                        assert(post[j] == x);
                    };
                    assert(post.contains(pid));
                };
                assert(self@ == old(self)@.insert(pid));
            }
            Ok(())
        } else {
            proof {
                old(self).pids@.unique_seq_to_set();
            }
            Err(AllowlistError::Full)
        }
    }

    /// Remove a thread-group id. Succeeds exactly when the key is present.
    pub fn remove(&mut self, pid: PidT) -> (r: Result<(), AllowlistError>)
        requires
            old(self).wf(),
        ensures
            final(self).wf(),
            r is Ok <==> old(self)@.contains(pid),
            old(self)@.contains(pid) ==> r is Ok && final(self)@ == old(self)@.remove(pid),
            !old(self)@.contains(pid) ==> r == Err::<(), AllowlistError>(AllowlistError::NotFound)
                && final(self)@ == old(self)@ && *final(self) == *old(self),
    {
        let n = self.pids.len();
        let mut i: usize = 0;
        while i < n
            invariant
                old(self).wf(),
                n == self.pids@.len(),
                0 <= i <= n,
                *self == *old(self),
                forall|j: int| 0 <= j < i ==> self.pids@[j] != pid,
            decreases n - i,
        {
            if self.pids[i] == pid {
                proof {
                    assert(old(self).pids@.contains(pid));
                }
                let ghost pre = self.pids@;
                self.pids.swap_remove(i);
                proof {
                    let post = self.pids@;
                    let ii = i as int;
                    assert(forall|j: int| 0 <= j < post.len() ==> post[j] == (if j == ii {
                        pre[pre.len() - 1]
                    } else {
                        pre[j]
                    }));
                    assert(pre[ii] == pid);
                    assert forall|j: int, k: int| 0 <= j < k < post.len() implies post[j]
                        != post[k] by {
                        let pj = if j == ii { pre.len() - 1 } else { j };
                        let pk = if k == ii { pre.len() - 1 } else { k };
                        assert(post[j] == pre[pj]);
                        assert(post[k] == pre[pk]);
                        assert(pj != pk);
                        assert(pre[pj] != pre[pk]);
                    };
                    assert forall|j: int| 0 <= j < pre.len() && j != ii implies pre[j] != pid by {
                        assert(pre[j] != pre[ii]);
                    };
                    assert(self@ =~= old(self)@.remove(pid)) by {
                        assert forall|x: PidT| post.contains(x) implies (pre.contains(x) && x
                            != pid) by {
                            let j = choose|j: int| 0 <= j < post.len() && post[j] == x;
                            let pj = if j == ii { pre.len() - 1 } else { j };
                            assert(pre[pj] == x && pj != ii);
                        };
                        assert forall|x: PidT| pre.contains(x) && x != pid implies post.contains(x)
                        by {
                            let j = choose|j: int| 0 <= j < pre.len() && pre[j] == x;
                            if j == pre.len() - 1 {
                                if j == ii {
                                    assert(x == pid);
                                } else {
                                    assert(post[ii] == x);
                                }
                            } else {
                                assert(post[j] == x);
                            }
                        };
                    };
                }
                return Ok(());
            }
            i += 1;
        }
        proof {
            assert(!old(self).pids@.contains(pid));
        }
        Err(AllowlistError::NotFound)
    }
}

} // verus!
