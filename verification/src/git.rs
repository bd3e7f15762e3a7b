//! Repository synchronization: bringing a local checkout to the tip of the
//! remote branch by fast-forward only.
//!
//! A branch is modeled by its linear history: the sequence of commit
//! identifiers from the root to the tip. One history is an ancestor of
//! another exactly when it is a prefix of it. Fetching, walking the real
//! repository and moving its references is the boundary's work; the decision
//! of what a merge may do — move the branch pointer forward, do nothing, or
//! refuse — is taken here.

use vstd::prelude::*;

verus! {

/// A local checkout's branch: commit identifiers of its linear history,
/// oldest first; the last entry is the branch tip. An empty history is a
/// branch that does not exist yet (a fresh or empty repository).
#[derive(Clone, Debug)]
pub struct Checkout {
    pub history: Vec<u64>,
}

/// What analyzing a fetched commit against the local branch can find.
#[derive(Clone, Copy, Debug, PartialEq, Eq, Structural)]
pub enum MergeAnalysis {
    /// The fetched commit is already part of the local history: nothing to do.
    UpToDate,
    /// The local history is an ancestor of the fetched commit: the branch
    /// pointer can simply move forward.
    FastForward,
    /// Neither history is an ancestor of the other.
    Diverged,
}

/// What a successful merge did.
#[derive(Clone, Copy, Debug, PartialEq, Eq, Structural)]
pub enum MergeOutcome {
    /// The local branch already contained the fetched commit; nothing moved.
    AlreadyUpToDate,
    /// The local branch was moved exactly to the fetched commit.
    FastForwarded,
}

/// Why a merge was refused.
#[derive(Clone, Copy, Debug, PartialEq, Eq, Structural)]
pub enum MergeError {
    /// The histories diverged, and no merge strategy beyond fast-forward is
    /// available; the local branch is never moved in this case.
    NoFastForwardStrategy,
}

/// `a` is an ancestor of (or equal to) `b` when `a`'s history is a prefix of
/// `b`'s.
pub open spec fn is_ancestor_of(a: Seq<u64>, b: Seq<u64>) -> bool {
    a.is_prefix_of(b)
}

/// The classification a merge analysis is owed: up-to-date when the fetched
/// history is already contained in the local one (equality included),
/// fast-forward when the local history is a strict ancestor of the fetched
/// one, diverged otherwise.
pub open spec fn spec_analysis(local: Seq<u64>, fetched: Seq<u64>) -> MergeAnalysis {
    if is_ancestor_of(fetched, local) {
        MergeAnalysis::UpToDate
    } else if is_ancestor_of(local, fetched) {
        MergeAnalysis::FastForward
    } else {
        MergeAnalysis::Diverged
    }
}

/// What a merge does to the local history, and what it reports: the new
/// history first, the reported outcome second. Only a fast-forward moves the
/// branch, and it moves it exactly to the fetched commit.
pub open spec fn spec_merge(local: Seq<u64>, fetched: Seq<u64>) -> (Seq<u64>, Result<
    MergeOutcome,
    MergeError,
>) {
    match spec_analysis(local, fetched) {
        MergeAnalysis::UpToDate => (local, Ok(MergeOutcome::AlreadyUpToDate)),
        MergeAnalysis::FastForward => (fetched, Ok(MergeOutcome::FastForwarded)),
        MergeAnalysis::Diverged => (local, Err(MergeError::NoFastForwardStrategy)),
    }
}

/// Whether `a` is a prefix of `b`, element for element.
fn is_prefix(a: &Vec<u64>, b: &Vec<u64>) -> (r: bool)
    ensures
        r == a@.is_prefix_of(b@),
{
    if a.len() > b.len() {
        return false;
    }
    let mut i: usize = 0;
    while i < a.len()
        invariant
            i <= a.len() <= b.len(),
            forall|j: int| 0 <= j < i ==> a@[j] == b@[j],
        decreases a.len() - i,
    {
        if a[i] != b[i] {
            assert(!(a@ =~= b@.subrange(0, a@.len() as int)));
            return false;
        }
        i += 1;
    }
    assert(a@ =~= b@.subrange(0, a@.len() as int));
    true
}

/// Classifies the fetched commit against the local branch.
pub fn merge_analysis(local: &Vec<u64>, fetched: &Vec<u64>) -> (r: MergeAnalysis)
    ensures
        r == spec_analysis(local@, fetched@),
{
    if is_prefix(fetched, local) {
        MergeAnalysis::UpToDate
    } else if is_prefix(local, fetched) {
        MergeAnalysis::FastForward
    } else {
        MergeAnalysis::Diverged
    }
}

impl Checkout {
    /// Merges a fetched commit into the local branch, fast-forward only:
    /// up-to-date is a no-op, a fast-forward moves the branch exactly to the
    /// fetched commit, and a diverged history is refused without moving the
    /// branch at all.
    pub fn merge(&mut self, fetched: &Vec<u64>) -> (r: Result<MergeOutcome, MergeError>)
        ensures
            final(self).history@ == spec_merge(old(self).history@, fetched@).0,
            r == spec_merge(old(self).history@, fetched@).1,
    {
        match merge_analysis(&self.history, fetched) {
            MergeAnalysis::UpToDate => Ok(MergeOutcome::AlreadyUpToDate),
            MergeAnalysis::FastForward => {
                self.history = fetched.clone();
                Ok(MergeOutcome::FastForwarded)
            },
            MergeAnalysis::Diverged => Err(MergeError::NoFastForwardStrategy),
        }
    }
}

/// Two histories that are each other's ancestors are the same history.
proof fn lemma_mutual_prefix(a: Seq<u64>, b: Seq<u64>)
    requires
        a.is_prefix_of(b),
        b.is_prefix_of(a),
    ensures
        a == b,
{
    assert(a =~= b);
}

/// Fast-forward-only law. A local branch that is a strict ancestor of the
/// fetched commit always merges successfully and lands exactly on the
/// fetched commit; a diverged history always fails with the no-strategy
/// error, and the local branch does not move at all.
pub proof fn lemma_fast_forward_only(local: Seq<u64>, fetched: Seq<u64>)
    ensures
        is_ancestor_of(local, fetched) && local != fetched ==> spec_merge(local, fetched) == (
        fetched,
        Ok::<MergeOutcome, MergeError>(MergeOutcome::FastForwarded),
        ),
        !is_ancestor_of(local, fetched) && !is_ancestor_of(fetched, local) ==> spec_merge(
            local,
            fetched,
        ) == (local, Err::<MergeOutcome, MergeError>(MergeError::NoFastForwardStrategy)),
{
    if is_ancestor_of(local, fetched) && local != fetched {
        if is_ancestor_of(fetched, local) {
            lemma_mutual_prefix(local, fetched);
        }
    }
}

/// Idempotence of synchronization. After any successful merge, merging the
/// same fetched commit again reports up-to-date and changes nothing: the
/// second call is a no-op.
pub proof fn lemma_sync_idempotent(local: Seq<u64>, fetched: Seq<u64>)
    requires
        spec_merge(local, fetched).1 is Ok,
    ensures
        spec_analysis(spec_merge(local, fetched).0, fetched) == MergeAnalysis::UpToDate,
        spec_merge(spec_merge(local, fetched).0, fetched) == (
            spec_merge(local, fetched).0,
            Ok::<MergeOutcome, MergeError>(MergeOutcome::AlreadyUpToDate),
        ),
{
    let merged = spec_merge(local, fetched).0;
    if is_ancestor_of(fetched, local) {
        assert(merged == local);
    } else {
        assert(merged == fetched);
        assert(fetched =~= fetched.subrange(0, fetched.len() as int));
        assert(is_ancestor_of(fetched, merged));
    }
}

} // verus!
