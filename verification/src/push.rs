//! Routing one push notification: reject a push for the wrong repository,
//! ignore a non-branch ref, and resolve a branch push to the pipelines the
//! map configures for it. The HTTP boundary delivers the payload and turns
//! the decision into a response; every branch of the decision is taken here.

use vstd::prelude::*;
use vstd::string::StrSliceExecFns;
use vstd::string::StringExecFns;

use crate::build::PipelineMap;
use crate::build::BranchPipelines;
use crate::build::spec_lookup_index;
use crate::github::model::Root;
use crate::text::str_eq;
use crate::text::str_starts_with;

verus! {

/// What the boundary must do with one push notification.
#[derive(Clone, Copy, Debug, PartialEq, Eq, Structural)]
pub enum PushDecision {
    /// The push names another repository: reject it as a bad request.
    WrongRepository,
    /// The pushed ref is not a branch: acknowledge and ignore it.
    NonBranchRef,
    /// The branch resolves to no pipelines: acknowledge and ignore it.
    BranchNotConfigured,
    /// Run the pipelines of the map entry at this index, as one job.
    RunPipelines { entry: usize },
}

/// The branch a pushed ref names: what follows `refs/heads/`, or nothing
/// for a ref of any other shape.
pub open spec fn branch_of_ref(push_ref: Seq<char>) -> Option<Seq<char>> {
    if "refs/heads/"@.is_prefix_of(push_ref) {
        Some(push_ref.skip("refs/heads/"@.len() as int))
    } else {
        None
    }
}

/// Strips the `refs/heads/` prefix: the branch name for a branch push,
/// `None` for a ref of any other shape.
pub fn strip_refs_heads(push_ref: &str) -> (r: Option<String>)
    ensures
        (r matches Some(b) ==> branch_of_ref(push_ref@) == Some(b@)),
        (r is None ==> branch_of_ref(push_ref@) is None),
{
    let prefix = "refs/heads/";
    if str_starts_with(push_ref, prefix) {
        proof {
            reveal_strlit("refs/heads/");
        }
        let len = push_ref.unicode_len();
        let b = push_ref.substring_char(11, len);
        let owned = b.to_owned();
        proof {
            assert(b@ =~= push_ref@.skip("refs/heads/"@.len() as int));
        }
        Some(owned)
    } else {
        None
    }
}

/// The decision owed for one push: a push for another repository than the
/// configured one is rejected; a non-branch ref is ignored; a branch with no
/// map entry, or an entry with no pipelines, is not configured; otherwise
/// the entry's pipelines run.
pub open spec fn spec_route(
    payload: Root,
    repo_owner: Seq<char>,
    repo_name: Seq<char>,
    entries: Seq<BranchPipelines>,
) -> PushDecision {
    if payload.repository.full_name@ != repo_owner + "/"@ + repo_name {
        PushDecision::WrongRepository
    } else {
        match branch_of_ref(payload.push_ref@) {
            None => PushDecision::NonBranchRef,
            Some(branch) => match spec_lookup_index(entries, branch) {
                Some(i) => if entries[i].pipelines@.len() == 0 {
                    PushDecision::BranchNotConfigured
                } else {
                    PushDecision::RunPipelines { entry: i as usize }
                },
                None => PushDecision::BranchNotConfigured,
            },
        }
    }
}

/// Routes one push notification against the configured repository and the
/// branch-to-pipelines map, exactly as [`spec_route`] states it.
pub fn route_push(payload: &Root, repo_owner: &str, repo_name: &str, map: &PipelineMap) -> (r:
    PushDecision)
    ensures
        r == spec_route(*payload, repo_owner@, repo_name@, map.entries@),
{
    let expected = String::from_str(repo_owner).concat("/").concat(repo_name);
    if !str_eq(payload.repository.full_name.as_str(), expected.as_str()) {
        return PushDecision::WrongRepository;
    }
    match strip_refs_heads(payload.push_ref.as_str()) {
        None => PushDecision::NonBranchRef,
        Some(branch) => match map.lookup(branch.as_str()) {
            Some(i) => {
                if map.entries[i].pipelines.len() == 0 {
                    PushDecision::BranchNotConfigured
                } else {
                    PushDecision::RunPipelines { entry: i }
                }
            },
            None => PushDecision::BranchNotConfigured,
        },
    }
}

} // verus!
