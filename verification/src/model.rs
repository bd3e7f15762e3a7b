//! The push notification in full, head commit included. The webhook's
//! JSON is deserialized at the boundary into a copy of these shapes; the
//! routing logic here reads only plain values of them.

use vstd::prelude::*;

verus! {

/// A push notification with its head commit.
#[derive(Clone, Debug)]
pub struct Root {
    /// The pushed ref, `refs/heads/<branch>` for a branch push.
    pub push_ref: String,
    /// The commit hash before this push.
    pub before: String,
    /// The commit hash after this push.
    pub after: String,
    pub repository: Repository,
    pub sender: Sender,
    pub head_commit: HeadCommit,
}

/// The repository a push belongs to.
#[derive(Clone, Debug)]
pub struct Repository {
    pub id: i64,
    pub name: String,
    pub full_name: String,
    pub owner: Owner,
    pub description: Option<String>,
    pub fork: bool,
    pub created_at: i64,
    pub updated_at: String,
    pub pushed_at: i64,
    pub default_branch: String,
    pub master_branch: String,
}

/// The repository's owner.
#[derive(Clone, Debug)]
pub struct Owner {
    pub id: i64,
    pub name: String,
    pub email: String,
    pub login: String,
}

/// Who triggered the push.
#[derive(Clone, Debug)]
pub struct Sender {
    pub id: i64,
    pub login: String,
    pub url: String,
}

/// One commit of the push.
#[derive(Clone, Debug)]
pub struct Commit {
    pub id: String,
    pub tree_id: String,
    pub distinct: bool,
    pub message: String,
    pub timestamp: String,
    pub committer: Committer,
}

/// A commit's author.
#[derive(Clone, Debug)]
pub struct Author {
    pub name: String,
    pub email: String,
    pub username: String,
}

/// A commit's committer.
#[derive(Clone, Debug)]
pub struct Committer {
    pub name: String,
    pub email: String,
    pub username: String,
}

/// The commit the pushed ref now points at.
#[derive(Clone, Debug)]
pub struct HeadCommit {
    pub id: String,
    pub tree_id: String,
    pub distinct: bool,
    pub message: String,
    pub timestamp: String,
    pub url: String,
    pub author: Author,
    pub committer: Committer,
}

} // verus!
