//! Shapes of the remote platform's JSON bodies: the push payload the
//! webhook delivers, the release record the asset lookup reads, and the
//! asset record an upload returns. The boundary deserializes into copies of
//! these and hands the plain values in.

use vstd::prelude::*;

verus! {

/// A push notification, as the webhook delivers it.
#[derive(Clone, Debug)]
pub struct Root {
    /// The pushed ref, `refs/heads/<branch>` for a branch push.
    pub push_ref: String,
    /// The commit hash before this push.
    pub before: String,
    /// The commit hash after this push.
    pub after: String,
    pub repository: Repository,
    pub sender: Sender,
}

/// The repository a push belongs to.
#[derive(Clone, Debug)]
pub struct Repository {
    pub id: i64,
    pub name: String,
    pub full_name: String,
    pub owner: Owner,
    pub description: Option<String>,
    pub fork: bool,
    pub created_at: i64,
    pub updated_at: String,
    pub pushed_at: i64,
    pub default_branch: String,
    pub master_branch: String,
}

/// The repository's owner.
#[derive(Clone, Debug)]
pub struct Owner {
    pub id: i64,
    pub name: String,
    pub email: Option<String>,
    pub login: String,
}

/// Who triggered the push.
#[derive(Clone, Debug)]
pub struct Sender {
    pub id: i64,
    pub login: String,
    pub url: String,
}

/// A release record, as the asset lookup reads it.
#[derive(Clone, Debug)]
pub struct GetReleaseRoot {
    pub id: i64,
    pub url: String,
    pub tag_name: String,
    pub name: String,
    pub body: String,
    pub draft: bool,
    pub prerelease: bool,
    pub assets: Vec<ReleaseAsset>,
}

/// One asset already on a release.
#[derive(Clone, Debug)]
pub struct ReleaseAsset {
    pub url: String,
    /// The remote identifier a delete is addressed to.
    pub id: u64,
    pub node_id: String,
    pub name: String,
    pub label: Option<String>,
    pub state: String,
    pub content_type: String,
    pub size: i64,
    pub download_count: i64,
    pub created_at: String,
    pub updated_at: String,
}

/// The asset record an upload returns; `browser_download_url` is the
/// published asset's canonical download location.
#[derive(Clone, Debug)]
pub struct UploadReleaseAssetRoot {
    pub url: String,
    pub browser_download_url: String,
    pub id: u64,
    pub node_id: String,
    pub name: String,
    pub label: String,
    pub state: String,
    pub content_type: String,
    pub size: i64,
    pub download_count: i64,
    pub created_at: String,
    pub updated_at: String,
}

} // verus!
