//! The remote release API, as the core sees it: the exact request locations
//! for looking a release up, deleting an asset and uploading a new one, and
//! the lookup of an existing asset by name. Sending the requests is the
//! boundary's work.

use vstd::prelude::*;
use vstd::string::StringExecFns;

pub mod client;
pub mod model;

use crate::text::str_eq;
use model::GetReleaseRoot;

verus! {

/// The character for one decimal digit.
pub open spec fn decimal_digit(d: nat) -> char
    recommends
        d < 10,
{
    if d == 0 {
        '0'
    } else if d == 1 {
        '1'
    } else if d == 2 {
        '2'
    } else if d == 3 {
        '3'
    } else if d == 4 {
        '4'
    } else if d == 5 {
        '5'
    } else if d == 6 {
        '6'
    } else if d == 7 {
        '7'
    } else if d == 8 {
        '8'
    } else {
        '9'
    }
}

/// The base-10 digits of `n`, most significant first, with no sign, padding
/// or separators.
pub open spec fn decimal_str(n: nat) -> Seq<char>
    decreases n,
{
    if n < 10 {
        seq![decimal_digit(n)]
    } else {
        decimal_str(n / 10).push(decimal_digit(n % 10))
    }
}

/// Relies on the standard library's `Display` implementation for `u64`,
/// reached through `ToString::to_string`: it writes the value's base-10
/// digits and nothing else.
#[verifier::external_body]
fn u64_to_string(n: u64) -> (r: String)
    ensures
        r@ == decimal_str(n as nat),
{
    n.to_string()
}

/// The location a release is fetched from.
pub fn release_url(owner: &str, repo: &str, release_id: u64) -> (r: String)
    ensures
        r@ == "https://api.github.com/repos/"@ + owner@ + "/"@ + repo@ + "/releases/"@
            + decimal_str(release_id as nat),
{
    let id = u64_to_string(release_id);
    String::from_str("https://api.github.com/repos/").concat(owner).concat("/").concat(
        repo,
    ).concat("/releases/").concat(id.as_str())
}

/// The location a delete for one release asset is addressed to.
pub fn asset_url(owner: &str, repo: &str, asset_id: u64) -> (r: String)
    ensures
        r@ == "https://api.github.com/repos/"@ + owner@ + "/"@ + repo@ + "/releases/assets/"@
            + decimal_str(asset_id as nat),
{
    let id = u64_to_string(asset_id);
    String::from_str("https://api.github.com/repos/").concat(owner).concat("/").concat(
        repo,
    ).concat("/releases/assets/").concat(id.as_str())
}

/// The location a new asset is uploaded to, with the desired asset name as
/// the `name` query parameter, taken as it is.
pub fn upload_url(owner: &str, repo: &str, release_id: u64, asset_name: &str) -> (r: String)
    ensures
        r@ == "https://uploads.github.com/repos/"@ + owner@ + "/"@ + repo@ + "/releases/"@
            + decimal_str(release_id as nat) + "/assets?name="@ + asset_name@,
{
    let id = u64_to_string(release_id);
    String::from_str("https://uploads.github.com/repos/").concat(owner).concat("/").concat(
        repo,
    ).concat("/releases/").concat(id.as_str()).concat("/assets?name=").concat(asset_name)
}

/// The identifier of the first asset carrying the given name, if any.
pub open spec fn spec_find_asset(assets: Seq<model::ReleaseAsset>, name: Seq<char>) -> Option<u64>
    decreases assets.len(),
{
    if assets.len() == 0 {
        None
    } else if assets[0].name@ == name {
        Some(assets[0].id)
    } else {
        spec_find_asset(assets.drop_first(), name)
    }
}

/// Looks the desired asset up on a fetched release: the first asset whose
/// name equals `asset_name`, exactly; `None` when no asset carries the name.
pub fn find_macos_asset(release: &GetReleaseRoot, asset_name: &str) -> (r: Option<u64>)
    ensures
        r == spec_find_asset(release.assets@, asset_name@),
{
    let n = release.assets.len();
    proof {
        assert(release.assets@.skip(0) =~= release.assets@);
    }
    let mut i: usize = 0;
    while i < n
        invariant
            i <= n,
            n == release.assets@.len(),
            spec_find_asset(release.assets@, asset_name@) == spec_find_asset(
                release.assets@.skip(i as int),
                asset_name@,
            ),
        decreases n - i,
    {
        proof {
            assert(release.assets@.skip(i as int)[0] == release.assets@[i as int]);
        }
        if str_eq(release.assets[i].name.as_str(), asset_name) {
            return Some(release.assets[i].id);
        }
        proof {
            assert(release.assets@.skip(i as int).drop_first() =~= release.assets@.skip(
                i as int + 1,
            ));
        }
        i += 1;
    }
    proof {
        assert(release.assets@.skip(n as int) =~= Seq::<model::ReleaseAsset>::empty());
    }
    None
}

} // verus!
