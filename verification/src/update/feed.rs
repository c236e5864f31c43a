//! The release feed: which repository is asked, at which address, and what
//! a reply amounts to.
use vstd::prelude::*;
use crate::text::{first_index_of, split_once_at, trim, trimmed};

verus! {

/// One downloadable file of a release.
#[derive(Debug)]
pub struct AssetDescriptor {
    pub name: String,
    pub download_url: String,
}

/// The latest published release: its tag and its files, in the feed's order.
#[derive(Debug)]
pub struct ReleaseDescriptor {
    pub tag: String,
    pub assets: Vec<AssetDescriptor>,
}

/// What came back from asking the feed.
#[derive(Debug)]
pub enum FeedReply {
    /// The request failed or timed out before any answer.
    TransportFailed,
    /// The feed answered with this status, which is no success.
    Rejected(u16),
    /// The feed answered with a body that is no release description.
    Unreadable,
    /// The feed described its latest release.
    Release(ReleaseDescriptor),
}

impl AssetDescriptor {
    /// A copy with the same name and address.
    pub fn duplicate(&self) -> (r: AssetDescriptor)
        ensures
            r.name@ == self.name@,
            r.download_url@ == self.download_url@,
    {
        AssetDescriptor { name: self.name.clone(), download_url: self.download_url.clone() }
    }
}

/// The names of a release's files, in order.
pub open spec fn asset_names(assets: Seq<AssetDescriptor>) -> Seq<Seq<char>> {
    Seq::new(assets.len(), |i: int| assets[i].name@)
}

/// Name of the environment variable that names another repository, in the
/// form `owner/repo`.
pub const REPOSITORY_VARIABLE: &'static str = "TWITCHDESK_UPDATE_REPO";

/// Seconds after which a request to the feed is given up.
pub const REQUEST_TIMEOUT_SECONDS: u64 = 25;

/// Owner and name of the repository that publishes the releases.
pub open spec fn default_repository() -> (Seq<char>, Seq<char>) {
    ("twitchdesk"@, "twitchdesk-desktop"@)
}

/// The repository to ask: what stands before and behind the first `/` of
/// the configured value, each without surrounding whitespace, provided both
/// are non-empty; the default repository in every other case.
pub open spec fn repository(configured: Option<Seq<char>>) -> (Seq<char>, Seq<char>) {
    match configured {
        Some(v) => {
            let k = first_index_of(v, '/');
            let owner = trim(v.take(k));
            let name = trim(v.skip(k + 1));
            if k < v.len() && owner.len() > 0 && name.len() > 0 {
                (owner, name)
            } else {
                default_repository()
            }
        },
        None => default_repository(),
    }
}

/// Address of the feed's entry for the latest release of a repository.
pub open spec fn latest_release_address(owner: Seq<char>, name: Seq<char>) -> Seq<char> {
    "https://api.github.com/repos/"@ + owner + "/"@ + name + "/releases/latest"@
}

/// A status in the range that HTTP reserves for success.
pub open spec fn is_success(status: u16) -> bool {
    200 <= status < 300
}

/// The repository to ask, given the override of the form `owner/repo` if
/// one is configured.
pub fn github_repo_from_env(configured: Option<&str>) -> (r: (String, String))
    ensures
        (r.0@, r.1@) == repository(
            match configured {
                Some(v) => Some(v@),
                None => None,
            },
        ),
{
    if let Some(v) = configured {
        if let Some((head, tail)) = split_once_at(v, '/') {
            let owner = trimmed(head.as_str());
            let name = trimmed(tail.as_str());
            if owner.as_str().unicode_len() > 0 && name.as_str().unicode_len() > 0 {
                return (owner, name);
            }
        }
    }
    ("twitchdesk".to_owned(), "twitchdesk-desktop".to_owned())
}

/// Address to ask for the latest release of a repository.
pub fn latest_release_url(owner: &str, name: &str) -> (r: String)
    ensures
        r@ == latest_release_address(owner@, name@),
{
    let mut r = "https://api.github.com/repos/".to_owned();
    r.append(owner);
    r.append("/");
    r.append(name);
    r.append("/releases/latest");
    r
}

/// Whether a response status stands for success.
pub fn is_success_status(status: u16) -> (r: bool)
    ensures
        r == is_success(status),
{
    200 <= status && status < 300
}

/// The name sent with every request to say who is asking.
pub fn user_agent() -> (r: String)
    ensures
        r@ == "twitchdesk-desktop-updater"@,
{
    "twitchdesk-desktop-updater".to_owned()
}

} // verus!
