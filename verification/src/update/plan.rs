//! Planning an update: what a feed reply means for the running build,
//! which bundle is chosen and where it is downloaded to.
use vstd::prelude::*;
use crate::text::{first_position, lemma_first_position, str_eq, texts};
use crate::update::asset::{asset_name, expected_bundle_asset_name, helper_name, updater_helper_name};
use crate::update::feed::{asset_names, AssetDescriptor, FeedReply};
use crate::update::gate::{tagged_version, version_gate, version_of_tag};
use crate::update::version::{is_newer, version_text, ResolvedVersion, VersionError, VersionModel};

verus! {

/// An update that is to be downloaded and applied.
#[derive(Debug)]
pub struct UpdatePlan {
    pub current_version: ResolvedVersion,
    pub latest_version: ResolvedVersion,
    pub asset_name: String,
    /// Where the bundle is kept, as path components below the cache root.
    pub local_download_path: Vec<String>,
}

/// How looking for an update ended.
#[derive(Debug)]
pub enum CheckOutcome {
    /// The feed gave no release information.
    NoReleaseInformation,
    /// The latest release carries a tag that is no version.
    LatestTagInvalid(VersionError),
    /// The latest release is not newer than the running build.
    UpToDate,
    /// A newer release exists, without a bundle for this platform.
    NoMatchingAsset,
    /// A newer release exists, and `asset` is its bundle for this platform.
    UpdateAvailable { plan: UpdatePlan, asset: AssetDescriptor },
}

/// Where the bundle of a version is kept below the cache root: in a
/// directory of the version's own, so that downloads of different versions
/// never meet.
pub open spec fn download_path(version: VersionModel, asset: Seq<char>) -> Seq<Seq<char>> {
    seq!["updates"@, version_text(version), asset]
}

/// Where the update helper is kept below the cache root.
pub open spec fn helper_path(os: Seq<char>) -> Seq<Seq<char>> {
    seq!["updates"@, "helper"@, helper_name(os)]
}

/// Path components, below the cache root, of the downloaded bundle of
/// `version`.
pub fn update_download_path(version: &ResolvedVersion, asset_name: &str) -> (r: Vec<String>)
    ensures
        texts(r@) == download_path(version@, asset_name@),
{
    let mut r: Vec<String> = Vec::new();
    r.push("updates".to_owned());
    r.push(version.to_text());
    r.push(asset_name.to_owned());
    assert(texts(r@) =~= download_path(version@, asset_name@));
    r
}

/// Path components, below the cache root, of the update helper on `os`.
pub fn updater_helper_path(os: &str) -> (r: Vec<String>)
    ensures
        texts(r@) == helper_path(os@),
{
    let mut r: Vec<String> = Vec::new();
    r.push("updates".to_owned());
    r.push("helper".to_owned());
    r.push(updater_helper_name(os));
    assert(texts(r@) =~= helper_path(os@));
    r
}

/// Position of the first file named `wanted`; the number of files when
/// there is none.
pub fn find_asset(assets: &Vec<AssetDescriptor>, wanted: &str) -> (k: usize)
    ensures
        k == first_position(asset_names(assets@), wanted@),
        k <= assets.len(),
        k < assets.len() ==> assets@[k as int].name@ == wanted@,
{
    let n = assets.len();
    let mut k: usize = 0;
    while k < n && !str_eq(assets[k].name.as_str(), wanted)
        invariant
            k <= n == assets.len(),
            forall|j: int| 0 <= j < k ==> asset_names(assets@)[j] != wanted@,
        decreases n - k,
    {
        k = k + 1;
    }
    proof {
        lemma_first_position(asset_names(assets@), wanted@, k as int);
    }
    k
}

/// What the reply of the feed means for the running build on this platform.
///
/// Anything but a release description means that there is no release
/// information. A release whose tag is no version is reported as such. A
/// plan is made exactly when the release is strictly newer than the running
/// build and holds a file with the platform's bundle name; the first such
/// file is chosen.
pub fn check_for_update(current: &ResolvedVersion, reply: FeedReply, os: &str, arch: &str) -> (r:
    CheckOutcome)
    ensures
        match reply {
            FeedReply::Release(release) => match tagged_version(release.tag@) {
                None => r is LatestTagInvalid,
                Some(latest) => {
                    let wanted = asset_name(os@, arch@);
                    let k = first_position(asset_names(release.assets@), wanted);
                    if !is_newer(latest, current@) {
                        r is UpToDate
                    } else if k >= release.assets@.len() {
                        r is NoMatchingAsset
                    } else {
                        &&& r matches CheckOutcome::UpdateAvailable { plan, asset }
                        &&& plan.current_version@ == current@
                        &&& plan.latest_version@ == latest
                        &&& plan.asset_name@ == wanted
                        &&& texts(plan.local_download_path@) == download_path(latest, wanted)
                        &&& asset.name@ == wanted
                        &&& asset.download_url@ == release.assets@[k].download_url@
                    }
                },
            },
            _ => r is NoReleaseInformation,
        },
        r is UpdateAvailable ==> ({
            &&& reply matches FeedReply::Release(release)
            &&& tagged_version(release.tag@) matches Some(latest)
            &&& latest != current@
            &&& !is_newer(current@, latest)
        }),
{
    match reply {
        FeedReply::Release(release) => {
            match version_of_tag(release.tag.as_str()) {
                Err(e) => CheckOutcome::LatestTagInvalid(e),
                Ok(latest) => {
                    if !version_gate(current, &latest) {
                        return CheckOutcome::UpToDate;
                    }
                    let wanted = expected_bundle_asset_name(os, arch);
                    let k = find_asset(&release.assets, wanted.as_str());
                    if k >= release.assets.len() {
                        return CheckOutcome::NoMatchingAsset;
                    }
                    let asset = release.assets[k].duplicate();
                    let local_download_path = update_download_path(&latest, wanted.as_str());
                    let plan = UpdatePlan {
                        current_version: current.duplicate(),
                        latest_version: latest,
                        asset_name: wanted,
                        local_download_path,
                    };
                    CheckOutcome::UpdateAvailable { plan, asset }
                },
            }
        },
        _ => CheckOutcome::NoReleaseInformation,
    }
}

} // verus!
