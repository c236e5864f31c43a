//! The version gate: is the feed's latest release strictly newer than the
//! running build?
use vstd::prelude::*;
use crate::text::{strip_leading, without_leading};
use crate::update::version::{
    is_newer, is_plain, order_by_numbers, semver_parse, version_text, Precedence,
    ResolvedVersion, VersionError, VersionModel,
};

verus! {

/// The version a release tag stands for: the tag without its leading `v`s,
/// read as a version.
pub open spec fn tagged_version(tag: Seq<char>) -> Option<VersionModel> {
    semver_parse(strip_leading(tag, 'v'))
}

/// Reads a release tag as a version. The version's own text is the tag
/// without its leading `v`s.
pub fn version_of_tag(tag: &str) -> (r: Result<ResolvedVersion, VersionError>)
    ensures
        match r {
            Ok(v) => tagged_version(tag@) == Some(v@) && version_text(v@) == strip_leading(
                tag@,
                'v',
            ),
            Err(_) => tagged_version(tag@) is None,
        },
{
    let bare = without_leading(tag, 'v');
    ResolvedVersion::parse(bare.as_str())
}

/// Lets a release through exactly when it is strictly newer than the
/// running build. A release that is the running build, or one that the
/// running build is newer than, never passes. Between two versions without
/// pre-release and build metadata the numbers decide.
pub fn version_gate(current: &ResolvedVersion, latest: &ResolvedVersion) -> (r: bool)
    ensures
        r == is_newer(latest@, current@),
        latest@ == current@ ==> !r,
        is_newer(current@, latest@) ==> !r,
        is_plain(latest@) && is_plain(current@) ==> r == (order_by_numbers(latest@, current@)
            == Precedence::Higher),
{
    latest.is_newer_than(current)
}

} // verus!
