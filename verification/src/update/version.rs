//! Semantic versions: parsing, ordering and rendering.
//!
//! Parsing and the ordering of pre-release and build identifiers are done by
//! the `semver` crate; the numeric part of the ordering and the rendering are
//! done here.
use vstd::prelude::*;
use crate::text::{decimal, decimal_text};

verus! {

/// `semver::Error`, the version parser's error.
#[verifier::external_type_specification]
#[verifier::external_body]
pub struct ExSemverError(semver::Error);

/// How one version stands relative to another.
#[derive(Clone, Copy, Debug, PartialEq, Eq, Structural)]
pub enum Precedence {
    Lower,
    Same,
    Higher,
}

/// A parsed semantic version.
#[derive(Clone, Debug)]
pub struct ResolvedVersion {
    pub major: u64,
    pub minor: u64,
    pub patch: u64,
    /// Pre-release identifiers without the leading `-`; empty for a release.
    pub pre: String,
    /// Build metadata without the leading `+`; empty when there is none.
    pub build: String,
}

/// The mathematical content of a [`ResolvedVersion`].
pub struct VersionModel {
    pub major: nat,
    pub minor: nat,
    pub patch: nat,
    pub pre: Seq<char>,
    pub build: Seq<char>,
}

impl View for ResolvedVersion {
    type V = VersionModel;

    open spec fn view(&self) -> VersionModel {
        VersionModel {
            major: self.major as nat,
            minor: self.minor as nat,
            patch: self.patch as nat,
            pre: self.pre@,
            build: self.build@,
        }
    }
}

/// Why a text was not accepted as a version.
#[derive(Debug)]
pub struct VersionError {
    /// The parser's own description of what it met.
    pub detail: String,
}

/// What `semver::Version::parse` makes of a text: the version's parts, or
/// `None` where it rejects the text.
pub uninterp spec fn semver_parse(text: Seq<char>) -> Option<VersionModel>;

/// How `semver::Prerelease` orders two pre-release texts; `None` where one of
/// them is not a pre-release text.
pub uninterp spec fn prerelease_order(a: Seq<char>, b: Seq<char>) -> Option<Precedence>;

/// How `semver::BuildMetadata` orders two build-metadata texts; `None` where
/// one of them is not a build-metadata text.
pub uninterp spec fn build_order(a: Seq<char>, b: Seq<char>) -> Option<Precedence>;

/// The same comparison seen from the other side.
pub open spec fn reversed(p: Option<Precedence>) -> Option<Precedence> {
    match p {
        Some(Precedence::Lower) => Some(Precedence::Higher),
        Some(Precedence::Same) => Some(Precedence::Same),
        Some(Precedence::Higher) => Some(Precedence::Lower),
        None => None,
    }
}

/// Numeric order of two version numbers.
pub open spec fn number_order(a: nat, b: nat) -> Precedence {
    if a < b {
        Precedence::Lower
    } else if a == b {
        Precedence::Same
    } else {
        Precedence::Higher
    }
}

/// Order of two versions: by major, minor and patch number, then by
/// pre-release, then by build metadata. `None` where the identifiers of one
/// of them cannot be ordered.
pub open spec fn precedence(a: VersionModel, b: VersionModel) -> Option<Precedence> {
    if a.major != b.major {
        Some(number_order(a.major, b.major))
    } else if a.minor != b.minor {
        Some(number_order(a.minor, b.minor))
    } else if a.patch != b.patch {
        Some(number_order(a.patch, b.patch))
    } else if prerelease_order(a.pre, b.pre) != Some(Precedence::Same) {
        prerelease_order(a.pre, b.pre)
    } else {
        build_order(a.build, b.build)
    }
}

/// A version without pre-release and without build metadata.
pub open spec fn is_plain(v: VersionModel) -> bool {
    v.pre.len() == 0 && v.build.len() == 0
}

/// Order of two versions by their numbers alone.
pub open spec fn order_by_numbers(a: VersionModel, b: VersionModel) -> Precedence {
    if a.major != b.major {
        number_order(a.major, b.major)
    } else if a.minor != b.minor {
        number_order(a.minor, b.minor)
    } else {
        number_order(a.patch, b.patch)
    }
}

/// `a` is strictly newer than `b`.
pub open spec fn is_newer(a: VersionModel, b: VersionModel) -> bool {
    precedence(a, b) == Some(Precedence::Higher)
}

/// The text of a version: `major.minor.patch`, then `-` and the pre-release
/// if there is one, then `+` and the build metadata if there is any.
pub open spec fn version_text(v: VersionModel) -> Seq<char> {
    decimal(v.major) + seq!['.'] + decimal(v.minor) + seq!['.'] + decimal(v.patch) + (if v.pre.len()
        > 0 {
        seq!['-'] + v.pre
    } else {
        Seq::<char>::empty()
    }) + (if v.build.len() > 0 {
        seq!['+'] + v.build
    } else {
        Seq::<char>::empty()
    })
}

/// Calls `semver::Version::parse` and copies the parts of the version it
/// returns. The outcome is named `semver_parse`. Of an accepted text the
/// contract also claims that it is the canonical text of the version: the
/// parser admits no whitespace, no leading zeros in the three numbers and no
/// empty pre-release or build part.
#[verifier::external_body]
fn semver_version_parse(text: &str) -> (r: Result<ResolvedVersion, semver::Error>)
    ensures
        match r {
            Ok(v) => semver_parse(text@) == Some(v@) && version_text(v@) == text@,
            Err(_) => semver_parse(text@) is None,
        },
{
    match semver::Version::parse(text) {
        Ok(v) => Ok(
            ResolvedVersion {
                major: v.major,
                minor: v.minor,
                patch: v.patch,
                pre: v.pre.as_str().to_string(),
                build: v.build.as_str().to_string(),
            },
        ),
        Err(e) => Err(e),
    }
}

/// The `Display` text of a `semver::Error`. Nothing is claimed of it.
#[verifier::external_body]
fn semver_error_text(e: &semver::Error) -> (r: String) {
    e.to_string()
}

/// Compares two texts as `semver::Prerelease` values with its `Ord::cmp`.
/// The outcome is named `prerelease_order`; the contract also claims that
/// the order is antisymmetric, as the crate documents it to be total, and
/// that two empty texts, which stand for no pre-release, are the same.
#[verifier::external_body]
fn prerelease_precedence(a: &str, b: &str) -> (r: Option<Precedence>)
    ensures
        r == prerelease_order(a@, b@),
        prerelease_order(b@, a@) == reversed(r),
        a@.len() == 0 && b@.len() == 0 ==> r == Some(Precedence::Same),
{
    match (semver::Prerelease::new(a), semver::Prerelease::new(b)) {
        (Ok(x), Ok(y)) => Some(
            match x.cmp(&y) {
                std::cmp::Ordering::Less => Precedence::Lower,
                std::cmp::Ordering::Equal => Precedence::Same,
                std::cmp::Ordering::Greater => Precedence::Higher,
            },
        ),
        _ => None,
    }
}

/// Compares two texts as `semver::BuildMetadata` values with its `Ord::cmp`.
/// The outcome is named `build_order`; the contract also claims that the
/// order is antisymmetric, as the crate documents it to be total, and that
/// two empty texts, which stand for no build metadata, are the same.
#[verifier::external_body]
fn build_precedence(a: &str, b: &str) -> (r: Option<Precedence>)
    ensures
        r == build_order(a@, b@),
        build_order(b@, a@) == reversed(r),
        a@.len() == 0 && b@.len() == 0 ==> r == Some(Precedence::Same),
{
    match (semver::BuildMetadata::new(a), semver::BuildMetadata::new(b)) {
        (Ok(x), Ok(y)) => Some(
            match x.cmp(&y) {
                std::cmp::Ordering::Less => Precedence::Lower,
                std::cmp::Ordering::Equal => Precedence::Same,
                std::cmp::Ordering::Greater => Precedence::Higher,
            },
        ),
        _ => None,
    }
}

/// Numeric order of two version numbers.
pub fn order_numbers(a: u64, b: u64) -> (r: Precedence)
    ensures
        r == number_order(a as nat, b as nat),
{
    if a < b {
        Precedence::Lower
    } else if a == b {
        Precedence::Same
    } else {
        Precedence::Higher
    }
}

impl ResolvedVersion {
    /// Parses a semantic version. Succeeds exactly on the texts the parser
    /// accepts, and then `text` is the version's own text.
    pub fn parse(text: &str) -> (r: Result<ResolvedVersion, VersionError>)
        ensures
            match r {
                Ok(v) => semver_parse(text@) == Some(v@) && version_text(v@) == text@,
                Err(_) => semver_parse(text@) is None,
            },
    {
        match semver_version_parse(text) {
            Ok(v) => Ok(v),
            Err(e) => Err(VersionError { detail: semver_error_text(&e) }),
        }
    }

    /// How `self` stands relative to `other`. Seen from `other` the answer is
    /// the reverse. Two versions without pre-release and build metadata are
    /// ordered by their numbers.
    pub fn precedence_over(&self, other: &ResolvedVersion) -> (r: Option<Precedence>)
        ensures
            r == precedence(self@, other@),
            precedence(other@, self@) == reversed(r),
            is_plain(self@) && is_plain(other@) ==> r == Some(order_by_numbers(self@, other@)),
    {
        if self.major != other.major {
            Some(order_numbers(self.major, other.major))
        } else if self.minor != other.minor {
            Some(order_numbers(self.minor, other.minor))
        } else if self.patch != other.patch {
            Some(order_numbers(self.patch, other.patch))
        } else {
            let by_pre = prerelease_precedence(self.pre.as_str(), other.pre.as_str());
            match by_pre {
                Some(Precedence::Same) => build_precedence(self.build.as_str(), other.build.as_str()),
                _ => by_pre,
            }
        }
    }

    /// Whether `self` is strictly newer than `other`. Never so when `other`
    /// is newer than `self` or when the two are the same version. Between
    /// two versions without pre-release and build metadata the numbers
    /// decide.
    pub fn is_newer_than(&self, other: &ResolvedVersion) -> (r: bool)
        ensures
            r == is_newer(self@, other@),
            is_newer(other@, self@) ==> !r,
            self@ == other@ ==> !r,
            is_plain(self@) && is_plain(other@) ==> r == (order_by_numbers(self@, other@)
                == Precedence::Higher),
    {
        match self.precedence_over(other) {
            Some(Precedence::Higher) => true,
            _ => false,
        }
    }

    /// A copy with the same parts.
    pub fn duplicate(&self) -> (r: ResolvedVersion)
        ensures
            r@ == self@,
    {
        ResolvedVersion {
            major: self.major,
            minor: self.minor,
            patch: self.patch,
            pre: self.pre.clone(),
            build: self.build.clone(),
        }
    }

    /// The text of the version.
    pub fn to_text(&self) -> (r: String)
        ensures
            r@ == version_text(self@),
    {
        let mut r = decimal_text(self.major);
        r.push('.');
        r.append(decimal_text(self.minor).as_str());
        r.push('.');
        r.append(decimal_text(self.patch).as_str());
        if self.pre.as_str().unicode_len() > 0 {
            r.push('-');
            r.append(self.pre.as_str());
        }
        if self.build.as_str().unicode_len() > 0 {
            r.push('+');
            r.append(self.build.as_str());
        }
        proof {
            assert(r@ =~= version_text(self@));
        }
        r
    }
}

/// Where two versions differ in a number, the first number that differs
/// decides which is newer, whatever their identifiers.
pub proof fn numbers_decide(a: VersionModel, b: VersionModel)
    ensures
        a.major > b.major ==> is_newer(a, b),
        a.major < b.major ==> !is_newer(a, b),
        a.major == b.major && a.minor > b.minor ==> is_newer(a, b),
        a.major == b.major && a.minor < b.minor ==> !is_newer(a, b),
        a.major == b.major && a.minor == b.minor && a.patch > b.patch ==> is_newer(a, b),
        a.major == b.major && a.minor == b.minor && a.patch < b.patch ==> !is_newer(a, b),
{
}

} // verus!
