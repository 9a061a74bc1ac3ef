//! Semantic versions: what a version string stands for, and which of two
//! versions comes first. Both questions are put to the `semver` crate.

use std::cmp::Ordering;
use vstd::prelude::*;

verus! {

/// A semantic version, taken apart.
#[derive(Debug)]
pub struct Version {
    pub major: u64,
    pub minor: u64,
    pub patch: u64,
    /// The pre-release identifiers, dots included; empty for a release.
    pub pre: String,
    /// The build metadata, dots included; empty where there is none.
    pub build: String,
}

/// The mathematical value of a [`Version`].
pub struct SemVer {
    pub major: u64,
    pub minor: u64,
    pub patch: u64,
    pub pre: Seq<char>,
    pub build: Seq<char>,
}

impl View for Version {
    type V = SemVer;

    open spec fn view(&self) -> SemVer {
        SemVer {
            major: self.major,
            minor: self.minor,
            patch: self.patch,
            pre: self.pre@,
            build: self.build@,
        }
    }
}

impl DeepView for Version {
    type V = SemVer;

    open spec fn deep_view(&self) -> SemVer {
        self@
    }
}

/// How one version stands to another.
#[derive(Debug, Clone, Copy, PartialEq, Eq, Structural)]
pub enum Precedence {
    Lower,
    Same,
    Higher,
}

/// What `semver::Version::parse` makes of a text: the version it reads, or
/// nothing where it rejects the text.
pub uninterp spec fn semver_parse(text: Seq<char>) -> Option<SemVer>;

/// How `semver::Version` orders the first version against the second.
pub uninterp spec fn semver_order(first: SemVer, second: SemVer) -> Precedence;

/// A version that some text parses to.
pub open spec fn well_formed(version: SemVer) -> bool {
    exists|text: Seq<char>| #[trigger] semver_parse(text) == Some(version)
}

/// The first version comes strictly before the second.
pub open spec fn precedes(first: SemVer, second: SemVer) -> bool {
    semver_order(first, second) is Lower
}

/// What a comparison tells of two versions beyond its own result: the order
/// is that of a strict total order, whose equality is equality of all parts.
pub open spec fn ordered_as(first: SemVer, second: SemVer, found: Precedence) -> bool {
    &&& found == semver_order(first, second)
    &&& found is Same <==> first == second
    &&& found is Higher <==> semver_order(second, first) is Lower
    &&& found is Lower <==> semver_order(second, first) is Higher
    &&& found is Lower ==> forall|before: SemVer|
        well_formed(before) && #[trigger] precedes(before, first) ==> precedes(before, second)
}

/// Reads a version with `semver::Version::parse`. The contract claims that
/// the result is a function of the text alone, and that the parts handed
/// back are those of the version that was read.
#[verifier::external_body]
pub(crate) fn parse_semver(text: &str) -> (parsed: Option<Version>)
    ensures
        match parsed {
            Some(version) => semver_parse(text@) == Some(version@),
            None => semver_parse(text@) is None,
        },
{
    match semver::Version::parse(text) {
        Ok(v) => Some(
            Version {
                major: v.major,
                minor: v.minor,
                patch: v.patch,
                pre: v.pre.as_str().to_owned(),
                build: v.build.as_str().to_owned(),
            },
        ),
        Err(_) => None,
    }
}

/// Orders two versions by the `cmp` of `semver::Version`. The
/// contract claims that there is an answer exactly where both versions are
/// ones that a text parses to, that the answer is a function of the two
/// versions, and that the order is strict and total: `==` holds of versions
/// with equal parts only, each of two unequal versions is below the other
/// one way round, and what is below the lower is below the higher.
#[verifier::external_body]
pub(crate) fn compare_semver(first: &Version, second: &Version) -> (found: Option<Precedence>)
    ensures
        found.is_some() == (well_formed(first@) && well_formed(second@)),
        found matches Some(order) ==> order == semver_order(first@, second@),
        found matches Some(order) ==> ordered_as(first@, second@, order),
{
    let pre = semver::Prerelease::new(&first.pre).ok()?;
    let build = semver::BuildMetadata::new(&first.build).ok()?;
    let a = semver::Version { major: first.major, minor: first.minor, patch: first.patch, pre, build };
    let pre = semver::Prerelease::new(&second.pre).ok()?;
    let build = semver::BuildMetadata::new(&second.build).ok()?;
    let b = semver::Version { major: second.major, minor: second.minor, patch: second.patch, pre, build };
    Some(
        match a.cmp(&b) {
            Ordering::Less => Precedence::Lower,
            Ordering::Equal => Precedence::Same,
            Ordering::Greater => Precedence::Higher,
        },
    )
}

} // verus!
