//! Lenient semantic versions, as plain values.
//!
//! Parsing and ordering are done by `lenient_semver_parser` and `lenient_version`; this module
//! holds what the release logic reads of a version and names what only those crates compute.

use lenient_semver_parser::VersionBuilder;
use lenient_version::Version;
use std::cmp::Ordering;
use vstd::prelude::*;

verus! {

/// The mathematical value of a [`SemVer`].
pub struct VersionView {
    pub major: u64,
    pub minor: u64,
    pub patch: u64,
    pub additional: Seq<u64>,
    pub pre: Option<Seq<char>>,
}

/// A leniently parsed semantic version: the three regular numbers, any further numbers, and the
/// pre-release segment. Build metadata takes no part in the order and is not kept.
#[derive(Debug)]
pub struct SemVer {
    pub major: u64,
    pub minor: u64,
    pub patch: u64,
    pub additional: Vec<u64>,
    pub pre: Option<String>,
}

impl View for SemVer {
    type V = VersionView;

    open spec fn view(&self) -> VersionView {
        VersionView {
            major: self.major,
            minor: self.minor,
            patch: self.patch,
            additional: self.additional@,
            pre: match self.pre {
                Some(p) => Some(p@),
                None => None,
            },
        }
    }
}

/// The version that the lenient parser reads from a text, or `None` where it rejects the text.
pub uninterp spec fn lenient_parse(s: Seq<char>) -> Option<VersionView>;

/// The order of two versions, as `lenient_version` defines it.
pub uninterp spec fn version_order(a: VersionView, b: VersionView) -> Ordering;

/// Whether a version is flagged as a pre-release.
pub open spec fn is_pre(v: VersionView) -> bool {
    v.pre is Some
}

/// `a` is strictly below `b`.
pub open spec fn version_lt(a: VersionView, b: VersionView) -> bool {
    version_order(a, b) == Ordering::Less
}

/// Relies on `lenient_semver_parser::parse::<lenient_version::Version>`: whether the text is a
/// version, and which, depends on the text alone. The fields are copied one for one.
#[verifier::external_body]
fn parse_lenient(s: &str) -> (r: Option<SemVer>)
    ensures
        match r {
            Some(v) => lenient_parse(s@) == Some(v@),
            None => lenient_parse(s@) is None,
        },
{
    lenient_semver_parser::parse::<Version>(s).ok().map(|v| SemVer {
        major: v.major,
        minor: v.minor,
        patch: v.patch,
        additional: v.additional.to_vec(),
        pre: (*v.pre).map(String::from),
    })
}

/// Relies on `Ord for lenient_version::Version`, which reads the numbers and the pre-release
/// segment alone. Each side is rebuilt field by field through `VersionBuilder`.
#[verifier::external_body]
pub(crate) fn compare_lenient(a: &SemVer, b: &SemVer) -> (r: Ordering)
    ensures
        r == version_order(a@, b@),
{
    let mut x = Version::new(a.major, a.minor, a.patch);
    a.additional.iter().for_each(|n| x.add_additional(*n));
    a.pre.iter().for_each(|p| x.add_pre_release(p));
    let mut y = Version::new(b.major, b.minor, b.patch);
    b.additional.iter().for_each(|n| y.add_additional(*n));
    b.pre.iter().for_each(|p| y.add_pre_release(p));
    x.cmp(&y)
}

impl SemVer {
    /// Parses a text as a lenient semantic version (`"1"` is `1.0.0`, `"v1.2"` is `1.2.0`).
    pub fn parse(text: &str) -> (r: Option<SemVer>)
        ensures
            match r {
                Some(v) => lenient_parse(text@) == Some(v@),
                None => lenient_parse(text@) is None,
            },
    {
        parse_lenient(text)
    }

    /// Whether this version carries a pre-release segment.
    pub fn is_pre_release(&self) -> (r: bool)
        ensures
            r == is_pre(self@),
    {
        self.pre.is_some()
    }

    /// Whether this version is strictly below `other`.
    pub fn less_than(&self, other: &SemVer) -> (r: bool)
        ensures
            r == version_lt(self@, other@),
    {
        match compare_lenient(self, other) {
            Ordering::Less => true,
            _ => false,
        }
    }
}

} // verus!
