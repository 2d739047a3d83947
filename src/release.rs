//! Choosing the latest release among the tags of a repository.

use crate::text::{has_prefix, join2, strip_prefix, texts};
use crate::version::{
    compare_lenient, is_pre, lenient_parse, version_lt, version_order, SemVer, VersionView,
};
use std::cmp::Ordering;
use vstd::prelude::*;

verus! {

/// The release that was chosen.
#[derive(Debug, PartialEq)]
pub struct LatestRelease {
    /// The tag as git knows it, e.g. `release/2.0`.
    pub tag: String,
    /// The tag as shown to the user, e.g. `2.0`.
    pub name: String,
}

impl LatestRelease {
    /// A release whose tag and name are the same text.
    pub fn tag(tag: &str) -> (r: LatestRelease)
        ensures
            r.tag@ == tag@,
            r.name@ == tag@,
    {
        LatestRelease { tag: String::from_str(tag), name: String::from_str(tag) }
    }
}

/// A tag with the prefix taken off, or `None` where the tag lacks the prefix.
pub open spec fn stripped(tag: Seq<char>, prefix: Option<Seq<char>>) -> Option<Seq<char>> {
    match prefix {
        None => Some(tag),
        Some(p) => if has_prefix(tag, p) {
            Some(tag.subrange(p.len() as int, tag.len() as int))
        } else {
            None
        },
    }
}

/// A stripped tag takes part in the choice: it parses, it is no pre-release unless those are
/// wanted, and it lies strictly below the bound if there is one.
pub open spec fn eligible(name: Seq<char>, pre_releases: bool, bound: Option<VersionView>) -> bool {
    match lenient_parse(name) {
        None => false,
        Some(v) => (pre_releases || !is_pre(v)) && match bound {
            None => true,
            Some(b) => version_lt(v, b),
        },
    }
}

/// The stripped tags that take part in the choice, in the order of the tags.
pub open spec fn candidates(
    tags: Seq<Seq<char>>,
    pre_releases: bool,
    bound: Option<VersionView>,
    prefix: Option<Seq<char>>,
) -> Seq<Seq<char>>
    decreases tags.len(),
{
    if tags.len() == 0 {
        Seq::empty()
    } else {
        let rest = candidates(tags.drop_last(), pre_releases, bound, prefix);
        match stripped(tags.last(), prefix) {
            Some(n) => if eligible(n, pre_releases, bound) {
                rest.push(n)
            } else {
                rest
            },
            None => rest,
        }
    }
}

/// The greatest of the names by version, scanning left to right; a later name that is not
/// below the one held so far replaces it.
pub open spec fn latest_of(names: Seq<Seq<char>>) -> Option<Seq<char>>
    decreases names.len(),
{
    if names.len() == 0 {
        None
    } else {
        match latest_of(names.drop_last()) {
            None => Some(names.last()),
            Some(b) => if version_order(lenient_parse(b)->0, lenient_parse(names.last())->0)
                == Ordering::Greater {
                Some(b)
            } else {
                Some(names.last())
            },
        }
    }
}

/// The tag to store for a stripped name: the prefix put back in front.
pub open spec fn storage_tag(name: Seq<char>, prefix: Option<Seq<char>>) -> Seq<char> {
    match prefix {
        None => name,
        Some(p) => p + name,
    }
}

/// The chosen release as (storage tag, display name).
pub open spec fn release_of(
    tags: Seq<Seq<char>>,
    pre_releases: bool,
    bound: Option<VersionView>,
    prefix: Option<Seq<char>>,
) -> Option<(Seq<char>, Seq<char>)> {
    match latest_of(candidates(tags, pre_releases, bound, prefix)) {
        None => None,
        Some(n) => Some((storage_tag(n, prefix), n)),
    }
}

pub open spec fn opt_text(p: Option<&str>) -> Option<Seq<char>> {
    match p {
        Some(s) => Some(s@),
        None => None,
    }
}

pub open spec fn opt_version(b: Option<&SemVer>) -> Option<VersionView> {
    match b {
        Some(v) => Some(v@),
        None => None,
    }
}

pub open spec fn release_matches(r: Option<LatestRelease>, s: Option<(Seq<char>, Seq<char>)>) -> bool {
    match r {
        None => s is None,
        Some(rel) => s == Some((rel.tag@, rel.name@)),
    }
}

/// Takes the tags and returns the latest release among them: tags without the prefix are
/// dropped and the others stripped of it, tags that do not parse as versions are skipped,
/// pre-releases are skipped unless wanted, and only versions strictly below the bound count.
pub fn latest_release(
    tags: &Vec<String>,
    pre_releases: bool,
    version_upper_bound: Option<&SemVer>,
    prefix: Option<&str>,
) -> (r: Option<LatestRelease>)
    ensures
        release_matches(
            r,
            release_of(texts(tags@), pre_releases, opt_version(version_upper_bound), opt_text(prefix)),
        ),
{
    let ghost all = texts(tags@);
    let ghost bound = opt_version(version_upper_bound);
    let ghost pfx = opt_text(prefix);
    let mut best: Option<(String, SemVer)> = None;
    let mut i: usize = 0;
    while i < tags.len()
        invariant
            i <= tags.len(),
            all == texts(tags@),
            bound == opt_version(version_upper_bound),
            pfx == opt_text(prefix),
            match best {
                None => latest_of(candidates(all.subrange(0, i as int), pre_releases, bound, pfx)) is None,
                Some((n, v)) => latest_of(candidates(all.subrange(0, i as int), pre_releases, bound, pfx))
                    == Some(n@) && lenient_parse(n@) == Some(v@),
            },
        decreases tags.len() - i,
    {
        let ghost before = all.subrange(0, i as int);
        let ghost upto = all.subrange(0, i + 1);
        assert(upto.drop_last() == before);
        assert(upto.last() == tags@[i as int]@);
        let name: Option<String> = match prefix {
            None => Some(String::from_str(tags[i].as_str())),
            Some(p) => strip_prefix(tags[i].as_str(), p),
        };
        proof {
            if let Some(p) = pfx {
                let t = tags@[i as int]@;
                if has_prefix(t, p) {
                    assert(t.subrange(p.len() as int, t.len() as int) =~= name->0@);
                }
            }
        }
        assert(match name {
            Some(n) => stripped(upto.last(), pfx) == Some(n@),
            None => stripped(upto.last(), pfx) is None,
        });
        if name.is_none() {
            assert(candidates(upto, pre_releases, bound, pfx) == candidates(before, pre_releases, bound, pfx));
        }
        if let Some(n) = name {
            let parsed = SemVer::parse(n.as_str());
            if parsed.is_none() {
                assert(!eligible(n@, pre_releases, bound));
                assert(candidates(upto, pre_releases, bound, pfx) == candidates(before, pre_releases, bound, pfx));
            }
            if let Some(v) = parsed {
                let in_bound = match version_upper_bound {
                    None => true,
                    Some(b) => v.less_than(b),
                };
                if (pre_releases || !v.is_pre_release()) && in_bound {
                    assert(eligible(n@, pre_releases, bound));
                    assert(candidates(upto, pre_releases, bound, pfx) == candidates(before, pre_releases, bound, pfx).push(n@));
                    assert(candidates(upto, pre_releases, bound, pfx).drop_last() == candidates(before, pre_releases, bound, pfx));
                    let take = match &best {
                        None => true,
                        Some((_, bv)) => match compare_lenient(bv, &v) {
                            Ordering::Greater => false,
                            _ => true,
                        },
                    };
                    if take {
                        best = Some((n, v));
                    }
                } else {
                    assert(!eligible(n@, pre_releases, bound));
                    assert(candidates(upto, pre_releases, bound, pfx) == candidates(before, pre_releases, bound, pfx));
                }
            }
        }
        i = i + 1;
    }
    assert(all.subrange(0, tags.len() as int) == all);
    match best {
        None => None,
        Some((n, _)) => {
            let tag = match prefix {
                None => String::from_str(n.as_str()),
                Some(p) => join2(p, n.as_str()),
            };
            Some(LatestRelease { tag, name: n })
        },
    }
}

/// Some tag yields the stripped name `n`.
pub open spec fn from_some_tag(tags: Seq<Seq<char>>, prefix: Option<Seq<char>>, n: Seq<char>) -> bool {
    exists|i: int| 0 <= i < tags.len() && #[trigger] stripped(tags[i], prefix) == Some(n)
}

proof fn lemma_candidates_sound(
    tags: Seq<Seq<char>>,
    pre_releases: bool,
    bound: Option<VersionView>,
    prefix: Option<Seq<char>>,
)
    ensures
        forall|k: int|
            0 <= k < candidates(tags, pre_releases, bound, prefix).len() ==> {
                let n = #[trigger] candidates(tags, pre_releases, bound, prefix)[k];
                eligible(n, pre_releases, bound) && from_some_tag(tags, prefix, n)
            },
    decreases tags.len(),
{
    if tags.len() > 0 {
        let init = tags.drop_last();
        lemma_candidates_sound(init, pre_releases, bound, prefix);
        let c = candidates(tags, pre_releases, bound, prefix);
        let ci = candidates(init, pre_releases, bound, prefix);
        assert forall|k: int| 0 <= k < c.len() implies eligible(#[trigger] c[k], pre_releases, bound)
            && from_some_tag(tags, prefix, c[k]) by {
            if k < ci.len() {
                assert(c[k] == ci[k]);
                let n = ci[k];
                let j = choose|j: int| 0 <= j < init.len() && #[trigger] stripped(init[j], prefix) == Some(n);
                assert(tags[j] == init[j]);
            } else {
                assert(stripped(tags[tags.len() - 1], prefix) == Some(c[k]));
            }
        }
    }
}

proof fn lemma_latest_member(names: Seq<Seq<char>>)
    ensures
        (latest_of(names) is Some) == (names.len() > 0),
        latest_of(names) is Some ==> names.contains(latest_of(names)->0),
    decreases names.len(),
{
    if names.len() > 0 {
        lemma_latest_member(names.drop_last());
        if latest_of(names.drop_last()) is Some {
            let b = latest_of(names.drop_last())->0;
            let j = choose|j: int| 0 <= j < names.drop_last().len() && names.drop_last()[j] == b;
            assert(names[j] == b);
        }
        assert(names[names.len() - 1] == names.last());
    }
}

pub proof fn lemma_chosen(
    tags: Seq<Seq<char>>,
    pre_releases: bool,
    bound: Option<VersionView>,
    prefix: Option<Seq<char>>,
)
    requires
        release_of(tags, pre_releases, bound, prefix) is Some,
    ensures
        ({
            let n = release_of(tags, pre_releases, bound, prefix).unwrap().1;
            eligible(n, pre_releases, bound) && from_some_tag(tags, prefix, n)
        }),
{
    let c = candidates(tags, pre_releases, bound, prefix);
    lemma_candidates_sound(tags, pre_releases, bound, prefix);
    lemma_latest_member(c);
    let n = latest_of(c)->0;
    let k = choose|k: int| 0 <= k < c.len() && c[k] == n;
    assert(eligible(c[k], pre_releases, bound));
}

/// Where no tag, once stripped of the prefix, parses as a version, no release is chosen.
pub proof fn no_version_no_release(
    tags: Seq<Seq<char>>,
    pre_releases: bool,
    bound: Option<VersionView>,
    prefix: Option<Seq<char>>,
)
    requires
        forall|i: int|
            0 <= i < tags.len() ==> match #[trigger] stripped(tags[i], prefix) {
                Some(n) => lenient_parse(n) is None,
                None => true,
            },
    ensures
        release_of(tags, pre_releases, bound, prefix) is None,
{
    let c = candidates(tags, pre_releases, bound, prefix);
    lemma_candidates_sound(tags, pre_releases, bound, prefix);
    lemma_latest_member(c);
    if c.len() > 0 {
        let n = c[0];
        assert(eligible(n, pre_releases, bound));
        let i = choose|i: int| 0 <= i < tags.len() && #[trigger] stripped(tags[i], prefix) == Some(n);
    }
}

/// With an upper bound, the chosen release is strictly below it.
pub proof fn release_below_bound(
    tags: Seq<Seq<char>>,
    pre_releases: bool,
    bound: VersionView,
    prefix: Option<Seq<char>>,
)
    requires
        release_of(tags, pre_releases, Some(bound), prefix) is Some,
    ensures
        ({
            let n = release_of(tags, pre_releases, Some(bound), prefix).unwrap().1;
            lenient_parse(n) is Some && version_lt(lenient_parse(n)->0, bound)
        }),
{
    lemma_chosen(tags, pre_releases, Some(bound), prefix);
}

/// Without pre-releases, the chosen release is no pre-release.
pub proof fn no_pre_release_unless_wanted(
    tags: Seq<Seq<char>>,
    bound: Option<VersionView>,
    prefix: Option<Seq<char>>,
)
    requires
        release_of(tags, false, bound, prefix) is Some,
    ensures
        ({
            let n = release_of(tags, false, bound, prefix).unwrap().1;
            lenient_parse(n) is Some && !is_pre(lenient_parse(n)->0)
        }),
{
    lemma_chosen(tags, false, bound, prefix);
}

proof fn lemma_candidate_present(
    tags: Seq<Seq<char>>,
    pre_releases: bool,
    bound: Option<VersionView>,
    prefix: Option<Seq<char>>,
    i: int,
    n: Seq<char>,
)
    requires
        0 <= i < tags.len(),
        stripped(tags[i], prefix) == Some(n),
        eligible(n, pre_releases, bound),
    ensures
        candidates(tags, pre_releases, bound, prefix).len() > 0,
    decreases tags.len(),
{
    if i < tags.len() - 1 {
        lemma_candidate_present(tags.drop_last(), pre_releases, bound, prefix, i, n);
    }
}

/// Allowing pre-releases can only widen the choice: where some tag, stripped of the prefix, is a
/// version below the bound, pre-release or not, a release is chosen once pre-releases are allowed.
pub proof fn pre_releases_widen_the_choice(
    tags: Seq<Seq<char>>,
    bound: Option<VersionView>,
    prefix: Option<Seq<char>>,
    i: int,
)
    requires
        0 <= i < tags.len(),
        stripped(tags[i], prefix) is Some,
        eligible(stripped(tags[i], prefix)->0, true, bound),
    ensures
        release_of(tags, true, bound, prefix) is Some,
{
    lemma_candidate_present(tags, true, bound, prefix, i, stripped(tags[i], prefix)->0);
    lemma_latest_member(candidates(tags, true, bound, prefix));
}

/// Allowing pre-releases never loses a release: where one is chosen without pre-releases, one is
/// chosen with them too.
pub proof fn pre_releases_keep_a_release(
    tags: Seq<Seq<char>>,
    bound: Option<VersionView>,
    prefix: Option<Seq<char>>,
)
    requires
        release_of(tags, false, bound, prefix) is Some,
    ensures
        release_of(tags, true, bound, prefix) is Some,
{
    lemma_chosen(tags, false, bound, prefix);
    let n = release_of(tags, false, bound, prefix).unwrap().1;
    let i = choose|i: int| 0 <= i < tags.len() && #[trigger] stripped(tags[i], prefix) == Some(n);
    pre_releases_widen_the_choice(tags, bound, prefix, i);
}

/// The chosen release comes from a tag that carries the prefix: the storage tag is that tag,
/// the prefix followed by the display name, and the display name is the tag without the prefix.
pub proof fn release_keeps_prefix(
    tags: Seq<Seq<char>>,
    pre_releases: bool,
    bound: Option<VersionView>,
    prefix: Option<Seq<char>>,
)
    requires
        release_of(tags, pre_releases, bound, prefix) is Some,
    ensures
        ({
            let (tag, name) = release_of(tags, pre_releases, bound, prefix)->0;
            &&& tag == storage_tag(name, prefix)
            &&& tags.contains(tag)
            &&& match prefix {
                Some(p) => has_prefix(tag, p) && tag.subrange(p.len() as int, tag.len() as int) == name,
                None => tag == name,
            }
        }),
{
    lemma_chosen(tags, pre_releases, bound, prefix);
    let (tag, name) = release_of(tags, pre_releases, bound, prefix)->0;
    let i = choose|i: int| 0 <= i < tags.len() && #[trigger] stripped(tags[i], prefix) == Some(name);
    if let Some(p) = prefix {
        let t = tags[i];
        assert(p + name =~= t);
    }
    assert(tags[i] == tag);
}

} // verus!
