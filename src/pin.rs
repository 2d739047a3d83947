//! Pins: track a branch, or the latest release, of a repository.
//!
//! Each pin resolves in two steps. `update` finds the newest version from a listing of the
//! remote; `fetch` says what is to be hashed for that version. Running `git`, HTTP requests and
//! hashing are left to the caller, which hands the listings in and carries the plans out.

use crate::release::{latest_release, lemma_chosen, release_of, LatestRelease};
use crate::remote::{
    entries_of, select_ref, tag_names, tag_names_of, RemoteError, RemoteInfo,
};
use crate::repository::{
    archive_url, clone_url, release_archive_url, Hosts, InvalidUrl, Repository,
};
use crate::revision::{is_revision, opt_view, pairs_view, GitRevision, InvalidRevision};
use crate::text::{has_prefix, join2, strip_prefix};
use crate::version::{lenient_parse, version_lt, SemVer, VersionView};
use vstd::prelude::*;

verus! {

/// A version that is a plain text: a release tag.
#[derive(Debug, Clone, PartialEq, Eq)]
pub struct GenericVersion {
    pub version: String,
}

/// What goes wrong while resolving a pin.
#[derive(Debug, Clone, PartialEq, Eq)]
pub enum PinError {
    Remote(RemoteError),
    Revision(InvalidRevision),
    Url(InvalidUrl),
    /// The upper bound does not parse as a version.
    InvalidUpperBound { text: String },
    /// No tag passes the filters.
    NoMatchingRelease,
    /// The newest release lies below the version that was pinned before.
    NotMonotonic { latest: String, current: String },
}

/// What to hash for a version.
#[derive(Debug, Clone, PartialEq, Eq)]
pub enum HashPlan {
    /// Download and hash this tarball.
    Tarball { url: String },
    /// Check out the repository at this revision and hash it.
    Checkout { url: String, revision: String, submodules: bool },
}

impl HashPlan {
    /// The tarball URL to record beside the hash, absent for a checkout.
    pub fn tarball_url(&self) -> (r: Option<String>)
        ensures
            match *self {
                HashPlan::Tarball { url } => r matches Some(u) && u@ == url@,
                HashPlan::Checkout { .. } => r is None,
            },
    {
        match self {
            HashPlan::Tarball { url } => Some(url.clone()),
            HashPlan::Checkout { .. } => None,
        }
    }
}

/// A plan as a value.
pub enum PlanView {
    Tarball(Seq<char>),
    Checkout(Seq<char>, Seq<char>, bool),
}

pub open spec fn plan_view(p: HashPlan) -> PlanView {
    match p {
        HashPlan::Tarball { url } => PlanView::Tarball(url@),
        HashPlan::Checkout { url, revision, submodules } => PlanView::Checkout(url@, revision@, submodules),
    }
}

/// The plan for a pin, given the clone URL and the tarball URL (each `None` where it cannot be
/// built; the tarball URL is `Some(None)` where the hoster offers none): a checkout with
/// submodules where they are wanted, else the tarball, else a checkout. `None` where a URL that
/// the plan needs cannot be built.
pub open spec fn expected_plan(
    submodules: bool,
    clone: Option<Seq<char>>,
    rev: Seq<char>,
    tarball: Option<Option<Seq<char>>>,
) -> Option<PlanView> {
    if submodules {
        match clone {
            Some(c) => Some(PlanView::Checkout(c, rev, true)),
            None => None,
        }
    } else {
        match tarball {
            None => None,
            Some(Some(t)) => Some(PlanView::Tarball(t)),
            Some(None) => match clone {
                Some(c) => Some(PlanView::Checkout(c, rev, false)),
                None => None,
            },
        }
    }
}

/// Entry `k` is the first entry of the listing for exactly the ref `name`.
pub open spec fn is_first_exact(listing: Seq<RemoteInfo>, name: Seq<char>, k: int) -> bool {
    &&& 0 <= k < listing.len()
    &&& listing[k].ref_@ == name
    &&& forall|j: int| 0 <= j < k ==> (#[trigger] listing[j]).ref_@ != name
}

/// A hash, and the tarball URL it was taken from; no URL where the repository was checked out.
#[derive(Debug, Clone, PartialEq, Eq)]
pub struct OptionalUrlHashes {
    pub url: Option<String>,
    pub hash: String,
}

/// The hash of a release, with the revision of its tag.
#[derive(Debug, Clone, PartialEq, Eq)]
pub struct ReleasePinHashes {
    pub revision: String,
    /// The URL of the tarball; absent where the repository was checked out.
    pub url: Option<String>,
    pub hash: String,
}

fn na_or(o: &Option<String>) -> (r: String)
    ensures
        r@ == match opt_view(*o) {
            Some(t) => t,
            None => "N/A"@,
        },
{
    match o {
        Some(t) => t.clone(),
        None => String::from_str("N/A"),
    }
}

pub open spec fn bool_text(b: bool) -> Seq<char> {
    if b { "true"@ } else { "false"@ }
}

fn bool_string(b: bool) -> (r: String)
    ensures
        r@ == bool_text(b),
{
    if b { String::from_str("true") } else { String::from_str("false") }
}

fn pair(label: &str, value: String) -> (r: (String, String))
    ensures
        r.0@ == label@,
        r.1 == value,
{
    (String::from_str(label), value)
}

impl OptionalUrlHashes {
    /// The fields for display: the URL (or `N/A`) and the hash.
    pub fn properties(&self) -> (r: Vec<(String, String)>)
        ensures
            pairs_view(r@) == seq![
                ("url"@, match opt_view(self.url) { Some(u) => u, None => "N/A"@ }),
                ("hash"@, self.hash@),
            ],
    {
        let mut v: Vec<(String, String)> = Vec::new();
        v.push(pair("url", na_or(&self.url)));
        v.push(pair("hash", self.hash.clone()));
        assert(pairs_view(v@) =~= seq![
            ("url"@, match opt_view(self.url) { Some(u) => u, None => "N/A"@ }),
            ("hash"@, self.hash@),
        ]);
        v
    }
}

impl ReleasePinHashes {
    /// The fields for display: the revision and the hash.
    pub fn properties(&self) -> (r: Vec<(String, String)>)
        ensures
            pairs_view(r@) == seq![("revision"@, self.revision@), ("hash"@, self.hash@)],
    {
        let mut v: Vec<(String, String)> = Vec::new();
        v.push(pair("revision", self.revision.clone()));
        v.push(pair("hash", self.hash.clone()));
        assert(pairs_view(v@) =~= seq![("revision"@, self.revision@), ("hash"@, self.hash@)]);
        v
    }
}

/// The repository without any access token, for display.
pub open spec fn without_token(r: Repository) -> Repository {
    match r {
        Repository::GitLab { repo_path, server, .. } => Repository::GitLab {
            repo_path,
            server,
            private_token: None,
        },
        _ => r,
    }
}

pub open spec fn without_env_token(h: Hosts) -> Hosts {
    Hosts { gitlab_token: None, ..h }
}

/// The URL of a repository as shown to the user: no token put in.
fn shown_url(repository: &Repository, hosts: &Hosts) -> (r: Result<String, InvalidUrl>)
    ensures
        match r {
            Ok(u) => clone_url(without_token(*repository), without_env_token(*hosts)) == Some(u@),
            Err(_) => clone_url(without_token(*repository), without_env_token(*hosts)) is None,
        },
{
    let bare = match repository {
        Repository::GitLab { repo_path, server, .. } => Repository::GitLab {
            repo_path: repo_path.clone(),
            server: server.clone(),
            private_token: None,
        },
        Repository::Git { url } => Repository::Git { url: url.clone() },
        Repository::GitHub { owner, repo } => Repository::GitHub { owner: owner.clone(), repo: repo.clone() },
        Repository::Forgejo { server, owner, repo } => Repository::Forgejo {
            server: server.clone(),
            owner: owner.clone(),
            repo: repo.clone(),
        },
    };
    let h = Hosts { github: hosts.github.clone(), github_api: hosts.github_api.clone(), gitlab_token: None };
    assert(bare == without_token(*repository));
    bare.git_url(&h)
}

/// Tracks a branch of a repository, always at its latest commit.
#[derive(Debug, Clone, PartialEq, Eq, Hash)]
pub struct GitPin {
    pub repository: Repository,
    pub branch: String,
    /// Also fetch submodules
    pub submodules: bool,
}

impl GitPin {
    pub fn new(repository: Repository, branch: String, submodules: bool) -> (r: GitPin)
        ensures
            r.repository == repository,
            r.branch == branch,
            r.submodules == submodules,
    {
        GitPin { repository, branch, submodules }
    }

    /// The ref of the tracked branch.
    pub fn branch_ref(&self) -> (r: String)
        ensures
            r@ == "refs/heads/"@ + self.branch@,
    {
        join2("refs/heads/", self.branch.as_str())
    }

    /// The new version from a listing made for [`Self::branch_ref`]: the revision of exactly that
    /// ref. The timestamp is added by the caller where the hoster offers one.
    pub fn update_from_listing(&self, listing: &Vec<RemoteInfo>) -> (r: Result<GitRevision, PinError>)
        ensures
            match r {
                Ok(g) => exists|k: int|
                    #[trigger] is_first_exact(listing@, "refs/heads/"@ + self.branch@, k)
                        && g.spec_revision() == listing@[k].revision@ && g.spec_timestamp() is None
                        && g.wf(),
                Err(PinError::Remote(RemoteError::RefNotFound { .. })) => listing@.len() == 0,
                Err(PinError::Remote(RemoteError::NoExactRef { .. })) => forall|j: int|
                    0 <= j < listing@.len() ==> (#[trigger] listing@[j]).ref_@ != "refs/heads/"@ + self.branch@,
                Err(PinError::Revision(e)) => exists|k: int|
                    #[trigger] is_first_exact(listing@, "refs/heads/"@ + self.branch@, k)
                        && !is_revision(listing@[k].revision@) && e.text@ == listing@[k].revision@,
                Err(_) => false,
            },
    {
        let name = self.branch_ref();
        let found = select_ref(listing, name.as_str());
        proof {
            if let Ok(x) = &found {
                let k = choose|k: int|
                    0 <= k < listing@.len() && listing@[k]@ == x@ && x.ref_@ == name@ && forall|j: int|
                        0 <= j < k ==> (#[trigger] listing@[j]).ref_@ != name@;
                assert(is_first_exact(listing@, name@, k));
            }
        }
        match found {
            Ok(info) => match GitRevision::new(info.revision) {
                Ok(g) => Ok(g),
                Err(e) => Err(PinError::Revision(e)),
            },
            Err(e) => Err(PinError::Remote(e)),
        }
    }

    /// What to hash for a revision: a checkout with submodules where they are wanted, else the
    /// hoster's tarball, else a checkout. The clone URL is built only for a checkout.
    pub fn fetch_plan(&self, hosts: &Hosts, version: &GitRevision) -> (r: Result<HashPlan, InvalidUrl>)
        ensures
            match r {
                Ok(plan) => expected_plan(
                    self.submodules,
                    clone_url(self.repository, *hosts),
                    version.spec_revision(),
                    archive_url(self.repository, *hosts, version.spec_revision()),
                ) == Some(plan_view(plan)),
                Err(_) => expected_plan(
                    self.submodules,
                    clone_url(self.repository, *hosts),
                    version.spec_revision(),
                    archive_url(self.repository, *hosts, version.spec_revision()),
                ) is None,
            },
    {
        let rev = String::from_str(version.revision());
        if self.submodules {
            let repo_url = self.repository.git_url(hosts)?;
            return Ok(HashPlan::Checkout { url: repo_url, revision: rev, submodules: true });
        }
        match self.repository.url(hosts, version.revision()) {
            Ok(Some(u)) => Ok(HashPlan::Tarball { url: u }),
            Ok(None) => {
                let repo_url = self.repository.git_url(hosts)?;
                Ok(HashPlan::Checkout { url: repo_url, revision: rev, submodules: false })
            },
            Err(e) => Err(e),
        }
    }

    /// The fields for display: repository URL (without any token), branch, submodules.
    pub fn properties(&self, hosts: &Hosts) -> (r: Result<Vec<(String, String)>, InvalidUrl>)
        ensures
            match r {
                Ok(v) => clone_url(without_token(self.repository), without_env_token(*hosts)) matches Some(u)
                    && pairs_view(v@) == seq![
                    ("repository"@, u),
                    ("branch"@, self.branch@),
                    ("submodules"@, bool_text(self.submodules)),
                ],
                Err(_) => clone_url(without_token(self.repository), without_env_token(*hosts)) is None,
            },
    {
        let u = shown_url(&self.repository, hosts)?;
        let ghost uv = u@;
        let mut v: Vec<(String, String)> = Vec::new();
        v.push(pair("repository", u));
        v.push(pair("branch", self.branch.clone()));
        v.push(pair("submodules", bool_string(self.submodules)));
        assert(pairs_view(v@) =~= seq![
            ("repository"@, uv),
            ("branch"@, self.branch@),
            ("submodules"@, bool_text(self.submodules)),
        ]);
        Ok(v)
    }
}

/// Follows the latest release of a repository.
#[derive(Debug, Clone, PartialEq, Eq, Hash)]
pub struct GitReleasePin {
    pub repository: Repository,
    /// Also track pre-releases.
    pub pre_releases: bool,
    /// Only pin releases strictly below this version (an exclusive bound), parsed as leniently as
    /// the tags themselves. Set it to 2.0 to track the 1.* releases.
    pub version_upper_bound: Option<String>,
    /// Only consider tags with this prefix, and compare them with the prefix taken off; for tags
    /// such as `release/2.0`.
    pub release_prefix: Option<String>,
    /// Also fetch submodules
    pub submodules: bool,
}

/// The parsed upper bound: `None` where it does not parse, `Some(None)` where there is none.
pub open spec fn bound_of(pin: GitReleasePin) -> Option<Option<VersionView>> {
    match pin.version_upper_bound {
        None => Some(None),
        Some(t) => match lenient_parse(t@) {
            Some(v) => Some(Some(v)),
            None => None,
        },
    }
}

/// The previous version with the prefix taken off; one without the prefix stays as it is.
pub open spec fn normalized_old(old: Seq<char>, prefix: Option<Seq<char>>) -> Seq<char> {
    match prefix {
        Some(p) => if has_prefix(old, p) {
            old.subrange(p.len() as int, old.len() as int)
        } else {
            old
        },
        None => old,
    }
}

/// How an update of a release pin fails.
pub enum UpdateFault {
    InvalidUpperBound,
    NoMatchingRelease,
    NotMonotonic,
}

/// The outcome of updating a release pin, given the tag names of the repository and the
/// previous version: the storage tag of the chosen release. Where the previous version parses,
/// the new one must not lie below it; where it does not, that is not checked.
pub open spec fn release_update(pin: GitReleasePin, tags: Seq<Seq<char>>, old: Option<Seq<char>>) -> Result<
    Seq<char>,
    UpdateFault,
> {
    let prefix = opt_view(pin.release_prefix);
    match bound_of(pin) {
        None => Err(UpdateFault::InvalidUpperBound),
        Some(b) => match release_of(tags, pin.pre_releases, b, prefix) {
            None => Err(UpdateFault::NoMatchingRelease),
            Some((tag, name)) => match old {
                None => Ok(tag),
                Some(o) => match lenient_parse(normalized_old(o, prefix)) {
                    None => Ok(tag),
                    Some(ov) => if version_lt(lenient_parse(name)->0, ov) {
                        Err(UpdateFault::NotMonotonic)
                    } else {
                        Ok(tag)
                    },
                },
            },
        },
    }
}

pub open spec fn update_fault_of(e: PinError) -> Option<UpdateFault> {
    match e {
        PinError::InvalidUpperBound { .. } => Some(UpdateFault::InvalidUpperBound),
        PinError::NoMatchingRelease => Some(UpdateFault::NoMatchingRelease),
        PinError::NotMonotonic { .. } => Some(UpdateFault::NotMonotonic),
        _ => None,
    }
}

pub open spec fn old_view(old: Option<&GenericVersion>) -> Option<Seq<char>> {
    match old {
        Some(g) => Some(g.version@),
        None => None,
    }
}

fn as_text(o: &Option<String>) -> (r: Option<&str>)
    ensures
        match r {
            Some(t) => opt_view(*o) == Some(t@),
            None => o is None,
        },
{
    match o {
        Some(t) => Some(t.as_str()),
        None => None,
    }
}

impl GitReleasePin {
    pub fn new(
        repository: Repository,
        pre_releases: bool,
        version_upper_bound: Option<String>,
        release_prefix: Option<String>,
        submodules: bool,
    ) -> (r: GitReleasePin)
        ensures
            r.repository == repository,
            r.pre_releases == pre_releases,
            r.version_upper_bound == version_upper_bound,
            r.release_prefix == release_prefix,
            r.submodules == submodules,
    {
        GitReleasePin { repository, pre_releases, version_upper_bound, release_prefix, submodules }
    }

    /// The upper bound, parsed; an error where it does not parse.
    pub fn upper_bound(&self) -> (r: Result<Option<SemVer>, PinError>)
        ensures
            match r {
                Ok(Some(v)) => bound_of(*self) == Some(Some(v@)),
                Ok(None) => bound_of(*self) == Some(None::<VersionView>),
                Err(e) => bound_of(*self) is None && (e matches PinError::InvalidUpperBound { text }
                    && opt_view(self.version_upper_bound) == Some(text@)),
            },
    {
        match &self.version_upper_bound {
            None => Ok(None),
            Some(t) => match SemVer::parse(t.as_str()) {
                Some(v) => Ok(Some(v)),
                None => Err(PinError::InvalidUpperBound { text: t.clone() }),
            },
        }
    }

    /// The previous version with the release prefix taken off, where it has it.
    fn normalize_old(&self, old: &GenericVersion) -> (r: String)
        ensures
            r@ == normalized_old(old.version@, opt_view(self.release_prefix)),
    {
        match &self.release_prefix {
            None => old.version.clone(),
            Some(p) => match strip_prefix(old.version.as_str(), p.as_str()) {
                Some(s) => {
                    proof {
                        let o = old.version@;
                        assert(o.subrange(p@.len() as int, o.len() as int) =~= s@);
                    }
                    s
                },
                None => old.version.clone(),
            },
        }
    }

    /// Whether the previous version cannot be parsed, so that the new one is not checked
    /// against it.
    pub fn unchecked_monotonicity(&self, old: Option<&GenericVersion>) -> (r: bool)
        ensures
            r == (old_view(old) matches Some(o) && lenient_parse(
                normalized_old(o, opt_view(self.release_prefix)),
            ) is None),
    {
        match old {
            None => false,
            Some(o) => {
                let n = self.normalize_old(o);
                SemVer::parse(n.as_str()).is_none()
            },
        }
    }

    /// The new version from a tag listing (`refs/tags/*`) and the previous version.
    pub fn update_from_tags(&self, listing: &Vec<RemoteInfo>, old: Option<&GenericVersion>) -> (r: Result<
        GenericVersion,
        PinError,
    >)
        ensures
            match r {
                Ok(v) => release_update(*self, tag_names_of(entries_of(listing@)), old_view(old))
                    == Ok::<_, UpdateFault>(v.version@),
                Err(e) => update_fault_of(e) is Some && release_update(
                    *self,
                    tag_names_of(entries_of(listing@)),
                    old_view(old),
                ) == Err::<Seq<char>, _>(update_fault_of(e)->0),
            },
    {
        let bound = self.upper_bound()?;
        let names = tag_names(listing);
        let prefix = as_text(&self.release_prefix);
        let bound_ref = match &bound {
            Some(b) => Some(b),
            None => None,
        };
        let ghost tags = tag_names_of(entries_of(listing@));
        let ghost b = match &bound { Some(v) => Some(v@), None => None::<VersionView> };
        let latest = latest_release(&names, self.pre_releases, bound_ref, prefix);
        let rel: LatestRelease = match latest {
            None => return Err(PinError::NoMatchingRelease),
            Some(rel) => rel,
        };
        proof {
            lemma_chosen(tags, self.pre_releases, b, opt_view(self.release_prefix));
        }
        if let Some(o) = old {
            let current = self.normalize_old(o);
            if let Some(ov) = SemVer::parse(current.as_str()) {
                match SemVer::parse(rel.name.as_str()) {
                    Some(nv) => {
                        if nv.less_than(&ov) {
                            return Err(PinError::NotMonotonic { latest: rel.name, current });
                        }
                    },
                    None => return Err(PinError::NoMatchingRelease),
                }
            }
        }
        Ok(GenericVersion { version: rel.tag })
    }

    /// The ref of a release tag.
    pub fn tag_ref(version: &GenericVersion) -> (r: String)
        ensures
            r@ == "refs/tags/"@ + version.version@,
    {
        join2("refs/tags/", version.version.as_str())
    }

    /// What to hash for a release, from a listing made for [`Self::tag_ref`]: the revision of the
    /// first entry for exactly that tag, and a checkout with submodules where they are wanted, else
    /// the hoster's release tarball, else a checkout. The clone URL is built only for a checkout.
    pub fn fetch_plan(&self, hosts: &Hosts, version: &GenericVersion, listing: &Vec<RemoteInfo>) -> (r:
        Result<(String, HashPlan), PinError>)
        ensures
            match r {
                Ok((rev, plan)) => (exists|k: int|
                    #[trigger] is_first_exact(listing@, "refs/tags/"@ + version.version@, k)
                        && rev@ == listing@[k].revision@) && expected_plan(
                    self.submodules,
                    clone_url(self.repository, *hosts),
                    rev@,
                    release_archive_url(self.repository, *hosts, version.version@),
                ) == Some(plan_view(plan)),
                Err(PinError::Url(_)) => exists|k: int|
                    #[trigger] is_first_exact(listing@, "refs/tags/"@ + version.version@, k)
                        && expected_plan(
                        self.submodules,
                        clone_url(self.repository, *hosts),
                        listing@[k].revision@,
                        release_archive_url(self.repository, *hosts, version.version@),
                    ) is None,
                Err(PinError::Remote(RemoteError::RefNotFound { .. })) => listing@.len() == 0,
                Err(PinError::Remote(RemoteError::NoExactRef { .. })) => forall|j: int|
                    0 <= j < listing@.len() ==> (#[trigger] listing@[j]).ref_@ != "refs/tags/"@ + version.version@,
                Err(_) => false,
            },
    {
        let name = Self::tag_ref(version);
        let info = match select_ref(listing, name.as_str()) {
            Ok(i) => i,
            Err(e) => return Err(PinError::Remote(e)),
        };
        let ghost k = choose|k: int|
            0 <= k < listing@.len() && listing@[k]@ == info@ && info.ref_@ == name@ && forall|j: int|
                0 <= j < k ==> (#[trigger] listing@[j]).ref_@ != name@;
        assert(is_first_exact(listing@, name@, k));
        let rev = info.revision;
        if self.submodules {
            let repo_url = match self.repository.git_url(hosts) {
                Ok(u) => u,
                Err(e) => return Err(PinError::Url(e)),
            };
            let plan = HashPlan::Checkout { url: repo_url, revision: rev.clone(), submodules: true };
            return Ok((rev, plan));
        }
        match self.repository.release_url(hosts, version.version.as_str()) {
            Ok(Some(u)) => Ok((rev, HashPlan::Tarball { url: u })),
            Ok(None) => {
                let repo_url = match self.repository.git_url(hosts) {
                    Ok(u) => u,
                    Err(e) => return Err(PinError::Url(e)),
                };
                let plan = HashPlan::Checkout { url: repo_url, revision: rev.clone(), submodules: false };
                Ok((rev, plan))
            },
            Err(e) => Err(PinError::Url(e)),
        }
    }

    /// The fields for display: repository URL (without any token), pre_releases, the upper
    /// bound and the prefix (or `N/A`), submodules.
    pub fn properties(&self, hosts: &Hosts) -> (r: Result<Vec<(String, String)>, InvalidUrl>)
        ensures
            match r {
                Ok(v) => clone_url(without_token(self.repository), without_env_token(*hosts)) matches Some(u)
                    && pairs_view(v@) == seq![
                    ("repository"@, u),
                    ("pre_releases"@, bool_text(self.pre_releases)),
                    ("version_upper_bound"@, match opt_view(self.version_upper_bound) { Some(t) => t, None => "N/A"@ }),
                    ("release_prefix"@, match opt_view(self.release_prefix) { Some(t) => t, None => "N/A"@ }),
                    ("submodules"@, bool_text(self.submodules)),
                ],
                Err(_) => clone_url(without_token(self.repository), without_env_token(*hosts)) is None,
            },
    {
        let u = shown_url(&self.repository, hosts)?;
        let ghost uv = u@;
        let mut v: Vec<(String, String)> = Vec::new();
        v.push(pair("repository", u));
        v.push(pair("pre_releases", bool_string(self.pre_releases)));
        v.push(pair("version_upper_bound", na_or(&self.version_upper_bound)));
        v.push(pair("release_prefix", na_or(&self.release_prefix)));
        v.push(pair("submodules", bool_string(self.submodules)));
        assert(pairs_view(v@) =~= seq![
            ("repository"@, uv),
            ("pre_releases"@, bool_text(self.pre_releases)),
            ("version_upper_bound"@, match opt_view(self.version_upper_bound) { Some(t) => t, None => "N/A"@ }),
            ("release_prefix"@, match opt_view(self.release_prefix) { Some(t) => t, None => "N/A"@ }),
            ("submodules"@, bool_text(self.submodules)),
        ]);
        Ok(v)
    }
}

/// Monotonicity of release updates: where the previous version parses, the update fails exactly
/// when the newest release lies below it; where it does not parse, the update succeeds.
pub proof fn update_is_monotonic(pin: GitReleasePin, tags: Seq<Seq<char>>, old: Seq<char>)
    requires
        bound_of(pin) is Some,
        release_of(tags, pin.pre_releases, bound_of(pin)->0, opt_view(pin.release_prefix)) is Some,
    ensures
        ({
            let name = release_of(tags, pin.pre_releases, bound_of(pin)->0, opt_view(pin.release_prefix)).unwrap().1;
            let outcome = release_update(pin, tags, Some(old));
            &&& lenient_parse(name) is Some
            &&& match lenient_parse(normalized_old(old, opt_view(pin.release_prefix))) {
                Some(ov) => (outcome is Err) == version_lt(lenient_parse(name)->0, ov),
                None => outcome is Ok,
            }
        }),
{
    lemma_chosen(tags, pin.pre_releases, bound_of(pin)->0, opt_view(pin.release_prefix));
}

} // verus!
