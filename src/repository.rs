//! Repository hosters and the URLs they offer.

use crate::urls::{
    joined_url, parse_url, parsed_url, push_segments, set_password, set_query, set_username,
    url_with_password, url_with_query, url_with_segments, url_with_username, join_url,
};
use crate::text::texts;
use vstd::prelude::*;

verus! {

/// Where a repository is hosted. URLs are held as their serialization.
///
/// Plain git repositories have limited support: they offer no tarball URLs.
#[derive(Debug, Clone, PartialEq, Eq, Hash)]
pub enum Repository {
    Git {
        /// URL of the git repository
        url: String,
    },
    Forgejo {
        server: String,
        owner: String,
        repo: String,
    },
    GitHub {
        owner: String,
        repo: String,
    },
    GitLab {
        /// usually "owner/repo" or "group/owner/repo" (without leading or trailing slashes)
        repo_path: String,
        /// Of the kind <https://gitlab.example.org/>
        server: String,
        /// access token for private repositories
        private_token: Option<String>,
    },
}

/// The kind of hoster, to name in errors.
#[derive(Debug, Clone, Copy, PartialEq, Eq)]
pub enum HostKind {
    Git,
    Forgejo,
    GitHub,
    GitLab,
}

/// A URL that could not be built for a repository of the given kind.
#[derive(Debug, Clone, PartialEq, Eq)]
pub struct InvalidUrl {
    pub host: HostKind,
}

/// Settings that come from the environment: the GitHub web and API hosts, and a GitLab access
/// token to use where a repository has none of its own.
#[derive(Debug, Clone, PartialEq, Eq)]
pub struct Hosts {
    pub github: String,
    pub github_api: String,
    pub gitlab_token: Option<String>,
}

impl Hosts {
    /// The public GitHub hosts and no GitLab token.
    pub fn standard() -> (r: Hosts)
        ensures
            r.github@ == "https://github.com"@,
            r.github_api@ == "https://api.github.com"@,
            r.gitlab_token is None,
    {
        Hosts {
            github: String::from_str("https://github.com"),
            github_api: String::from_str("https://api.github.com"),
            gitlab_token: None,
        }
    }
}

pub open spec fn kind_of(r: Repository) -> HostKind {
    match r {
        Repository::Git { .. } => HostKind::Git,
        Repository::Forgejo { .. } => HostKind::Forgejo,
        Repository::GitHub { .. } => HostKind::GitHub,
        Repository::GitLab { .. } => HostKind::GitLab,
    }
}

/// A URL after a change that may be refused; a refused change leaves it as it was.
pub open spec fn or_same(changed: Option<Seq<char>>, u: Seq<char>) -> Seq<char> {
    match changed {
        Some(x) => x,
        None => u,
    }
}

/// The GitLab server URL with the token as `oauth2` login.
pub open spec fn with_login(server: Seq<char>, token: Seq<char>) -> Seq<char> {
    let named = or_same(url_with_username(server, "oauth2"@), server);
    or_same(url_with_password(named, token), named)
}

/// The URL to clone from.
pub open spec fn clone_url(r: Repository, h: Hosts) -> Option<Seq<char>> {
    match r {
        Repository::Git { url } => Some(url@),
        Repository::GitHub { owner, repo } => parsed_url(
            h.github@ + "/"@ + owner@ + "/"@ + repo@ + ".git"@,
        ),
        Repository::Forgejo { server, owner, repo } => parsed_url(
            server@ + owner@ + "/"@ + repo@ + ".git"@,
        ),
        Repository::GitLab { repo_path, server, private_token } => {
            let base = match private_token {
                Some(t) => with_login(server@, t@),
                None => match h.gitlab_token {
                    Some(t) => with_login(server@, t@),
                    None => server@,
                },
            };
            joined_url(base, repo_path@ + ".git"@)
        },
    }
}

/// The segments of GitLab's archive endpoint.
pub open spec fn gitlab_archive_segments(repo_path: Seq<char>) -> Seq<Seq<char>> {
    seq!["api"@, "v4"@, "projects"@, repo_path, "repository"@, "archive.tar.gz"@]
}

/// GitLab's archive URL for a revision or tag, with the token as query parameter if any.
pub open spec fn gitlab_archive(
    server: Seq<char>,
    repo_path: Seq<char>,
    token: Option<String>,
    sha: Seq<char>,
) -> Option<Seq<char>> {
    match url_with_segments(server, gitlab_archive_segments(repo_path)) {
        None => None,
        Some(u) => url_with_query(
            u,
            match token {
                Some(t) => "sha="@ + sha + "&private_token="@ + t@,
                None => "sha="@ + sha,
            },
        ),
    }
}

/// The tarball URL of a revision: `Some(None)` where the hoster offers none, `None` where the
/// URL cannot be built.
pub open spec fn archive_url(r: Repository, h: Hosts, rev: Seq<char>) -> Option<Option<Seq<char>>> {
    match r {
        Repository::Git { .. } => Some(None),
        Repository::GitHub { owner, repo } => match parsed_url(
            h.github@ + "/"@ + owner@ + "/"@ + repo@ + "/archive/"@ + rev + ".tar.gz"@,
        ) {
            Some(u) => Some(Some(u)),
            None => None,
        },
        Repository::Forgejo { server, owner, repo } => match parsed_url(
            server@ + owner@ + "/"@ + repo@ + "/archive/"@ + rev + ".tar.gz"@,
        ) {
            Some(u) => Some(Some(u)),
            None => None,
        },
        Repository::GitLab { repo_path, server, private_token } => match gitlab_archive(
            server@,
            repo_path@,
            private_token,
            rev,
        ) {
            Some(u) => Some(Some(u)),
            None => None,
        },
    }
}

/// The tarball URL of a release tag, in the shape of [`archive_url`].
pub open spec fn release_archive_url(r: Repository, h: Hosts, tag: Seq<char>) -> Option<Option<Seq<char>>> {
    match r {
        Repository::Git { .. } => Some(None),
        Repository::GitHub { owner, repo } => match parsed_url(
            h.github_api@ + "/repos/"@ + owner@ + "/"@ + repo@ + "/tarball/refs/tags/"@ + tag,
        ) {
            Some(u) => Some(Some(u)),
            None => None,
        },
        Repository::Forgejo { server, owner, repo } => match parsed_url(
            server@ + "api/v1/repos/"@ + owner@ + "/"@ + repo@ + "/archive/"@ + tag + ".tar.gz"@,
        ) {
            Some(u) => Some(Some(u)),
            None => None,
        },
        Repository::GitLab { repo_path, server, private_token } => match gitlab_archive(
            server@,
            repo_path@,
            private_token,
            tag,
        ) {
            Some(u) => Some(Some(u)),
            None => None,
        },
    }
}

/// The API URL with the metadata of a commit; only GitHub offers one.
pub open spec fn commit_api_url(r: Repository, h: Hosts, rev: Seq<char>) -> Option<Option<Seq<char>>> {
    match r {
        Repository::GitHub { owner, repo } => match parsed_url(
            h.github_api@ + "/repos/"@ + owner@ + "/"@ + repo@ + "/commits/"@ + rev,
        ) {
            Some(u) => Some(Some(u)),
            None => None,
        },
        _ => Some(None),
    }
}

pub open spec fn url_result_matches(r: Result<String, InvalidUrl>, s: Option<Seq<char>>, k: HostKind) -> bool {
    match r {
        Ok(u) => s == Some(u@),
        Err(e) => s is None && e.host == k,
    }
}

pub open spec fn opt_url_result_matches(
    r: Result<Option<String>, InvalidUrl>,
    s: Option<Option<Seq<char>>>,
    k: HostKind,
) -> bool {
    match r {
        Ok(Some(u)) => s == Some(Some(u@)),
        Ok(None) => s == Some(None::<Seq<char>>),
        Err(e) => s is None && e.host == k,
    }
}

fn login_url(server: &str, token: &str) -> (r: String)
    ensures
        r@ == with_login(server@, token@),
{
    let named = match set_username(server, "oauth2") {
        Some(x) => x,
        None => String::from_str(server),
    };
    match set_password(named.as_str(), token) {
        Some(x) => x,
        None => named,
    }
}

fn gitlab_archive_url(server: &str, repo_path: &str, token: &Option<String>, sha: &str) -> (r: Option<String>)
    ensures
        match r {
            Some(u) => gitlab_archive(server@, repo_path@, *token, sha@) == Some(u@),
            None => gitlab_archive(server@, repo_path@, *token, sha@) is None,
        },
{
    let mut segments: Vec<String> = Vec::new();
    segments.push(String::from_str("api"));
    segments.push(String::from_str("v4"));
    segments.push(String::from_str("projects"));
    segments.push(String::from_str(repo_path));
    segments.push(String::from_str("repository"));
    segments.push(String::from_str("archive.tar.gz"));
    assert(texts(segments@) =~= gitlab_archive_segments(repo_path@));
    let u = push_segments(server, &segments)?;
    let mut query = String::from_str("sha=");
    query.append(sha);
    if let Some(t) = token {
        query.append("&private_token=");
        query.append(t.as_str());
    }
    set_query(u.as_str(), query.as_str())
}

fn wrap_url(u: Option<String>, host: HostKind) -> (r: Result<Option<String>, InvalidUrl>)
    ensures
        match u {
            Some(x) => r == Ok::<Option<String>, InvalidUrl>(Some(x)),
            None => r == Err::<Option<String>, InvalidUrl>(InvalidUrl { host }),
        },
{
    match u {
        Some(x) => Ok(Some(x)),
        None => Err(InvalidUrl { host }),
    }
}

impl Repository {
    /// A plain git repository; the URL must parse.
    pub fn git(url: &str) -> (r: Option<Repository>)
        ensures
            match r {
                Some(Repository::Git { url: u }) => parsed_url(url@) == Some(u@),
                Some(_) => false,
                None => parsed_url(url@) is None,
            },
    {
        let u = parse_url(url)?;
        Some(Repository::Git { url: u })
    }

    pub fn github(owner: &str, repo: &str) -> (r: Repository)
        ensures
            match r {
                Repository::GitHub { owner: o, repo: p } => o@ == owner@ && p@ == repo@,
                _ => false,
            },
    {
        Repository::GitHub { owner: String::from_str(owner), repo: String::from_str(repo) }
    }

    /// A Forgejo repository; the server URL must parse.
    pub fn forgejo(server: &str, owner: &str, repo: &str) -> (r: Option<Repository>)
        ensures
            match r {
                Some(Repository::Forgejo { server: s, owner: o, repo: p }) => parsed_url(server@)
                    == Some(s@) && o@ == owner@ && p@ == repo@,
                Some(_) => false,
                None => parsed_url(server@) is None,
            },
    {
        let s = parse_url(server)?;
        Some(Repository::Forgejo { server: s, owner: String::from_str(owner), repo: String::from_str(repo) })
    }

    /// A GitLab repository, on `https://gitlab.com/` unless another server is given; the server
    /// URL must parse.
    pub fn gitlab(repo_path: String, server: Option<&str>, private_token: Option<String>) -> (r: Option<Repository>)
        ensures
            match r {
                Some(Repository::GitLab { repo_path: p, server: s, private_token: t }) => p == repo_path
                    && t == private_token && parsed_url(
                    match server {
                        Some(x) => x@,
                        None => "https://gitlab.com/"@,
                    },
                ) == Some(s@),
                Some(_) => false,
                None => parsed_url(
                    match server {
                        Some(x) => x@,
                        None => "https://gitlab.com/"@,
                    },
                ) is None,
            },
    {
        let s = match server {
            Some(x) => parse_url(x),
            None => parse_url("https://gitlab.com/"),
        }?;
        Some(Repository::GitLab { repo_path, server: s, private_token })
    }

    pub fn kind(&self) -> (r: HostKind)
        ensures
            r == kind_of(*self),
    {
        match self {
            Repository::Git { .. } => HostKind::Git,
            Repository::Forgejo { .. } => HostKind::Forgejo,
            Repository::GitHub { .. } => HostKind::GitHub,
            Repository::GitLab { .. } => HostKind::GitLab,
        }
    }

    /// The URL of the repository, to clone or list refs from. For GitLab, the repository's token,
    /// or else the one from the environment, is put in as login.
    pub fn git_url(&self, hosts: &Hosts) -> (r: Result<String, InvalidUrl>)
        ensures
            url_result_matches(r, clone_url(*self, *hosts), kind_of(*self)),
    {
        let u = match self {
            Repository::Git { url } => Some(url.clone()),
            Repository::GitHub { owner, repo } => {
                let mut s = String::from_str(hosts.github.as_str());
                s.append("/");
                s.append(owner.as_str());
                s.append("/");
                s.append(repo.as_str());
                s.append(".git");
                parse_url(s.as_str())
            },
            Repository::Forgejo { server, owner, repo } => {
                let mut s = String::from_str(server.as_str());
                s.append(owner.as_str());
                s.append("/");
                s.append(repo.as_str());
                s.append(".git");
                parse_url(s.as_str())
            },
            Repository::GitLab { repo_path, server, private_token } => {
                let token = match private_token {
                    Some(t) => Some(t),
                    None => hosts.gitlab_token.as_ref(),
                };
                let base = match token {
                    Some(t) => login_url(server.as_str(), t.as_str()),
                    None => server.clone(),
                };
                let mut rel = String::from_str(repo_path.as_str());
                rel.append(".git");
                join_url(base.as_str(), rel.as_str())
            },
        };
        match u {
            Some(x) => Ok(x),
            None => Err(InvalidUrl { host: self.kind() }),
        }
    }

    /// The URL of a tarball of the given revision, or `None` where the hoster offers none.
    pub fn url(&self, hosts: &Hosts, revision: &str) -> (r: Result<Option<String>, InvalidUrl>)
        ensures
            opt_url_result_matches(r, archive_url(*self, *hosts, revision@), kind_of(*self)),
    {
        match self {
            Repository::Git { .. } => Ok(None),
            Repository::GitHub { owner, repo } => {
                let mut s = String::from_str(hosts.github.as_str());
                s.append("/");
                s.append(owner.as_str());
                s.append("/");
                s.append(repo.as_str());
                s.append("/archive/");
                s.append(revision);
                s.append(".tar.gz");
                wrap_url(parse_url(s.as_str()), HostKind::GitHub)
            },
            Repository::Forgejo { server, owner, repo } => {
                let mut s = String::from_str(server.as_str());
                s.append(owner.as_str());
                s.append("/");
                s.append(repo.as_str());
                s.append("/archive/");
                s.append(revision);
                s.append(".tar.gz");
                wrap_url(parse_url(s.as_str()), HostKind::Forgejo)
            },
            Repository::GitLab { repo_path, server, private_token } => wrap_url(
                gitlab_archive_url(server.as_str(), repo_path.as_str(), private_token, revision),
                HostKind::GitLab,
            ),
        }
    }

    /// The URL of a tarball of the given release tag, or `None` where the hoster offers none.
    pub fn release_url(&self, hosts: &Hosts, tag: &str) -> (r: Result<Option<String>, InvalidUrl>)
        ensures
            opt_url_result_matches(r, release_archive_url(*self, *hosts, tag@), kind_of(*self)),
    {
        match self {
            Repository::Git { .. } => Ok(None),
            Repository::GitHub { owner, repo } => {
                let mut s = String::from_str(hosts.github_api.as_str());
                s.append("/repos/");
                s.append(owner.as_str());
                s.append("/");
                s.append(repo.as_str());
                s.append("/tarball/refs/tags/");
                s.append(tag);
                wrap_url(parse_url(s.as_str()), HostKind::GitHub)
            },
            Repository::Forgejo { server, owner, repo } => {
                let mut s = String::from_str(server.as_str());
                s.append("api/v1/repos/");
                s.append(owner.as_str());
                s.append("/");
                s.append(repo.as_str());
                s.append("/archive/");
                s.append(tag);
                s.append(".tar.gz");
                wrap_url(parse_url(s.as_str()), HostKind::Forgejo)
            },
            Repository::GitLab { repo_path, server, private_token } => wrap_url(
                gitlab_archive_url(server.as_str(), repo_path.as_str(), private_token, tag),
                HostKind::GitLab,
            ),
        }
    }

    /// The API URL that holds the commit's metadata, with its timestamp; GitHub alone has one.
    pub fn commit_url(&self, hosts: &Hosts, revision: &str) -> (r: Result<Option<String>, InvalidUrl>)
        ensures
            opt_url_result_matches(r, commit_api_url(*self, *hosts, revision@), kind_of(*self)),
    {
        match self {
            Repository::GitHub { owner, repo } => {
                let mut s = String::from_str(hosts.github_api.as_str());
                s.append("/repos/");
                s.append(owner.as_str());
                s.append("/");
                s.append(repo.as_str());
                s.append("/commits/");
                s.append(revision);
                wrap_url(parse_url(s.as_str()), HostKind::GitHub)
            },
            _ => Ok(None),
        }
    }
}

} // verus!
