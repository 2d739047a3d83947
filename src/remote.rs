//! The output of `git ls-remote`, and what is read from it.

use crate::text::{
    has_prefix, lemma_split_nonempty, same_text, split_chars, split_on, string_of, strip_prefix,
    text_chars, texts, views_of,
};
use vstd::prelude::*;

verus! {

/// One line of `git ls-remote` output: a revision and the ref that points to it.
#[derive(Debug, Clone, PartialEq, Eq, Hash)]
pub struct RemoteInfo {
    pub revision: String,
    pub ref_: String,
}

impl View for RemoteInfo {
    type V = (Seq<char>, Seq<char>);

    open spec fn view(&self) -> (Seq<char>, Seq<char>) {
        (self.revision@, self.ref_@)
    }
}

impl RemoteInfo {
    pub fn new(revision: &str, ref_: &str) -> (r: RemoteInfo)
        ensures
            r@ == (revision@, ref_@),
    {
        RemoteInfo { revision: String::from_str(revision), ref_: String::from_str(ref_) }
    }
}

/// What can go wrong when reading a listing.
#[derive(Debug, Clone, PartialEq, Eq)]
pub enum RemoteError {
    /// An output line without a tab.
    MissingTab { line: String },
    /// An output line with more than one tab.
    ExtraTab { line: String },
    /// The listing for a ref is empty: the ref does not exist.
    RefNotFound { ref_: String },
    /// The listing holds entries, but none for exactly the requested ref.
    NoExactRef { ref_: String },
    /// The listing does not say which branch `HEAD` points to.
    NoDefaultBranch,
}

/// A fault in one output line, as a value.
pub enum LineFault {
    MissingTab(Seq<char>),
    ExtraTab(Seq<char>),
}

pub open spec fn fault_of(e: RemoteError) -> Option<LineFault> {
    match e {
        RemoteError::MissingTab { line } => Some(LineFault::MissingTab(line@)),
        RemoteError::ExtraTab { line } => Some(LineFault::ExtraTab(line@)),
        _ => None,
    }
}

/// A non-empty output line: the revision and the ref, split at its single tab.
pub open spec fn parse_line(l: Seq<char>) -> Result<(Seq<char>, Seq<char>), LineFault> {
    let parts = split_on(l, '\t');
    if parts.len() <= 1 {
        Err(LineFault::MissingTab(l))
    } else if parts.len() == 2 {
        Ok((parts[0], parts[1]))
    } else {
        Err(LineFault::ExtraTab(l))
    }
}

/// The entries of the lines, empty lines skipped; the first faulty line fails the whole.
pub open spec fn parse_lines(lines: Seq<Seq<char>>) -> Result<Seq<(Seq<char>, Seq<char>)>, LineFault>
    decreases lines.len(),
{
    if lines.len() == 0 {
        Ok(Seq::empty())
    } else {
        match parse_lines(lines.drop_last()) {
            Err(e) => Err(e),
            Ok(rs) => if lines.last().len() == 0 {
                Ok(rs)
            } else {
                match parse_line(lines.last()) {
                    Err(e) => Err(e),
                    Ok(p) => Ok(rs.push(p)),
                }
            },
        }
    }
}

/// The entries of a whole listing.
pub open spec fn listing_of(output: Seq<char>) -> Result<Seq<(Seq<char>, Seq<char>)>, LineFault> {
    parse_lines(split_on(output, '\n'))
}

pub open spec fn entries_of(v: Seq<RemoteInfo>) -> Seq<(Seq<char>, Seq<char>)> {
    v.map_values(|r: RemoteInfo| r@)
}

proof fn lemma_fault_stays(lines: Seq<Seq<char>>, k: int, j: int)
    requires
        0 <= k <= j <= lines.len(),
        parse_lines(lines.subrange(0, k)) is Err,
    ensures
        parse_lines(lines.subrange(0, j)) == parse_lines(lines.subrange(0, k)),
    decreases j - k,
{
    if j > k {
        lemma_fault_stays(lines, k, j - 1);
        assert(lines.subrange(0, j).drop_last() == lines.subrange(0, j - 1));
    }
}

/// Reads the standard output of `git ls-remote`: one `<revision>\t<ref>` per non-empty line.
pub fn parse_listing(output: &str) -> (r: Result<Vec<RemoteInfo>, RemoteError>)
    ensures
        match r {
            Ok(v) => listing_of(output@) == Ok::<_, LineFault>(entries_of(v@)),
            Err(e) => fault_of(e) is Some && listing_of(output@) == Err::<Seq<(Seq<char>, Seq<char>)>, _>(fault_of(e)->0),
        },
{
    let chars = text_chars(output);
    let lines = split_chars(&chars, '\n');
    let ghost all = views_of(lines@);
    let mut out: Vec<RemoteInfo> = Vec::new();
    assert(entries_of(out@) =~= Seq::empty());
    let mut i: usize = 0;
    while i < lines.len()
        invariant
            i <= lines.len(),
            all == views_of(lines@),
            all == split_on(output@, '\n'),
            parse_lines(all.subrange(0, i as int)) == Ok::<_, LineFault>(entries_of(out@)),
        decreases lines.len() - i,
    {
        let ghost upto = all.subrange(0, i + 1);
        assert(upto.drop_last() == all.subrange(0, i as int));
        assert(upto.last() == lines@[i as int]@);
        let line = &lines[i];
        if line.len() > 0 {
            let parts = split_chars(line, '\t');
            proof { lemma_split_nonempty(line@, '\t'); }
            if parts.len() <= 1 || parts.len() > 2 {
                let text = string_of(line.as_slice());
                let e = if parts.len() <= 1 {
                    RemoteError::MissingTab { line: text }
                } else {
                    RemoteError::ExtraTab { line: text }
                };
                proof {
                    lemma_fault_stays(all, i + 1, all.len() as int);
                    assert(all.subrange(0, all.len() as int) == all);
                }
                return Err(e);
            }
            let entry = RemoteInfo {
                revision: string_of(parts[0].as_slice()),
                ref_: string_of(parts[1].as_slice()),
            };
            assert(views_of(parts@)[0] == parts@[0]@);
            assert(views_of(parts@)[1] == parts@[1]@);
            let ghost prev = out@;
            out.push(entry);
            assert(entries_of(out@) =~= entries_of(prev).push(entry@));
            assert(parse_line(upto.last()) == Ok::<_, LineFault>(entry@));
        }
        i = i + 1;
    }
    assert(all.subrange(0, lines.len() as int) == all);
    Ok(out)
}

/// The entry that `git ls-remote --symref` prints for the default branch.
pub open spec fn is_head_entry(e: (Seq<char>, Seq<char>)) -> bool {
    has_prefix(e.0, "ref: refs/heads/"@) && e.1 == "HEAD"@
}

/// Picks the entry for exactly `ref_` out of a listing made for it. `git ls-remote` matches a
/// ref by its tail, so the listing may hold other refs that merely end like the requested one.
pub fn select_ref(remotes: &Vec<RemoteInfo>, ref_: &str) -> (r: Result<RemoteInfo, RemoteError>)
    ensures
        match r {
            Ok(x) => exists|k: int|
                0 <= k < remotes@.len() && remotes@[k]@ == x@ && x.ref_@ == ref_@ && forall|j: int|
                    0 <= j < k ==> (#[trigger] remotes@[j]).ref_@ != ref_@,
            Err(RemoteError::RefNotFound { ref_: n }) => remotes@.len() == 0 && n@ == ref_@,
            Err(RemoteError::NoExactRef { ref_: n }) => remotes@.len() > 0 && n@ == ref_@
                && forall|j: int| 0 <= j < remotes@.len() ==> (#[trigger] remotes@[j]).ref_@ != ref_@,
            Err(_) => false,
        },
{
    if remotes.len() == 0 {
        return Err(RemoteError::RefNotFound { ref_: String::from_str(ref_) });
    }
    let mut k: usize = 0;
    while k < remotes.len()
        invariant
            k <= remotes.len(),
            forall|j: int| 0 <= j < k ==> (#[trigger] remotes@[j]).ref_@ != ref_@,
        decreases remotes.len() - k,
    {
        if same_text(remotes[k].ref_.as_str(), ref_) {
            let x = RemoteInfo { revision: remotes[k].revision.clone(), ref_: remotes[k].ref_.clone() };
            return Ok(x);
        }
        k = k + 1;
    }
    Err(RemoteError::NoExactRef { ref_: String::from_str(ref_) })
}

/// The default branch named by the first `HEAD` entry of a `--symref` listing.
pub fn default_branch_of(remotes: &Vec<RemoteInfo>) -> (r: Result<String, RemoteError>)
    ensures
        match r {
            Ok(b) => exists|k: int|
                0 <= k < remotes@.len() && is_head_entry(remotes@[k]@) && "ref: refs/heads/"@ + b@
                    == remotes@[k].revision@ && forall|j: int|
                    0 <= j < k ==> !is_head_entry(#[trigger] remotes@[j]@),
            Err(e) => e == RemoteError::NoDefaultBranch && forall|j: int|
                0 <= j < remotes@.len() ==> !is_head_entry(#[trigger] remotes@[j]@),
        },
{
    let mut k: usize = 0;
    while k < remotes.len()
        invariant
            k <= remotes.len(),
            forall|j: int| 0 <= j < k ==> !is_head_entry(#[trigger] remotes@[j]@),
        decreases remotes.len() - k,
    {
        let branch = strip_prefix(remotes[k].revision.as_str(), "ref: refs/heads/");
        if let Some(b) = branch {
            if same_text(remotes[k].ref_.as_str(), "HEAD") {
                return Ok(b);
            }
        }
        k = k + 1;
    }
    Err(RemoteError::NoDefaultBranch)
}

/// The tag names of a tag listing: each ref with `refs/tags/` taken off; other refs are skipped.
pub open spec fn tag_names_of(entries: Seq<(Seq<char>, Seq<char>)>) -> Seq<Seq<char>>
    decreases entries.len(),
{
    if entries.len() == 0 {
        Seq::empty()
    } else {
        let rest = tag_names_of(entries.drop_last());
        let r = entries.last().1;
        if has_prefix(r, "refs/tags/"@) {
            rest.push(r.subrange("refs/tags/"@.len() as int, r.len() as int))
        } else {
            rest
        }
    }
}

/// The tag names of a tag listing.
pub fn tag_names(remotes: &Vec<RemoteInfo>) -> (r: Vec<String>)
    ensures
        texts(r@) == tag_names_of(entries_of(remotes@)),
{
    let ghost all = entries_of(remotes@);
    let mut out: Vec<String> = Vec::new();
    assert(texts(out@) =~= Seq::empty());
    let mut k: usize = 0;
    while k < remotes.len()
        invariant
            k <= remotes.len(),
            all == entries_of(remotes@),
            texts(out@) == tag_names_of(all.subrange(0, k as int)),
        decreases remotes.len() - k,
    {
        let ghost upto = all.subrange(0, k + 1);
        assert(upto.drop_last() == all.subrange(0, k as int));
        assert(upto.last() == remotes@[k as int]@);
        let ghost prev = out@;
        let name = strip_prefix(remotes[k].ref_.as_str(), "refs/tags/");
        if let Some(n) = name {
            proof {
                let r = remotes@[k as int].ref_@;
                assert(r.subrange("refs/tags/"@.len() as int, r.len() as int) =~= n@);
            }
            out.push(n);
            assert(texts(out@) =~= texts(prev).push(out@.last()@));
        }
        k = k + 1;
    }
    assert(all.subrange(0, remotes.len() as int) == all);
    out
}

/// What a `git ls-remote` call asks for.
#[derive(Debug, Clone, PartialEq, Eq)]
pub enum ListQuery {
    /// Refs that end in the given name, symbolic refs left out.
    Ref(String),
    /// All tags.
    Tags,
    /// Where `HEAD` points.
    Head,
}

/// The arguments that follow `git ls-remote` for a query against a repository URL.
pub fn ls_remote_args(query: &ListQuery, url: &str) -> (r: Vec<String>)
    ensures
        r@.len() == 3,
        r@[1]@ == url@,
        match query {
            ListQuery::Ref(n) => r@[0]@ == "--refs"@ && r@[2]@ == n@,
            ListQuery::Tags => r@[0]@ == "--refs"@ && r@[2]@ == "refs/tags/*"@,
            ListQuery::Head => r@[0]@ == "--symref"@ && r@[2]@ == "HEAD"@,
        },
{
    let (flag, pattern) = match query {
        ListQuery::Ref(n) => (String::from_str("--refs"), n.clone()),
        ListQuery::Tags => (String::from_str("--refs"), String::from_str("refs/tags/*")),
        ListQuery::Head => (String::from_str("--symref"), String::from_str("HEAD")),
    };
    let mut args: Vec<String> = Vec::new();
    args.push(flag);
    args.push(String::from_str(url));
    args.push(pattern);
    args
}

} // verus!
