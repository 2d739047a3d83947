//! Git revisions.

use vstd::prelude::*;

verus! {

pub open spec fn is_hex_digit(c: char) -> bool {
    ('0' <= c && c <= '9') || ('a' <= c && c <= 'f') || ('A' <= c && c <= 'F')
}

/// A full sha1 revision: exactly 40 hexadecimal digits, of either case.
pub open spec fn is_revision(s: Seq<char>) -> bool {
    s.len() == 40 && forall|i: int| 0 <= i < s.len() ==> is_hex_digit(#[trigger] s[i])
}

/// A git revision, with an optional timestamp (known for GitHub repositories only).
#[derive(Debug, Clone, PartialEq, Eq)]
pub struct GitRevision {
    revision: String,
    timestamp: Option<String>,
}

/// A text that is no git revision.
#[derive(Debug, Clone, PartialEq, Eq)]
pub struct InvalidRevision {
    pub text: String,
}

pub open spec fn opt_view(o: Option<String>) -> Option<Seq<char>> {
    match o {
        Some(s) => Some(s@),
        None => None,
    }
}

/// The label/value pairs of a list, as texts.
pub open spec fn pairs_view(v: Seq<(String, String)>) -> Seq<(Seq<char>, Seq<char>)> {
    v.map_values(|p: (String, String)| (p.0@, p.1@))
}

impl GitRevision {
    pub closed spec fn spec_revision(&self) -> Seq<char> {
        self.revision@
    }

    pub closed spec fn spec_timestamp(&self) -> Option<Seq<char>> {
        opt_view(self.timestamp)
    }

    /// A revision is valid where it holds exactly 40 hexadecimal digits.
    pub closed spec fn wf(&self) -> bool {
        is_revision(self.revision@)
    }

    /// Checks the text and takes it as it is; no timestamp.
    pub fn new(revision: String) -> (r: Result<GitRevision, InvalidRevision>)
        ensures
            r is Ok <==> is_revision(revision@),
            r matches Ok(g) ==> g.wf() && g.spec_revision() == revision@ && g.spec_timestamp() is None,
            r matches Err(e) ==> e.text@ == revision@,
    {
        let n = revision.as_str().unicode_len();
        if n != 40 {
            return Err(InvalidRevision { text: revision });
        }
        let mut i: usize = 0;
        while i < n
            invariant
                n == revision@.len(),
                i <= n,
                forall|j: int| 0 <= j < i ==> is_hex_digit(#[trigger] revision@[j]),
            decreases n - i,
        {
            let c = revision.as_str().get_char(i);
            let hex = ('0' <= c && c <= '9') || ('a' <= c && c <= 'f') || ('A' <= c && c <= 'F');
            if !hex {
                return Err(InvalidRevision { text: revision });
            }
            i = i + 1;
        }
        Ok(GitRevision { revision, timestamp: None })
    }

    /// The same revision with the given timestamp.
    pub fn with_timestamp(self, timestamp: Option<String>) -> (r: GitRevision)
        requires
            self.wf(),
        ensures
            r.wf(),
            r.spec_revision() == self.spec_revision(),
            r.spec_timestamp() == opt_view(timestamp),
    {
        GitRevision { revision: self.revision, timestamp }
    }

    pub fn revision(&self) -> (r: &str)
        ensures
            r@ == self.spec_revision(),
    {
        self.revision.as_str()
    }

    pub fn timestamp(&self) -> (r: Option<&String>)
        ensures
            match r {
                Some(t) => self.spec_timestamp() == Some(t@),
                None => self.spec_timestamp() is None,
            },
    {
        self.timestamp.as_ref()
    }

    /// The fields for display: the revision, and the timestamp or `N/A`.
    pub fn properties(&self) -> (r: Vec<(String, String)>)
        ensures
            pairs_view(r@) == seq![
                ("revision"@, self.spec_revision()),
                ("timestamp"@, match self.spec_timestamp() {
                    Some(t) => t,
                    None => "N/A"@,
                }),
            ],
    {
        let ts = match &self.timestamp {
            Some(t) => t.clone(),
            None => String::from_str("N/A"),
        };
        let mut v: Vec<(String, String)> = Vec::new();
        v.push((String::from_str("revision"), self.revision.clone()));
        v.push((String::from_str("timestamp"), ts));
        assert(pairs_view(v@) =~= seq![
            ("revision"@, self.spec_revision()),
            ("timestamp"@, match self.spec_timestamp() {
                Some(t) => t,
                None => "N/A"@,
            }),
        ]);
        v
    }
}

} // verus!
