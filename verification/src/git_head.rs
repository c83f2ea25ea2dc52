//! The repository side of the prompt: parsing the head-reference file,
//! tidying the path prefix, and naming the repository from its root path.

use vstd::prelude::*;

use crate::strutil;

verus! {

/// The current head of a repository: a named branch, or a bare commit
/// identifier when the head is detached.
pub enum GitHead {
    Branch(String),
    Detached(String),
}

/// Why no head could be resolved.
pub enum HeadError {
    /// The head-reference file could not be read.
    Unreadable,
    /// The file did not end in a newline.
    MissingNewline,
    /// The head is a symbolic reference, but not to a branch.
    NotBranch,
}

/// Whether `s` ends in a newline, the invariant the head file must meet.
pub open spec fn has_final_newline(s: Seq<char>) -> bool {
    s.len() > 0 && s.last() == '\n'
}

/// Parses the text of a repository's head-reference file. The text must end
/// in a single newline, which is trimmed. A symbolic reference must point
/// into the branch namespace and yields the branch name; any other reference
/// is refused; bare content is a detached head, carried as it stands.
pub fn parse_head(contents: &str) -> (r: Result<GitHead, HeadError>)
    ensures
        !has_final_newline(contents@) ==> r == Err::<GitHead, HeadError>(HeadError::MissingNewline),
        has_final_newline(contents@) && !strutil::seq_starts_with(
            contents@.drop_last(),
            "ref: "@,
        ) ==> (r matches Ok(h) && h matches GitHead::Detached(c) && c@ == contents@.drop_last()),
        has_final_newline(contents@) && strutil::seq_starts_with(contents@.drop_last(), "ref: "@)
            && !strutil::seq_starts_with(contents@.drop_last(), "ref: refs/heads/"@) ==> r == Err::<
            GitHead,
            HeadError,
        >(HeadError::NotBranch),
        has_final_newline(contents@) && strutil::seq_starts_with(
            contents@.drop_last(),
            "ref: refs/heads/"@,
        ) ==> (r matches Ok(h) && h matches GitHead::Branch(b) && b@ == contents@.drop_last().skip(
            16,
        )),
{
    let len = contents.unicode_len();
    if len == 0 || contents.get_char(len - 1) != '\n' {
        return Err(HeadError::MissingNewline);
    }
    proof {
        assert(contents@.drop_last() =~= contents@.subrange(0, len - 1));
    }
    if strutil::starts_with_upto(contents, len - 1, "ref: ") {
        if strutil::starts_with_upto(contents, len - 1, "ref: refs/heads/") {
            proof {
                reveal_strlit("ref: refs/heads/");
                assert(contents@.drop_last().skip(16) =~= contents@.subrange(16, len - 1));
            }
            let name = contents.substring_char(16, len - 1).to_owned();
            Ok(GitHead::Branch(name))
        } else {
            Err(HeadError::NotBranch)
        }
    } else {
        proof {
            assert(contents@.drop_last() =~= contents@.subrange(0, len - 1));
            let t = contents@.drop_last();
            if strutil::seq_starts_with(t, "ref: refs/heads/"@) {
                reveal_strlit("ref: ");
                reveal_strlit("ref: refs/heads/");
                assert(t.subrange(0, 5) =~= "ref: "@);
            }
        }
        let commit = contents.substring_char(0, len - 1).to_owned();
        Ok(GitHead::Detached(commit))
    }
}

/// Strips exactly one trailing path separator, as the prefix query's result
/// carries one whenever the current directory is below the root.
pub fn normalize_prefix(p: &str) -> (r: String)
    ensures
        p@.len() > 0 && p@.last() == '/' ==> r@ == p@.drop_last(),
        !(p@.len() > 0 && p@.last() == '/') ==> r@ == p@,
{
    let len = p.unicode_len();
    if len > 0 && p.get_char(len - 1) == '/' {
        proof {
            assert(p@.drop_last() =~= p@.subrange(0, len - 1));
        }
        p.substring_char(0, len - 1).to_owned()
    } else {
        p.to_owned()
    }
}

/// The characters of `s` after its last `/`, empty when `s` is empty or ends
/// in `/`.
pub open spec fn spec_tail_component(s: Seq<char>) -> Seq<char>
    decreases s.len(),
{
    if s.len() == 0 {
        Seq::empty()
    } else if s.last() == '/' {
        Seq::empty()
    } else {
        spec_tail_component(s.drop_last()).push(s.last())
    }
}

/// The placeholder shown when the repository root has no nameable final
/// component.
pub open spec fn spec_no_name_marker() -> Seq<char> {
    "???"@
}

/// `s` with every trailing `/` removed: a path's final component is read
/// past trailing separators.
pub open spec fn spec_strip_trailing_slashes(s: Seq<char>) -> Seq<char>
    decreases s.len(),
{
    if s.len() > 0 && s.last() == '/' {
        spec_strip_trailing_slashes(s.drop_last())
    } else {
        s
    }
}

/// The display name of a repository rooted at `root`: the final path
/// component, trailing separators ignored, or a placeholder when there is
/// none.
pub open spec fn spec_repo_display_name(root: Seq<char>) -> Seq<char> {
    if spec_tail_component(spec_strip_trailing_slashes(root)).len() == 0 {
        spec_no_name_marker()
    } else {
        spec_tail_component(spec_strip_trailing_slashes(root))
    }
}

proof fn lemma_strip_trailing_is_prefix(s: Seq<char>, end: int)
    requires
        0 <= end <= s.len(),
        forall|k: int| end <= k < s.len() ==> #[trigger] s[k] == '/',
        end > 0 ==> s[end - 1] != '/',
    ensures
        spec_strip_trailing_slashes(s) == s.subrange(0, end),
    decreases s.len(),
{
    if s.len() == end {
        assert(s.subrange(0, end) =~= s);
    } else {
        assert(s.last() == '/');
        lemma_strip_trailing_is_prefix(s.drop_last(), end);
        assert(s.drop_last().subrange(0, end) =~= s.subrange(0, end));
    }
}

proof fn lemma_tail_component_is_suffix(s: Seq<char>, from: int)
    requires
        0 <= from <= s.len(),
        forall|k: int| from <= k < s.len() ==> #[trigger] s[k] != '/',
        from > 0 ==> s[from - 1] == '/',
    ensures
        spec_tail_component(s) == s.skip(from),
    decreases s.len(),
{
    if s.len() == 0 {
        assert(s.skip(0) =~= Seq::<char>::empty());
    } else if from == s.len() {
        if from > 0 {
            assert(s.last() == '/');
        }
        assert(s.skip(from) =~= Seq::<char>::empty());
    } else {
        assert(s.last() != '/');
        let dl = s.drop_last();
        lemma_tail_component_is_suffix(dl, from);
        assert(dl.skip(from).push(s.last()) =~= s.skip(from));
    }
}

/// Names a repository from its root path: the final path component, read
/// past any trailing separators, or the placeholder when there is none.
pub fn repo_display_name(root: &str) -> (r: String)
    ensures
        r@ == spec_repo_display_name(root@),
{
    let len = root.unicode_len();
    let mut end: usize = len;
    while end > 0 && root.get_char(end - 1) == '/'
        invariant
            end <= len,
            len == root@.len(),
            forall|k: int| end <= k < len ==> #[trigger] root@[k] == '/',
        decreases end,
    {
        end = end - 1;
    }
    proof {
        lemma_strip_trailing_is_prefix(root@, end as int);
    }
    let ghost stripped = root@.subrange(0, end as int);
    let mut start: usize = 0;
    let mut i: usize = 0;
    while i < end
        invariant
            0 <= start <= i <= end <= len,
            len == root@.len(),
            forall|k: int| start <= k < i ==> #[trigger] root@[k] != '/',
            start > 0 ==> root@[start - 1] == '/',
        decreases end - i,
    {
        if root.get_char(i) == '/' {
            start = i + 1;
        }
        i = i + 1;
    }
    proof {
        assert(forall|k: int| 0 <= k < end ==> stripped[k] == #[trigger] root@[k]);
        lemma_tail_component_is_suffix(stripped, start as int);
    }
    if start == end {
        proof {
            assert(stripped.skip(start as int) =~= Seq::<char>::empty());
        }
        "???".to_owned()
    } else {
        proof {
            assert(root@.subrange(start as int, end as int) =~= stripped.skip(start as int));
        }
        root.substring_char(start, end).to_owned()
    }
}

/// What the host gathered about the repository around the current directory
/// before asking for a render: nothing, or the root path together with the
/// raw text of the head-reference file and the raw prefix, each independently
/// possibly failed.
pub enum RepoQuery {
    NotInRepo,
    InRepo {
        /// The repository root, as the version-control tool printed it.
        root: String,
        /// The text of the head-reference file, or `None` when it could not
        /// be read.
        head_file: Option<String>,
        /// The path from the root to the current directory, or `None` when
        /// the query failed.
        prefix: Option<String>,
    },
}

/// Where the prompt stands: inside a repository, with the repository's
/// display name, its head and the path prefix from its root, or outside any.
pub enum Location {
    Git { repo: String, branch: Result<GitHead, HeadError>, prefix: Option<String> },
    NotGit,
}

/// Whether `loc` is the location that `q` describes.
pub open spec fn spec_location_matches(q: RepoQuery, loc: Location) -> bool {
    match q {
        RepoQuery::NotInRepo => loc == Location::NotGit,
        RepoQuery::InRepo { root, head_file, prefix } => {
            &&& loc matches Location::Git { repo, branch, prefix: shown_prefix }
            &&& repo@ == spec_repo_display_name(root@)
            &&& spec_branch_matches(head_file, branch)
            &&& spec_prefix_matches(prefix, shown_prefix)
        },
    }
}

/// Whether `branch` is the head that the raw file text `head_file` resolves
/// to.
pub open spec fn spec_branch_matches(
    head_file: Option<String>,
    branch: Result<GitHead, HeadError>,
) -> bool {
    match head_file {
        None => branch == Err::<GitHead, HeadError>(HeadError::Unreadable),
        Some(text) => {
            if !has_final_newline(text@) {
                branch == Err::<GitHead, HeadError>(HeadError::MissingNewline)
            } else if strutil::seq_starts_with(text@.drop_last(), "ref: refs/heads/"@) {
                branch matches Ok(h) && h matches GitHead::Branch(b) && b@ == text@.drop_last().skip(16)
            } else if strutil::seq_starts_with(text@.drop_last(), "ref: "@) {
                branch == Err::<GitHead, HeadError>(HeadError::NotBranch)
            } else {
                branch matches Ok(h) && h matches GitHead::Detached(c) && c@ == text@.drop_last()
            }
        },
    }
}

/// Whether `shown` is the raw prefix `raw` with one trailing separator
/// stripped.
pub open spec fn spec_prefix_matches(raw: Option<String>, shown: Option<String>) -> bool {
    match raw {
        None => shown is None,
        Some(p) => {
            &&& shown matches Some(sp)
            &&& if p@.len() > 0 && p@.last() == '/' {
                sp@ == p@.drop_last()
            } else {
                sp@ == p@
            }
        },
    }
}

/// Turns what the host gathered into the location display state: the
/// repository's display name, its parsed head and its tidied prefix, each
/// failure kept as a value so the render still happens.
pub fn get_location(q: &RepoQuery) -> (r: Location)
    ensures
        spec_location_matches(*q, r),
{
    match q {
        RepoQuery::NotInRepo => Location::NotGit,
        RepoQuery::InRepo { root, head_file, prefix } => {
            let branch = match head_file {
                Some(text) => parse_head(text.as_str()),
                None => Err(HeadError::Unreadable),
            };
            let shown_prefix = match prefix {
                Some(p) => Some(normalize_prefix(p.as_str())),
                None => None,
            };
            let repo = repo_display_name(root.as_str());
            Location::Git { repo, branch, prefix: shown_prefix }
        },
    }
}

} // verus!
