use vstd::prelude::*;
use crate::text::{hex_of, str_eq, to_hex};

verus! {

/// No character of `s` is a slash.
pub open spec fn slash_free(s: Seq<char>) -> bool {
    forall|j: int| 0 <= j < s.len() ==> s[j] != '/'
}

/// A shorthand such as `origin/feature/x` split at its first slash into the
/// remote's name and the branch: `("origin", "feature/x")`. `None` where
/// there is no slash.
pub open spec fn split_spec(s: Seq<char>) -> Option<(Seq<char>, Seq<char>)> {
    if exists|i: int| 0 <= i < s.len() && s[i] == '/' {
        let i = choose|i: int| 0 <= i < s.len() && s[i] == '/' && slash_free(s.take(i));
        Some((s.take(i), s.skip(i + 1)))
    } else {
        None
    }
}

pub fn split_shorthand(shorthand: &str) -> (r: Option<(&str, &str)>)
    ensures
        match r {
            Some((first, rest)) => split_spec(shorthand@) == Some((first@, rest@)),
            None => split_spec(shorthand@) is None,
        },
{
    let ghost s = shorthand@;
    let n = shorthand.unicode_len();
    let mut i: usize = 0;
    while i < n
        invariant
            s == shorthand@,
            n == s.len(),
            i <= n,
            forall|j: int| 0 <= j < i ==> s[j] != '/',
        decreases n - i,
    {
        if shorthand.get_char(i) == '/' {
            proof {
                assert(slash_free(s.take(i as int)));
                lemma_split_at(s, i as int);
            }
            let first = shorthand.substring_char(0, i);
            let rest = shorthand.substring_char(i + 1, n);
            return Some((first, rest));
        }
        i = i + 1;
    }
    None
}

/// A position in a repository, as a hosting service can show it.
#[derive(Debug, PartialEq, Eq)]
pub enum GitReference {
    /// A branch's name, without the remote's name in front.
    Branch(String),
    /// A tag's name.
    Tag(String),
    /// A commit's full hash, in hexadecimal.
    Commit(String),
}

/// What a `GitReference` holds, as sequences of characters.
pub enum GitRefView {
    Branch(Seq<char>),
    Tag(Seq<char>),
    Commit(Seq<char>),
}

impl View for GitReference {
    type V = GitRefView;

    open spec fn view(&self) -> GitRefView {
        match self {
            GitReference::Branch(n) => GitRefView::Branch(n@),
            GitReference::Tag(n) => GitRefView::Tag(n@),
            GitReference::Commit(h) => GitRefView::Commit(h@),
        }
    }
}

impl GitRefView {
    /// No name or hash is empty.
    pub open spec fn wf(self) -> bool {
        match self {
            GitRefView::Branch(n) => n.len() > 0,
            GitRefView::Tag(n) => n.len() > 0,
            GitRefView::Commit(h) => h.len() > 0,
        }
    }
}

/// Why HEAD could not be resolved to a position.
#[derive(Clone, Copy, Debug, PartialEq, Eq, Structural)]
pub enum ResolveError {
    /// HEAD is a note, a tag, a remote-tracking branch, or nothing that can
    /// be linked to.
    InvalidHeadKind,
    /// The branch has no upstream, and no branch of the remote points at its
    /// commit.
    NoMatchingRemoteReference,
    /// The upstream's name has no remote part or no branch part.
    MalformedUpstream,
}

/// One reference of a repository: its shorthand (`None` where it is not
/// valid UTF-8), whether it is a tag or a remote-tracking branch, and the id
/// of the commit it leads to (`None` where it leads to none).
pub struct RefEntry {
    pub shorthand: Option<String>,
    pub is_tag: bool,
    pub is_remote: bool,
    pub commit: Option<Vec<u8>>,
}

/// Which references a search takes.
pub enum RefFilter {
    /// Tags.
    Tags,
    /// Branches of the named remote, other than its `HEAD`.
    RemoteBranches(String),
}

/// What a `RefFilter` takes: a tag, or a branch of the remote so named.
pub enum Wanted {
    Tag,
    BranchOf(Seq<char>),
}

impl View for RefFilter {
    type V = Wanted;

    open spec fn view(&self) -> Wanted {
        match self {
            RefFilter::Tags => Wanted::Tag,
            RefFilter::RemoteBranches(r) => Wanted::BranchOf(r@),
        }
    }
}

/// The name under which a search takes `e`, whatever its commit.
pub open spec fn candidate(e: RefEntry, w: Wanted) -> Option<Seq<char>> {
    match (e.shorthand, w) {
        (Some(s), Wanted::Tag) => if e.is_tag && s@.len() > 0 {
            Some(s@)
        } else {
            None
        },
        (Some(s), Wanted::BranchOf(remote)) => if e.is_remote {
            match split_spec(s@) {
                Some((first, rest)) => if first == remote && rest != "HEAD"@ && rest.len() > 0 {
                    Some(rest)
                } else {
                    None
                },
                None => None,
            }
        } else {
            None
        },
        (None, _) => None,
    }
}

/// The name under which a search for `target` takes `e`.
pub open spec fn match_of(e: RefEntry, target: Seq<u8>, w: Wanted) -> Option<Seq<char>> {
    match e.commit {
        Some(c) => if c@ == target {
            candidate(e, w)
        } else {
            None
        },
        None => None,
    }
}

/// The first reference, in the order given, that a search for `target`
/// takes, by its name.
pub open spec fn first_match(refs: Seq<RefEntry>, target: Seq<u8>, w: Wanted) -> Option<Seq<char>>
    decreases refs.len(),
{
    if refs.len() == 0 {
        None
    } else {
        match match_of(refs[0], target, w) {
            Some(n) => Some(n),
            None => first_match(refs.drop_first(), target, w),
        }
    }
}

fn candidate_name(e: &RefEntry, filter: &RefFilter) -> (r: Option<String>)
    ensures
        r matches Some(n) ==> candidate(*e, filter@) == Some(n@),
        r is None ==> candidate(*e, filter@) is None,
{
    match (&e.shorthand, filter) {
        (Some(s), RefFilter::Tags) => {
            if e.is_tag && s.unicode_len() > 0 {
                Some(s.clone())
            } else {
                None
            }
        },
        (Some(s), RefFilter::RemoteBranches(remote)) => {
            if !e.is_remote {
                return None;
            }
            match split_shorthand(s.as_str()) {
                Some((first, rest)) => {
                    if str_eq(first, remote.as_str()) && !str_eq(rest, "HEAD")
                        && rest.unicode_len() > 0 {
                        Some(String::from_str(rest))
                    } else {
                        None
                    }
                },
                None => None,
            }
        },
        (None, _) => None,
    }
}

fn same_bytes(a: &Vec<u8>, b: &Vec<u8>) -> (r: bool)
    ensures
        r == (a@ == b@),
{
    if a.len() != b.len() {
        return false;
    }
    let mut i: usize = 0;
    while i < a.len()
        invariant
            a@.len() == b@.len(),
            i <= a@.len(),
            forall|j: int| 0 <= j < i ==> a@[j] == b@[j],
        decreases a@.len() - i,
    {
        if a[i] != b[i] {
            return false;
        }
        i = i + 1;
    }
    assert(a@ =~= b@);
    true
}

/// Looks through `refs` in their order for one that leads to the commit
/// `target` and that `filter` takes, and gives its name. Where several
/// qualify, the first is taken.
pub fn search_references(refs: &Vec<RefEntry>, target: &Vec<u8>, filter: &RefFilter) -> (r: Option<String>)
    ensures
        r matches Some(n) ==> first_match(refs@, target@, filter@) == Some(n@),
        r is None ==> first_match(refs@, target@, filter@) is None,
{
    let mut i: usize = 0;
    assert(refs@.skip(0) =~= refs@);
    while i < refs.len()
        invariant
            i <= refs@.len(),
            first_match(refs@, target@, filter@) == first_match(refs@.skip(i as int), target@, filter@),
        decreases refs@.len() - i,
    {
        let e = &refs[i];
        assert(refs@.skip(i as int)[0] == refs@[i as int]);
        assert(refs@.skip(i as int).drop_first() =~= refs@.skip(i + 1));
        match &e.commit {
            Some(c) => {
                if same_bytes(c, target) {
                    let found = candidate_name(e, filter);
                    if found.is_some() {
                        return found;
                    }
                }
            },
            None => {},
        }
        i = i + 1;
    }
    assert(refs@.skip(i as int).len() == 0);
    None
}

/// What a local branch that HEAD names has: the shorthand of its upstream
/// (such as `origin/main`), or, where none is set, the id of HEAD's commit.
pub enum BranchState {
    Tracking(String),
    Untracked(Vec<u8>),
}

/// The kind of HEAD, with what resolving it needs of each kind.
pub enum HeadState {
    /// HEAD names a local branch.
    Branch(BranchState),
    /// HEAD is detached at the commit with this id.
    Detached(Vec<u8>),
    /// HEAD is a note, a tag, a remote-tracking branch or something else.
    Unsupported,
}

impl HeadState {
    /// Commit ids are not empty.
    pub open spec fn wf(&self) -> bool {
        match self {
            HeadState::Branch(BranchState::Untracked(c)) => c@.len() > 0,
            HeadState::Detached(c) => c@.len() > 0,
            _ => true,
        }
    }
}

/// The position that HEAD stands for, given the repository's references in
/// their order and the remote asked for.
///
/// A detached HEAD is the first tag at its commit, else that commit. A
/// branch with an upstream is the upstream's branch, whatever remote that is
/// on. A branch without one is the first branch of the remote asked for at
/// its commit, and fails where there is none.
pub open spec fn resolve_spec(head: HeadState, refs: Seq<RefEntry>, remote: Seq<char>) -> Result<GitRefView, ResolveError> {
    match head {
        HeadState::Unsupported => Err(ResolveError::InvalidHeadKind),
        HeadState::Detached(c) => match first_match(refs, c@, Wanted::Tag) {
            Some(n) => Ok(GitRefView::Tag(n)),
            None => Ok(GitRefView::Commit(hex_of(c@))),
        },
        HeadState::Branch(BranchState::Tracking(u)) => match split_spec(u@) {
            Some((_, rest)) => if rest.len() > 0 {
                Ok(GitRefView::Branch(rest))
            } else {
                Err(ResolveError::MalformedUpstream)
            },
            None => Err(ResolveError::MalformedUpstream),
        },
        HeadState::Branch(BranchState::Untracked(c)) => match first_match(refs, c@, Wanted::BranchOf(remote)) {
            Some(n) => Ok(GitRefView::Branch(n)),
            None => Err(ResolveError::NoMatchingRemoteReference),
        },
    }
}

/// The same as `resolve_spec`, for the result of an executable function.
pub open spec fn resolves_to(r: Result<GitReference, ResolveError>, head: HeadState, refs: Seq<RefEntry>, remote: Seq<char>) -> bool {
    match r {
        Ok(g) => resolve_spec(head, refs, remote) == Ok::<GitRefView, ResolveError>(g@),
        Err(e) => resolve_spec(head, refs, remote) == Err::<GitRefView, ResolveError>(e),
    }
}

pub fn resolve_head(head: &HeadState, refs: &Vec<RefEntry>, remote: &str) -> (r: Result<GitReference, ResolveError>)
    ensures
        resolves_to(r, *head, refs@, remote@),
        head.wf() && r is Ok ==> r->Ok_0@.wf(),
{
    match head {
        HeadState::Unsupported => Err(ResolveError::InvalidHeadKind),
        HeadState::Detached(c) => {
            proof {
                lemma_first_match_named(refs@, c@, Wanted::Tag);
            }
            match search_references(refs, c, &RefFilter::Tags) {
                Some(n) => Ok(GitReference::Tag(n)),
                None => {
                    let h = to_hex(c);
                    proof {
                        lemma_hex_len(c@);
                    }
                    Ok(GitReference::Commit(h))
                },
            }
        },
        HeadState::Branch(BranchState::Tracking(u)) => {
            match split_shorthand(u.as_str()) {
                Some((_, rest)) => {
                    if rest.unicode_len() > 0 {
                        Ok(GitReference::Branch(String::from_str(rest)))
                    } else {
                        Err(ResolveError::MalformedUpstream)
                    }
                },
                None => Err(ResolveError::MalformedUpstream),
            }
        },
        HeadState::Branch(BranchState::Untracked(c)) => {
            let filter = RefFilter::RemoteBranches(String::from_str(remote));
            match search_references(refs, c, &filter) {
                Some(n) => {
                    proof {
                        lemma_first_match_named(refs@, c@, filter@);
                    }
                    Ok(GitReference::Branch(n))
                },
                None => Err(ResolveError::NoMatchingRemoteReference),
            }
        },
    }
}

proof fn lemma_hex_len(b: Seq<u8>)
    ensures
        hex_of(b).len() == 2 * b.len(),
    decreases b.len(),
{
    if b.len() > 0 {
        lemma_hex_len(b.drop_last());
    }
}

/// A search gives no empty name.
proof fn lemma_first_match_named(refs: Seq<RefEntry>, target: Seq<u8>, w: Wanted)
    ensures
        first_match(refs, target, w) matches Some(n) ==> n.len() > 0,
    decreases refs.len(),
{
    if refs.len() > 0 {
        lemma_first_match_named(refs.drop_first(), target, w);
    }
}

/// Where the first slash of `s` stands at `i`, the split is made there.
pub proof fn lemma_split_at(s: Seq<char>, i: int)
    requires
        0 <= i < s.len(),
        s[i] == '/',
        slash_free(s.take(i)),
    ensures
        split_spec(s) == Some((s.take(i), s.skip(i + 1))),
{
    assert(0 <= i < s.len() && s[i] == '/' && slash_free(s.take(i)));
    let k = choose|k: int| 0 <= k < s.len() && s[k] == '/' && slash_free(s.take(k));
    if k < i {
        assert(s.take(i)[k] == s[k]);
    } else if k > i {
        assert(s.take(k)[i] == s[i]);
    }
}

/// Where no reference qualifies, a search finds nothing.
pub proof fn lemma_first_match_none(refs: Seq<RefEntry>, target: Seq<u8>, w: Wanted)
    requires
        forall|j: int| 0 <= j < refs.len() ==> (#[trigger] match_of(refs[j], target, w)) is None,
    ensures
        first_match(refs, target, w) is None,
    decreases refs.len(),
{
    if refs.len() > 0 {
        assert(match_of(refs[0], target, w) is None);
        assert forall|j: int| 0 <= j < refs.drop_first().len() implies (#[trigger] match_of(refs.drop_first()[j], target, w)) is None by {
            assert(refs.drop_first()[j] == refs[j + 1]);
        }
        lemma_first_match_none(refs.drop_first(), target, w);
    }
}

/// A search finds the reference at `k` where none before it qualifies.
pub proof fn lemma_first_match_at(refs: Seq<RefEntry>, target: Seq<u8>, w: Wanted, k: int)
    requires
        0 <= k < refs.len(),
        match_of(refs[k], target, w) is Some,
        forall|j: int| 0 <= j < k ==> (#[trigger] match_of(refs[j], target, w)) is None,
    ensures
        first_match(refs, target, w) == match_of(refs[k], target, w),
    decreases k,
{
    if k > 0 {
        assert(match_of(refs[0], target, w) is None);
        assert forall|j: int| 0 <= j < k - 1 implies (#[trigger] match_of(refs.drop_first()[j], target, w)) is None by {
            assert(refs.drop_first()[j] == refs[j + 1]);
        }
        assert(refs.drop_first()[k - 1] == refs[k]);
        lemma_first_match_at(refs.drop_first(), target, w, k - 1);
    }
}

/// A branch with an upstream `{r}/{b}` resolves to the branch `b`, whatever
/// remote was asked for and whatever references the repository holds.
pub proof fn law_upstream_names_branch(upstream: String, r: Seq<char>, b: Seq<char>, refs: Seq<RefEntry>, remote: Seq<char>)
    requires
        upstream@ == r + seq!['/'] + b,
        slash_free(r),
        b.len() > 0,
    ensures
        resolve_spec(HeadState::Branch(BranchState::Tracking(upstream)), refs, remote)
            == Ok::<GitRefView, ResolveError>(GitRefView::Branch(b)),
{
    let s = upstream@;
    let i = r.len() as int;
    assert(s[i] == '/');
    assert(s.take(i) =~= r);
    assert(s.skip(i + 1) =~= b);
    lemma_split_at(s, i);
}

/// A detached HEAD resolves to a tag at its commit where no reference before
/// that tag is a tag at the same commit.
pub proof fn law_detached_at_tag(c: Vec<u8>, refs: Seq<RefEntry>, remote: Seq<char>, k: int, name: Seq<char>)
    requires
        0 <= k < refs.len(),
        match_of(refs[k], c@, Wanted::Tag) == Some(name),
        forall|j: int| 0 <= j < k ==> (#[trigger] match_of(refs[j], c@, Wanted::Tag)) is None,
    ensures
        resolve_spec(HeadState::Detached(c), refs, remote) == Ok::<GitRefView, ResolveError>(GitRefView::Tag(name)),
{
    lemma_first_match_at(refs, c@, Wanted::Tag, k);
}

/// A detached HEAD with no tag at its commit resolves to the commit's full
/// hash.
pub proof fn law_detached_untagged(c: Vec<u8>, refs: Seq<RefEntry>, remote: Seq<char>)
    requires
        forall|j: int| 0 <= j < refs.len() ==> (#[trigger] match_of(refs[j], c@, Wanted::Tag)) is None,
    ensures
        resolve_spec(HeadState::Detached(c), refs, remote) == Ok::<GitRefView, ResolveError>(GitRefView::Commit(hex_of(c@))),
{
    lemma_first_match_none(refs, c@, Wanted::Tag);
}

/// A branch never resolves to a commit hash.
pub proof fn law_branch_never_commit(bs: BranchState, refs: Seq<RefEntry>, remote: Seq<char>)
    ensures
        !(resolve_spec(HeadState::Branch(bs), refs, remote) matches Ok(GitRefView::Commit(_))),
{
    match bs {
        BranchState::Tracking(u) => {},
        BranchState::Untracked(c) => {
            match first_match(refs, c@, Wanted::BranchOf(remote)) {
                Some(n) => {},
                None => {},
            }
        },
    }
}

/// A branch without an upstream, with no branch of the remote asked for at
/// its commit, fails to resolve.
pub proof fn law_untracked_branch_fails(c: Vec<u8>, refs: Seq<RefEntry>, remote: Seq<char>)
    requires
        forall|j: int| 0 <= j < refs.len() ==> (#[trigger] match_of(refs[j], c@, Wanted::BranchOf(remote))) is None,
    ensures
        resolve_spec(HeadState::Branch(BranchState::Untracked(c)), refs, remote)
            == Err::<GitRefView, ResolveError>(ResolveError::NoMatchingRemoteReference),
{
    lemma_first_match_none(refs, c@, Wanted::BranchOf(remote));
}

/// A search for a remote's branches never gives the name `HEAD`.
pub proof fn law_search_skips_head(refs: Seq<RefEntry>, target: Seq<u8>, remote: Seq<char>)
    ensures
        first_match(refs, target, Wanted::BranchOf(remote)) != Some("HEAD"@),
    decreases refs.len(),
{
    if refs.len() > 0 {
        law_search_skips_head(refs.drop_first(), target, remote);
    }
}

} // verus!
