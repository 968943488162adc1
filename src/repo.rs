use vstd::prelude::*;
use vstd::utf8::{decode_utf8, valid_utf8};
use crate::reference::{
    BranchState, GitRefView, GitReference, HeadState, RefEntry, ResolveError, resolve_head,
    resolve_spec,
};

verus! {

#[verifier::external_type_specification]
#[verifier::external_body]
pub struct ExRepository(git2::Repository);

#[verifier::external_type_specification]
#[verifier::external_body]
pub struct ExReference<'repo>(git2::Reference<'repo>);

#[verifier::external_type_specification]
#[verifier::external_body]
pub struct ExBranch<'repo>(git2::Branch<'repo>);

#[verifier::external_type_specification]
#[verifier::external_body]
pub struct ExGitError(git2::Error);

pub assume_specification<'repo>[ git2::Reference::<'repo>::is_note ](r: &git2::Reference<'repo>) -> bool;

pub assume_specification<'repo>[ git2::Reference::<'repo>::is_tag ](r: &git2::Reference<'repo>) -> bool;

pub assume_specification<'repo>[ git2::Reference::<'repo>::is_remote ](r: &git2::Reference<'repo>) -> bool;

pub assume_specification<'repo>[ git2::Reference::<'repo>::is_branch ](r: &git2::Reference<'repo>) -> bool;

pub assume_specification[ git2::Repository::head_detached ](repo: &git2::Repository) -> Result<bool, git2::Error>;

pub assume_specification<'repo>[ git2::Branch::<'repo>::upstream ](b: &git2::Branch<'repo>) -> Result<git2::Branch<'repo>, git2::Error>;

/// Relies on `git2::Repository::head`: the reference that HEAD points at.
#[verifier::external_body]
fn head_of(repo: &git2::Repository) -> (r: Result<git2::Reference<'_>, git2::Error>) {
    repo.head()
}

/// Relies on `git2::Reference::shorthand_bytes`: the reference's short name,
/// copied out.
#[verifier::external_body]
fn shorthand_of(r: &git2::Reference) -> (b: Vec<u8>) {
    r.shorthand_bytes().to_vec()
}

/// Relies on `git2::Reference::peel_to_commit`, and on the commit's
/// `id().as_bytes()`: the raw id of the commit that `r` leads to.
#[verifier::external_body]
fn commit_id_of(r: &git2::Reference) -> (c: Result<Vec<u8>, git2::Error>)
    ensures
        c matches Ok(id) ==> id@.len() > 0,
{
    r.peel_to_commit().map(|commit| commit.id().as_bytes().to_vec())
}

/// Relies on `git2::Repository::references`: all references of the
/// repository, in the order they are listed, each `None` where it could not
/// be read.
#[verifier::external_body]
fn references_of(repo: &git2::Repository) -> (r: Result<Vec<Option<git2::Reference<'_>>>, git2::Error>) {
    repo.references().map(|refs| refs.map(|r| r.ok()).collect())
}

/// Relies on `git2::Repository::find_branch`, for a local branch.
#[verifier::external_body]
fn find_local_branch<'repo>(repo: &'repo git2::Repository, name: &str) -> (r: Result<git2::Branch<'repo>, git2::Error>) {
    repo.find_branch(name, git2::BranchType::Local)
}

/// Relies on `git2::Branch::name_bytes`: the branch's name, such as
/// `origin/main` for a remote-tracking branch, copied out.
#[verifier::external_body]
fn branch_name_of(b: &git2::Branch) -> (r: Result<Vec<u8>, git2::Error>) {
    b.name_bytes().map(|n| n.to_vec())
}

/// Relies on `git2::Error::code`: whether the error says that what was
/// looked up does not exist.
#[verifier::external_body]
fn is_not_found(e: &git2::Error) -> (r: bool) {
    e.code() == git2::ErrorCode::NotFound
}

/// Relies on `std::str::from_utf8`: the text that the bytes encode, if they
/// are valid UTF-8.
#[verifier::external_body]
fn utf8_text(b: &Vec<u8>) -> (r: Option<String>)
    ensures
        r is Some <==> valid_utf8(b@),
        r matches Some(s) ==> s@ == decode_utf8(b@),
{
    std::str::from_utf8(b.as_slice()).ok().map(|s| s.to_string())
}

/// Why the position of HEAD could not be found.
#[derive(Debug)]
pub enum HeadError {
    /// The repository could not be read.
    Git(git2::Error),
    /// A name read from the repository is not valid UTF-8; says which.
    InvalidUtf8(&'static str),
    /// HEAD does not stand for a position that can be linked to.
    Unresolved(ResolveError),
}

/// The kinds of HEAD that are told apart before anything else is read.
pub enum HeadKind {
    /// A local branch.
    Branch,
    /// A detached HEAD.
    Detached,
    /// A note, a tag, a remote-tracking branch, or none of the kinds above.
    Unsupported,
}

/// The kind of HEAD, from whether it is a note, a tag, a remote-tracking
/// branch, detached (or the error met while asking) and a local branch.
/// A note, a tag or a remote-tracking branch is unsupported whether or not
/// the question of detachment could be answered.
pub open spec fn head_kind_spec(
    is_note: bool,
    is_tag: bool,
    is_remote: bool,
    detached: Result<bool, git2::Error>,
    is_branch: bool,
) -> Result<HeadKind, HeadError> {
    if is_note || is_tag || is_remote {
        Ok(HeadKind::Unsupported)
    } else {
        match detached {
            Err(e) => Err(HeadError::Git(e)),
            Ok(true) => Ok(HeadKind::Detached),
            Ok(false) => if is_branch {
                Ok(HeadKind::Branch)
            } else {
                Ok(HeadKind::Unsupported)
            },
        }
    }
}

pub fn head_kind(
    is_note: bool,
    is_tag: bool,
    is_remote: bool,
    detached: Result<bool, git2::Error>,
    is_branch: bool,
) -> (r: Result<HeadKind, HeadError>)
    ensures
        r == head_kind_spec(is_note, is_tag, is_remote, detached, is_branch),
{
    if is_note || is_tag || is_remote {
        return Ok(HeadKind::Unsupported);
    }
    match detached {
        Err(e) => Err(HeadError::Git(e)),
        Ok(true) => Ok(HeadKind::Detached),
        Ok(false) => if is_branch {
            Ok(HeadKind::Branch)
        } else {
            Ok(HeadKind::Unsupported)
        },
    }
}

/// What a local branch has, from what was read of its upstream.
///
/// `upstream` is the lookup of the upstream: its error, or the read of the
/// upstream's name (its bytes, or the error met reading them). `not_found`
/// says whether the lookup's error means that no upstream is set, and
/// `head_commit` is the read of HEAD's commit id.
///
/// A name that is valid UTF-8 gives `Tracking`, one that is not gives
/// `InvalidUtf8`. No upstream gives `Untracked` with HEAD's commit. Any other
/// error is passed on.
pub open spec fn branch_state_outcome(
    r: Result<BranchState, HeadError>,
    upstream: Result<Result<Vec<u8>, git2::Error>, git2::Error>,
    not_found: bool,
    head_commit: Result<Vec<u8>, git2::Error>,
) -> bool {
    match upstream {
        Ok(Ok(bytes)) => if valid_utf8(bytes@) {
            r matches Ok(BranchState::Tracking(u)) && u@ == decode_utf8(bytes@)
        } else {
            r == Err::<BranchState, HeadError>(HeadError::InvalidUtf8("remote branch"))
        },
        Ok(Err(e)) => r == Err::<BranchState, HeadError>(HeadError::Git(e)),
        Err(e) => if not_found {
            match head_commit {
                Ok(c) => r == Ok::<BranchState, HeadError>(BranchState::Untracked(c)),
                Err(e2) => r == Err::<BranchState, HeadError>(HeadError::Git(e2)),
            }
        } else {
            r == Err::<BranchState, HeadError>(HeadError::Git(e))
        },
    }
}

pub fn branch_state_from(
    upstream: Result<Result<Vec<u8>, git2::Error>, git2::Error>,
    not_found: bool,
    head_commit: Result<Vec<u8>, git2::Error>,
) -> (r: Result<BranchState, HeadError>)
    ensures
        branch_state_outcome(r, upstream, not_found, head_commit),
{
    match upstream {
        Ok(Ok(bytes)) => match utf8_text(&bytes) {
            Some(u) => Ok(BranchState::Tracking(u)),
            None => Err(HeadError::InvalidUtf8("remote branch")),
        },
        Ok(Err(e)) => Err(HeadError::Git(e)),
        Err(e) => if not_found {
            match head_commit {
                Ok(c) => Ok(BranchState::Untracked(c)),
                Err(e2) => Err(HeadError::Git(e2)),
            }
        } else {
            Err(HeadError::Git(e))
        },
    }
}

/// Reads what resolving HEAD needs of its kind (see `head_kind`): for a
/// branch, what `branch_state_from` makes of its upstream; for a detached
/// HEAD, its commit.
pub fn read_head_state(repo: &git2::Repository) -> (r: Result<HeadState, HeadError>)
    ensures
        r matches Ok(h) ==> h.wf(),
        !(r matches Err(HeadError::Unresolved(_))),
{
    let head = match head_of(repo) {
        Ok(h) => h,
        Err(e) => return Err(HeadError::Git(e)),
    };
    let kind = head_kind(head.is_note(), head.is_tag(), head.is_remote(), repo.head_detached(), head.is_branch());
    match kind {
        Err(e) => Err(e),
        Ok(HeadKind::Unsupported) => Ok(HeadState::Unsupported),
        Ok(HeadKind::Detached) => match commit_id_of(&head) {
            Ok(c) => Ok(HeadState::Detached(c)),
            Err(e) => Err(HeadError::Git(e)),
        },
        Ok(HeadKind::Branch) => {
            let name = match utf8_text(&shorthand_of(&head)) {
                Some(n) => n,
                None => return Err(HeadError::InvalidUtf8("HEAD")),
            };
            let branch = match find_local_branch(repo, name.as_str()) {
                Ok(b) => b,
                Err(e) => return Err(HeadError::Git(e)),
            };
            let upstream = match branch.upstream() {
                Ok(u) => Ok(branch_name_of(&u)),
                Err(e) => Err(e),
            };
            let not_found = match &upstream {
                Ok(_) => false,
                Err(e) => is_not_found(e),
            };
            match branch_state_from(upstream, not_found, commit_id_of(&head)) {
                Ok(bs) => Ok(HeadState::Branch(bs)),
                Err(e) => Err(e),
            }
        },
    }
}

/// The entry for one reference, from its shorthand's bytes, whether it is a
/// tag or a remote-tracking branch, and the read of its commit id. A
/// shorthand that is not valid UTF-8, or a commit that could not be read, is
/// left out of the entry as `None`.
pub fn entry_from(shorthand: Vec<u8>, is_tag: bool, is_remote: bool, commit: Result<Vec<u8>, git2::Error>) -> (e: RefEntry)
    ensures
        e.is_tag == is_tag,
        e.is_remote == is_remote,
        valid_utf8(shorthand@) <==> e.shorthand is Some,
        e.shorthand matches Some(s) ==> s@ == decode_utf8(shorthand@),
        commit matches Ok(c) ==> e.commit == Some(c),
        commit is Err ==> e.commit is None,
{
    RefEntry {
        shorthand: utf8_text(&shorthand),
        is_tag,
        is_remote,
        commit: match commit {
            Ok(c) => Some(c),
            Err(_) => None,
        },
    }
}

/// The entries of the references that could be read, in their order.
pub open spec fn readable(read: Seq<Option<RefEntry>>) -> Seq<RefEntry>
    decreases read.len(),
{
    if read.len() == 0 {
        Seq::empty()
    } else {
        match read[0] {
            Some(e) => seq![e] + readable(read.drop_first()),
            None => readable(read.drop_first()),
        }
    }
}

/// Keeps the references that could be read, in their order, and drops the
/// others.
pub fn readable_entries(read: Vec<Option<RefEntry>>) -> (r: Vec<RefEntry>)
    ensures
        r@ == readable(read@),
{
    let ghost all = read@;
    let mut rest = read;
    let mut r: Vec<RefEntry> = Vec::new();
    while rest.len() > 0
        invariant
            readable(all) == r@ + readable(rest@),
        decreases rest@.len(),
    {
        let ghost before = rest@;
        let x = rest.remove(0);
        assert(rest@ =~= before.drop_first());
        match x {
            Some(e) => {
                r.push(e);
                assert(readable(all) == r@ + readable(rest@)) by {
                    assert(r@ + readable(rest@) =~= r@.drop_last() + (seq![e] + readable(rest@)));
                }
            },
            None => {},
        }
    }
    assert(r@ + readable(rest@) =~= r@);
    r
}

/// Reads every reference of the repository, in the order listed; what
/// `readable_entries` keeps of them.
pub fn read_references(repo: &git2::Repository) -> (r: Result<Vec<RefEntry>, HeadError>)
    ensures
        !(r matches Err(HeadError::Unresolved(_))),
{
    let refs = match references_of(repo) {
        Ok(v) => v,
        Err(e) => return Err(HeadError::Git(e)),
    };
    let mut read: Vec<Option<RefEntry>> = Vec::new();
    let mut i: usize = 0;
    while i < refs.len()
        invariant
            i <= refs@.len(),
        decreases refs@.len() - i,
    {
        match &refs[i] {
            Some(r) => {
                read.push(Some(entry_from(shorthand_of(r), r.is_tag(), r.is_remote(), commit_id_of(r))));
            },
            None => {
                read.push(None);
            },
        }
        i = i + 1;
    }
    Ok(readable_entries(read))
}

/// Finds the position that HEAD stands for, against the remote named
/// `remote_name`: the result is what `resolve_spec` gives for the state of
/// HEAD and the references that were read.
pub fn figure_out_git_head(repo: &git2::Repository, remote_name: &str) -> (r: Result<GitReference, HeadError>)
    ensures
        r matches Ok(g) ==> g@.wf() && exists|h: HeadState, refs: Seq<RefEntry>|
            resolve_spec(h, refs, remote_name@) == Ok::<_, ResolveError>(g@),
        r matches Err(HeadError::Unresolved(e)) ==> exists|h: HeadState, refs: Seq<RefEntry>|
            resolve_spec(h, refs, remote_name@) == Err::<GitRefView, _>(e),
{
    let head = match read_head_state(repo) {
        Ok(h) => h,
        Err(e) => return Err(e),
    };
    let needs_refs = match &head {
        HeadState::Detached(_) => true,
        HeadState::Branch(BranchState::Untracked(_)) => true,
        _ => false,
    };
    let refs = if needs_refs {
        match read_references(repo) {
            Ok(v) => v,
            Err(e) => return Err(e),
        }
    } else {
        Vec::new()
    };
    let r = resolve_head(&head, &refs, remote_name);
    match r {
        Ok(g) => {
            assert(resolve_spec(head, refs@, remote_name@) == Ok::<_, ResolveError>(g@));
            Ok(g)
        },
        Err(e) => {
            assert(resolve_spec(head, refs@, remote_name@) == Err::<GitRefView, _>(e));
            Err(HeadError::Unresolved(e))
        },
    }
}

} // verus!
