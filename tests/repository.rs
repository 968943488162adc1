use git2::{Oid, Repository, Signature};
use repolink::link::{make_link, RemoteUrl};
use repolink::reference::{GitReference, ResolveError};
use repolink::repo::{figure_out_git_head, HeadError};
use repolink::services::LineRange;

fn scratch_repo(name: &str) -> (Repository, Oid) {
    let nanos = std::time::SystemTime::now()
        .duration_since(std::time::UNIX_EPOCH)
        .unwrap()
        .as_nanos();
    let dir = format!("/tmp/repolink-tests/{name}-{nanos}");
    let repo = Repository::init(&dir).unwrap();
    let sig = Signature::now("A U Thor", "author@example.com").unwrap();
    let tree_id = repo.index().unwrap().write_tree().unwrap();
    let oid = {
        let tree = repo.find_tree(tree_id).unwrap();
        repo.commit(Some("HEAD"), &sig, &sig, "first", &tree, &[]).unwrap()
    };
    repo.remote("origin", "git@github.com:user/repo.git").unwrap();
    (repo, oid)
}

fn github() -> RemoteUrl {
    RemoteUrl {
        host: Some("github.com".to_string()),
        owner: Some("user".to_string()),
        path: "user/repo.git".to_string(),
        git_suffix: true,
    }
}

#[test]
fn tracking_branch_end_to_end() {
    let (repo, oid) = scratch_repo("tracking");
    repo.reference("refs/remotes/origin/up", oid, false, "remote").unwrap();
    {
        let commit = repo.find_commit(oid).unwrap();
        let mut branch = repo.branch("sonnet", &commit, false).unwrap();
        branch.set_upstream(Some("origin/up")).unwrap();
    }
    repo.set_head("refs/heads/sonnet").unwrap();
    let g = figure_out_git_head(&repo, "origin").unwrap();
    assert_eq!(g, GitReference::Branch("up".to_string()));
    assert_eq!(
        figure_out_git_head(&repo, "elsewhere").unwrap(),
        GitReference::Branch("up".to_string())
    );
    let link = make_link(&github(), &g, "txt", &Some(LineRange(3, 3))).unwrap();
    assert_eq!(link, "https://github.com/user/repo/blob/up/txt#L3");
}

#[test]
fn detached_tag_end_to_end() {
    let (repo, oid) = scratch_repo("tagged");
    repo.reference("refs/tags/v1.0", oid, false, "tag").unwrap();
    repo.set_head_detached(oid).unwrap();
    let g = figure_out_git_head(&repo, "origin").unwrap();
    assert_eq!(g, GitReference::Tag("v1.0".to_string()));
    let link = make_link(&github(), &g, "txt", &None).unwrap();
    assert_eq!(link, "https://github.com/user/repo/blob/v1.0/txt");
}

#[test]
fn detached_commit_end_to_end() {
    let (repo, oid) = scratch_repo("bare-commit");
    repo.set_head_detached(oid).unwrap();
    let g = figure_out_git_head(&repo, "origin").unwrap();
    assert_eq!(g, GitReference::Commit(oid.to_string()));
    let u = RemoteUrl {
        host: Some("git.sr.ht".to_string()),
        owner: Some("~user".to_string()),
        path: "~user/project".to_string(),
        git_suffix: false,
    };
    let link = make_link(&u, &g, "txt", &None).unwrap();
    assert_eq!(link, format!("https://git.sr.ht/~user/project/commit/{oid}"));
}

#[test]
fn untracked_branch_fails_end_to_end() {
    let (repo, _oid) = scratch_repo("untracked");
    let r = figure_out_git_head(&repo, "origin");
    assert!(matches!(
        r,
        Err(HeadError::Unresolved(ResolveError::NoMatchingRemoteReference))
    ));
}

#[test]
fn untracked_branch_finds_remote_branch_end_to_end() {
    let (repo, oid) = scratch_repo("remote-branch");
    repo.reference("refs/remotes/origin/HEAD", oid, false, "remote").unwrap();
    repo.reference("refs/remotes/origin/work", oid, false, "remote").unwrap();
    let g = figure_out_git_head(&repo, "origin").unwrap();
    assert_eq!(g, GitReference::Branch("work".to_string()));
}
