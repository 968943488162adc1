use repolink::link::{make_link, project_name, range_from_command, LinkError, RemoteUrl};
use repolink::reference::GitReference;
use repolink::services::LineRange;

fn url(host: Option<&str>, owner: Option<&str>, path: &str, git_suffix: bool) -> RemoteUrl {
    RemoteUrl {
        host: host.map(|s| s.to_string()),
        owner: owner.map(|s| s.to_string()),
        path: path.to_string(),
        git_suffix,
    }
}

fn github() -> RemoteUrl {
    url(Some("github.com"), Some("user"), "user/repo.git", true)
}

#[test]
fn project_name_drops_git_ending() {
    assert_eq!(project_name(&github()), "repo");
    assert_eq!(project_name(&url(None, None, "user/repo", false)), "repo");
    assert_eq!(project_name(&url(None, None, "a/b/repo.git", false)), "repo.git");
    assert_eq!(project_name(&url(None, None, "repo.git", true)), "repo");
    assert_eq!(project_name(&url(None, None, "~u/zig.postcard", true)), "zig.postcard");
}

#[test]
fn branch_link_with_single_line() {
    let r = make_link(
        &github(),
        &GitReference::Branch("up".to_string()),
        "txt",
        &Some(LineRange(3, 3)),
    );
    assert_eq!(r, Ok("https://github.com/user/repo/blob/up/txt#L3".to_string()));
}

#[test]
fn tag_link_without_range() {
    let r = make_link(&github(), &GitReference::Tag("v1.0".to_string()), "txt", &None);
    assert_eq!(r, Ok("https://github.com/user/repo/blob/v1.0/txt".to_string()));
}

#[test]
fn sourcehut_commit_link() {
    let u = url(Some("git.sr.ht"), Some("~psyomn"), "~psyomn/zig-postcard", false);
    let hash = "abcdef0123456789abcdef0123456789abcdef01";
    let r = make_link(&u, &GitReference::Commit(hash.to_string()), "src/post.zig", &None);
    assert_eq!(
        r,
        Ok(format!("https://git.sr.ht/~psyomn/zig-postcard/commit/{hash}"))
    );
}

#[test]
fn sourcehut_link_highlights_first_line() {
    let u = url(Some("git.sr.ht"), Some("~psyomn"), "~psyomn/oui-zig", false);
    let r = make_link(
        &u,
        &GitReference::Tag("1.0.0".to_string()),
        "src/main.zig",
        &Some(LineRange(16, 30)),
    );
    assert_eq!(
        r,
        Ok("https://git.sr.ht/~psyomn/oui-zig/tree/1.0.0/item/src/main.zig#L16".to_string())
    );
}

#[test]
fn github_link_with_range() {
    let r = make_link(
        &github(),
        &GitReference::Branch("feature/x".to_string()),
        "src/lib.rs",
        &Some(LineRange(5, 9)),
    );
    assert_eq!(
        r,
        Ok("https://github.com/user/repo/blob/feature/x/src/lib.rs#L5-L9".to_string())
    );
}

#[test]
fn unsupported_host_fails() {
    let u = url(Some("gitlab.example.com"), Some("user"), "user/repo.git", true);
    let r = make_link(&u, &GitReference::Branch("main".to_string()), "txt", &None);
    assert_eq!(
        r,
        Err(LinkError::UnsupportedHostingService("gitlab.example.com".to_string()))
    );
}

#[test]
fn missing_owner_fails() {
    let u = url(Some("github.com"), None, "repo.git", true);
    let r = make_link(&u, &GitReference::Branch("main".to_string()), "txt", &None);
    assert_eq!(r, Err(LinkError::MissingOwner));
}

#[test]
fn missing_host_fails() {
    let u = url(None, Some("user"), "user/repo.git", true);
    let r = make_link(&u, &GitReference::Branch("main".to_string()), "txt", &None);
    assert_eq!(r, Err(LinkError::MissingHost));
}

#[test]
fn same_inputs_give_same_link() {
    let g = GitReference::Branch("up".to_string());
    let range = Some(LineRange(2, 4));
    let a = make_link(&github(), &g, "a/b.rs", &range);
    let b = make_link(&github(), &g, "a/b.rs", &range);
    assert_eq!(a, b);
    assert!(a.is_ok());
}

#[test]
fn command_range() {
    assert_eq!(range_from_command(0, 4, 7), None);
    assert_eq!(range_from_command(2, 4, 7), Some(LineRange(4, 7)));
}
