use repolink::services::{
    project_url_from, service_for, service_path_from, Data, GitHub, GitService, LineRange,
    SourceHut,
};

fn data<'a>(
    name: Option<&str>,
    hash: Option<&str>,
    range: &'a Option<LineRange>,
    service: GitService,
) -> Data<'a> {
    Data {
        project: "zig-postcard",
        owner: "~psyomn",
        path: "src/post.zig",
        branch_or_tag_name: name.map(|s| s.to_string()),
        hash: hash.map(|s| s.to_string()),
        line_range: range,
        service,
    }
}

#[test]
fn github_single_line_fragment() {
    assert_eq!(LineRange(5, 5).linerange_for(&GitService::GitHub), "#L5");
}

#[test]
fn github_line_range_fragment() {
    assert_eq!(LineRange(5, 9).linerange_for(&GitService::GitHub), "#L5-L9");
}

#[test]
fn sourcehut_fragment_ignores_last_line() {
    assert_eq!(LineRange(5, 9).linerange_for(&GitService::SourceHut), "#L5");
    assert_eq!(LineRange(5, 5).linerange_for(&GitService::SourceHut), "#L5");
}

#[test]
fn fragment_with_many_digits() {
    assert_eq!(
        LineRange(120, 10450).linerange_for(&GitService::GitHub),
        "#L120-L10450"
    );
    assert_eq!(
        LineRange(usize::MAX, usize::MAX).linerange_for(&GitService::GitHub),
        format!("#L{}", usize::MAX)
    );
}

#[test]
fn known_hosts_have_services() {
    assert_eq!(service_for("github.com"), Some(GitService::GitHub));
    assert_eq!(service_for("git.sr.ht"), Some(GitService::SourceHut));
    assert_eq!(service_for(GitHub::HOST), Some(GitService::GitHub));
    assert_eq!(service_for(SourceHut::HOST), Some(GitService::SourceHut));
}

#[test]
fn unknown_hosts_have_none() {
    assert_eq!(service_for("gitlab.example.com"), None);
    assert_eq!(service_for("github.co"), None);
    assert_eq!(service_for("github.comm"), None);
    assert_eq!(service_for(""), None);
}

#[test]
fn github_project_url() {
    let range = None;
    let d = data(Some("master"), None, &range, GitService::GitHub);
    assert_eq!(GitHub::project_url(&d), "https://github.com/~psyomn/zig-postcard");
}

#[test]
fn sourcehut_project_url() {
    let range = None;
    let d = data(Some("master"), None, &range, GitService::SourceHut);
    assert_eq!(SourceHut::project_url(&d), "https://git.sr.ht/~psyomn/zig-postcard");
    assert_eq!(project_url_from(&d), "https://git.sr.ht/~psyomn/zig-postcard");
}

#[test]
fn github_blob_path() {
    let range = Some(LineRange(3, 7));
    let d = data(Some("feature/x"), None, &range, GitService::GitHub);
    assert_eq!(GitHub::service_path(&d), "/blob/feature/x/src/post.zig#L3-L7");
    assert_eq!(service_path_from(&d), "/blob/feature/x/src/post.zig#L3-L7");
}

#[test]
fn github_commit_path_has_no_file() {
    let range = Some(LineRange(3, 7));
    let d = data(None, Some("535309acbc"), &range, GitService::GitHub);
    assert_eq!(GitHub::service_path(&d), "/commit/535309acbc");
}

#[test]
fn sourcehut_tree_path() {
    let range = Some(LineRange(16, 20));
    let d = data(Some("1.0.0"), None, &range, GitService::SourceHut);
    assert_eq!(SourceHut::service_path(&d), "/tree/1.0.0/item/src/post.zig#L16");
    let none = None;
    let d = data(Some("master"), None, &none, GitService::SourceHut);
    assert_eq!(service_path_from(&d), "/tree/master/item/src/post.zig");
}

#[test]
fn sourcehut_commit_path() {
    let range = None;
    let d = data(None, Some("535309acbc"), &range, GitService::SourceHut);
    assert_eq!(SourceHut::service_path(&d), "/commit/535309acbc");
}
