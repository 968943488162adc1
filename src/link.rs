use vstd::prelude::*;
use crate::reference::{GitRefView, GitReference, slash_free};
use crate::services::{
    Data, GitService, LineRange, fragment_of, host_of, project_url_from, service_for,
    service_for_spec, service_path_from,
};
use crate::text::str_eq;

verus! {

/// A remote's URL, taken apart: the host, the owner, the path of the
/// repository on the host, and whether that path ends in `.git`.
pub struct RemoteUrl {
    pub host: Option<String>,
    pub owner: Option<String>,
    pub path: String,
    pub git_suffix: bool,
}

/// Why no link could be made.
#[derive(Debug, PartialEq, Eq)]
pub enum LinkError {
    /// The remote's URL names no host.
    MissingHost,
    /// The remote's URL names no owner.
    MissingOwner,
    /// The host is not one of the supported services.
    UnsupportedHostingService(String),
}

/// The last part of a path: what follows its last slash, or the whole path
/// where there is none.
pub open spec fn last_segment(p: Seq<char>) -> Seq<char> {
    if exists|i: int| 0 <= i < p.len() && p[i] == '/' {
        let i = choose|i: int| 0 <= i < p.len() && p[i] == '/' && slash_free(p.skip(i + 1));
        p.skip(i + 1)
    } else {
        p
    }
}

/// A name without its `.git` ending, where `git_suffix` says to take it off
/// and the name has it.
pub open spec fn strip_git(name: Seq<char>, git_suffix: bool) -> Seq<char> {
    if git_suffix && name.len() >= 4 && name.skip(name.len() - 4) == ".git"@ {
        name.take(name.len() - 4)
    } else {
        name
    }
}

/// The project's name: the last part of the path, less `.git` where the URL
/// ends in it.
pub open spec fn project_name_spec(path: Seq<char>, git_suffix: bool) -> Seq<char> {
    strip_git(last_segment(path), git_suffix)
}

fn last_segment_of(p: &str) -> (r: &str)
    ensures
        r@ == last_segment(p@),
{
    let ghost s = p@;
    let n = p.unicode_len();
    let mut i: usize = n;
    while i > 0
        invariant
            s == p@,
            n == s.len(),
            i <= n,
            forall|j: int| i <= j < n ==> s[j] != '/',
        decreases i,
    {
        if p.get_char(i - 1) == '/' {
            proof {
                let k0 = (i - 1) as int;
                assert(0 <= k0 < s.len() && s[k0] == '/' && slash_free(s.skip(k0 + 1)));
                let k = choose|k: int| 0 <= k < s.len() && s[k] == '/' && slash_free(s.skip(k + 1));
                if k < k0 {
                    assert(s.skip(k + 1)[k0 - k - 1] == s[k0]);
                } else if k > k0 {
                    assert(s[k] != '/');
                }
            }
            return p.substring_char(i, n);
        }
        i = i - 1;
    }
    p
}

pub fn project_name(url: &RemoteUrl) -> (r: String)
    ensures
        r@ == project_name_spec(url.path@, url.git_suffix),
{
    let name = last_segment_of(url.path.as_str());
    let n = name.unicode_len();
    if url.git_suffix && n >= 4 && str_eq(name.substring_char(n - 4, n), ".git") {
        String::from_str(name.substring_char(0, n - 4))
    } else {
        String::from_str(name)
    }
}

/// The service for a remote's URL, which must name an owner and a host.
pub open spec fn service_outcome(r: Result<GitService, LinkError>, url: RemoteUrl) -> bool {
    match (url.owner, url.host) {
        (None, _) => r == Err::<GitService, LinkError>(LinkError::MissingOwner),
        (Some(_), None) => r == Err::<GitService, LinkError>(LinkError::MissingHost),
        (Some(_), Some(h)) => match service_for_spec(h@) {
            Some(gs) => r == Ok::<GitService, LinkError>(gs),
            None => r matches Err(LinkError::UnsupportedHostingService(x)) && x@ == h@,
        },
    }
}

pub fn service_of_url(url: &RemoteUrl) -> (r: Result<GitService, LinkError>)
    ensures
        service_outcome(r, *url),
{
    if url.owner.is_none() {
        return Err(LinkError::MissingOwner);
    }
    match &url.host {
        Some(h) => match service_for(h.as_str()) {
            Some(gs) => Ok(gs),
            None => Err(LinkError::UnsupportedHostingService(h.clone())),
        },
        None => Err(LinkError::MissingHost),
    }
}

/// The part of a link after the project's root page: a file at a branch or
/// tag, with the lines highlighted, or the page of a commit.
pub open spec fn position_path(gs: GitService, g: GitRefView, path: Seq<char>, range: Option<LineRange>) -> Seq<char> {
    match g {
        GitRefView::Commit(h) => "/commit/"@ + h,
        GitRefView::Branch(n) | GitRefView::Tag(n) => match gs {
            GitService::GitHub => "/blob/"@ + n + "/"@ + path + fragment_of(gs, range),
            GitService::SourceHut => "/tree/"@ + n + "/item/"@ + path + fragment_of(gs, range),
        },
    }
}

/// The whole link: `https://{host}/{owner}/{project}` and the position.
pub open spec fn link_spec(gs: GitService, owner: Seq<char>, project: Seq<char>, g: GitRefView, path: Seq<char>, range: Option<LineRange>) -> Seq<char> {
    "https://"@ + host_of(gs) + "/"@ + owner + "/"@ + project + position_path(gs, g, path, range)
}

/// What `make_link` gives: the error of `service_of_url`, or the link on the
/// service that the URL's host names.
pub open spec fn link_outcome(r: Result<String, LinkError>, url: RemoteUrl, g: GitRefView, path: Seq<char>, range: Option<LineRange>) -> bool {
    match (url.owner, url.host) {
        (None, _) => r == Err::<String, LinkError>(LinkError::MissingOwner),
        (Some(_), None) => r == Err::<String, LinkError>(LinkError::MissingHost),
        (Some(o), Some(h)) => match service_for_spec(h@) {
            Some(gs) => r matches Ok(s) && s@ == link_spec(gs, o@, project_name_spec(url.path@, url.git_suffix), g, path, range),
            None => r matches Err(LinkError::UnsupportedHostingService(x)) && x@ == h@,
        },
    }
}

/// Makes the link to `path`, at the position `reference`, with the lines of
/// `range` highlighted, on the service that hosts the remote `url`.
pub fn make_link(url: &RemoteUrl, reference: &GitReference, path: &str, range: &Option<LineRange>) -> (r: Result<String, LinkError>)
    ensures
        link_outcome(r, *url, reference@, path@, *range),
{
    let service = match service_of_url(url) {
        Ok(gs) => gs,
        Err(e) => return Err(e),
    };
    let project = project_name(url);
    let owner = url.owner.as_ref().unwrap();
    let (branch_or_tag_name, hash) = match reference {
        GitReference::Branch(n) => (Some(n.clone()), None),
        GitReference::Tag(n) => (Some(n.clone()), None),
        GitReference::Commit(h) => (None, Some(h.clone())),
    };
    let d = Data {
        project: project.as_str(),
        owner: owner.as_str(),
        path,
        branch_or_tag_name,
        hash,
        line_range: range,
        service,
    };
    let mut link = project_url_from(&d);
    let rest = service_path_from(&d);
    link.append(rest.as_str());
    Ok(link)
}

/// The lines that a command was given: none where its count of lines is
/// zero, else the first and the last line.
pub fn range_from_command(count: usize, line1: usize, line2: usize) -> (r: Option<LineRange>)
    ensures
        count == 0 ==> r is None,
        count != 0 ==> r == Some(LineRange(line1, line2)),
{
    if count == 0 {
        None
    } else {
        Some(LineRange(line1, line2))
    }
}

/// A link depends on its inputs alone: two results for the same remote URL,
/// position, path and range are the same.
pub proof fn law_link_is_pure(r1: Result<String, LinkError>, r2: Result<String, LinkError>, url: RemoteUrl, g: GitRefView, path: Seq<char>, range: Option<LineRange>)
    requires
        link_outcome(r1, url, g, path, range),
        link_outcome(r2, url, g, path, range),
    ensures
        r1 matches Ok(s1) ==> r2 matches Ok(s2) && s1@ == s2@,
        r1 is Err <==> r2 is Err,
{
}

/// A host that no supported service has fails with that host named, and
/// gives no link.
pub proof fn law_unsupported_host_fails(r: Result<String, LinkError>, url: RemoteUrl, g: GitRefView, path: Seq<char>, range: Option<LineRange>)
    requires
        link_outcome(r, url, g, path, range),
        url.owner is Some,
        url.host matches Some(h) && service_for_spec(h@) is None,
    ensures
        r matches Err(LinkError::UnsupportedHostingService(x)) && x@ == url.host->Some_0@,
{
}

} // verus!
