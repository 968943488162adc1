use vstd::prelude::*;
use crate::text::{decimal, push_decimal, str_eq};

verus! {

/// The hosting services that links can be made for.
#[derive(Clone, Copy, Debug, PartialEq, Eq, Structural)]
pub enum GitService {
    GitHub,
    SourceHut,
}

/// A range of lines in a file: first and last line, both counted from one.
#[derive(Clone, Copy, Debug, PartialEq, Eq, Structural)]
pub struct LineRange(pub usize, pub usize);

/// The fragment that highlights a range of lines on a service. SourceHut
/// highlights single lines only, so there the last line is left out.
pub open spec fn range_fragment(gs: GitService, r: LineRange) -> Seq<char> {
    match gs {
        GitService::GitHub => if r.0 == r.1 {
            "#L"@ + decimal(r.0 as nat)
        } else {
            "#L"@ + decimal(r.0 as nat) + "-L"@ + decimal(r.1 as nat)
        },
        GitService::SourceHut => "#L"@ + decimal(r.0 as nat),
    }
}

/// The fragment for an optional range: nothing when there is no range.
pub open spec fn fragment_of(gs: GitService, r: Option<LineRange>) -> Seq<char> {
    match r {
        Some(r) => range_fragment(gs, r),
        None => Seq::empty(),
    }
}

impl LineRange {
    pub fn linerange_for(&self, gs: &GitService) -> (r: String)
        ensures
            r@ == range_fragment(*gs, *self),
    {
        let mut r = String::from_str("#L");
        push_decimal(&mut r, self.0);
        match gs {
            GitService::GitHub => {
                if self.0 != self.1 {
                    r.append("-L");
                    push_decimal(&mut r, self.1);
                }
            },
            GitService::SourceHut => {},
        }
        r
    }
}

/// What a link is made of: the project, its owner, the path of the file in
/// the repository, the branch or tag name or else the commit hash, the lines
/// to highlight and the service.
pub struct Data<'a> {
    pub project: &'a str,
    pub owner: &'a str,
    pub path: &'a str,
    pub branch_or_tag_name: Option<String>,
    pub hash: Option<String>,
    pub line_range: &'a Option<LineRange>,
    pub service: GitService,
}

impl<'a> Data<'a> {
    /// A link needs a branch or tag name, or a commit hash.
    pub open spec fn has_position(&self) -> bool {
        self.branch_or_tag_name is Some || self.hash is Some
    }
}

/// The root page of a project: `https://{host}/{owner}/{project}`.
pub open spec fn project_url_spec(host: Seq<char>, d: &Data) -> Seq<char> {
    "https://"@ + host + "/"@ + d.owner@ + "/"@ + d.project@
}

/// The part of a GitHub link after the project's root.
pub open spec fn github_path(d: &Data) -> Seq<char> {
    match d.branch_or_tag_name {
        Some(m) => "/blob/"@ + m@ + "/"@ + d.path@ + fragment_of(d.service, *d.line_range),
        None => "/commit/"@ + d.hash.unwrap()@,
    }
}

/// The part of a SourceHut link after the project's root.
pub open spec fn sourcehut_path(d: &Data) -> Seq<char> {
    match d.branch_or_tag_name {
        Some(m) => "/tree/"@ + m@ + "/item/"@ + d.path@ + fragment_of(d.service, *d.line_range),
        None => "/commit/"@ + d.hash.unwrap()@,
    }
}

/// The host name of a service.
pub open spec fn host_of(gs: GitService) -> Seq<char> {
    match gs {
        GitService::GitHub => GitHub::HOST@,
        GitService::SourceHut => SourceHut::HOST@,
    }
}

/// The part of a link after the project's root, on the service that `d`
/// names.
pub open spec fn service_path_spec(d: &Data) -> Seq<char> {
    match d.service {
        GitService::GitHub => github_path(d),
        GitService::SourceHut => sourcehut_path(d),
    }
}

/// Builds `{prefix}{middle}{infix}{path}` and the fragment of the line range.
fn file_path(prefix: &str, middle: &String, infix: &str, d: &Data) -> (r: String)
    ensures
        r@ == prefix@ + middle@ + infix@ + d.path@ + fragment_of(d.service, *d.line_range),
{
    let mut r = String::from_str(prefix);
    r.append(middle.as_str());
    r.append(infix);
    r.append(d.path);
    match d.line_range {
        Some(range) => {
            let f = range.linerange_for(&d.service);
            r.append(f.as_str());
        },
        None => {},
    }
    r
}

fn commit_path(hash: &String) -> (r: String)
    ensures
        r@ == "/commit/"@ + hash@,
{
    let mut r = String::from_str("/commit/");
    r.append(hash.as_str());
    r
}

fn root_url(host: &str, d: &Data) -> (r: String)
    ensures
        r@ == project_url_spec(host@, d),
{
    let mut r = String::from_str("https://");
    r.append(host);
    r.append("/");
    r.append(d.owner);
    r.append("/");
    r.append(d.project);
    r
}

pub struct GitHub {}

impl GitHub {
    pub const HOST: &'static str = "github.com";

    pub fn project_url(d: &Data) -> (r: String)
        ensures
            r@ == project_url_spec(GitHub::HOST@, d),
    {
        root_url(GitHub::HOST, d)
    }

    pub fn service_path(d: &Data) -> (r: String)
        requires
            d.has_position(),
        ensures
            r@ == github_path(d),
    {
        match &d.branch_or_tag_name {
            Some(middle) => file_path("/blob/", middle, "/", d),
            None => commit_path(d.hash.as_ref().unwrap()),
        }
    }
}

pub struct SourceHut {}

impl SourceHut {
    pub const HOST: &'static str = "git.sr.ht";

    /// On SourceHut the owner is written with a leading `~`, as the remote's
    /// URL has it.
    pub fn project_url(d: &Data) -> (r: String)
        ensures
            r@ == project_url_spec(SourceHut::HOST@, d),
    {
        root_url(SourceHut::HOST, d)
    }

    pub fn service_path(d: &Data) -> (r: String)
        requires
            d.has_position(),
        ensures
            r@ == sourcehut_path(d),
    {
        match &d.branch_or_tag_name {
            Some(middle) => file_path("/tree/", middle, "/item/", d),
            None => commit_path(d.hash.as_ref().unwrap()),
        }
    }
}

/// The service hosted at `host`, if it is one of those supported.
pub open spec fn service_for_spec(host: Seq<char>) -> Option<GitService> {
    if host == GitHub::HOST@ {
        Some(GitService::GitHub)
    } else if host == SourceHut::HOST@ {
        Some(GitService::SourceHut)
    } else {
        None
    }
}

pub fn service_for(host: &str) -> (r: Option<GitService>)
    ensures
        r == service_for_spec(host@),
        r matches Some(gs) ==> host_of(gs) == host@,
{
    if str_eq(host, GitHub::HOST) {
        Some(GitService::GitHub)
    } else if str_eq(host, SourceHut::HOST) {
        Some(GitService::SourceHut)
    } else {
        None
    }
}

pub fn project_url_from(d: &Data) -> (r: String)
    ensures
        r@ == project_url_spec(host_of(d.service), d),
{
    match &d.service {
        GitService::GitHub => GitHub::project_url(d),
        GitService::SourceHut => SourceHut::project_url(d),
    }
}

pub fn service_path_from(d: &Data) -> (r: String)
    requires
        d.has_position(),
    ensures
        r@ == service_path_spec(d),
{
    match &d.service {
        GitService::GitHub => GitHub::service_path(d),
        GitService::SourceHut => SourceHut::service_path(d),
    }
}

} // verus!
