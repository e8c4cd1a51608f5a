//! The uniform operation set over both providers, and the factory that picks
//! a provider and its credentials for a repository's remote.

use vstd::prelude::*;
use crate::error::Error;
use crate::github::{self, GitHubRepository, pull_path, pulls_path, search_terms, search_ok, search_items};
use crate::gitlab::{
    self, GitLabProject, GitLabRepository, merge_request_path, merge_requests_path, list_query,
    merge_request_of, merge_request_pull, merge_requests_ok, array_items, failure_of,
};
use crate::profile::{Profile, ProfileView, AuthView, gitlab_token, profile_auth};
use crate::request::{Method, Request, RequestView, decimal_text, query_text};
use crate::structs::{PaginationResult, PullRequest};
use crate::text::decimal_u64;
use crate::utils::{parse_git_url, git_url_parts, git_url_unreadable, normalized_git_url, parse_panics};
use crate::value::{Value, field, as_u64};

verus! {

/// Filters and paging of a pull-request listing.
pub struct ListPullRequestOpt {
    pub author: Option<String>,
    pub page: Option<usize>,
    /// Only the caller's own pull requests; takes precedence over `author`.
    pub me: bool,
    pub head: Option<String>,
}

impl ListPullRequestOpt {
    /// The page asked for; 0 when none was given.
    pub open spec fn page_or_zero(&self) -> usize {
        match self.page {
            Some(p) => p,
            None => 0,
        }
    }

    /// The page asked for; 0 when none was given.
    pub fn get_page(&self) -> (r: usize)
        ensures
            r == self.page_or_zero(),
    {
        match self.page {
            Some(p) => p,
            None => 0,
        }
    }
}

impl Default for ListPullRequestOpt {
    fn default() -> (r: Self)
        ensures
            r.author is None,
            r.page is None,
            !r.me,
            r.head is None,
    {
        ListPullRequestOpt { author: None, page: None, me: false, head: None }
    }
}

/// The provider that serves a host.
pub enum Provider {
    GitHub,
    GitLabSelfHosted,
}

/// The provider for a remote host: `github.com` is GitHub, `gitlab.com` is
/// not served, and any other host is a self-hosted GitLab instance.
pub open spec fn provider_for(host: Seq<char>) -> Result<Provider, Error> {
    if host == "github.com"@ {
        Ok(Provider::GitHub)
    } else if host == "gitlab.com"@ {
        Err(Error::UnsupportedHost)
    } else {
        Ok(Provider::GitLabSelfHosted)
    }
}

/// Dispatches on a remote host, as `provider_for` states.
pub fn select_provider(host: &str) -> (r: Result<Provider, Error>)
    ensures
        r == provider_for(host@),
{
    if crate::value::str_eq(host, "github.com") {
        Ok(Provider::GitHub)
    } else if crate::value::str_eq(host, "gitlab.com") {
        Err(Error::UnsupportedHost)
    } else {
        Ok(Provider::GitLabSelfHosted)
    }
}

/// What a remote resolves to: a GitHub repository ready for use, or a GitLab
/// project whose numeric id is still to be looked up.
pub enum RepoTarget {
    GitHub(GitHubRepository),
    GitLab(GitLabProject),
}

/// The host and path of a repository's `origin` remote.
pub struct RemoteDescriptor {
    pub host: String,
    pub full_name: String,
}

/// The host and `owner/name` path of a remote whose URL parsed to `parts`,
/// or why there are none.
pub open spec fn remote_of(parts: Option<(Option<Seq<char>>, Seq<char>)>) -> Result<(Seq<char>, Seq<char>), Error> {
    match parts {
        None => Err(Error::NoRemote),
        Some((None, _)) => Err(Error::UnresolvableHost),
        Some((Some(h), f)) => Ok((h, f)),
    }
}

/// `r` is the repository on host `h` with path `f` under profile `p`: the
/// provider `provider_for(h)` with its credentials from `p`.
pub open spec fn target_of(h: Seq<char>, f: Seq<char>, p: ProfileView, r: Result<RepoTarget, Error>) -> bool {
    match provider_for(h) {
        Err(e) => r == Err::<RepoTarget, Error>(e),
        Ok(Provider::GitHub) => match profile_auth(p) {
            Ok(a) => r matches Ok(RepoTarget::GitHub(g)) && g.repo@ == f && g.auth@ == a,
            Err(e) => r == Err::<RepoTarget, Error>(e),
        },
        Ok(Provider::GitLabSelfHosted) => match gitlab_token(p, h) {
            Some(t) => r matches Ok(RepoTarget::GitLab(g)) && g.host@ == h && g.token@ == t && g.full_name@ == f,
            None => r matches Err(Error::MissingCredential(x)) && x@ == h,
        },
    }
}

/// `r` is what the remote with parsed `parts` (host, `owner/name`) resolves
/// to under profile `p`.
pub open spec fn resolves_to(
    parts: Option<(Option<Seq<char>>, Seq<char>)>,
    p: ProfileView,
    r: Result<RepoTarget, Error>,
) -> bool {
    match remote_of(parts) {
        Err(e) => r == Err::<RepoTarget, Error>(e),
        Ok((h, f)) => target_of(h, f, p, r),
    }
}

/// The views of what the URL parser returned.
pub open spec fn parts_view(parts: Option<(Option<String>, String)>) -> Option<(Option<Seq<char>>, Seq<char>)> {
    match parts {
        Some((h, f)) => Some(
            (
                match h {
                    Some(h) => Some(h@),
                    None => None,
                },
                f@,
            ),
        ),
        None => None,
    }
}

/// The remote descriptor of a parsed URL: `NoRemote` when it did not parse,
/// `UnresolvableHost` when it names no host.
pub fn describe_remote(parts: Option<(Option<String>, String)>) -> (r: Result<RemoteDescriptor, Error>)
    ensures
        match remote_of(parts_view(parts)) {
            Ok((h, f)) => r matches Ok(d) && d.host@ == h && d.full_name@ == f,
            Err(e) => r matches Err(x) && x == e,
        },
{
    match parts {
        None => Err(Error::NoRemote),
        Some((None, _)) => Err(Error::UnresolvableHost),
        Some((Some(host), full_name)) => Ok(RemoteDescriptor { host, full_name }),
    }
}

/// The remote descriptor of the `origin` remote URL (`None` when the
/// repository has none). A URL counts as not parsing when the URL parser
/// does not read it, including those on which it would fail outright.
pub fn remote_descriptor(remote_url: Option<&str>) -> (r: Result<RemoteDescriptor, Error>)
    ensures
        match remote_url {
            None => r matches Err(Error::NoRemote),
            Some(u) => if parse_panics(normalized_git_url(u@)) {
                r matches Err(Error::NoRemote)
            } else {
                match remote_of(git_url_parts(u@)) {
                    Ok((h, f)) => r matches Ok(d) && d.host@ == h && d.full_name@ == f,
                    Err(e) => r matches Err(x) && x == e,
                }
            },
        },
{
    match remote_url {
        None => Err(Error::NoRemote),
        Some(u) => if git_url_unreadable(u) {
            Err(Error::NoRemote)
        } else {
            describe_remote(parse_git_url(u))
        },
    }
}

/// Picks the provider for a remote and its credentials from the profile, as
/// `target_of` states.
pub fn repository_for(remote: RemoteDescriptor, profile: &Profile) -> (r: Result<RepoTarget, Error>)
    ensures
        target_of(remote.host@, remote.full_name@, profile@, r),
{
    let RemoteDescriptor { host, full_name } = remote;
    match select_provider(host.as_str()) {
        Err(e) => Err(e),
        Ok(Provider::GitHub) => match GitHubRepository::init(full_name.as_str(), profile) {
            Ok(g) => Ok(RepoTarget::GitHub(g)),
            Err(e) => Err(e),
        },
        Ok(Provider::GitLabSelfHosted) => match profile.get_gitlab_token_by_host(host.as_str()) {
            Some(token) => Ok(RepoTarget::GitLab(GitLabProject { host, token, full_name })),
            None => Err(Error::MissingCredential(host)),
        },
    }
}

/// Picks the provider and its credentials for a remote, given the host and
/// `owner/name` path parsed from its URL (`None` when it did not parse).
pub fn resolve_remote(parts: Option<(Option<String>, String)>, profile: &Profile) -> (r: Result<RepoTarget, Error>)
    ensures
        resolves_to(parts_view(parts), profile@, r),
{
    match describe_remote(parts) {
        Ok(d) => repository_for(d, profile),
        Err(e) => Err(e),
    }
}

/// Resolves the repository for the `origin` remote URL (`None` when the
/// repository has none): parses it, then picks provider and credentials.
pub fn get_repo(remote_url: Option<&str>, profile: &Profile) -> (r: Result<RepoTarget, Error>)
    ensures
        match remote_url {
            None => r matches Err(Error::NoRemote),
            Some(u) => if parse_panics(normalized_git_url(u@)) {
                r matches Err(Error::NoRemote)
            } else {
                resolves_to(git_url_parts(u@), profile@, r)
            },
        },
{
    match remote_descriptor(remote_url) {
        Ok(d) => repository_for(d, profile),
        Err(e) => Err(e),
    }
}

/// A repository on either provider, with the four operations.
pub enum Repository {
    GitHub(GitHubRepository),
    GitLab(GitLabRepository),
}

impl Repository {
    /// Fetching one pull request.
    pub fn get_request(&self, id: u64) -> (r: Request)
        ensures
            r@ == match self {
                Repository::GitHub(g) => RequestView {
                    method: Method::Get,
                    path: pull_path(g.repo@, id as nat),
                    query: seq![],
                    body: None,
                },
                Repository::GitLab(l) => RequestView {
                    method: Method::Get,
                    path: merge_request_path(l.project_id as nat, id as nat),
                    query: seq![],
                    body: None,
                },
            },
    {
        match self {
            Repository::GitHub(g) => g.get_request(id),
            Repository::GitLab(l) => l.get_request(id),
        }
    }

    /// Listing open pull requests; on GitLab, `author_id` is the id a user
    /// lookup found for `opt.author`, and GitHub ignores it.
    pub fn list_request(&self, opt: &ListPullRequestOpt, author_id: Option<u64>) -> (r: Request)
        ensures
            r@ == match self {
                Repository::GitHub(g) => RequestView {
                    method: Method::Get,
                    path: "/search/issues"@,
                    query: seq![
                        ("per_page"@, "10"@),
                        ("page"@, decimal_text(opt.page_or_zero() as nat)),
                        ("q"@, query_text(search_terms(g.repo@, *opt))),
                    ],
                    body: None,
                },
                Repository::GitLab(l) => RequestView {
                    method: Method::Get,
                    path: merge_requests_path(l.project_id as nat),
                    query: list_query(*opt, author_id),
                    body: None,
                },
            },
    {
        match self {
            Repository::GitHub(g) => g.list_request(opt),
            Repository::GitLab(l) => l.list_request(opt, author_id),
        }
    }

    /// Opening a pull request from `source_branch` into `target_branch`.
    pub fn create_request(&self, source_branch: &str, target_branch: &str, title: &str) -> (r: Request)
        ensures
            r@ == match self {
                Repository::GitHub(g) => RequestView {
                    method: Method::Post,
                    path: pulls_path(g.repo@),
                    query: seq![],
                    body: Some(Some(seq![("title"@, title@), ("head"@, source_branch@), ("base"@, target_branch@)])),
                },
                Repository::GitLab(l) => RequestView {
                    method: Method::Post,
                    path: merge_requests_path(l.project_id as nat),
                    query: seq![],
                    body: Some(
                        Some(
                            seq![
                                ("source_branch"@, source_branch@),
                                ("target_branch"@, target_branch@),
                                ("title"@, title@),
                            ],
                        ),
                    ),
                },
            },
    {
        match self {
            Repository::GitHub(g) => g.create_request(source_branch, target_branch, title),
            Repository::GitLab(l) => l.create_request(source_branch, target_branch, title),
        }
    }

    /// Closing pull request `id`.
    pub fn close_request(&self, id: u64) -> (r: Request)
        ensures
            r@ == match self {
                Repository::GitHub(g) => RequestView {
                    method: Method::Patch,
                    path: pull_path(g.repo@, id as nat),
                    query: seq![],
                    body: Some(Some(seq![("state"@, "closed"@)])),
                },
                Repository::GitLab(l) => RequestView {
                    method: Method::Put,
                    path: merge_request_path(l.project_id as nat, id as nat),
                    query: seq![],
                    body: Some(Some(seq![("state_event"@, "close"@)])),
                },
            },
    {
        match self {
            Repository::GitHub(g) => g.close_request(id),
            Repository::GitLab(l) => l.close_request(id),
        }
    }

    /// Normalises the body of a get, create or close into one pull request.
    pub fn pull_outcome(&self, v: &Value) -> (r: Result<PullRequest, Error>)
        ensures
            match self {
                Repository::GitHub(_) => r == github::pull_outcome(*v),
                Repository::GitLab(_) => match merge_request_of(*v) {
                    Some(m) => r == Ok::<PullRequest, Error>(merge_request_pull(m)),
                    None => failure_of(r, *v),
                },
            },
    {
        match self {
            Repository::GitHub(_) => github::pull_response(v),
            Repository::GitLab(_) => gitlab::merge_request_response(v),
        }
    }

    /// Normalises the body of a listing into one page; `total` is GitLab's
    /// `x-total` header, which GitHub does not need.
    pub fn list_outcome(&self, total: Option<&str>, v: &Value) -> (r: Result<PaginationResult<PullRequest>, Error>)
        ensures
            match self {
                Repository::GitHub(_) => {
                    &&& search_ok(*v) ==> (r matches Ok(page) && {
                        &&& Some(page.total) == as_u64(field(*v, "total_count"@))
                        &&& page.result@.len() == search_items(*v).len()
                        &&& forall|i: int| 0 <= i < page.result@.len()
                            ==> Some(#[trigger] page.result@[i]) == match github::pull_of(search_items(*v)[i]) {
                                Some(p) => Some(github::pull_request_of(p)),
                                None => None,
                            }
                    })
                    &&& !search_ok(*v) ==> r == match github::error_of(*v) {
                        Some((_, m)) => Err::<PaginationResult<PullRequest>, Error>(Error::ProviderApi(m)),
                        None => Err(Error::Decode),
                    }
                },
                Repository::GitLab(_) => match total {
                    None => r matches Err(Error::MissingTotal),
                    Some(t) => match decimal_u64(t@) {
                        None => r matches Err(Error::MissingTotal),
                        Some(n) => if merge_requests_ok(*v) {
                            r matches Ok(page) && {
                                &&& page.total == n
                                &&& page.result@.len() == array_items(*v).len()
                                &&& forall|i: int| 0 <= i < page.result@.len()
                                    ==> Some(#[trigger] page.result@[i]) == match merge_request_of(array_items(*v)[i]) {
                                        Some(m) => Some(merge_request_pull(m)),
                                        None => None,
                                    }
                            }
                        } else {
                            failure_of(r, *v)
                        },
                    },
                },
            },
    {
        match self {
            Repository::GitHub(_) => github::search_response(v),
            Repository::GitLab(_) => gitlab::list_response(total, v),
        }
    }
}

} // verus!
