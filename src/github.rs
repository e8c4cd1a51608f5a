//! GitHub: its pull-request payloads, how they decode and map onto the
//! canonical record, and the requests that the four operations send.

use vstd::prelude::*;
use crate::error::Error;
use crate::structs::{PaginationResult, PullRequest};
use crate::value::{Value, field, as_str, as_u64, as_bool, as_opt_str};
use crate::profile::{Profile, GitHubAuth, AuthView, github_credential, opt_view, profile_auth};
use crate::repository::ListPullRequestOpt;
use crate::request::{
    Method, Request, RequestView, decimal, decimal_text, build_query, query_text, pair, pairs_view,
    string_object, path3,
};
use crate::utils::{basic_authorization, base64_of};

verus! {

/// The author of a pull request.
pub struct User {
    pub login: String,
}

/// A branch reference (`ref` in the payload).
pub struct Ref {
    pub name: String,
}

/// A pull request as GitHub's REST API returns it.
pub struct Pull {
    pub id: u64,
    pub html_url: String,
    pub title: String,
    pub user: User,
    pub number: u64,
    pub base: Option<Ref>,
    pub head: Option<Ref>,
    pub updated_at: String,
}

/// The body of an issue search.
pub struct SearchResult<T> {
    pub total_count: u64,
    pub incomplete_results: bool,
    pub items: Vec<T>,
}

/// A decoded GitHub body: the success shape, or the error shape.
pub enum GitHubResponse<T> {
    Data(T),
    Error { error: Option<String>, message: String },
}

/// `user` decodes when it holds a string `login`.
pub open spec fn user_of(v: Option<Value>) -> Option<User> {
    match v {
        Some(u) => match as_str(field(u, "login"@)) {
            Some(login) => Some(User { login }),
            None => None,
        },
        None => None,
    }
}

/// An optional branch reference: missing or null is `Some(None)`; an object
/// with a string `ref` is `Some(Some(..))`; anything else does not decode.
pub open spec fn ref_of(v: Option<Value>) -> Option<Option<Ref>> {
    match v {
        None => Some(None),
        Some(Value::Null) => Some(None),
        Some(r) => match as_str(field(r, "ref"@)) {
            Some(name) => Some(Some(Ref { name })),
            None => None,
        },
    }
}

/// The success shape of a single pull request.
pub open spec fn pull_of(v: Value) -> Option<Pull> {
    let id = as_u64(field(v, "id"@));
    let html_url = as_str(field(v, "html_url"@));
    let title = as_str(field(v, "title"@));
    let user = user_of(field(v, "user"@));
    let number = as_u64(field(v, "number"@));
    let base = ref_of(field(v, "base"@));
    let head = ref_of(field(v, "head"@));
    let updated_at = as_str(field(v, "updated_at"@));
    if id is Some && html_url is Some && title is Some && user is Some && number is Some
        && base is Some && head is Some && updated_at is Some {
        Some(
            Pull {
                id: id->0,
                html_url: html_url->0,
                title: title->0,
                user: user->0,
                number: number->0,
                base: base->0,
                head: head->0,
                updated_at: updated_at->0,
            },
        )
    } else {
        None
    }
}

/// The error shape: a string `message` and, optionally, a string `error`.
pub open spec fn error_of(v: Value) -> Option<(Option<String>, String)> {
    let error = as_opt_str(field(v, "error"@));
    let message = as_str(field(v, "message"@));
    if error is Some && message is Some {
        Some((error->0, message->0))
    } else {
        None
    }
}

/// The branch name of an optional reference.
pub open spec fn ref_name(r: Option<Ref>) -> Option<String> {
    match r {
        Some(r) => Some(r.name),
        None => None,
    }
}

/// The canonical record of a GitHub pull request.
pub open spec fn pull_request_of(p: Pull) -> PullRequest {
    PullRequest {
        id: p.number,
        title: p.title,
        author: p.user.login,
        base: ref_name(p.base),
        head: ref_name(p.head),
        updated_at: p.updated_at,
        url: p.html_url,
    }
}

/// The outcome of a body that should hold one pull request: the success
/// shape first, then the error shape, else a decode failure.
pub open spec fn pull_outcome(v: Value) -> Result<PullRequest, Error> {
    match pull_of(v) {
        Some(p) => Ok(pull_request_of(p)),
        None => match error_of(v) {
            Some((_, message)) => Err(Error::ProviderApi(message)),
            None => Err(Error::Decode),
        },
    }
}

fn decode_user(v: Option<&Value>) -> (r: Option<User>)
    ensures
        r == user_of(match v { Some(x) => Some(*x), None => None }),
{
    match v {
        Some(u) => match u.get_str("login") {
            Some(login) => Some(User { login }),
            None => None,
        },
        None => None,
    }
}

fn decode_ref(v: Option<&Value>) -> (r: Option<Option<Ref>>)
    ensures
        r == ref_of(match v { Some(x) => Some(*x), None => None }),
{
    match v {
        None => Some(None),
        Some(Value::Null) => Some(None),
        Some(x) => match x.get_str("ref") {
            Some(name) => Some(Some(Ref { name })),
            None => None,
        },
    }
}

impl Pull {
    /// Decodes the success shape of a single pull request.
    pub fn decode(v: &Value) -> (r: Option<Pull>)
        ensures
            r == pull_of(*v),
    {
        let id = match v.get_u64("id") {
            Some(x) => x,
            None => return None,
        };
        let html_url = match v.get_str("html_url") {
            Some(x) => x,
            None => return None,
        };
        let title = match v.get_str("title") {
            Some(x) => x,
            None => return None,
        };
        let user = match decode_user(v.get("user")) {
            Some(x) => x,
            None => return None,
        };
        let number = match v.get_u64("number") {
            Some(x) => x,
            None => return None,
        };
        let base = match decode_ref(v.get("base")) {
            Some(x) => x,
            None => return None,
        };
        let head = match decode_ref(v.get("head")) {
            Some(x) => x,
            None => return None,
        };
        let updated_at = match v.get_str("updated_at") {
            Some(x) => x,
            None => return None,
        };
        Some(Pull { id, html_url, title, user, number, base, head, updated_at })
    }
}

/// The items of a search body, as the success shape would read them.
pub open spec fn search_items(v: Value) -> Seq<Value> {
    match field(v, "items"@) {
        Some(Value::Array(items)) => items@,
        _ => Seq::empty(),
    }
}

/// The success shape of an issue search: a count, a flag and an array of
/// pull requests that each decode.
pub open spec fn search_ok(v: Value) -> bool {
    &&& as_u64(field(v, "total_count"@)) is Some
    &&& as_bool(field(v, "incomplete_results"@)) is Some
    &&& field(v, "items"@) matches Some(Value::Array(_))
    &&& forall|i: int| 0 <= i < search_items(v).len() ==> (#[trigger] pull_of(search_items(v)[i])) is Some
}

impl Pull {
    /// The canonical record of this pull request.
    pub fn to_pull_request(&self) -> (r: PullRequest)
        ensures
            r == pull_request_of(*self),
    {
        PullRequest {
            id: self.number,
            title: self.title.clone(),
            author: self.user.login.clone(),
            base: match &self.base {
                Some(r) => Some(r.name.clone()),
                None => None,
            },
            head: match &self.head {
                Some(r) => Some(r.name.clone()),
                None => None,
            },
            updated_at: self.updated_at.clone(),
            url: self.html_url.clone(),
        }
    }
}

impl From<Pull> for PullRequest {
    fn from(pr: Pull) -> Self {
        PullRequest {
            id: pr.number,
            title: pr.title,
            author: pr.user.login,
            base: match pr.base {
                Some(r) => Some(r.name),
                None => None,
            },
            head: match pr.head {
                Some(r) => Some(r.name),
                None => None,
            },
            updated_at: pr.updated_at,
            url: pr.html_url,
        }
    }
}

impl vstd::std_specs::convert::FromSpecImpl<Pull> for PullRequest {
    open spec fn obeys_from_spec() -> bool {
        true
    }

    open spec fn from_spec(v: Pull) -> Self {
        pull_request_of(v)
    }
}

impl SearchResult<Pull> {
    /// Decodes the success shape of an issue search.
    pub fn decode(v: &Value) -> (r: Option<SearchResult<Pull>>)
        ensures
            r is Some <==> search_ok(*v),
            r matches Some(s) ==> {
                &&& Some(s.total_count) == as_u64(field(*v, "total_count"@))
                &&& Some(s.incomplete_results) == as_bool(field(*v, "incomplete_results"@))
                &&& s.items@.len() == search_items(*v).len()
                &&& forall|i: int| 0 <= i < s.items@.len()
                    ==> pull_of(search_items(*v)[i]) == Some(#[trigger] s.items@[i])
            },
    {
        let total_count = match v.get_u64("total_count") {
            Some(x) => x,
            None => return None,
        };
        let incomplete_results = match v.get_bool("incomplete_results") {
            Some(x) => x,
            None => return None,
        };
        let items = match v.get("items") {
            Some(Value::Array(items)) => items,
            _ => return None,
        };
        let mut pulls: Vec<Pull> = Vec::new();
        let mut i: usize = 0;
        while i < items.len()
            invariant
                i <= items@.len(),
                items@ == search_items(*v),
                pulls@.len() == i,
                forall|j: int| 0 <= j < i ==> pull_of(items@[j]) == Some(#[trigger] pulls@[j]),
            decreases items.len() - i,
        {
            match Pull::decode(&items[i]) {
                Some(p) => pulls.push(p),
                None => {
                    assert(pull_of(search_items(*v)[i as int]) is None);
                    return None;
                },
            }
            i = i + 1;
        }
        assert forall|j: int| 0 <= j < search_items(*v).len() implies (#[trigger] pull_of(
            search_items(*v)[j],
        )) is Some by {
            assert(pull_of(items@[j]) == Some(pulls@[j]));
        }
        Some(SearchResult { total_count, incomplete_results, items: pulls })
    }
}

impl PaginationResult<PullRequest> {
    /// The page of canonical records for a search result.
    pub fn from_search(result: &SearchResult<Pull>) -> (r: Self)
        ensures
            r.total == result.total_count,
            r.result@.len() == result.items@.len(),
            forall|i: int| 0 <= i < r.result@.len()
                ==> #[trigger] r.result@[i] == pull_request_of(result.items@[i]),
    {
        let mut out: Vec<PullRequest> = Vec::new();
        let mut i: usize = 0;
        while i < result.items.len()
            invariant
                i <= result.items@.len(),
                out@.len() == i,
                forall|j: int| 0 <= j < i ==> #[trigger] out@[j] == pull_request_of(result.items@[j]),
            decreases result.items.len() - i,
        {
            out.push(result.items[i].to_pull_request());
            i = i + 1;
        }
        PaginationResult::new(out, result.total_count)
    }
}

impl<T> GitHubResponse<T> {
    /// Applies `f` to the payload of a success, or turns the error shape into
    /// the provider's message.
    pub fn map<R, F>(&self, f: F) -> (r: Result<R, Error>)
        where
            F: FnOnce(&T) -> Result<R, Error>,
        requires
            match self {
                GitHubResponse::Data(d) => f.requires((d,)),
                _ => true,
            },
        ensures
            match self {
                GitHubResponse::Data(d) => f.ensures((d,), r),
                GitHubResponse::Error { message, .. } => r == Err::<R, Error>(Error::ProviderApi(*message)),
            },
    {
        match self {
            GitHubResponse::Data(d) => f(d),
            GitHubResponse::Error { message, .. } => Err(Error::ProviderApi(message.clone())),
        }
    }
}

fn decode_error<T>(v: &Value) -> (r: Option<GitHubResponse<T>>)
    ensures
        match error_of(*v) {
            Some((e, m)) => r == Some(GitHubResponse::<T>::Error { error: e, message: m }),
            None => r is None,
        },
{
    let error = match v.get_opt_str("error") {
        Some(x) => x,
        None => return None,
    };
    match v.get_str("message") {
        Some(message) => Some(GitHubResponse::Error { error, message }),
        None => None,
    }
}

impl GitHubResponse<Pull> {
    /// Decodes a body that should hold one pull request: the success shape
    /// first, then the error shape.
    pub fn decode(v: &Value) -> (r: Option<Self>)
        ensures
            match pull_of(*v) {
                Some(p) => r == Some(GitHubResponse::Data(p)),
                None => match error_of(*v) {
                    Some((e, m)) => r == Some(GitHubResponse::<Pull>::Error { error: e, message: m }),
                    None => r is None,
                },
            },
    {
        match Pull::decode(v) {
            Some(p) => Some(GitHubResponse::Data(p)),
            None => decode_error(v),
        }
    }
}

impl GitHubResponse<SearchResult<Pull>> {
    /// Decodes the body of an issue search: the success shape first, then
    /// the error shape.
    pub fn decode(v: &Value) -> (r: Option<Self>)
        ensures
            search_ok(*v) ==> r matches Some(GitHubResponse::Data(_)),
            !search_ok(*v) ==> match error_of(*v) {
                Some((e, m)) => r == Some(GitHubResponse::<SearchResult<Pull>>::Error { error: e, message: m }),
                None => r is None,
            },
            r matches Some(GitHubResponse::Data(s)) ==> {
                &&& search_ok(*v)
                &&& Some(s.total_count) == as_u64(field(*v, "total_count"@))
                &&& s.items@.len() == search_items(*v).len()
                &&& forall|i: int| 0 <= i < s.items@.len()
                    ==> pull_of(search_items(*v)[i]) == Some(#[trigger] s.items@[i])
            },
    {
        match SearchResult::<Pull>::decode(v) {
            Some(s) => Some(GitHubResponse::Data(s)),
            None => decode_error(v),
        }
    }
}

fn pull_ok(p: &Pull) -> (r: Result<PullRequest, Error>)
    ensures
        r == Ok::<PullRequest, Error>(pull_request_of(*p)),
{
    Ok(p.to_pull_request())
}

fn search_ok_page(s: &SearchResult<Pull>) -> (r: Result<PaginationResult<PullRequest>, Error>)
    ensures
        r matches Ok(page) && page.total == s.total_count
            && page.result@.len() == s.items@.len()
            && forall|i: int| 0 <= i < page.result@.len()
                ==> #[trigger] page.result@[i] == pull_request_of(s.items@[i]),
{
    Ok(PaginationResult::from_search(s))
}

/// Normalises a body that should hold one pull request.
pub fn pull_response(v: &Value) -> (r: Result<PullRequest, Error>)
    ensures
        r == pull_outcome(*v),
{
    match GitHubResponse::<Pull>::decode(v) {
        Some(resp) => resp.map(pull_ok),
        None => Err(Error::Decode),
    }
}

/// Normalises the body of an issue search into a page of canonical records.
pub fn search_response(v: &Value) -> (r: Result<PaginationResult<PullRequest>, Error>)
    ensures
        search_ok(*v) ==> (r matches Ok(page) && {
            &&& Some(page.total) == as_u64(field(*v, "total_count"@))
            &&& page.result@.len() == search_items(*v).len()
            &&& forall|i: int| 0 <= i < page.result@.len()
                ==> Some(#[trigger] page.result@[i]) == match pull_of(search_items(*v)[i]) {
                    Some(p) => Some(pull_request_of(p)),
                    None => None,
                }
        }),
        !search_ok(*v) ==> r == match error_of(*v) {
            Some((_, m)) => Err::<PaginationResult<PullRequest>, Error>(Error::ProviderApi(m)),
            None => Err(Error::Decode),
        },
{
    match GitHubResponse::<SearchResult<Pull>>::decode(v) {
        Some(resp) => resp.map(search_ok_page),
        None => Err(Error::Decode),
    }
}

/// A body in the success shape of a pull request normalises to a record
/// whose id is the payload's `number` and whose URL is its `html_url`.
pub proof fn law_pull_mapping(v: Value)
    requires
        pull_of(v) is Some,
    ensures
        pull_outcome(v) matches Ok(pr) && Some(pr.id) == as_u64(field(v, "number"@)) && Some(pr.url)
            == as_str(field(v, "html_url"@)),
{
}

/// A GitHub repository (`owner/name`) and the credentials to reach it.
pub struct GitHubRepository {
    pub repo: String,
    pub auth: GitHubAuth,
}

/// The author a search filters on: `@me` when asked for the caller's own,
/// else the given author, if any.
pub open spec fn author_filter(opt: ListPullRequestOpt) -> Option<Seq<char>> {
    if opt.me {
        Some("@me"@)
    } else {
        opt_view(opt.author)
    }
}

/// The terms of the search for open pull requests of `repo`.
pub open spec fn search_terms(repo: Seq<char>, opt: ListPullRequestOpt) -> Seq<(Seq<char>, Seq<char>)> {
    let base = seq![("is"@, "pr"@), ("is"@, "open"@), ("repo"@, repo)];
    match author_filter(opt) {
        Some(a) => base.push(("author"@, a)),
        None => base,
    }
}

/// The path of the pull requests of `repo`.
pub open spec fn pulls_path(repo: Seq<char>) -> Seq<char> {
    "/repos/"@ + repo + "/pulls"@
}

/// The path of pull request `id` of `repo`.
pub open spec fn pull_path(repo: Seq<char>, id: nat) -> Seq<char> {
    "/repos/"@ + repo + "/pulls/"@ + decimal_text(id)
}

/// The `Authorization` header value for a credential.
pub open spec fn authorization_of(auth: GitHubAuth) -> Seq<char> {
    match auth {
        GitHubAuth::OAuth(t) => "token "@ + t@,
        GitHubAuth::Basic { username, token } => "Basic "@ + base64_of(username@ + ":"@ + token@),
    }
}

impl GitHubRepository {
    /// The repository `full_name` with the profile's GitHub credentials.
    pub fn init(full_name: &str, profile: &Profile) -> (r: Result<Self, Error>)
        ensures
            match r {
                Ok(gr) => gr.repo@ == full_name@ && profile_auth(profile@) == Ok::<AuthView, Error>(gr.auth@),
                Err(e) => profile_auth(profile@) == Err::<AuthView, Error>(e),
            },
    {
        match github_credential(profile) {
            Ok(auth) => Ok(GitHubRepository { repo: String::from_str(full_name), auth }),
            Err(e) => Err(e),
        }
    }

    /// The headers every request carries: the API media type, the tool's
    /// user agent and the credentials.
    pub fn headers(&self, version: &str) -> (r: Vec<(String, String)>)
        ensures
            pairs_view(r@) == seq![
                ("Accept"@, "application/vnd.github.v3+json"@),
                ("User-Agent"@, "yag/"@ + version@),
                ("Authorization"@, authorization_of(self.auth)),
            ],
    {
        let mut agent = String::from_str("yag/");
        agent.append(version);
        let auth = match &self.auth {
            GitHubAuth::OAuth(t) => {
                let mut a = String::from_str("token ");
                a.append(t.as_str());
                a
            },
            GitHubAuth::Basic { username, token } => basic_authorization(username.as_str(), token.as_str()),
        };
        let r = vec![
            pair("Accept", "application/vnd.github.v3+json"),
            (String::from_str("User-Agent"), agent),
            (String::from_str("Authorization"), auth),
        ];
        assert(pairs_view(r@) =~= seq![
            ("Accept"@, "application/vnd.github.v3+json"@),
            ("User-Agent"@, "yag/"@ + version@),
            ("Authorization"@, authorization_of(self.auth)),
        ]);
        r
    }

    fn pull_path(&self, id: u64) -> (r: String)
        ensures
            r@ == pull_path(self.repo@, id as nat),
    {
        let d = decimal(id);
        path3("/repos/", self.repo.as_str(), "/pulls/").concat(d.as_str())
    }

    /// A GraphQL query with its variables, posted as `{query, variables}`.
    pub fn graphql(&self, query: &str, variables: Value) -> (r: Request)
        ensures
            r.method == Method::Post,
            r.path@ == "/graphql"@,
            r.query@.len() == 0,
            r.body matches Some(Value::Object(fs)) && fs@.len() == 2 && fs@[0].0@ == "query"@
                && (fs@[0].1 matches Value::Str(q) && q@ == query@) && fs@[1].0@ == "variables"@
                && fs@[1].1 == variables,
    {
        let fs = vec![
            (String::from_str("query"), Value::Str(String::from_str(query))),
            (String::from_str("variables"), variables),
        ];
        Request {
            method: Method::Post,
            path: String::from_str("/graphql"),
            query: Vec::new(),
            body: Some(Value::Object(fs)),
        }
    }

    /// Fetching one pull request.
    pub fn get_request(&self, id: u64) -> (r: Request)
        ensures
            r@ == (RequestView {
                method: Method::Get,
                path: pull_path(self.repo@, id as nat),
                query: seq![],
                body: None,
            }),
    {
        let r = Request { method: Method::Get, path: self.pull_path(id), query: Vec::new(), body: None };
        assert(r@.query =~= seq![]);
        r
    }

    /// Writes `key:value` pairs as a search query.
    pub fn build_query(&self, pairs: &Vec<(String, String)>) -> (r: String)
        ensures
            r@ == query_text(pairs_view(pairs@)),
    {
        build_query(pairs)
    }

    /// Searching the open pull requests of this repository, ten a page,
    /// filtered by author as `author_filter` says.
    pub fn list_request(&self, opt: &ListPullRequestOpt) -> (r: Request)
        ensures
            r@ == (RequestView {
                method: Method::Get,
                path: "/search/issues"@,
                query: seq![
                    ("per_page"@, "10"@),
                    ("page"@, decimal_text(opt.page_or_zero() as nat)),
                    ("q"@, query_text(search_terms(self.repo@, *opt))),
                ],
                body: None,
            }),
    {
        let mut pairs: Vec<(String, String)> = vec![
            pair("is", "pr"),
            pair("is", "open"),
            pair("repo", self.repo.as_str()),
        ];
        if opt.me {
            pairs.push(pair("author", "@me"));
        } else {
            match &opt.author {
                Some(a) => pairs.push(pair("author", a.as_str())),
                None => {},
            }
        }
        assert(pairs_view(pairs@) =~= search_terms(self.repo@, *opt));
        let q = self.build_query(&pairs);
        let page = decimal(opt.get_page() as u64);
        let query = vec![
            pair("per_page", "10"),
            (String::from_str("page"), page),
            (String::from_str("q"), q),
        ];
        let r = Request {
            method: Method::Get,
            path: String::from_str("/search/issues"),
            query,
            body: None,
        };
        assert(r@.query =~= seq![
            ("per_page"@, "10"@),
            ("page"@, decimal_text(opt.page_or_zero() as nat)),
            ("q"@, query_text(search_terms(self.repo@, *opt))),
        ]);
        r
    }

    /// Opening a pull request from `source_branch` into `target_branch`.
    pub fn create_request(&self, source_branch: &str, target_branch: &str, title: &str) -> (r: Request)
        ensures
            r@ == (RequestView {
                method: Method::Post,
                path: pulls_path(self.repo@),
                query: seq![],
                body: Some(Some(seq![("title"@, title@), ("head"@, source_branch@), ("base"@, target_branch@)])),
            }),
    {
        let fields = vec![pair("title", title), pair("head", source_branch), pair("base", target_branch)];
        assert(pairs_view(fields@) =~= seq![("title"@, title@), ("head"@, source_branch@), ("base"@, target_branch@)]);
        let r = Request {
            method: Method::Post,
            path: path3("/repos/", self.repo.as_str(), "/pulls"),
            query: Vec::new(),
            body: Some(string_object(fields)),
        };
        assert(r@.query =~= seq![]);
        r
    }

    /// Closing pull request `id`.
    pub fn close_request(&self, id: u64) -> (r: Request)
        ensures
            r@ == (RequestView {
                method: Method::Patch,
                path: pull_path(self.repo@, id as nat),
                query: seq![],
                body: Some(Some(seq![("state"@, "closed"@)])),
            }),
    {
        let fields = vec![pair("state", "closed")];
        assert(pairs_view(fields@) =~= seq![("state"@, "closed"@)]);
        let r = Request {
            method: Method::Patch,
            path: self.pull_path(id),
            query: Vec::new(),
            body: Some(string_object(fields)),
        };
        assert(r@.query =~= seq![]);
        r
    }
}

} // verus!
