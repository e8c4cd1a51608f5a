//! GitLab (self-hosted): its merge-request payloads, how they decode and map
//! onto the canonical record, and how its error bodies become one message.

use vstd::prelude::*;
use crate::error::Error;
use crate::structs::{PaginationResult, PullRequest};
use crate::text::{join_lines, strings_of, views, join_strings, parse_u64, decimal_u64};
use crate::value::{Value, field, as_str, as_u64, as_opt_str};
use crate::repository::ListPullRequestOpt;
use crate::request::{Method, Request, RequestView, decimal, decimal_text, pair, pairs_view, string_object, path3};
use crate::utils::{url_encode, url_encoded};

verus! {

/// A GitLab account.
pub struct User {
    pub id: u64,
    pub name: String,
    pub username: String,
}

/// The part of a project lookup that the library reads.
pub struct Project {
    pub id: u64,
}

/// A merge request as GitLab's REST API returns it.
pub struct MergeRequest {
    pub id: u64,
    pub iid: u64,
    pub project_id: u64,
    pub title: String,
    pub description: Option<String>,
    pub state: String,
    pub created_at: String,
    pub updated_at: String,
    pub target_branch: String,
    pub source_branch: String,
    pub author: User,
    pub web_url: String,
}

/// A `message` member that reads as text: one string, or the strings of an
/// array (its other elements skipped).
pub enum Message {
    Text(String),
    Lines(Vec<String>),
}

/// A decoded GitLab body: the success shape, or the error shape.
pub enum GitLabResponse<T> {
    Data(T),
    Error { error: Option<Vec<String>>, message: Option<Message> },
}

pub open spec fn user_of(v: Value) -> Option<User> {
    let id = as_u64(field(v, "id"@));
    let name = as_str(field(v, "name"@));
    let username = as_str(field(v, "username"@));
    if id is Some && name is Some && username is Some {
        Some(User { id: id->0, name: name->0, username: username->0 })
    } else {
        None
    }
}

/// The success shape of one merge request.
pub open spec fn merge_request_of(v: Value) -> Option<MergeRequest> {
    let id = as_u64(field(v, "id"@));
    let iid = as_u64(field(v, "iid"@));
    let project_id = as_u64(field(v, "project_id"@));
    let title = as_str(field(v, "title"@));
    let description = as_opt_str(field(v, "description"@));
    let state = as_str(field(v, "state"@));
    let created_at = as_str(field(v, "created_at"@));
    let updated_at = as_str(field(v, "updated_at"@));
    let target_branch = as_str(field(v, "target_branch"@));
    let source_branch = as_str(field(v, "source_branch"@));
    let author = match field(v, "author"@) {
        Some(a) => user_of(a),
        None => None,
    };
    let web_url = as_str(field(v, "web_url"@));
    if id is Some && iid is Some && project_id is Some && title is Some && description is Some
        && state is Some && created_at is Some && updated_at is Some && target_branch is Some
        && source_branch is Some && author is Some && web_url is Some {
        Some(
            MergeRequest {
                id: id->0,
                iid: iid->0,
                project_id: project_id->0,
                title: title->0,
                description: description->0,
                state: state->0,
                created_at: created_at->0,
                updated_at: updated_at->0,
                target_branch: target_branch->0,
                source_branch: source_branch->0,
                author: author->0,
                web_url: web_url->0,
            },
        )
    } else {
        None
    }
}

/// The error shape: an object whose `error`, if present and not null, is an
/// array of strings. Its `message` may be anything.
pub open spec fn error_shape(v: Value) -> bool {
    &&& v is Object
    &&& match field(v, "error"@) {
        None => true,
        Some(Value::Null) => true,
        Some(Value::Array(es)) => forall|i: int| 0 <= i < es@.len() ==> (#[trigger] es@[i]) is Str,
        _ => false,
    }
}

/// The one message of an error body: `message` as a string, else the strings
/// of a `message` array joined by newlines, else the `error` array joined by
/// newlines, else `unknown error`.
pub open spec fn error_message(v: Value) -> Seq<char> {
    match field(v, "message"@) {
        Some(Value::Str(m)) => m@,
        Some(Value::Array(ms)) => join_lines(strings_of(ms@)),
        _ => match field(v, "error"@) {
            Some(Value::Array(es)) => join_lines(strings_of(es@)),
            _ => "unknown error"@,
        },
    }
}

/// The text that a decoded error shape stands for.
pub open spec fn message_text(error: Option<Vec<String>>, message: Option<Message>) -> Seq<char> {
    match message {
        Some(Message::Text(m)) => m@,
        Some(Message::Lines(ls)) => join_lines(views(ls@)),
        None => match error {
            Some(es) => join_lines(views(es@)),
            None => "unknown error"@,
        },
    }
}

/// The canonical record of a merge request.
pub open spec fn merge_request_pull(m: MergeRequest) -> PullRequest {
    PullRequest {
        id: m.iid,
        title: m.title,
        author: m.author.username,
        base: Some(m.target_branch),
        head: Some(m.source_branch),
        updated_at: m.updated_at,
        url: m.web_url,
    }
}

/// `r` is what an error body `v` (one that is no success) normalises to.
pub open spec fn failure_of<T>(r: Result<T, Error>, v: Value) -> bool {
    if error_shape(v) {
        r matches Err(Error::ProviderApi(m)) && m@ == error_message(v)
    } else {
        r matches Err(Error::Decode)
    }
}

/// The elements of a body that is an array.
pub open spec fn array_items(v: Value) -> Seq<Value> {
    match v {
        Value::Array(items) => items@,
        _ => Seq::empty(),
    }
}

/// The success shape of a list of merge requests.
pub open spec fn merge_requests_ok(v: Value) -> bool {
    &&& v is Array
    &&& forall|i: int| 0 <= i < array_items(v).len() ==> (#[trigger] merge_request_of(array_items(v)[i])) is Some
}

/// The success shape of a list of users.
pub open spec fn users_ok(v: Value) -> bool {
    &&& v is Array
    &&& forall|i: int| 0 <= i < array_items(v).len() ==> (#[trigger] user_of(array_items(v)[i])) is Some
}

/// The strings among `vs`, in order.
pub fn string_values(vs: &Vec<Value>) -> (r: Vec<String>)
    ensures
        views(r@) == strings_of(vs@),
{
    let mut out: Vec<String> = Vec::new();
    let mut i: usize = 0;
    while i < vs.len()
        invariant
            i <= vs@.len(),
            views(out@) == strings_of(vs@.subrange(0, i as int)),
        decreases vs.len() - i,
    {
        assert(vs@.subrange(0, i + 1).drop_last() == vs@.subrange(0, i as int));
        match &vs[i] {
            Value::Str(s) => {
                let ghost before = out@;
                out.push(s.clone());
                assert(views(out@) == views(before).push(s@));
            },
            _ => {},
        }
        i = i + 1;
    }
    assert(vs@.subrange(0, vs@.len() as int) == vs@);
    out
}

fn all_strings(vs: &Vec<Value>) -> (r: bool)
    ensures
        r == forall|i: int| 0 <= i < vs@.len() ==> (#[trigger] vs@[i]) is Str,
{
    let mut i: usize = 0;
    while i < vs.len()
        invariant
            i <= vs@.len(),
            forall|j: int| 0 <= j < i ==> (#[trigger] vs@[j]) is Str,
        decreases vs.len() - i,
    {
        match &vs[i] {
            Value::Str(_) => {},
            _ => return false,
        }
        i = i + 1;
    }
    true
}

fn decode_user(v: &Value) -> (r: Option<User>)
    ensures
        r == user_of(*v),
{
    let id = match v.get_u64("id") {
        Some(x) => x,
        None => return None,
    };
    let name = match v.get_str("name") {
        Some(x) => x,
        None => return None,
    };
    let username = match v.get_str("username") {
        Some(x) => x,
        None => return None,
    };
    Some(User { id, name, username })
}

impl MergeRequest {
    /// Decodes the success shape of one merge request.
    pub fn decode(v: &Value) -> (r: Option<MergeRequest>)
        ensures
            r == merge_request_of(*v),
    {
        let id = match v.get_u64("id") {
            Some(x) => x,
            None => return None,
        };
        let iid = match v.get_u64("iid") {
            Some(x) => x,
            None => return None,
        };
        let project_id = match v.get_u64("project_id") {
            Some(x) => x,
            None => return None,
        };
        let title = match v.get_str("title") {
            Some(x) => x,
            None => return None,
        };
        let description = match v.get_opt_str("description") {
            Some(x) => x,
            None => return None,
        };
        let state = match v.get_str("state") {
            Some(x) => x,
            None => return None,
        };
        let created_at = match v.get_str("created_at") {
            Some(x) => x,
            None => return None,
        };
        let updated_at = match v.get_str("updated_at") {
            Some(x) => x,
            None => return None,
        };
        let target_branch = match v.get_str("target_branch") {
            Some(x) => x,
            None => return None,
        };
        let source_branch = match v.get_str("source_branch") {
            Some(x) => x,
            None => return None,
        };
        let author = match v.get("author") {
            Some(a) => match decode_user(a) {
                Some(u) => u,
                None => return None,
            },
            None => return None,
        };
        let web_url = match v.get_str("web_url") {
            Some(x) => x,
            None => return None,
        };
        Some(
            MergeRequest {
                id,
                iid,
                project_id,
                title,
                description,
                state,
                created_at,
                updated_at,
                target_branch,
                source_branch,
                author,
                web_url,
            },
        )
    }

    /// The canonical record of this merge request.
    pub fn to_pull_request(&self) -> (r: PullRequest)
        ensures
            r == merge_request_pull(*self),
    {
        PullRequest {
            id: self.iid,
            title: self.title.clone(),
            author: self.author.username.clone(),
            base: Some(self.target_branch.clone()),
            head: Some(self.source_branch.clone()),
            updated_at: self.updated_at.clone(),
            url: self.web_url.clone(),
        }
    }
}

impl From<MergeRequest> for PullRequest {
    fn from(mr: MergeRequest) -> Self {
        PullRequest {
            id: mr.iid,
            title: mr.title,
            author: mr.author.username,
            base: Some(mr.target_branch),
            head: Some(mr.source_branch),
            updated_at: mr.updated_at,
            url: mr.web_url,
        }
    }
}

impl vstd::std_specs::convert::FromSpecImpl<MergeRequest> for PullRequest {
    open spec fn obeys_from_spec() -> bool {
        true
    }

    open spec fn from_spec(v: MergeRequest) -> Self {
        merge_request_pull(v)
    }
}

impl<T> GitLabResponse<T> {
    /// The one message this error shape stands for; see `error_message`.
    pub fn error_text(error: &Option<Vec<String>>, message: &Option<Message>) -> (r: String)
        ensures
            r@ == message_text(*error, *message),
    {
        match message {
            Some(Message::Text(m)) => m.clone(),
            Some(Message::Lines(ls)) => join_strings(ls),
            None => match error {
                Some(es) => join_strings(es),
                None => String::from_str("unknown error"),
            },
        }
    }

    /// Applies `f` to the payload of a success, or turns the error shape into
    /// its one message.
    pub fn map<R, F>(&self, f: F) -> (r: Result<R, Error>)
        where
            F: FnOnce(&T) -> Result<R, Error>,
        requires
            match self {
                GitLabResponse::Data(d) => f.requires((d,)),
                _ => true,
            },
        ensures
            match self {
                GitLabResponse::Data(d) => f.ensures((d,), r),
                GitLabResponse::Error { error, message } => r matches Err(Error::ProviderApi(m))
                    && m@ == message_text(*error, *message),
            },
    {
        match self {
            GitLabResponse::Data(d) => f(d),
            GitLabResponse::Error { error, message } => Err(
                Error::ProviderApi(Self::error_text(error, message)),
            ),
        }
    }

    /// Decodes the error shape.
    pub fn decode_error(v: &Value) -> (r: Option<Self>)
        ensures
            r is Some <==> error_shape(*v),
            r matches Some(GitLabResponse::Error { error, message }) ==> message_text(error, message)
                == error_message(*v),
            r matches Some(resp) ==> resp is Error,
    {
        if !v.is_object() {
            return None;
        }
        let error: Option<Vec<String>> = match v.get("error") {
            None => None,
            Some(Value::Null) => None,
            Some(Value::Array(es)) => {
                if !all_strings(es) {
                    return None;
                }
                Some(string_values(es))
            },
            _ => return None,
        };
        let message: Option<Message> = match v.get("message") {
            Some(Value::Str(m)) => Some(Message::Text(m.clone())),
            Some(Value::Array(ms)) => Some(Message::Lines(string_values(ms))),
            _ => None,
        };
        Some(GitLabResponse::Error { error, message })
    }
}

impl GitLabResponse<MergeRequest> {
    /// Decodes a body that should hold one merge request: the success shape
    /// first, then the error shape.
    pub fn decode(v: &Value) -> (r: Option<Self>)
        ensures
            match merge_request_of(*v) {
                Some(m) => r == Some(GitLabResponse::Data(m)),
                None => {
                    &&& r is Some <==> error_shape(*v)
                    &&& r matches Some(GitLabResponse::Error { error, message })
                        ==> message_text(error, message) == error_message(*v)
                    &&& r matches Some(resp) ==> resp is Error
                },
            },
    {
        match MergeRequest::decode(v) {
            Some(m) => Some(GitLabResponse::Data(m)),
            None => Self::decode_error(v),
        }
    }
}

impl GitLabResponse<Vec<MergeRequest>> {
    /// Decodes a body that should hold a list of merge requests: the success
    /// shape first, then the error shape.
    pub fn decode(v: &Value) -> (r: Option<Self>)
        ensures
            merge_requests_ok(*v) ==> r matches Some(GitLabResponse::Data(_)),
            r matches Some(GitLabResponse::Data(ms)) ==> {
                &&& merge_requests_ok(*v)
                &&& ms@.len() == array_items(*v).len()
                &&& forall|i: int| 0 <= i < ms@.len()
                    ==> merge_request_of(array_items(*v)[i]) == Some(#[trigger] ms@[i])
            },
            !merge_requests_ok(*v) ==> {
                &&& r is Some <==> error_shape(*v)
                &&& r matches Some(GitLabResponse::Error { error, message })
                    ==> message_text(error, message) == error_message(*v)
            },
    {
        let items = match v {
            Value::Array(items) => items,
            _ => return Self::decode_error(v),
        };
        let mut out: Vec<MergeRequest> = Vec::new();
        let mut i: usize = 0;
        while i < items.len()
            invariant
                i <= items@.len(),
                items@ == array_items(*v),
                out@.len() == i,
                forall|j: int| 0 <= j < i ==> merge_request_of(items@[j]) == Some(#[trigger] out@[j]),
            decreases items.len() - i,
        {
            match MergeRequest::decode(&items[i]) {
                Some(m) => out.push(m),
                None => {
                    assert(merge_request_of(array_items(*v)[i as int]) is None);
                    return Self::decode_error(v);
                },
            }
            i = i + 1;
        }
        assert forall|j: int| 0 <= j < array_items(*v).len() implies (#[trigger] merge_request_of(
            array_items(*v)[j],
        )) is Some by {
            assert(merge_request_of(items@[j]) == Some(out@[j]));
        }
        Some(GitLabResponse::Data(out))
    }
}

impl GitLabResponse<Vec<User>> {
    /// Decodes a body that should hold a list of users: the success shape
    /// first, then the error shape.
    pub fn decode(v: &Value) -> (r: Option<Self>)
        ensures
            users_ok(*v) ==> r matches Some(GitLabResponse::Data(_)),
            r matches Some(GitLabResponse::Data(us)) ==> {
                &&& users_ok(*v)
                &&& us@.len() == array_items(*v).len()
                &&& forall|i: int| 0 <= i < us@.len()
                    ==> user_of(array_items(*v)[i]) == Some(#[trigger] us@[i])
            },
            !users_ok(*v) ==> {
                &&& r is Some <==> error_shape(*v)
                &&& r matches Some(GitLabResponse::Error { error, message })
                    ==> message_text(error, message) == error_message(*v)
            },
    {
        let items = match v {
            Value::Array(items) => items,
            _ => return Self::decode_error(v),
        };
        let mut out: Vec<User> = Vec::new();
        let mut i: usize = 0;
        while i < items.len()
            invariant
                i <= items@.len(),
                items@ == array_items(*v),
                out@.len() == i,
                forall|j: int| 0 <= j < i ==> user_of(items@[j]) == Some(#[trigger] out@[j]),
            decreases items.len() - i,
        {
            match decode_user(&items[i]) {
                Some(u) => out.push(u),
                None => {
                    assert(user_of(array_items(*v)[i as int]) is None);
                    return Self::decode_error(v);
                },
            }
            i = i + 1;
        }
        assert forall|j: int| 0 <= j < array_items(*v).len() implies (#[trigger] user_of(
            array_items(*v)[j],
        )) is Some by {
            assert(user_of(items@[j]) == Some(out@[j]));
        }
        Some(GitLabResponse::Data(out))
    }
}

fn merge_request_ok(m: &MergeRequest) -> (r: Result<PullRequest, Error>)
    ensures
        r == Ok::<PullRequest, Error>(merge_request_pull(*m)),
{
    Ok(m.to_pull_request())
}

fn merge_requests_page(ms: &Vec<MergeRequest>) -> (r: Result<Vec<PullRequest>, Error>)
    ensures
        r matches Ok(prs) && prs@.len() == ms@.len() && forall|i: int| 0 <= i < prs@.len()
            ==> #[trigger] prs@[i] == merge_request_pull(ms@[i]),
{
    let mut out: Vec<PullRequest> = Vec::new();
    let mut i: usize = 0;
    while i < ms.len()
        invariant
            i <= ms@.len(),
            out@.len() == i,
            forall|j: int| 0 <= j < i ==> #[trigger] out@[j] == merge_request_pull(ms@[j]),
        decreases ms.len() - i,
    {
        out.push(ms[i].to_pull_request());
        i = i + 1;
    }
    Ok(out)
}

fn first_user(us: &Vec<User>) -> (r: Result<User, Error>)
    ensures
        us@.len() == 0 ==> r matches Err(Error::EmptyResponse),
        us@.len() > 0 ==> (r matches Ok(u) && u.id == us@[0].id && u.name == us@[0].name
            && u.username == us@[0].username),
{
    if us.len() == 0 {
        Err(Error::EmptyResponse)
    } else {
        Ok(User { id: us[0].id, name: us[0].name.clone(), username: us[0].username.clone() })
    }
}

/// Normalises a body that should hold one merge request.
pub fn merge_request_response(v: &Value) -> (r: Result<PullRequest, Error>)
    ensures
        match merge_request_of(*v) {
            Some(m) => r == Ok::<PullRequest, Error>(merge_request_pull(m)),
            None => failure_of(r, *v),
        },
{
    match GitLabResponse::<MergeRequest>::decode(v) {
        Some(resp) => resp.map(merge_request_ok),
        None => Err(Error::Decode),
    }
}

/// Normalises one page of merge requests. The total comes from the
/// response's `x-total` header, read before the body: a missing or
/// non-numeric header fails the list whatever the body holds.
pub fn list_response(total: Option<&str>, v: &Value) -> (r: Result<PaginationResult<PullRequest>, Error>)
    ensures
        match total {
            None => r matches Err(Error::MissingTotal),
            Some(t) => match decimal_u64(t@) {
                None => r matches Err(Error::MissingTotal),
                Some(n) => if merge_requests_ok(*v) {
                    r matches Ok(page) && {
                        &&& page.total == n
                        &&& page.result@.len() == array_items(*v).len()
                        &&& forall|i: int| 0 <= i < page.result@.len()
                            ==> Some(#[trigger] page.result@[i]) == match merge_request_of(array_items(*v)[i]) {
                                Some(m) => Some(merge_request_pull(m)),
                                None => None,
                            }
                    }
                } else {
                    failure_of(r, *v)
                },
            },
        },
{
    let n = match total {
        Some(t) => match parse_u64(t) {
            Some(n) => n,
            None => return Err(Error::MissingTotal),
        },
        None => return Err(Error::MissingTotal),
    };
    match GitLabResponse::<Vec<MergeRequest>>::decode(v) {
        Some(resp) => match resp.map(merge_requests_page) {
            Ok(prs) => Ok(PaginationResult::new(prs, n)),
            Err(e) => Err(e),
        },
        None => Err(Error::Decode),
    }
}

/// Normalises the body of a user lookup into the first user found.
pub fn user_response(v: &Value) -> (r: Result<User, Error>)
    ensures
        users_ok(*v) && array_items(*v).len() == 0 ==> r matches Err(Error::EmptyResponse),
        users_ok(*v) && array_items(*v).len() > 0 ==> (r matches Ok(u)
            && user_of(array_items(*v)[0]) == Some(u)),
        !users_ok(*v) ==> failure_of(r, *v),
{
    match GitLabResponse::<Vec<User>>::decode(v) {
        Some(resp) => resp.map(first_user),
        None => Err(Error::Decode),
    }
}

/// The numeric id of a project from the body of a project lookup.
pub fn project_response(v: &Value) -> (r: Result<u64, Error>)
    ensures
        r == match as_u64(field(*v, "id"@)) {
            Some(id) => Ok::<u64, Error>(id),
            None => Err(Error::Decode),
        },
{
    match v.get_u64("id") {
        Some(id) => Ok(id),
        None => Err(Error::Decode),
    }
}

/// A body in the success shape of a merge request normalises to a record
/// whose id is the payload's `iid` and whose URL is its `web_url`.
pub proof fn law_merge_request_mapping(v: Value)
    requires
        merge_request_of(v) is Some,
    ensures
        Some(merge_request_pull(merge_request_of(v)->0).id) == as_u64(field(v, "iid"@)),
        Some(merge_request_pull(merge_request_of(v)->0).url) == as_str(field(v, "web_url"@)),
{
}

/// A GitLab project on a self-hosted instance, with the token to reach it,
/// before its numeric id is known.
pub struct GitLabProject {
    pub host: String,
    pub token: String,
    pub full_name: String,
}

/// A GitLab project with its numeric id, ready for the four operations.
pub struct GitLabRepository {
    pub host: String,
    pub token: String,
    pub project_id: u64,
}

/// The path of the merge requests of project `pid`.
pub open spec fn merge_requests_path(pid: nat) -> Seq<char> {
    "/api/v4/projects/"@ + decimal_text(pid) + "/merge_requests"@
}

/// The path of merge request `id` of project `pid`.
pub open spec fn merge_request_path(pid: nat, id: nat) -> Seq<char> {
    merge_requests_path(pid) + "/"@ + decimal_text(id)
}

/// The query of a merge-request listing: open ones, ten a page, and either
/// only the caller's own (when asked; this takes precedence) or those by the
/// author whose id a user lookup found.
pub open spec fn list_query(opt: ListPullRequestOpt, author_id: Option<u64>) -> Seq<(Seq<char>, Seq<char>)> {
    let base = seq![("state"@, "opened"@), ("per_page"@, "10"@), ("page"@, decimal_text(opt.page_or_zero() as nat))];
    if opt.me {
        base.push(("scope"@, "created-by-me"@))
    } else {
        match author_id {
            Some(id) => base.push(("author_id"@, decimal_text(id as nat))),
            None => base,
        }
    }
}

/// The base URL of the API of `host`.
pub fn base_url(host: &str) -> (r: String)
    ensures
        r@ == "https://"@ + host@,
{
    let mut s = String::from_str("https://");
    s.append(host);
    s
}

/// The header that carries a GitLab token.
pub fn token_headers(token: &str) -> (r: Vec<(String, String)>)
    ensures
        pairs_view(r@) == seq![("Private-Token"@, token@)],
{
    let r = vec![pair("Private-Token", token)];
    assert(pairs_view(r@) =~= seq![("Private-Token"@, token@)]);
    r
}

impl GitLabProject {
    /// Looking up the project by its URL-encoded `owner/name` path.
    pub fn project_request(&self) -> (r: Request)
        ensures
            r@ == (RequestView {
                method: Method::Get,
                path: "/api/v4/projects/"@ + url_encoded(self.full_name@),
                query: seq![],
                body: None,
            }),
    {
        let encoded = url_encode(self.full_name.as_str());
        let r = Request {
            method: Method::Get,
            path: String::from_str("/api/v4/projects/").concat(encoded.as_str()),
            query: Vec::new(),
            body: None,
        };
        assert(r@.query =~= seq![]);
        r
    }
}

impl GitLabRepository {
    /// The project once its numeric id is known; the id is kept for the
    /// client's lifetime.
    pub fn init(project: GitLabProject, project_id: u64) -> (r: Self)
        ensures
            r.host == project.host,
            r.token == project.token,
            r.project_id == project_id,
    {
        GitLabRepository { host: project.host, token: project.token, project_id }
    }

    fn merge_requests_path(&self) -> (r: String)
        ensures
            r@ == merge_requests_path(self.project_id as nat),
    {
        let pid = decimal(self.project_id);
        path3("/api/v4/projects/", pid.as_str(), "/merge_requests")
    }

    fn merge_request_path(&self, id: u64) -> (r: String)
        ensures
            r@ == merge_request_path(self.project_id as nat, id as nat),
    {
        let d = decimal(id);
        let mut p = self.merge_requests_path();
        p.append("/");
        p.append(d.as_str());
        p
    }

    /// Fetching one merge request.
    pub fn get_request(&self, id: u64) -> (r: Request)
        ensures
            r@ == (RequestView {
                method: Method::Get,
                path: merge_request_path(self.project_id as nat, id as nat),
                query: seq![],
                body: None,
            }),
    {
        let r = Request { method: Method::Get, path: self.merge_request_path(id), query: Vec::new(), body: None };
        assert(r@.query =~= seq![]);
        r
    }

    /// Looking up a user by username, to filter a listing by author.
    pub fn user_request(&self, username: &str) -> (r: Request)
        ensures
            r@ == (RequestView {
                method: Method::Get,
                path: "/api/users"@,
                query: seq![("username"@, username@)],
                body: None,
            }),
    {
        let query = vec![pair("username", username)];
        let r = Request { method: Method::Get, path: String::from_str("/api/users"), query, body: None };
        assert(r@.query =~= seq![("username"@, username@)]);
        r
    }

    /// Listing open merge requests as `list_query` says; `author_id` is the
    /// id a user lookup found for `opt.author`, and is not used when
    /// `opt.me` is set.
    pub fn list_request(&self, opt: &ListPullRequestOpt, author_id: Option<u64>) -> (r: Request)
        ensures
            r@ == (RequestView {
                method: Method::Get,
                path: merge_requests_path(self.project_id as nat),
                query: list_query(*opt, author_id),
                body: None,
            }),
    {
        let page = decimal(opt.get_page() as u64);
        let mut query = vec![pair("state", "opened"), pair("per_page", "10"), (String::from_str("page"), page)];
        if opt.me {
            query.push(pair("scope", "created-by-me"));
        } else {
            match author_id {
                Some(id) => {
                    let d = decimal(id);
                    query.push((String::from_str("author_id"), d));
                },
                None => {},
            }
        }
        let r = Request { method: Method::Get, path: self.merge_requests_path(), query, body: None };
        assert(r@.query =~= list_query(*opt, author_id));
        r
    }

    /// Opening a merge request from `source_branch` into `target_branch`.
    pub fn create_request(&self, source_branch: &str, target_branch: &str, title: &str) -> (r: Request)
        ensures
            r@ == (RequestView {
                method: Method::Post,
                path: merge_requests_path(self.project_id as nat),
                query: seq![],
                body: Some(
                    Some(
                        seq![
                            ("source_branch"@, source_branch@),
                            ("target_branch"@, target_branch@),
                            ("title"@, title@),
                        ],
                    ),
                ),
            }),
    {
        let fields = vec![
            pair("source_branch", source_branch),
            pair("target_branch", target_branch),
            pair("title", title),
        ];
        assert(pairs_view(fields@) =~= seq![
            ("source_branch"@, source_branch@),
            ("target_branch"@, target_branch@),
            ("title"@, title@),
        ]);
        let r = Request {
            method: Method::Post,
            path: self.merge_requests_path(),
            query: Vec::new(),
            body: Some(string_object(fields)),
        };
        assert(r@.query =~= seq![]);
        r
    }

    /// Closing merge request `id`.
    pub fn close_request(&self, id: u64) -> (r: Request)
        ensures
            r@ == (RequestView {
                method: Method::Put,
                path: merge_request_path(self.project_id as nat, id as nat),
                query: seq![],
                body: Some(Some(seq![("state_event"@, "close"@)])),
            }),
    {
        let fields = vec![pair("state_event", "close")];
        assert(pairs_view(fields@) =~= seq![("state_event"@, "close"@)]);
        let r = Request {
            method: Method::Put,
            path: self.merge_request_path(id),
            query: Vec::new(),
            body: Some(string_object(fields)),
        };
        assert(r@.query =~= seq![]);
        r
    }
}

} // verus!
