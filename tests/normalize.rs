use yag::error::Error;
use yag::github;
use yag::gitlab;
use yag::repository::{ListPullRequestOpt, Repository};
use yag::value::Value;

fn s(x: &str) -> Value {
    Value::Str(x.to_string())
}

fn obj(members: Vec<(&str, Value)>) -> Value {
    Value::Object(members.into_iter().map(|(k, v)| (k.to_string(), v)).collect())
}

fn github_pull(number: u64, url: &str) -> Value {
    obj(vec![
        ("id", Value::Number(9000 + number)),
        ("html_url", s(url)),
        ("title", s("Fix the parser")),
        ("user", obj(vec![("login", s("octocat"))])),
        ("number", Value::Number(number)),
        ("base", obj(vec![("ref", s("main"))])),
        ("head", Value::Null),
        ("updated_at", s("2020-05-01T10:00:00Z")),
    ])
}

fn gitlab_merge_request(iid: u64, url: &str) -> Value {
    obj(vec![
        ("id", Value::Number(500)),
        ("iid", Value::Number(iid)),
        ("project_id", Value::Number(12)),
        ("title", s("Title")),
        ("description", Value::Null),
        ("state", s("opened")),
        ("created_at", s("2020-05-01T10:00:00Z")),
        ("updated_at", s("2020-05-02T10:00:00Z")),
        ("target_branch", s("main")),
        ("source_branch", s("feat")),
        ("author", obj(vec![("id", Value::Number(3)), ("name", s("Jo")), ("username", s("jo"))])),
        ("web_url", s(url)),
    ])
}

#[test]
fn github_pull_maps_number_and_url() {
    let pr = github::pull_response(&github_pull(42, "https://github.com/o/r/pull/42")).ok().unwrap();
    assert_eq!(pr.id, 42);
    assert_eq!(pr.url, "https://github.com/o/r/pull/42");
    assert_eq!(pr.title, "Fix the parser");
    assert_eq!(pr.author, "octocat");
    assert_eq!(pr.base, Some("main".to_string()));
    assert_eq!(pr.head, None);
    assert_eq!(pr.updated_at, "2020-05-01T10:00:00Z");
}

#[test]
fn github_error_body_gives_its_message() {
    let body = obj(vec![("message", s("Not Found")), ("documentation_url", s("https://docs"))]);
    match github::pull_response(&body) {
        Err(Error::ProviderApi(m)) => assert_eq!(m, "Not Found"),
        _ => panic!("expected a provider error"),
    }
}

#[test]
fn github_body_of_neither_shape_is_a_decode_error() {
    let body = obj(vec![("number", s("seven"))]);
    assert!(matches!(github::pull_response(&body), Err(Error::Decode)));
}

#[test]
fn gitlab_merge_request_maps_iid_and_url() {
    let pr = gitlab::merge_request_response(&gitlab_merge_request(7, "https://git.example.com/g/p/-/merge_requests/7"))
        .ok()
        .unwrap();
    assert_eq!(pr.id, 7);
    assert_eq!(pr.url, "https://git.example.com/g/p/-/merge_requests/7");
    assert_eq!(pr.author, "jo");
    assert_eq!(pr.base, Some("main".to_string()));
    assert_eq!(pr.head, Some("feat".to_string()));
}

fn gitlab_message(body: Value) -> String {
    match gitlab::merge_request_response(&body) {
        Err(Error::ProviderApi(m)) => m,
        _ => panic!("expected a provider error"),
    }
}

#[test]
fn gitlab_error_array_joins_lines() {
    let body = obj(vec![("error", Value::Array(vec![s("a"), s("b")]))]);
    assert_eq!(gitlab_message(body), "a\nb");
}

#[test]
fn gitlab_message_string_is_kept() {
    assert_eq!(gitlab_message(obj(vec![("message", s("x"))])), "x");
}

#[test]
fn gitlab_empty_error_is_unknown() {
    assert_eq!(gitlab_message(obj(vec![])), "unknown error");
}

#[test]
fn gitlab_message_array_skips_non_strings() {
    let body = obj(vec![
        ("message", Value::Array(vec![s("first"), Value::Number(3), s("second")])),
        ("error", Value::Array(vec![s("ignored")])),
    ]);
    assert_eq!(gitlab_message(body), "first\nsecond");
}

#[test]
fn gitlab_message_of_other_kind_falls_back_to_error() {
    let body = obj(vec![("message", Value::Number(1)), ("error", Value::Array(vec![s("e")]))]);
    assert_eq!(gitlab_message(body), "e");
}

#[test]
fn gitlab_non_object_body_is_a_decode_error() {
    assert!(matches!(gitlab::merge_request_response(&s("oops")), Err(Error::Decode)));
}

#[test]
fn gitlab_list_reads_total_header() {
    let body = Value::Array(vec![gitlab_merge_request(1, "u1"), gitlab_merge_request(2, "u2")]);
    let page = gitlab::list_response(Some("57"), &body).ok().unwrap();
    assert_eq!(page.total, 57);
    assert_eq!(page.result.len(), 2);
    assert_eq!(page.result[1].id, 2);
}

#[test]
fn gitlab_list_without_total_fails() {
    let body = Value::Array(vec![]);
    assert!(matches!(gitlab::list_response(None, &body), Err(Error::MissingTotal)));
    assert!(matches!(gitlab::list_response(Some("many"), &body), Err(Error::MissingTotal)));
}

#[test]
fn gitlab_user_lookup_takes_first_or_fails_when_empty() {
    let users = Value::Array(vec![obj(vec![("id", Value::Number(77)), ("name", s("A")), ("username", s("a"))])]);
    assert_eq!(gitlab::user_response(&users).ok().unwrap().id, 77);
    assert!(matches!(gitlab::user_response(&Value::Array(vec![])), Err(Error::EmptyResponse)));
}

#[test]
fn gitlab_project_id_is_read() {
    assert_eq!(gitlab::project_response(&obj(vec![("id", Value::Number(12))])).ok(), Some(12));
    assert!(matches!(gitlab::project_response(&obj(vec![])), Err(Error::Decode)));
}

#[test]
fn github_search_maps_items_and_total() {
    let body = obj(vec![
        ("total_count", Value::Number(31)),
        ("incomplete_results", Value::Bool(false)),
        ("items", Value::Array(vec![github_pull(5, "u5"), github_pull(6, "u6")])),
    ]);
    let repo = Repository::GitHub(github::GitHubRepository {
        repo: "o/r".to_string(),
        auth: yag::profile::GitHubAuth::OAuth("t".to_string()),
    });
    let page = repo.list_outcome(None, &body).ok().unwrap();
    assert_eq!(page.total, 31);
    assert_eq!(page.result.len(), 2);
    assert_eq!(page.result[0].id, 5);
    assert_eq!(page.result[1].url, "u6");
    let _ = ListPullRequestOpt::default();
}
