use yag::error::Error;
use yag::github::GitHubRepository;
use yag::gitlab::{GitLabProject, GitLabRepository};
use yag::login::{self, GetAccessTokenResponse, PollAction};
use yag::profile::{
    decode_profile, encode_profile, migrate_profile, GitHubAuth, GitHubConfig, GitLabSelfHostedConfig, Profile,
};
use yag::repository::{
    get_repo, remote_descriptor, repository_for, resolve_remote, select_provider, ListPullRequestOpt, Provider,
    RepoTarget, Repository,
};
use yag::request::{build_query, decimal, Method};
use yag::text::parse_u64;
use yag::utils::{
    basic_authorization, get_current_branch, get_git_config, get_latest_commit_message, get_rev, url_encode,
};
use yag::value::Value;

fn s(x: &str) -> Value {
    Value::Str(x.to_string())
}

fn obj(members: Vec<(&str, Value)>) -> Value {
    Value::Object(members.into_iter().map(|(k, v)| (k.to_string(), v)).collect())
}

fn member<'a>(v: &'a Value, key: &str) -> Option<&'a Value> {
    v.get(key)
}

fn gitlab_entry(host: &str, token: &str) -> GitLabSelfHostedConfig {
    GitLabSelfHostedConfig { host: host.to_string(), token: token.to_string() }
}

fn profile_with_hosts() -> Profile {
    let mut p = Profile::new();
    gitlab_entry("gitlab.example.com", "tok-1").fill_profile(&mut p);
    gitlab_entry("git.corp.local", "tok-2").fill_profile(&mut p);
    p
}

fn oauth_profile() -> Profile {
    let mut p = Profile::new();
    GitHubConfig { access_token: Some("gho_abc".to_string()), username: None, token: None }.fill_profile(&mut p);
    p
}

#[test]
fn test_get_latest_commit_message() {
    let output = "commit 4f2a9c1d\nAdd the list command\n\nWith paging.\n";
    let message = get_latest_commit_message(output);
    println!("result=[{}]", message);
    assert_eq!(message, "Add the list command\n\nWith paging.");
}

#[test]
fn latest_commit_message_of_a_single_line_is_empty() {
    assert_eq!(get_latest_commit_message("commit 4f2a9c1d\n"), "");
}

#[test]
fn git_outputs_are_trimmed() {
    assert_eq!(get_current_branch("feature/x\n"), "feature/x");
    assert_eq!(get_rev("  abc123\n"), "abc123");
    assert_eq!(get_git_config("develop\n"), "develop");
}

#[test]
fn test_prompt_add_profile() {
    let mut profile = Profile::new();
    gitlab_entry("2", "3").fill_profile(&mut profile);
    assert!(profile.gitlab_self_hosted.is_some());
    let configs = profile.gitlab_self_hosted.unwrap();
    assert_eq!(configs.len(), 1);
    assert_eq!(configs[0].host, "2");
    assert_eq!(configs[0].token, "3");
}

#[test]
fn adding_a_known_host_replaces_its_token() {
    let mut p = profile_with_hosts();
    gitlab_entry("gitlab.example.com", "tok-new").fill_profile(&mut p);
    let configs = p.gitlab_self_hosted.as_ref().unwrap();
    assert_eq!(configs.len(), 2);
    assert_eq!(p.get_gitlab_token_by_host("gitlab.example.com"), Some("tok-new".to_string()));
}

#[test]
fn token_lookup_is_exact() {
    let p = profile_with_hosts();
    assert_eq!(p.get_gitlab_token_by_host("git.corp.local"), Some("tok-2".to_string()));
    assert_eq!(p.get_gitlab_token_by_host("unknown.host"), None);
    assert_eq!(p.get_gitlab_token_by_host("gitlab.example"), None);
    assert_eq!(p.get_gitlab_token_by_host("gitlab.example.com.evil"), None);
    assert_eq!(Profile::new().get_gitlab_token_by_host("git.corp.local"), None);
}

#[test]
fn profile_round_trip_keeps_entries() {
    let mut p = profile_with_hosts();
    GitHubConfig { access_token: None, username: Some("me".to_string()), token: Some("pw".to_string()) }
        .fill_profile(&mut p);
    let back = decode_profile(encode_profile(&p)).ok().unwrap();
    let configs = back.gitlab_self_hosted.unwrap();
    assert_eq!(configs.len(), 2);
    assert_eq!(configs[0].host, "gitlab.example.com");
    assert_eq!(configs[0].token, "tok-1");
    assert_eq!(configs[1].host, "git.corp.local");
    assert_eq!(configs[1].token, "tok-2");
    let gh = back.github.unwrap();
    assert_eq!(gh.access_token, None);
    assert_eq!(gh.username, Some("me".to_string()));
    assert_eq!(gh.token, Some("pw".to_string()));
}

#[test]
fn empty_profile_round_trips() {
    let back = decode_profile(encode_profile(&Profile::new())).ok().unwrap();
    assert!(back.gitlab_self_hosted.is_none());
    assert!(back.github.is_none());
}

#[test]
fn legacy_profile_migrates_to_one_entry() {
    let entry = || obj(vec![("host", s("gitlab.example.com")), ("token", s("tok"))]);
    let legacy = obj(vec![("gitlab_self_hosted", entry())]);
    let current = obj(vec![("gitlab_self_hosted", Value::Array(vec![entry()]))]);
    let a = decode_profile(legacy).ok().unwrap();
    let b = decode_profile(current).ok().unwrap();
    let ea = a.gitlab_self_hosted.unwrap();
    let eb = b.gitlab_self_hosted.unwrap();
    assert_eq!(ea.len(), 1);
    assert_eq!(eb.len(), 1);
    assert_eq!(ea[0].host, eb[0].host);
    assert_eq!(ea[0].token, eb[0].token);
    assert!(a.github.is_none() && b.github.is_none());
}

#[test]
fn migrate_wraps_only_a_single_entry() {
    let migrated = migrate_profile(obj(vec![
        ("github", obj(vec![])),
        ("gitlab_self_hosted", obj(vec![("host", s("h")), ("token", s("t"))])),
    ]));
    match member(&migrated, "gitlab_self_hosted") {
        Some(Value::Array(items)) => assert_eq!(items.len(), 1),
        _ => panic!("expected an array"),
    }
    assert!(member(&migrated, "github").is_some());
}

#[test]
fn corrupt_profile_is_refused() {
    let bad = obj(vec![("gitlab_self_hosted", s("nonsense"))]);
    assert!(matches!(decode_profile(bad), Err(Error::ProfileCorrupt)));
    assert!(matches!(decode_profile(s("x")), Err(Error::ProfileCorrupt)));
}

#[test]
fn factory_dispatches_on_host() {
    assert!(matches!(select_provider("github.com"), Ok(Provider::GitHub)));
    assert!(matches!(select_provider("gitlab.com"), Err(Error::UnsupportedHost)));
    assert!(matches!(select_provider("gitlab.example.com"), Ok(Provider::GitLabSelfHosted)));
}

#[test]
fn factory_errors() {
    let p = profile_with_hosts();
    assert!(matches!(get_repo(None, &p), Err(Error::NoRemote)));
    assert!(matches!(resolve_remote(None, &p), Err(Error::NoRemote)));
    assert!(matches!(resolve_remote(Some((None, "o/r".to_string())), &p), Err(Error::UnresolvableHost)));
    assert!(matches!(
        resolve_remote(Some((Some("github.com".to_string()), "o/r".to_string())), &p),
        Err(Error::MissingGitHubProfile)
    ));
    match resolve_remote(Some((Some("other.host".to_string()), "o/r".to_string())), &p) {
        Err(Error::MissingCredential(h)) => assert_eq!(h, "other.host"),
        _ => panic!("expected a missing credential"),
    }
    let mut incomplete = Profile::new();
    GitHubConfig { access_token: None, username: Some("me".to_string()), token: None }.fill_profile(&mut incomplete);
    assert!(matches!(
        resolve_remote(Some((Some("github.com".to_string()), "o/r".to_string())), &incomplete),
        Err(Error::InvalidGitHubProfile)
    ));
}

#[test]
fn remote_url_resolves_gitlab_project() {
    let p = profile_with_hosts();
    match get_repo(Some("git@gitlab.example.com:group/project.git"), &p) {
        Ok(RepoTarget::GitLab(project)) => {
            assert_eq!(project.host, "gitlab.example.com");
            assert_eq!(project.token, "tok-1");
            assert_eq!(project.full_name, "group/project");
            let req = project.project_request();
            assert!(req.method == Method::Get);
            assert_eq!(req.path, "/api/v4/projects/group%2Fproject");
        },
        _ => panic!("expected a GitLab project"),
    }
}

#[test]
fn github_list_of_own_pulls() {
    let target = get_repo(Some("https://github.com/owner/repo.git"), &oauth_profile()).ok().unwrap();
    let gh = match target {
        RepoTarget::GitHub(g) => g,
        _ => panic!("expected GitHub"),
    };
    assert_eq!(gh.repo, "owner/repo");
    let repo = Repository::GitHub(gh);
    let opt = ListPullRequestOpt { author: None, page: None, me: true, head: None };
    let req = repo.list_request(&opt, None);
    assert!(req.method == Method::Get);
    assert_eq!(req.path, "/search/issues");
    let q = &req.query[2];
    assert_eq!(q.0, "q");
    assert!(q.1.contains("is:pr is:open"));
    assert!(q.1.contains("author:@me"));
    assert_eq!(q.1, "is:pr is:open repo:owner/repo author:@me");
    assert_eq!(req.query[1], ("page".to_string(), "0".to_string()));

    let body = Value::Object(vec![
        ("total_count".to_string(), Value::Number(1)),
        ("incomplete_results".to_string(), Value::Bool(false)),
        (
            "items".to_string(),
            Value::Array(vec![Value::Object(vec![
                ("id".to_string(), Value::Number(1)),
                ("html_url".to_string(), s("https://github.com/owner/repo/pull/17")),
                ("title".to_string(), s("T")),
                ("user".to_string(), obj(vec![("login", s("me"))])),
                ("number".to_string(), Value::Number(17)),
                ("updated_at".to_string(), s("2020-01-01T00:00:00Z")),
            ])]),
        ),
    ]);
    let page = repo.list_outcome(None, &body).ok().unwrap();
    assert_eq!(page.result[0].id, 17);
}

#[test]
fn github_list_by_author_and_page() {
    let gh = GitHubRepository { repo: "o/r".to_string(), auth: GitHubAuth::OAuth("t".to_string()) };
    let opt = ListPullRequestOpt { author: Some("alice".to_string()), page: Some(3), me: false, head: None };
    let req = gh.list_request(&opt);
    assert_eq!(req.query[0], ("per_page".to_string(), "10".to_string()));
    assert_eq!(req.query[1], ("page".to_string(), "3".to_string()));
    assert_eq!(req.query[2].1, "is:pr is:open repo:o/r author:alice");
}

#[test]
fn github_requests() {
    let gh = GitHubRepository { repo: "o/r".to_string(), auth: GitHubAuth::OAuth("t".to_string()) };
    let get = gh.get_request(12);
    assert_eq!(get.path, "/repos/o/r/pulls/12");
    let close = gh.close_request(12);
    assert!(close.method == Method::Patch);
    assert_eq!(member(close.body.as_ref().unwrap(), "state").map(|v| matches!(v, Value::Str(x) if x == "closed")), Some(true));
    let create = gh.create_request("feat", "main", "Title");
    assert!(create.method == Method::Post);
    assert_eq!(create.path, "/repos/o/r/pulls");
    let headers = gh.headers("1.2.3");
    assert_eq!(headers[1], ("User-Agent".to_string(), "yag/1.2.3".to_string()));
    assert_eq!(headers[2], ("Authorization".to_string(), "token t".to_string()));
}

#[test]
fn gitlab_create_request_and_result() {
    let target = get_repo(Some("https://gitlab.example.com/group/project.git"), &profile_with_hosts()).ok().unwrap();
    let project: GitLabProject = match target {
        RepoTarget::GitLab(p) => p,
        _ => panic!("expected GitLab"),
    };
    let repo = Repository::GitLab(GitLabRepository::init(project, 12));
    let req = repo.create_request("feat", "main", "Title");
    assert!(req.method == Method::Post);
    assert_eq!(req.path, "/api/v4/projects/12/merge_requests");
    let body = req.body.as_ref().unwrap();
    let text = |k: &str| match member(body, k) {
        Some(Value::Str(x)) => x.clone(),
        _ => String::new(),
    };
    assert_eq!(text("source_branch"), "feat");
    assert_eq!(text("target_branch"), "main");
    assert_eq!(text("title"), "Title");

    let response = obj(vec![
        ("id", Value::Number(900)),
        ("iid", Value::Number(4)),
        ("project_id", Value::Number(12)),
        ("title", s("Title")),
        ("state", s("opened")),
        ("created_at", s("c")),
        ("updated_at", s("u")),
        ("target_branch", s("main")),
        ("source_branch", s("feat")),
        ("author", obj(vec![("id", Value::Number(1)), ("name", s("N")), ("username", s("n"))])),
        ("web_url", s("https://gitlab.example.com/group/project/-/merge_requests/4")),
    ]);
    let pr = repo.pull_outcome(&response).ok().unwrap();
    assert_eq!(pr.id, 4);
}

#[test]
fn gitlab_other_requests() {
    let repo = GitLabRepository { host: "h".to_string(), token: "t".to_string(), project_id: 12 };
    assert_eq!(repo.get_request(5).path, "/api/v4/projects/12/merge_requests/5");
    let close = repo.close_request(5);
    assert!(close.method == Method::Put);
    let opt = ListPullRequestOpt { author: Some("bob".to_string()), page: Some(2), me: true, head: None };
    let list = repo.list_request(&opt, Some(77));
    let q: Vec<(String, String)> = list.query.clone();
    assert_eq!(q[0], ("state".to_string(), "opened".to_string()));
    assert_eq!(q[2], ("page".to_string(), "2".to_string()));
    assert_eq!(q[3], ("scope".to_string(), "created-by-me".to_string()));
    assert_eq!(q.len(), 4);
    let by_author = ListPullRequestOpt { author: Some("bob".to_string()), page: None, me: false, head: None };
    let q2 = repo.list_request(&by_author, Some(77)).query;
    assert_eq!(q2[2], ("page".to_string(), "0".to_string()));
    assert_eq!(q2[3], ("author_id".to_string(), "77".to_string()));
    let user = repo.user_request("bob");
    assert_eq!(user.path, "/api/users");
    assert_eq!(yag::gitlab::token_headers("t")[0], ("Private-Token".to_string(), "t".to_string()));
    assert_eq!(yag::gitlab::base_url("h"), "https://h");
}

#[test]
fn numbers_and_queries() {
    assert_eq!(decimal(0), "0");
    assert_eq!(decimal(1234567890), "1234567890");
    assert_eq!(decimal(u64::MAX), "18446744073709551615");
    assert_eq!(parse_u64("42"), Some(42));
    assert_eq!(parse_u64("+7"), Some(7));
    assert_eq!(parse_u64("18446744073709551615"), Some(u64::MAX));
    assert_eq!(parse_u64("18446744073709551616"), None);
    assert_eq!(parse_u64(""), None);
    assert_eq!(parse_u64("+"), None);
    assert_eq!(parse_u64("4x"), None);
    let pairs = vec![("is".to_string(), "pr".to_string()), ("repo".to_string(), "a/b".to_string())];
    assert_eq!(build_query(&pairs), "is:pr repo:a/b");
    assert_eq!(build_query(&vec![]), "");
}

#[test]
fn escaping_and_authorization() {
    assert_eq!(url_encode("group/sub/project"), "group%2Fsub%2Fproject");
    assert_eq!(url_encode("plain"), "plain");
    assert_eq!(url_encode("a\tb"), "a%09b");
    assert_eq!(basic_authorization("user", "pass"), "Basic dXNlcjpwYXNz");
}

#[test]
fn error_messages() {
    assert_eq!(Error::MissingCredential("h.example".to_string()).message(), "unknown remote host: h.example");
    assert_eq!(Error::ProviderApi("boom".to_string()).message(), "boom");
    assert_eq!(Error::Network("refused".to_string()).message(), "refused");
    assert_eq!(Error::MissingTotal.message(), "fail to get total");
}

#[test]
fn login_poll_steps() {
    let pending = GetAccessTokenResponse::decode(&obj(vec![
        ("error", s("authorization_pending")),
        ("error_description", s("waiting")),
    ]))
    .unwrap();
    assert!(matches!(login::poll_step(&pending), PollAction::Retry { seconds: 0, .. }));
    let slow = GetAccessTokenResponse::decode(&obj(vec![
        ("error", s("slow_down")),
        ("error_description", s("slower")),
        ("interval", Value::Number(10)),
    ]))
    .unwrap();
    assert!(matches!(login::poll_step(&slow), PollAction::Retry { seconds: 10, .. }));
    let slow_default = GetAccessTokenResponse::decode(&obj(vec![
        ("error", s("slow_down")),
        ("error_description", s("slower")),
    ]))
    .unwrap();
    assert!(matches!(login::poll_step(&slow_default), PollAction::Retry { seconds: 5, .. }));
    let expired = GetAccessTokenResponse::decode(&obj(vec![
        ("error", s("expired_token")),
        ("error_description", s("too late")),
    ]))
    .unwrap();
    assert!(matches!(login::poll_step(&expired), PollAction::Fail(Error::LoginExpired)));
    let denied = GetAccessTokenResponse::decode(&obj(vec![
        ("error", s("access_denied")),
        ("error_description", s("no")),
    ]))
    .unwrap();
    assert!(matches!(login::poll_step(&denied), PollAction::Fail(Error::LoginFailed)));
    let granted = GetAccessTokenResponse::decode(&obj(vec![("access_token", s("gho_x"))])).unwrap();
    match login::poll_step(&granted) {
        PollAction::Done(c) => assert_eq!(c.access_token, Some("gho_x".to_string())),
        _ => panic!("expected a token"),
    }
    let code = login::DeviceCode::decode(&obj(vec![
        ("device_code", s("dc")),
        ("user_code", s("UC-1")),
        ("verification_uri", s("https://github.com/login/device")),
        ("expires_in", Value::Number(900)),
        ("interval", Value::Number(5)),
    ]))
    .unwrap();
    assert_eq!(code.user_code, "UC-1");
    assert_eq!(login::access_token_request("dc").path, "/login/oauth/access_token");
    assert_eq!(login::device_code_request().path, "/login/device/code");
}

#[test]
fn remote_urls_with_query_or_fragment_still_resolve() {
    let target = get_repo(Some("https://github.com/o/r?x=1"), &oauth_profile()).ok().unwrap();
    match target {
        RepoTarget::GitHub(g) => assert_eq!(g.repo, "o/r"),
        _ => panic!("expected GitHub"),
    }
    assert!(matches!(remote_descriptor(Some("/tmp/repo#1")), Err(Error::UnresolvableHost)));
}

#[test]
fn remote_urls_the_parser_cannot_read_are_no_remote() {
    assert!(matches!(remote_descriptor(Some("ssh:x")), Err(Error::NoRemote)));
    assert!(matches!(remote_descriptor(Some("git@host:.")), Err(Error::NoRemote)));
    assert!(matches!(remote_descriptor(Some("https://dev.azure.com/a")), Err(Error::NoRemote)));
    assert!(matches!(remote_descriptor(None), Err(Error::NoRemote)));
}

#[test]
fn organisation_hosts_with_full_paths_resolve() {
    let d = remote_descriptor(Some("https://dev.azure.com/Co/Proj/_git/Repo")).ok().unwrap();
    assert_eq!(d.host, "dev.azure.com");
    match repository_for(d, &profile_with_hosts()) {
        Err(Error::MissingCredential(h)) => assert_eq!(h, "dev.azure.com"),
        _ => panic!("expected a missing credential"),
    }
}

#[test]
fn descriptor_then_credentials() {
    let d = remote_descriptor(Some("git@git.corp.local:team/app.git")).ok().unwrap();
    assert_eq!(d.host, "git.corp.local");
    assert_eq!(d.full_name, "team/app");
    match repository_for(d, &profile_with_hosts()) {
        Ok(RepoTarget::GitLab(p)) => assert_eq!(p.token, "tok-2"),
        _ => panic!("expected a GitLab project"),
    }
}

#[test]
fn migrating_a_current_document_changes_nothing() {
    let doc = obj(vec![("gitlab_self_hosted", Value::Array(vec![]))]);
    match migrate_profile(doc) {
        Value::Object(fs) => {
            assert_eq!(fs.len(), 1);
            assert!(matches!(&fs[0].1, Value::Array(items) if items.is_empty()));
        }
        _ => panic!("expected an object"),
    }
}

#[test]
fn trim_removes_unicode_white_space() {
    assert_eq!(get_current_branch("\u{3000}\t main \u{85}\u{a0}"), "main");
    assert_eq!(get_git_config(" \n\t "), "");
    assert_eq!(get_rev("a b"), "a b");
    assert_eq!(url_encode("caf\u{e9}/x"), "caf%C3%A9%2Fx");
    assert_eq!(url_encode("a\u{7f} b"), "a%7F b");
}
