use yag::command::{check_branches, choose_profile_kind, display_name, target_branch, ProfileKind};
use yag::error::Error;
use yag::github::GitHubRepository;
use yag::profile::GitHubAuth;
use yag::request::Method;
use yag::structs::PaginationResult;
use yag::value::Value;

#[test]
fn profile_kind_choice() {
    assert!(matches!(choose_profile_kind("1"), Ok(ProfileKind::GitLabSelfHosted)));
    assert!(matches!(choose_profile_kind("2"), Ok(ProfileKind::GitHub)));
    assert!(matches!(choose_profile_kind("3"), Err(Error::InvalidChoice)));
    assert!(matches!(choose_profile_kind("0"), Err(Error::InvalidChoice)));
    assert!(matches!(choose_profile_kind("one"), Err(Error::InvalidChoice)));
    assert_eq!(display_name(&ProfileKind::GitHub), "GitHub");
    assert_eq!(display_name(&ProfileKind::GitLabSelfHosted), "GitLab (self-hosted)");
}

#[test]
fn branch_choice() {
    assert_eq!(target_branch(Some("dev".to_string()), Some("release".to_string())), "dev");
    assert_eq!(target_branch(None, Some("release".to_string())), "release");
    assert_eq!(target_branch(None, None), "master");
    assert!(check_branches("feat", "main").is_ok());
    match check_branches("main", "main") {
        Err(e) => assert_eq!(e.message(), "head branch and base branch are same: main"),
        Ok(()) => panic!("expected a refusal"),
    }
}

#[test]
fn page_map_keeps_total_and_order() {
    let page = PaginationResult::new(vec![1u64, 2, 3], 40);
    let doubled = page.map(|x: &u64| x * 2);
    assert_eq!(doubled.total, 40);
    assert_eq!(doubled.result, vec![2, 4, 6]);
}

#[test]
fn graphql_request_posts_query_and_variables() {
    let gh = GitHubRepository { repo: "o/r".to_string(), auth: GitHubAuth::OAuth("t".to_string()) };
    let req = gh.graphql("query { viewer { login } }", Value::Object(vec![]));
    assert!(req.method == Method::Post);
    assert_eq!(req.path, "/graphql");
    match req.body {
        Some(Value::Object(fs)) => {
            assert_eq!(fs[0].0, "query");
            assert!(matches!(&fs[0].1, Value::Str(q) if q == "query { viewer { login } }"));
            assert_eq!(fs[1].0, "variables");
        }
        _ => panic!("expected an object body"),
    }
}
