use enterprise_code_memory::config::OrgConfig;
use enterprise_code_memory::github::client::TreeEntry;
use enterprise_code_memory::github::ingest::{RepoMeta, PAGE_SIZE};
use enterprise_code_memory::github::org_sync::{
    find_repo_start, find_repo_step, is_changed_since, is_later, org_sync_start, org_sync_step, FindAction,
    ListedRepo, OrgSyncAction, OrgSyncEvent, OrgSyncState,
};
use enterprise_code_memory::github::sync::{
    repo_sync_start, repo_sync_step, RepoSyncAction, RepoSyncEvent, RepoSyncState,
};
use enterprise_code_memory::graph::models::Team;
use enterprise_code_memory::graph::queries;

fn meta() -> RepoMeta {
    RepoMeta {
        name: "api".to_string(),
        full_name: Some("acme/api".to_string()),
        description: None,
        default_branch: Some("dev".to_string()),
        archived: None,
        fork: None,
        stargazers_count: None,
        updated_at: None,
        html_url: None,
    }
}

fn write_query(a: &RepoSyncAction) -> &'static str {
    match a {
        RepoSyncAction::Write(r) => r.query,
        other => panic!("expected a write, got {other:?}"),
    }
}

fn step(s: RepoSyncState, e: RepoSyncEvent) -> (RepoSyncState, RepoSyncAction) {
    repo_sync_step(s, e)
}

#[test]
fn repo_sync_runs_writes_and_reads_in_order() {
    let (s, a) = repo_sync_start(&meta(), "acme", 2);
    assert_eq!(write_query(&a), queries::MERGE_REPO);
    let (s, a) = step(s, RepoSyncEvent::Written);
    assert_eq!(write_query(&a), queries::MERGE_ORG_HAS_REPO);
    let (s, a) = step(s, RepoSyncEvent::Written);
    assert!(matches!(a, RepoSyncAction::FetchLanguages));
    let langs = vec![("Rust".to_string(), 100u64), ("Go".to_string(), 5u64)];
    let (s, a) = step(s, RepoSyncEvent::Languages(Some(langs)));
    assert_eq!(write_query(&a), queries::MERGE_REPO_USES_LANGUAGE);
    let (s, a) = step(s, RepoSyncEvent::Written);
    assert_eq!(write_query(&a), queries::MERGE_REPO_USES_LANGUAGE);
    let (s, a) = step(s, RepoSyncEvent::Written);
    assert!(matches!(a, RepoSyncAction::FetchTopics));
    let (s, a) = step(s, RepoSyncEvent::Topics(None));
    assert!(matches!(a, RepoSyncAction::FetchTeams));
    let team = Team { slug: "core".to_string(), name: "Core".to_string() };
    let (s, a) = step(s, RepoSyncEvent::Teams(Some(vec![team])));
    assert_eq!(write_query(&a), queries::MERGE_TEAM);
    let (s, a) = step(s, RepoSyncEvent::Written);
    match &a {
        RepoSyncAction::FetchTree(b) => assert_eq!(b, "dev"),
        other => panic!("{other:?}"),
    }
    let tree = vec![
        TreeEntry { path: "Cargo.toml".to_string(), size: 10 },
        TreeEntry { path: "src/main.rs".to_string(), size: 10 },
        TreeEntry { path: "README.md".to_string(), size: 10 },
    ];
    let (s, a) = step(s, RepoSyncEvent::Tree(Some(tree)));
    assert_eq!(write_query(&a), queries::MERGE_FILE);
    let (s, a) = step(s, RepoSyncEvent::Written);
    match &a {
        RepoSyncAction::FetchManifest(p) => assert_eq!(p, "Cargo.toml"),
        other => panic!("{other:?}"),
    }
    let content = "[dependencies]\nserde = \"1\"\n[dev-dependencies]\ntokio = \"1\"\n".to_string();
    let (s, a) = step(s, RepoSyncEvent::Manifest(Some(content)));
    assert_eq!(write_query(&a), queries::MERGE_DEPENDENCY);
    let (s, a) = step(s, RepoSyncEvent::Written);
    assert_eq!(write_query(&a), queries::MERGE_DEPENDENCY);
    let (s, a) = step(s, RepoSyncEvent::Written);
    assert_eq!(write_query(&a), queries::MERGE_FILE);
    let (_s, a) = step(s, RepoSyncEvent::Written);
    assert!(matches!(a, RepoSyncAction::Finished(2, 2)));
}

#[test]
fn repo_sync_fails_only_on_a_failed_write() {
    let (s, _) = repo_sync_start(&meta(), "acme", 2);
    let (s, _) = step(s, RepoSyncEvent::Written);
    let (s, _) = step(s, RepoSyncEvent::Written);
    let (s, a) = step(s, RepoSyncEvent::Languages(None));
    assert!(matches!(a, RepoSyncAction::FetchTopics));
    let (s, a) = step(s, RepoSyncEvent::Topics(Some(vec!["web".to_string()])));
    assert_eq!(write_query(&a), queries::MERGE_TOPIC);
    let (_s, a) = step(s, RepoSyncEvent::WriteFailed("FalkorDB query failed".to_string()));
    match a {
        RepoSyncAction::Failed(m) => assert_eq!(m, "FalkorDB query failed"),
        other => panic!("{other:?}"),
    }
}

#[test]
fn repo_sync_with_failed_reads_reports_zero() {
    let (s, _) = repo_sync_start(&meta(), "acme", 2);
    let (s, _) = step(s, RepoSyncEvent::Written);
    let (s, _) = step(s, RepoSyncEvent::Written);
    let (s, _) = step(s, RepoSyncEvent::Languages(None));
    let (s, _) = step(s, RepoSyncEvent::Topics(None));
    let (s, _) = step(s, RepoSyncEvent::Teams(None));
    let (_s, a) = step(s, RepoSyncEvent::Tree(None));
    assert!(matches!(a, RepoSyncAction::Finished(0, 0)));
}

fn org(repos: &[&str]) -> OrgConfig {
    OrgConfig {
        org: "acme".to_string(),
        api_url: "https://api.github.com".to_string(),
        hostname: "github.com".to_string(),
        repos: repos.iter().map(|r| r.to_string()).collect(),
    }
}

fn listed(name: &str, at: Option<&str>) -> ListedRepo {
    ListedRepo { name: name.to_string(), updated_at: at.map(|s| s.to_string()) }
}

fn ostep(s: OrgSyncState, e: OrgSyncEvent) -> (OrgSyncState, OrgSyncAction) {
    org_sync_step(s, e)
}

#[test]
fn full_sync_of_named_repos() {
    let (s, a) = org_sync_start(&org(&["a", "b"]), false);
    match &a {
        OrgSyncAction::Write(r) => assert_eq!(r.query, queries::MERGE_ORG),
        other => panic!("{other:?}"),
    }
    let (s, a) = ostep(s, OrgSyncEvent::Written);
    assert!(matches!(&a, OrgSyncAction::SyncNamed(n) if n == "a"));
    let (s, a) = ostep(s, OrgSyncEvent::RepoSynced(Ok((3, 4))));
    assert!(matches!(&a, OrgSyncAction::SyncNamed(n) if n == "b"));
    let (s, a) = ostep(s, OrgSyncEvent::RepoSynced(Err("boom".to_string())));
    match &a {
        OrgSyncAction::Write(r) => assert_eq!(r.query, queries::MERGE_CROSS_REPO_DEPENDENCY),
        other => panic!("{other:?}"),
    }
    let (s, a) = ostep(s, OrgSyncEvent::Written);
    assert!(matches!(a, OrgSyncAction::WriteSyncTime));
    let (s, a) = ostep(s, OrgSyncEvent::Written);
    assert!(matches!(a, OrgSyncAction::Finished));
    assert_eq!(s.report.repos_processed, 2);
    assert_eq!(s.report.repos_updated, 1);
    assert_eq!(s.report.languages_found, 3);
    assert_eq!(s.report.dependencies_found, 4);
    assert_eq!(s.report.errors, vec!["b: boom".to_string()]);
}

#[test]
fn full_sync_pages_until_a_short_page() {
    let (s, _) = org_sync_start(&org(&[]), false);
    let (s, a) = ostep(s, OrgSyncEvent::Written);
    assert!(matches!(a, OrgSyncAction::ListPage(1)));
    let full: Vec<ListedRepo> = (0..PAGE_SIZE).map(|i| listed(&format!("r{i}"), None)).collect();
    let (mut s, mut a) = ostep(s, OrgSyncEvent::Page(Ok(full)));
    for i in 0..PAGE_SIZE as usize {
        assert!(matches!(a, OrgSyncAction::SyncListed(j) if j == i));
        (s, a) = ostep(s, OrgSyncEvent::RepoSynced(Ok((0, 0))));
    }
    assert!(matches!(a, OrgSyncAction::ListPage(2)));
    let (s, a) = ostep(s, OrgSyncEvent::Page(Ok(vec![listed("last", None)])));
    assert!(matches!(a, OrgSyncAction::SyncListed(0)));
    let (s, a) = ostep(s, OrgSyncEvent::RepoSynced(Ok((1, 0))));
    assert!(matches!(&a, OrgSyncAction::Write(r) if r.query == queries::MERGE_CROSS_REPO_DEPENDENCY));
    assert_eq!(s.report.repos_processed, PAGE_SIZE as usize + 1);
    let (_s, a) = ostep(s, OrgSyncEvent::WriteFailed("down".to_string()));
    assert!(matches!(&a, OrgSyncAction::Failed(m) if m == "down"));
}

#[test]
fn incremental_sync_takes_only_changed_repos() {
    let (s, a) = org_sync_start(&org(&[]), true);
    assert!(matches!(&a, OrgSyncAction::ReadLastSync(r) if r.query.contains("last_sync_at")));
    let (s, a) = ostep(s, OrgSyncEvent::LastSync(Some("2024-06-01T00:00:00+00:00".to_string())));
    assert!(matches!(a, OrgSyncAction::ListPage(1)));
    let page = vec![
        listed("old", Some("2024-01-01T00:00:00+00:00")),
        listed("new", Some("2024-07-01T00:00:00+00:00")),
        listed("unknown", None),
        listed("same", Some("2024-06-01T00:00:00+00:00")),
    ];
    let (s, a) = ostep(s, OrgSyncEvent::Page(Ok(page)));
    assert!(matches!(a, OrgSyncAction::SyncListed(1)));
    let (s, a) = ostep(s, OrgSyncEvent::RepoSynced(Ok((0, 0))));
    assert!(matches!(a, OrgSyncAction::SyncListed(2)));
    let (s, a) = ostep(s, OrgSyncEvent::RepoSynced(Ok((0, 0))));
    assert!(matches!(&a, OrgSyncAction::Write(r) if r.query == queries::MERGE_CROSS_REPO_DEPENDENCY));
    assert_eq!(s.report.repos_processed, 2);
}

#[test]
fn listing_failure_fails_the_sync() {
    let (s, _) = org_sync_start(&org(&[]), true);
    let (s, _) = ostep(s, OrgSyncEvent::LastSync(None));
    let (_s, a) = ostep(s, OrgSyncEvent::Page(Err("403".to_string())));
    assert!(matches!(&a, OrgSyncAction::Failed(m) if m == "403"));
}

#[test]
fn times_compare_in_text_order() {
    assert!(is_later("2024-01-01T00:00:01+00:00", "2024-01-01T00:00:00+00:00"));
    assert!(!is_later("2024-01-01T00:00:00+00:00", "2024-01-01T00:00:00+00:00"));
    assert!(is_later("2024-01-01T00:00:00.5+00:00", "2024-01-01T00:00:00+00:00"));
    assert!(is_later("b", "ab"));
    assert!(!is_later("", "a"));
    assert!(is_later("a", ""));
    assert!(is_changed_since(&None, &Some("x".to_string())));
    assert!(is_changed_since(&Some("x".to_string()), &None));
    assert!(!is_changed_since(&Some("a".to_string()), &Some("b".to_string())));
}

#[test]
fn search_by_name_pages_until_found_or_short_page() {
    let (s, a) = find_repo_start("api", "acme");
    assert!(matches!(a, FindAction::ListPage(1)));
    let full: Vec<String> = (0..PAGE_SIZE).map(|i| format!("r{i}")).collect();
    let (s, a) = find_repo_step(s, Ok(full));
    assert!(matches!(a, FindAction::ListPage(2)));
    let (_, a) = find_repo_step(s, Ok(vec!["x".to_string(), "api".to_string(), "api".to_string()]));
    assert!(matches!(a, FindAction::Found(1)));
    let (s, _) = find_repo_start("gone", "acme");
    let (_, a) = find_repo_step(s, Ok(vec!["x".to_string()]));
    assert!(matches!(&a, FindAction::Failed(m) if m == "Repository gone not found in org acme"));
    let (s, _) = find_repo_start("gone", "acme");
    let (_, a) = find_repo_step(s, Err("403".to_string()));
    assert!(matches!(&a, FindAction::Failed(m) if m == "403"));
}
