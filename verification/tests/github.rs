use enterprise_code_memory::config::OrgConfig;
use enterprise_code_memory::github::base64::base64_decode;
use enterprise_code_memory::github::client::{
    contents_path, decode_file_content, languages_path, needs_custom_base_uri, select_blobs,
    teams_path, topics_path, tree_path, user_repos_path, ContentError, RawTreeEntry, TreeEntry,
};
use enterprise_code_memory::github::ingest::{
    cross_repo_request, dependency_request, file_request, last_sync_request, LAST_SYNC_QUERY, find_repo_by_name, language_request, next_page,
    org_has_repo_request, org_merge_request, plan_files, repo_branch, repo_full_name,
    repo_merge_request, repo_not_found_message, sync_mode, sync_time_request, team_request,
    topic_request, RepoMeta, SyncMode, SyncReport, PAGE_SIZE,
};
use enterprise_code_memory::graph::client::{render_params, GraphRequest};
use enterprise_code_memory::graph::models::{Dependency, FileKind};
use enterprise_code_memory::graph::queries;
use enterprise_code_memory::server::{org_stats_text, repo_not_in_any_org_message, synced_repo_message};

fn rendered(r: &GraphRequest) -> Vec<(String, String)> {
    render_params(&r.params)
}

fn pairs(v: &[(&str, &str)]) -> Vec<(String, String)> {
    v.iter().map(|(a, b)| (a.to_string(), b.to_string())).collect()
}

#[test]
fn base64_decoding() {
    assert_eq!(base64_decode("aGVsbG8="), b"hello".to_vec());
    assert_eq!(base64_decode("aGVs\nbG8gd29y\nbGQ="), b"hello world".to_vec());
    assert_eq!(base64_decode(""), Vec::<u8>::new());
    assert_eq!(base64_decode("TWFu"), b"Man".to_vec());
    assert_eq!(base64_decode("TWE="), b"Ma".to_vec());
    assert_eq!(base64_decode("TQ=="), b"M".to_vec());
    assert_eq!(base64_decode("+/+/"), vec![0xfb, 0xff, 0xbf]);
    // a lone trailing character still yields its high bits
    assert_eq!(base64_decode("TWFuT"), vec![b'M', b'a', b'n', 0x4c]);
}

#[test]
fn file_content_decoding() {
    let enc = Some("base64".to_string());
    assert_eq!(
        decode_file_content(Some("W2RlcGVuZGVuY2llc10K\n".to_string()), enc.clone()),
        Ok("[dependencies]\n".to_string())
    );
    assert_eq!(decode_file_content(Some("plain".to_string()), None), Ok("plain".to_string()));
    assert_eq!(
        decode_file_content(Some("plain".to_string()), Some("utf-8".to_string())),
        Ok("plain".to_string())
    );
    assert_eq!(decode_file_content(None, enc.clone()), Ok(String::new()));
    assert!(matches!(
        decode_file_content(Some("//8=".to_string()), enc),
        Err(ContentError::NotUtf8)
    ));
}

#[test]
fn api_paths() {
    assert_eq!(languages_path("acme", "api"), "/repos/acme/api/languages");
    assert_eq!(topics_path("acme", "api"), "/repos/acme/api/topics");
    assert_eq!(teams_path("acme", "api"), "/repos/acme/api/teams");
    assert_eq!(tree_path("acme", "api", "main"), "/repos/acme/api/git/trees/main?recursive=1");
    assert_eq!(contents_path("acme", "api", "a/Cargo.toml"), "/repos/acme/api/contents/a/Cargo.toml");
    assert_eq!(
        user_repos_path("bob", 100, 3),
        "/users/bob/repos?sort=updated&direction=desc&per_page=100&page=3"
    );
    assert!(!needs_custom_base_uri("https://api.github.com"));
    assert!(needs_custom_base_uri("https://ghes.corp.com/api/v3"));
}

#[test]
fn tree_blobs() {
    let raw = vec![
        RawTreeEntry { path: "src".to_string(), entry_type: "tree".to_string(), size: None },
        RawTreeEntry { path: "src/lib.rs".to_string(), entry_type: "blob".to_string(), size: Some(12) },
        RawTreeEntry { path: "vendor".to_string(), entry_type: "commit".to_string(), size: None },
        RawTreeEntry { path: "empty".to_string(), entry_type: "blob".to_string(), size: None },
    ];
    let got: Vec<(String, u64)> = select_blobs(&raw).into_iter().map(|e| (e.path, e.size)).collect();
    assert_eq!(got, vec![("src/lib.rs".to_string(), 12), ("empty".to_string(), 0)]);
}

#[test]
fn files_worth_recording() {
    let tree: Vec<TreeEntry> = [
        "README.md",
        "Cargo.toml",
        "src/main.rs",
        ".github/workflows/ci.yml",
        "a/b/c/package.json",
        "crates/x/Cargo.toml",
        "config.yaml",
    ]
    .iter()
    .map(|p| TreeEntry { path: p.to_string(), size: 1 })
    .collect();
    let plan = plan_files(&tree, 2);
    assert_eq!(
        plan,
        vec![
            ("README.md".to_string(), FileKind::Readme),
            ("Cargo.toml".to_string(), FileKind::Manifest),
            (".github/workflows/ci.yml".to_string(), FileKind::Ci),
            ("crates/x/Cargo.toml".to_string(), FileKind::Manifest),
            ("config.yaml".to_string(), FileKind::Config),
        ]
    );
    assert_eq!(plan_files(&tree, 0).len(), 3);
}

#[test]
fn listing_pages_advance_until_a_short_page() {
    assert_eq!(PAGE_SIZE, 100);
    assert_eq!(next_page(1, 100), Some(2));
    assert_eq!(next_page(1, 99), None);
    assert_eq!(next_page(7, 0), None);
    let names = vec!["a".to_string(), "b".to_string(), "b".to_string()];
    assert_eq!(find_repo_by_name(&names, "b"), Some(1));
    assert_eq!(find_repo_by_name(&names, "z"), None);
    assert_eq!(sync_mode(Some("full")), SyncMode::Full);
    assert_eq!(sync_mode(Some("incremental")), SyncMode::Incremental);
    assert_eq!(sync_mode(None), SyncMode::Incremental);
    assert_eq!(repo_not_found_message("api", "acme"), "Repository api not found in org acme");
}

#[test]
fn sync_report_tally() {
    let mut r = SyncReport::default();
    r.record_success(3, 10);
    r.record_failure("broken", "boom");
    r.record_success(1, 0);
    assert_eq!(r.repos_processed, 3);
    assert_eq!(r.repos_updated, 2);
    assert_eq!(r.languages_found, 4);
    assert_eq!(r.dependencies_found, 10);
    assert_eq!(r.errors, vec!["broken: boom".to_string()]);
    let mut total = SyncReport::default();
    total.merge(r.clone());
    total.merge(r);
    assert_eq!(total.repos_processed, 6);
    assert_eq!(total.errors.len(), 2);
}

fn meta() -> RepoMeta {
    RepoMeta {
        name: "api".to_string(),
        full_name: None,
        description: None,
        default_branch: None,
        archived: None,
        fork: Some(true),
        stargazers_count: Some(42),
        updated_at: None,
        html_url: Some("https://github.com/acme/api".to_string()),
    }
}

#[test]
fn repository_writes() {
    let m = meta();
    assert_eq!(repo_full_name(&m), "api");
    assert_eq!(repo_branch(&m), "main");
    let r = repo_merge_request(&m);
    assert_eq!(r.query, queries::MERGE_REPO);
    assert_eq!(
        rendered(&r),
        pairs(&[
            ("full_name", "api"),
            ("name", "api"),
            ("description", ""),
            ("default_branch", "main"),
            ("is_archived", "false"),
            ("is_fork", "true"),
            ("stars", "42"),
            ("updated_at", ""),
            ("url", "https://github.com/acme/api"),
        ])
    );
    let mut m2 = meta();
    m2.full_name = Some("acme/api".to_string());
    m2.default_branch = Some("dev".to_string());
    assert_eq!(repo_full_name(&m2), "acme/api");
    assert_eq!(repo_branch(&m2), "dev");

    let org = OrgConfig {
        org: "acme".to_string(),
        api_url: "https://api.github.com".to_string(),
        hostname: "github.com".to_string(),
        repos: vec![],
    };
    let r = org_merge_request(&org);
    assert_eq!(r.query, queries::MERGE_ORG);
    assert_eq!(
        rendered(&r),
        pairs(&[("login", "acme"), ("name", "acme"), ("url", "https://api.github.com/orgs/acme")])
    );
    assert_eq!(
        rendered(&sync_time_request("acme", "2024-01-01T00:00:00+00:00")),
        pairs(&[("login", "acme"), ("last_sync_at", "2024-01-01T00:00:00+00:00")])
    );
    assert_eq!(
        rendered(&org_has_repo_request("acme", "acme/api")),
        pairs(&[("org_login", "acme"), ("repo_full_name", "acme/api")])
    );
    assert_eq!(
        rendered(&language_request("acme/api", "Rust", 1024)),
        pairs(&[("repo_full_name", "acme/api"), ("lang_name", "Rust"), ("bytes", "1024")])
    );
    assert_eq!(
        rendered(&topic_request("acme/api", "web")),
        pairs(&[("repo_full_name", "acme/api"), ("topic_name", "web")])
    );
    assert_eq!(
        rendered(&team_request("acme/api", "core", "Core Team")),
        pairs(&[
            ("repo_full_name", "acme/api"),
            ("team_slug", "core"),
            ("team_name", "Core Team"),
            ("permission", "read"),
        ])
    );
    assert_eq!(
        rendered(&file_request("acme/api", "Cargo.toml", FileKind::Manifest)),
        pairs(&[("repo_full_name", "acme/api"), ("path", "Cargo.toml"), ("kind", "manifest")])
    );
    let dep = Dependency { name: "serde".to_string(), version_spec: None, ecosystem: "crates".to_string() };
    assert_eq!(
        rendered(&dependency_request("acme/api", &dep)),
        pairs(&[
            ("repo_full_name", "acme/api"),
            ("dep_name", "serde"),
            ("ecosystem", "crates"),
            ("version", ""),
            ("dev", "false"),
        ])
    );
    let r = last_sync_request("acme");
    assert_eq!(r.query, "MATCH (o:Organization {login: $login}) RETURN o.last_sync_at");
    assert_eq!(r.query, LAST_SYNC_QUERY);
    assert_eq!(rendered(&r), pairs(&[("login", "acme")]));
    let r = cross_repo_request();
    assert_eq!(r.query, queries::MERGE_CROSS_REPO_DEPENDENCY);
    assert!(r.params.is_empty());
}

#[test]
fn tool_answers() {
    assert_eq!(org_stats_text(&vec!["a".to_string(), "b".to_string()]), "a\n---\nb");
    assert_eq!(org_stats_text(&vec!["a".to_string()]), "a");
    assert_eq!(synced_repo_message("api"), "Successfully synced repo: api");
    assert_eq!(
        repo_not_in_any_org_message("api"),
        "Repository api not found in any configured organization"
    );
}

#[test]
fn standard_base64_with_line_breaks_decodes_back() {
    // "Hello, world!" standard-encoded, with line breaks and padding.
    assert_eq!(base64_decode("SGVsbG8s\nIHdvcmxk\r\nIQ=="), b"Hello, world!".to_vec());
    assert_eq!(base64_decode("YQ==\n"), b"a".to_vec());
    assert_eq!(base64_decode("YWI="), b"ab".to_vec());
    assert_eq!(base64_decode("YW\nJj"), b"abc".to_vec());
}
