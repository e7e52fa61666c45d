use enterprise_code_memory::config::{
    api_url_for_hostname, hostname_from_api_url, lookup_org_repos, parse_per_org_repos, AppConfig,
    AuthMode, ConfigError, ConfigKey, EnvVars,
};

fn empty_env() -> EnvVars {
    EnvVars {
        auth_mode: None,
        jwt_secret: None,
        github_client_id: None,
        github_client_secret: None,
        github_redirect_uri: None,
        github_orgs: None,
        github_org: None,
        github_api_url: None,
        repos: None,
        github_auth_url: None,
        github_token_url: None,
        falkordb_host: None,
        falkordb_port: None,
        falkordb_password: None,
        falkordb_graph: None,
        server_host: None,
        server_port: None,
        sync_batch_size: None,
        max_file_depth: None,
    }
}

fn s(v: &str) -> Option<String> {
    Some(v.to_string())
}

#[test]
fn gh_cli_single_org_uses_defaults() {
    let mut env = empty_env();
    env.auth_mode = s("gh_cli");
    env.github_org = s("my-org");
    let c = AppConfig::from_vars(&env).unwrap();
    assert_eq!(c.auth_mode, AuthMode::GhCli);
    assert_eq!(c.github_client_id, "");
    assert_eq!(c.github_auth_url, "https://github.com/login/oauth/authorize");
    assert_eq!(c.github_token_url, "https://github.com/login/oauth/access_token");
    assert_eq!(c.falkordb_host, "127.0.0.1");
    assert_eq!(c.falkordb_port, 6379);
    assert_eq!(c.falkordb_password, None);
    assert_eq!(c.falkordb_graph_name, "enterprise_code");
    assert_eq!(c.server_host, "127.0.0.1");
    assert_eq!(c.server_port, 8080);
    assert_eq!(c.sync_batch_size, 50);
    assert_eq!(c.max_file_depth, 2);
    assert_eq!(c.jwt_secret, None);
    assert_eq!(c.orgs.len(), 1);
    assert_eq!(c.orgs[0].org, "my-org");
    assert_eq!(c.orgs[0].api_url, "https://api.github.com");
    assert_eq!(c.orgs[0].hostname, "github.com");
    assert!(c.orgs[0].repos.is_empty());
    assert_eq!(c.server_addr(), "127.0.0.1:8080");
}

#[test]
fn auth_mode_spellings() {
    for (text, mode) in [
        ("jwt", AuthMode::Jwt),
        ("gh_cli", AuthMode::GhCli),
        ("gh-cli", AuthMode::GhCli),
        ("ghcli", AuthMode::GhCli),
    ] {
        let mut env = empty_env();
        env.auth_mode = s(text);
        env.jwt_secret = s("k");
        env.github_client_id = s("id");
        env.github_client_secret = s("secret");
        env.github_redirect_uri = s("http://localhost/cb");
        env.github_org = s("o");
        assert_eq!(AppConfig::from_vars(&env).unwrap().auth_mode, mode);
    }
}

#[test]
fn github_mode_requires_oauth_settings() {
    let mut env = empty_env();
    env.github_org = s("o");
    assert_eq!(
        AppConfig::from_vars(&env).unwrap_err(),
        ConfigError::Missing(ConfigKey::GithubClientId)
    );
    env.github_client_id = s("id");
    assert_eq!(
        AppConfig::from_vars(&env).unwrap_err(),
        ConfigError::Missing(ConfigKey::GithubClientSecret)
    );
    env.github_client_secret = s("sec");
    assert_eq!(
        AppConfig::from_vars(&env).unwrap_err(),
        ConfigError::Missing(ConfigKey::GithubRedirectUri)
    );
    env.github_redirect_uri = s("https://x/cb");
    let c = AppConfig::from_vars(&env).unwrap();
    assert_eq!(c.auth_mode, AuthMode::GitHub);
    assert_eq!(c.github_client_secret, "sec");
}

#[test]
fn jwt_mode_requires_secret_first() {
    let mut env = empty_env();
    env.auth_mode = s("jwt");
    assert_eq!(AppConfig::from_vars(&env).unwrap_err(), ConfigError::Missing(ConfigKey::JwtSecret));
    let e = AppConfig::from_vars(&env).unwrap_err();
    assert_eq!(e.message(), "ECMEM_JWT_SECRET environment variable is required");
}

#[test]
fn missing_org_is_reported() {
    let mut env = empty_env();
    env.auth_mode = s("gh_cli");
    let e = AppConfig::from_vars(&env).unwrap_err();
    assert_eq!(e, ConfigError::Missing(ConfigKey::GithubOrg));
    assert_eq!(e.message(), "ECMEM_GITHUB_ORG environment variable is required");
}

#[test]
fn invalid_numbers_are_reported_in_order() {
    let mut env = empty_env();
    env.auth_mode = s("gh_cli");
    env.github_org = s("o");
    env.falkordb_port = s("70000");
    env.server_port = s("x");
    let e = AppConfig::from_vars(&env).unwrap_err();
    assert_eq!(e, ConfigError::Invalid(ConfigKey::FalkordbPort));
    assert_eq!(e.message(), "ECMEM_FALKORDB_PORT must be a valid port number");
    env.falkordb_port = s("+6380");
    assert_eq!(AppConfig::from_vars(&env).unwrap_err(), ConfigError::Invalid(ConfigKey::ServerPort));
    env.server_port = s("9000");
    env.sync_batch_size = s("-1");
    let e = AppConfig::from_vars(&env).unwrap_err();
    assert_eq!(e, ConfigError::Invalid(ConfigKey::SyncBatchSize));
    assert_eq!(e.message(), "ECMEM_SYNC_BATCH_SIZE must be a number");
    env.sync_batch_size = s("10");
    env.max_file_depth = s(" 3");
    assert_eq!(AppConfig::from_vars(&env).unwrap_err(), ConfigError::Invalid(ConfigKey::MaxFileDepth));
    env.max_file_depth = s("3");
    let c = AppConfig::from_vars(&env).unwrap();
    assert_eq!(c.falkordb_port, 6380);
    assert_eq!(c.server_port, 9000);
    assert_eq!(c.sync_batch_size, 10);
    assert_eq!(c.max_file_depth, 3);
    assert_eq!(c.server_addr(), "127.0.0.1:9000");
}

#[test]
fn numeric_settings_parse_like_std() {
    for text in ["0", "65535", "65536", "+1", "-1", "", "+", "007", "1 ", "1_000", "٣"] {
        let mut env = empty_env();
        env.auth_mode = s("gh_cli");
        env.github_org = s("o");
        env.falkordb_port = s(text);
        let ours = AppConfig::from_vars(&env).ok().map(|c| c.falkordb_port);
        assert_eq!(ours, text.parse::<u16>().ok(), "{text:?}");
    }
}

#[test]
fn multi_org_list_with_hosts_and_repo_lists() {
    let mut env = empty_env();
    env.auth_mode = s("gh_cli");
    env.github_orgs = s("org-a@ghes1.corp.com, org-b@ghes2.corp.com,org-c");
    env.github_org = s("ignored");
    env.repos = s("org-a:repo-1, repo-2;org-b:repo-3;stray");
    let c = AppConfig::from_vars(&env).unwrap();
    assert_eq!(c.orgs.len(), 3);
    assert_eq!(c.orgs[0].org, "org-a");
    assert_eq!(c.orgs[0].hostname, "ghes1.corp.com");
    assert_eq!(c.orgs[0].api_url, "https://ghes1.corp.com/api/v3");
    assert_eq!(c.orgs[0].repos, vec!["repo-1".to_string(), "repo-2".to_string()]);
    assert_eq!(c.orgs[1].org, "org-b");
    assert_eq!(c.orgs[1].repos, vec!["repo-3".to_string()]);
    assert_eq!(c.orgs[2].org, "org-c");
    assert_eq!(c.orgs[2].hostname, "github.com");
    assert_eq!(c.orgs[2].api_url, "https://api.github.com");
    assert_eq!(c.orgs[2].repos, vec!["stray".to_string()]);
}

#[test]
fn single_org_with_enterprise_api_and_repo_list() {
    let mut env = empty_env();
    env.auth_mode = s("gh_cli");
    env.github_org = s("team");
    env.github_api_url = s("https://ghes.corp.com/api/v3");
    env.repos = s("repo-a, repo-b");
    env.falkordb_password = s("pw");
    let c = AppConfig::from_vars(&env).unwrap();
    assert_eq!(c.orgs[0].hostname, "ghes.corp.com");
    assert_eq!(c.orgs[0].api_url, "https://ghes.corp.com/api/v3");
    assert_eq!(c.orgs[0].repos, vec!["repo-a".to_string(), "repo-b".to_string()]);
    assert_eq!(c.falkordb_password.as_deref(), Some("pw"));
}

#[test]
fn empty_repo_list_means_all_repos() {
    let mut env = empty_env();
    env.auth_mode = s("gh_cli");
    env.github_org = s("team");
    env.repos = s("");
    let c = AppConfig::from_vars(&env).unwrap();
    assert!(c.orgs[0].repos.is_empty());
}

#[test]
fn per_org_repo_lists() {
    let lists = parse_per_org_repos(&s(" a:x,y ; b: z ;a:w;nocolon"));
    assert_eq!(lists.per_org.len(), 3);
    assert_eq!(lists.shared, Some(vec!["nocolon".to_string()]));
    assert_eq!(lookup_org_repos(&lists, "a"), vec!["w".to_string()]);
    assert_eq!(lookup_org_repos(&lists, "b"), vec!["z".to_string()]);
    assert_eq!(lookup_org_repos(&lists, "c"), vec!["nocolon".to_string()]);
    let lists = parse_per_org_repos(&s("a:x;"));
    assert_eq!(lists.shared, None);
    assert!(lookup_org_repos(&lists, "c").is_empty());
    let e = parse_per_org_repos(&s(""));
    assert!(e.per_org.is_empty() && e.shared.is_none());
    let n = parse_per_org_repos(&None);
    assert!(n.per_org.is_empty() && n.shared.is_none());
}

#[test]
fn plain_repo_list_applies_to_all_orgs() {
    let mut env = empty_env();
    env.auth_mode = s("gh_cli");
    env.github_orgs = s("org-a,org-b@ghes.corp.com");
    env.repos = s("repo-a,repo-b");
    let c = AppConfig::from_vars(&env).unwrap();
    for o in &c.orgs {
        assert_eq!(o.repos, vec!["repo-a".to_string(), "repo-b".to_string()]);
    }
}

#[test]
fn jwt_mode_needs_no_oauth_settings() {
    let mut env = empty_env();
    env.auth_mode = s("jwt");
    env.jwt_secret = s("s3cret");
    env.github_org = s("my-org");
    let c = AppConfig::from_vars(&env).unwrap();
    assert_eq!(c.auth_mode, AuthMode::Jwt);
    assert_eq!(c.jwt_secret.as_deref(), Some("s3cret"));
    assert_eq!(c.github_client_id, "");
}

#[test]
fn github_mode_names_the_first_missing_oauth_setting() {
    let mut env = empty_env();
    env.github_org = s("my-org");
    let e = AppConfig::from_vars(&env).unwrap_err();
    assert_eq!(e.message(), "ECMEM_GITHUB_CLIENT_ID environment variable is required");
    env.github_client_id = s("id");
    let e = AppConfig::from_vars(&env).unwrap_err();
    assert_eq!(e.message(), "ECMEM_GITHUB_CLIENT_SECRET environment variable is required");
    env.github_client_secret = s("sec");
    let e = AppConfig::from_vars(&env).unwrap_err();
    assert_eq!(e.message(), "ECMEM_GITHUB_REDIRECT_URI environment variable is required");
    assert_eq!(ConfigKey::MaxFileDepth.variable(), "ECMEM_MAX_FILE_DEPTH");
    assert_eq!(ConfigError::Invalid(ConfigKey::ServerPort).message(), "ECMEM_SERVER_PORT must be a valid port number");
}

#[test]
fn api_urls_and_hostnames() {
    assert_eq!(api_url_for_hostname("github.com"), "https://api.github.com");
    assert_eq!(api_url_for_hostname("ghes.corp.com"), "https://ghes.corp.com/api/v3");
    assert_eq!(hostname_from_api_url("https://api.github.com"), "github.com");
    assert_eq!(hostname_from_api_url("https://ghes.corp.com/api/v3"), "ghes.corp.com");
    assert_eq!(hostname_from_api_url("http://internal:8080/api"), "internal:8080");
    assert_eq!(hostname_from_api_url("ghes.example.org"), "ghes.example.org");
    for h in ["github.com", "api.github.com", "ghes.corp.com", ""] {
        assert_eq!(hostname_from_api_url(&api_url_for_hostname(h)), h);
    }
}
