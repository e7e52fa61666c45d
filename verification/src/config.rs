//! Application configuration, built from the values of the `ECMEM_*`
//! environment variables.
use vstd::prelude::*;

use crate::numparse::{law_decimal_parses_back, parse_unsigned, parse_unsigned_str};
use crate::text::{
    concat, decimal, eq_str, split_char, split_once, split_once_str, split_str, starts_with,
    strip_prefix_str, trim, trim_str, u64_to_string, views,
};

verus! {

/// Configuration for a single GitHub organization/enterprise instance.
#[derive(Debug, Clone)]
pub struct OrgConfig {
    /// Organization name (e.g., "my-org")
    pub org: String,
    /// GitHub API base URL (e.g., "https://api.github.com" or "https://ghes.corp.com/api/v3")
    pub api_url: String,
    /// Hostname for `gh auth token --hostname` (e.g., "github.com" or "ghes.corp.com")
    pub hostname: String,
    /// Optional list of specific repos to ingest for this org.
    pub repos: Vec<String>,
}

pub struct OrgConfigView {
    pub org: Seq<char>,
    pub api_url: Seq<char>,
    pub hostname: Seq<char>,
    pub repos: Seq<Seq<char>>,
}

impl View for OrgConfig {
    type V = OrgConfigView;

    open spec fn view(&self) -> OrgConfigView {
        OrgConfigView {
            org: self.org@,
            api_url: self.api_url@,
            hostname: self.hostname@,
            repos: views(self.repos@),
        }
    }
}

pub open spec fn org_views(v: Seq<OrgConfig>) -> Seq<OrgConfigView> {
    v.map_values(|o: OrgConfig| o@)
}

#[derive(Debug, Clone, Copy, PartialEq, Eq, Structural)]
pub enum AuthMode {
    GitHub,
    Jwt,
    GhCli,
}

#[derive(Debug, Clone)]
pub struct AppConfig {
    // GitHub OAuth (used in github/jwt auth modes)
    pub github_client_id: String,
    pub github_client_secret: String,
    pub github_redirect_uri: String,
    pub github_auth_url: String,
    pub github_token_url: String,
    /// All configured GitHub organizations.
    pub orgs: Vec<OrgConfig>,
    // FalkorDB
    pub falkordb_host: String,
    pub falkordb_port: u16,
    pub falkordb_password: Option<String>,
    pub falkordb_graph_name: String,
    // Server
    pub server_host: String,
    pub server_port: u16,
    // Auth mode for MCP clients: "github", "jwt", or "gh_cli"
    pub auth_mode: AuthMode,
    pub jwt_secret: Option<String>,
    // Sync settings
    pub sync_batch_size: usize,
    pub max_file_depth: usize,
}

/// The values of the environment variables the configuration is read from
/// (`None` for a variable that is unset or not valid Unicode).
#[derive(Debug, Clone)]
pub struct EnvVars {
    /// ECMEM_AUTH_MODE
    pub auth_mode: Option<String>,
    /// ECMEM_JWT_SECRET
    pub jwt_secret: Option<String>,
    /// ECMEM_GITHUB_CLIENT_ID
    pub github_client_id: Option<String>,
    /// ECMEM_GITHUB_CLIENT_SECRET
    pub github_client_secret: Option<String>,
    /// ECMEM_GITHUB_REDIRECT_URI
    pub github_redirect_uri: Option<String>,
    /// ECMEM_GITHUB_ORGS
    pub github_orgs: Option<String>,
    /// ECMEM_GITHUB_ORG
    pub github_org: Option<String>,
    /// ECMEM_GITHUB_API_URL
    pub github_api_url: Option<String>,
    /// ECMEM_REPOS
    pub repos: Option<String>,
    /// ECMEM_GITHUB_AUTH_URL
    pub github_auth_url: Option<String>,
    /// ECMEM_GITHUB_TOKEN_URL
    pub github_token_url: Option<String>,
    /// ECMEM_FALKORDB_HOST
    pub falkordb_host: Option<String>,
    /// ECMEM_FALKORDB_PORT
    pub falkordb_port: Option<String>,
    /// ECMEM_FALKORDB_PASSWORD
    pub falkordb_password: Option<String>,
    /// ECMEM_FALKORDB_GRAPH
    pub falkordb_graph: Option<String>,
    /// ECMEM_SERVER_HOST
    pub server_host: Option<String>,
    /// ECMEM_SERVER_PORT
    pub server_port: Option<String>,
    /// ECMEM_SYNC_BATCH_SIZE
    pub sync_batch_size: Option<String>,
    /// ECMEM_MAX_FILE_DEPTH
    pub max_file_depth: Option<String>,
}

/// The variables whose value can stop the configuration from being built.
#[derive(Debug, Clone, Copy, PartialEq, Eq, Structural)]
pub enum ConfigKey {
    JwtSecret,
    GithubClientId,
    GithubClientSecret,
    GithubRedirectUri,
    GithubOrg,
    FalkordbPort,
    ServerPort,
    SyncBatchSize,
    MaxFileDepth,
}

/// Why the configuration could not be built.
#[derive(Debug, Clone, Copy, PartialEq, Eq, Structural)]
pub enum ConfigError {
    /// A required variable is unset.
    Missing(ConfigKey),
    /// A variable holds a value that does not parse.
    Invalid(ConfigKey),
}

// ---------------------------------------------------------------------------
// Specifications
// ---------------------------------------------------------------------------

pub open spec fn sv(o: Option<String>) -> Option<Seq<char>> {
    match o {
        Some(s) => Some(s@),
        None => None,
    }
}

pub open spec fn or_default(o: Option<String>, d: Seq<char>) -> Seq<char> {
    match o {
        Some(s) => s@,
        None => d,
    }
}

/// ECMEM_AUTH_MODE (default "github"): "jwt", one of "gh_cli"/"gh-cli"/"ghcli",
/// and anything else means GitHub OAuth.
pub open spec fn auth_mode_of(v: Seq<char>) -> AuthMode {
    if v == "jwt"@ {
        AuthMode::Jwt
    } else if v == "gh_cli"@ || v == "gh-cli"@ || v == "ghcli"@ {
        AuthMode::GhCli
    } else {
        AuthMode::GitHub
    }
}

pub open spec fn env_auth_mode(env: EnvVars) -> AuthMode {
    auth_mode_of(or_default(env.auth_mode, "github"@))
}

/// The API URL of a GitHub host.
pub open spec fn api_url_for(hostname: Seq<char>) -> Seq<char> {
    if hostname == "github.com"@ {
        "https://api.github.com"@
    } else {
        "https://"@ + hostname + "/api/v3"@
    }
}

/// The host of a GitHub API URL: what lies between the scheme and the first `/`.
pub open spec fn hostname_of(api_url: Seq<char>) -> Seq<char> {
    if api_url == "https://api.github.com"@ {
        "github.com"@
    } else {
        let rest = if starts_with(api_url, "https://"@) {
            api_url.skip("https://"@.len() as int)
        } else if starts_with(api_url, "http://"@) {
            api_url.skip("http://"@.len() as int)
        } else {
            api_url
        };
        split_char(rest, '/')[0]
    }
}

pub open spec fn trim_all(ps: Seq<Seq<char>>) -> Seq<Seq<char>> {
    ps.map_values(|p: Seq<char>| trim(p))
}

/// The comma-separated, trimmed names of a repo list.
pub open spec fn repo_list(s: Seq<char>) -> Seq<Seq<char>> {
    trim_all(split_char(s, ','))
}

/// The `org:repo,repo` segments of ECMEM_REPOS, in order (segments
/// without a colon name no org and are not among them).
pub open spec fn repo_pairs(segs: Seq<Seq<char>>) -> Seq<(Seq<char>, Seq<Seq<char>>)>
    decreases segs.len(),
{
    if segs.len() == 0 {
        Seq::empty()
    } else {
        repo_pairs(segs.drop_last()) + match split_once(trim(segs.last()), ':') {
            Some((o, rs)) => seq![(trim(o), repo_list(rs))],
            None => Seq::empty(),
        }
    }
}

/// The list of the last non-blank segment without a colon: a plain
/// `repo-a,repo-b` list, which applies to every org.
pub open spec fn shared_repos(segs: Seq<Seq<char>>) -> Option<Seq<Seq<char>>>
    decreases segs.len(),
{
    if segs.len() == 0 {
        None
    } else {
        let t = trim(segs.last());
        if split_once(t, ':') is None && t.len() > 0 {
            Some(repo_list(t))
        } else {
            shared_repos(segs.drop_last())
        }
    }
}

/// The repo lists of ECMEM_REPOS: per org, and the one for all orgs.
pub struct RepoListsView {
    pub per_org: Seq<(Seq<char>, Seq<Seq<char>>)>,
    pub shared: Option<Seq<Seq<char>>>,
}

/// The repo lists ECMEM_REPOS gives (none where it is unset or empty).
pub open spec fn repo_lists(val: Option<Seq<char>>) -> RepoListsView {
    match val {
        Some(v) => if v.len() == 0 {
            RepoListsView { per_org: Seq::empty(), shared: None }
        } else {
            RepoListsView { per_org: repo_pairs(split_char(v, ';')), shared: shared_repos(split_char(v, ';')) }
        },
        None => RepoListsView { per_org: Seq::empty(), shared: None },
    }
}

/// The repo list given for `org` by name: the last segment that names it.
pub open spec fn lookup_repos(pairs: Seq<(Seq<char>, Seq<Seq<char>>)>, org: Seq<char>) -> Option<Seq<Seq<char>>>
    decreases pairs.len(),
{
    if pairs.len() == 0 {
        None
    } else if pairs.last().0 == org {
        Some(pairs.last().1)
    } else {
        lookup_repos(pairs.drop_last(), org)
    }
}

/// The repos of `org`: its own list, else the list for all orgs, else none.
pub open spec fn repos_for(lists: RepoListsView, org: Seq<char>) -> Seq<Seq<char>> {
    match lookup_repos(lists.per_org, org) {
        Some(r) => r,
        None => match lists.shared {
            Some(r) => r,
            None => Seq::empty(),
        },
    }
}

/// One `org` or `org@hostname` entry of ECMEM_GITHUB_ORGS.
pub open spec fn org_entry(entry: Seq<char>, lists: RepoListsView) -> OrgConfigView {
    let e = trim(entry);
    let (org, hostname) = match split_once(e, '@') {
        Some((o, h)) => (o, h),
        None => (e, "github.com"@),
    };
    OrgConfigView { org, api_url: api_url_for(hostname), hostname, repos: repos_for(lists, org) }
}

/// The orgs of ECMEM_GITHUB_ORGS.
pub open spec fn multi_orgs(orgs: Seq<char>, repos: Option<Seq<char>>) -> Seq<OrgConfigView> {
    let entries = split_char(orgs, ',');
    Seq::new(entries.len(), |i: int| org_entry(entries[i], repo_lists(repos)))
}

/// The single org of ECMEM_GITHUB_ORG.
pub open spec fn single_org(env: EnvVars, org: Seq<char>) -> OrgConfigView {
    let api_url = or_default(env.github_api_url, "https://api.github.com"@);
    OrgConfigView {
        org,
        api_url,
        hostname: hostname_of(api_url),
        repos: match env.repos {
            Some(r) => if r@.len() > 0 {
                repo_list(r@)
            } else {
                Seq::empty()
            },
            None => Seq::empty(),
        },
    }
}

pub open spec fn u16_max() -> nat {
    65535
}

/// The first problem with the environment, checked in this order: the JWT
/// secret (JWT mode), the OAuth client settings (GitHub OAuth mode), the
/// org, then the numeric settings.
pub open spec fn config_error(env: EnvVars) -> Option<ConfigError> {
    let mode = env_auth_mode(env);
    if mode == AuthMode::Jwt && env.jwt_secret is None {
        Some(ConfigError::Missing(ConfigKey::JwtSecret))
    } else if mode == AuthMode::GitHub && env.github_client_id is None {
        Some(ConfigError::Missing(ConfigKey::GithubClientId))
    } else if mode == AuthMode::GitHub && env.github_client_secret is None {
        Some(ConfigError::Missing(ConfigKey::GithubClientSecret))
    } else if mode == AuthMode::GitHub && env.github_redirect_uri is None {
        Some(ConfigError::Missing(ConfigKey::GithubRedirectUri))
    } else if env.github_orgs is None && env.github_org is None {
        Some(ConfigError::Missing(ConfigKey::GithubOrg))
    } else if parse_unsigned(or_default(env.falkordb_port, "6379"@), u16_max()) is None {
        Some(ConfigError::Invalid(ConfigKey::FalkordbPort))
    } else if parse_unsigned(or_default(env.server_port, "8080"@), u16_max()) is None {
        Some(ConfigError::Invalid(ConfigKey::ServerPort))
    } else if parse_unsigned(or_default(env.sync_batch_size, "50"@), usize::MAX as nat) is None {
        Some(ConfigError::Invalid(ConfigKey::SyncBatchSize))
    } else if parse_unsigned(or_default(env.max_file_depth, "2"@), usize::MAX as nat) is None {
        Some(ConfigError::Invalid(ConfigKey::MaxFileDepth))
    } else {
        None
    }
}

/// The orgs the configuration lists.
pub open spec fn env_orgs(env: EnvVars) -> Seq<OrgConfigView> {
    match env.github_orgs {
        Some(o) => multi_orgs(o@, sv(env.repos)),
        None => seq![single_org(env, or_default(env.github_org, Seq::empty()))],
    }
}

/// The configuration a valid environment describes.
pub open spec fn config_matches(env: EnvVars, c: AppConfig) -> bool {
    let mode = env_auth_mode(env);
    &&& c.auth_mode == mode
    &&& sv(c.jwt_secret) == sv(env.jwt_secret)
    &&& c.github_client_id@ == or_default(env.github_client_id, Seq::empty())
    &&& c.github_client_secret@ == or_default(env.github_client_secret, Seq::empty())
    &&& c.github_redirect_uri@ == or_default(env.github_redirect_uri, Seq::empty())
    &&& c.github_auth_url@ == or_default(
        env.github_auth_url,
        "https://github.com/login/oauth/authorize"@,
    )
    &&& c.github_token_url@ == or_default(
        env.github_token_url,
        "https://github.com/login/oauth/access_token"@,
    )
    &&& org_views(c.orgs@) == env_orgs(env)
    &&& c.falkordb_host@ == or_default(env.falkordb_host, "127.0.0.1"@)
    &&& Some(c.falkordb_port as nat) == parse_unsigned(
        or_default(env.falkordb_port, "6379"@),
        u16_max(),
    )
    &&& sv(c.falkordb_password) == sv(env.falkordb_password)
    &&& c.falkordb_graph_name@ == or_default(env.falkordb_graph, "enterprise_code"@)
    &&& c.server_host@ == or_default(env.server_host, "127.0.0.1"@)
    &&& Some(c.server_port as nat) == parse_unsigned(
        or_default(env.server_port, "8080"@),
        u16_max(),
    )
    &&& Some(c.sync_batch_size as nat) == parse_unsigned(
        or_default(env.sync_batch_size, "50"@),
        usize::MAX as nat,
    )
    &&& Some(c.max_file_depth as nat) == parse_unsigned(
        or_default(env.max_file_depth, "2"@),
        usize::MAX as nat,
    )
}

// ---------------------------------------------------------------------------
// Executable code
// ---------------------------------------------------------------------------

fn value_or(o: &Option<String>, default: &str) -> (r: String)
    ensures
        r@ == or_default(*o, default@),
{
    match o {
        Some(s) => s.clone(),
        None => default.to_owned(),
    }
}

fn copy_opt(o: &Option<String>) -> (r: Option<String>)
    ensures
        sv(r) == sv(*o),
{
    match o {
        Some(s) => Some(s.clone()),
        None => None,
    }
}

fn parse_auth_mode(v: &str) -> (m: AuthMode)
    ensures
        m == auth_mode_of(v@),
{
    if eq_str(v, "jwt") {
        AuthMode::Jwt
    } else if eq_str(v, "gh_cli") || eq_str(v, "gh-cli") || eq_str(v, "ghcli") {
        AuthMode::GhCli
    } else {
        AuthMode::GitHub
    }
}

/// Derive the GitHub API URL from a hostname.
pub fn api_url_for_hostname(hostname: &str) -> (r: String)
    ensures
        r@ == api_url_for(hostname@),
{
    if eq_str(hostname, "github.com") {
        String::from_str("https://api.github.com")
    } else {
        let a = concat("https://", hostname);
        concat(a.as_str(), "/api/v3")
    }
}

/// Extract the hostname from a GitHub API URL.
pub fn hostname_from_api_url(api_url: &str) -> (r: String)
    ensures
        r@ == hostname_of(api_url@),
{
    if eq_str(api_url, "https://api.github.com") {
        String::from_str("github.com")
    } else {
        let rest = match strip_prefix_str(api_url, "https://") {
            Some(r) => r,
            None => match strip_prefix_str(api_url, "http://") {
                Some(r) => r,
                None => api_url.to_owned(),
            },
        };
        let pieces = split_str(rest.as_str(), '/');
        proof {
            crate::text::lemma_split_nonempty(rest@, '/');
        }
        assert(pieces@[0]@ == views(pieces@)[0]);
        pieces[0].clone()
    }
}

/// The trimmed comma-separated names of a repo list.
fn parse_repo_list(s: &str) -> (r: Vec<String>)
    ensures
        views(r@) == repo_list(s@),
{
    let pieces = split_str(s, ',');
    let mut out: Vec<String> = Vec::new();
    let mut i: usize = 0;
    while i < pieces.len()
        invariant
            0 <= i <= pieces.len(),
            views(pieces@) == split_char(s@, ','),
            views(out@) == trim_all(views(pieces@)).take(i as int),
        decreases pieces.len() - i,
    {
        let t = trim_str(pieces[i].as_str());
        let ghost before = views(out@);
        out.push(t);
        assert(views(out@) =~= before.push(t@));
        assert(views(out@) =~= trim_all(views(pieces@)).take(i + 1));
        i = i + 1;
    }
    assert(trim_all(views(pieces@)).take(pieces@.len() as int) =~= trim_all(views(pieces@)));
    out
}

pub open spec fn pair_views(v: Seq<(String, Vec<String>)>) -> Seq<(Seq<char>, Seq<Seq<char>>)> {
    v.map_values(|p: (String, Vec<String>)| (p.0@, views(p.1@)))
}

/// The repo lists of ECMEM_REPOS: per org, and the one for all orgs.
pub struct RepoLists {
    pub per_org: Vec<(String, Vec<String>)>,
    pub shared: Option<Vec<String>>,
}

pub open spec fn opt_views(o: Option<Vec<String>>) -> Option<Seq<Seq<char>>> {
    match o {
        Some(v) => Some(views(v@)),
        None => None,
    }
}

impl View for RepoLists {
    type V = RepoListsView;

    open spec fn view(&self) -> RepoListsView {
        RepoListsView { per_org: pair_views(self.per_org@), shared: opt_views(self.shared) }
    }
}

/// Parse ECMEM_REPOS for per-org repo lists.
/// Format: "org1:repo-a,repo-b;org2:repo-c" or just "repo-a,repo-b" (applies to all orgs).
pub fn parse_per_org_repos(value: &Option<String>) -> (r: RepoLists)
    ensures
        r@ == repo_lists(sv(*value)),
{
    let mut out: Vec<(String, Vec<String>)> = Vec::new();
    let mut shared: Option<Vec<String>> = None;
    match value {
        None => {
            assert(pair_views(out@) =~= Seq::<(Seq<char>, Seq<Seq<char>>)>::empty());
            RepoLists { per_org: out, shared }
        },
        Some(val) => {
            if val.as_str().unicode_len() == 0 {
                assert(pair_views(out@) =~= Seq::<(Seq<char>, Seq<Seq<char>>)>::empty());
                return RepoLists { per_org: out, shared };
            }
            let segments = split_str(val.as_str(), ';');
            let ghost segs = split_char(val@, ';');
            let mut i: usize = 0;
            assert(segs.take(0) =~= Seq::<Seq<char>>::empty());
            assert(pair_views(out@) =~= Seq::<(Seq<char>, Seq<Seq<char>>)>::empty());
            while i < segments.len()
                invariant
                    0 <= i <= segments.len(),
                    views(segments@) == segs,
                    pair_views(out@) == repo_pairs(segs.take(i as int)),
                    opt_views(shared) == shared_repos(segs.take(i as int)),
                decreases segments.len() - i,
            {
                assert(segs.take(i + 1).drop_last() =~= segs.take(i as int));
                assert(segs.take(i + 1).last() == segments@[i as int]@);
                let seg = trim_str(segments[i].as_str());
                let ghost before = pair_views(out@);
                match split_once_str(seg.as_str(), ':') {
                    Some((org, repos_str)) => {
                        let repos = parse_repo_list(repos_str.as_str());
                        let key = trim_str(org.as_str());
                        let ghost p = (key@, views(repos@));
                        out.push((key, repos));
                        assert(pair_views(out@) =~= before.push(p));
                    },
                    None => {
                        assert(pair_views(out@) =~= before + Seq::<(Seq<char>, Seq<Seq<char>>)>::empty());
                        if seg.as_str().unicode_len() > 0 {
                            shared = Some(parse_repo_list(seg.as_str()));
                        }
                    },
                }
                i = i + 1;
            }
            assert(segs.take(segs.len() as int) =~= segs);
            RepoLists { per_org: out, shared }
        },
    }
}

/// The repo list given for `org` by name (the last one naming it).
fn find_org_repos(pairs: &Vec<(String, Vec<String>)>, org: &str) -> (r: Option<Vec<String>>)
    ensures
        opt_views(r) == lookup_repos(pair_views(pairs@), org@),
{
    let mut i = pairs.len();
    let ghost pv = pair_views(pairs@);
    assert(pv.take(pv.len() as int) =~= pv);
    while i > 0
        invariant
            0 <= i <= pairs.len(),
            pv == pair_views(pairs@),
            lookup_repos(pv, org@) == lookup_repos(pv.take(i as int), org@),
        decreases i,
    {
        assert(pv.take(i as int).drop_last() =~= pv.take(i - 1));
        assert(pv.take(i as int).last() == pv[i - 1]);
        if eq_str(pairs[i - 1].0.as_str(), org) {
            return Some(pairs[i - 1].1.clone());
        }
        i = i - 1;
    }
    None
}

/// The repos of `org`: its own list, else the list for all orgs, else none.
pub fn lookup_org_repos(lists: &RepoLists, org: &str) -> (r: Vec<String>)
    ensures
        views(r@) == repos_for(lists@, org@),
{
    match find_org_repos(&lists.per_org, org) {
        Some(r) => r,
        None => match &lists.shared {
            Some(r) => r.clone(),
            None => {
                let v: Vec<String> = Vec::new();
                assert(views(v@) =~= Seq::<Seq<char>>::empty());
                v
            },
        },
    }
}

/// One `org` or `org@hostname` entry of ECMEM_GITHUB_ORGS.
fn parse_org_entry(entry: &str, lists: &RepoLists) -> (r: OrgConfig)
    ensures
        r@ == org_entry(entry@, lists@),
{
    let e = trim_str(entry);
    let (org, hostname) = match split_once_str(e.as_str(), '@') {
        Some((o, h)) => (o, h),
        None => (e.clone(), String::from_str("github.com")),
    };
    let api_url = api_url_for_hostname(hostname.as_str());
    let repos = lookup_org_repos(lists, org.as_str());
    OrgConfig { org, api_url, hostname, repos }
}

fn multi_org_configs(orgs: &str, repos: &Option<String>) -> (r: Vec<OrgConfig>)
    ensures
        org_views(r@) == multi_orgs(orgs@, sv(*repos)),
{
    let pairs = parse_per_org_repos(repos);
    let entries = split_str(orgs, ',');
    let ghost es = split_char(orgs@, ',');
    let mut out: Vec<OrgConfig> = Vec::new();
    let mut i: usize = 0;
    while i < entries.len()
        invariant
            0 <= i <= entries.len(),
            views(entries@) == es,
            pairs@ == repo_lists(sv(*repos)),
            org_views(out@) == Seq::new(
                i as nat,
                |k: int| org_entry(es[k], repo_lists(sv(*repos))),
            ),
        decreases entries.len() - i,
    {
        assert(entries@[i as int]@ == es[i as int]);
        let o = parse_org_entry(entries[i].as_str(), &pairs);
        let ghost before = org_views(out@);
        out.push(o);
        assert(org_views(out@) =~= before.push(o@));
        assert(org_views(out@) =~= Seq::new(
            (i + 1) as nat,
            |k: int| org_entry(es[k], repo_lists(sv(*repos))),
        ));
        i = i + 1;
    }
    out
}

fn single_org_config(env: &EnvVars, org: String) -> (r: OrgConfig)
    ensures
        r@ == single_org(*env, org@),
{
    let api_url = value_or(&env.github_api_url, "https://api.github.com");
    let hostname = hostname_from_api_url(api_url.as_str());
    let repos = match &env.repos {
        Some(r) => if r.as_str().unicode_len() > 0 {
            parse_repo_list(r.as_str())
        } else {
            Vec::new()
        },
        None => Vec::new(),
    };
    proof {
        if sv(env.repos) is None || sv(env.repos).unwrap().len() == 0 {
            assert(views(repos@) =~= Seq::<Seq<char>>::empty());
        }
    }
    OrgConfig { org, api_url, hostname, repos }
}

fn required(v: &Option<String>, key: ConfigKey) -> (r: Result<String, ConfigError>)
    ensures
        match v {
            Some(s) => (r matches Ok(x) && x@ == s@),
            None => r == Err::<String, ConfigError>(ConfigError::Missing(key)),
        },
{
    match v {
        Some(s) => Ok(s.clone()),
        None => Err(ConfigError::Missing(key)),
    }
}

fn parse_setting(v: &Option<String>, default: &str, max: u64, key: ConfigKey) -> (r: Result<u64, ConfigError>)
    ensures
        match parse_unsigned(or_default(*v, default@), max as nat) {
            Some(n) => r == Ok::<u64, ConfigError>(n as u64),
            None => r == Err::<u64, ConfigError>(ConfigError::Invalid(key)),
        },
{
    let text = value_or(v, default);
    match parse_unsigned_str(text.as_str(), max) {
        Some(n) => Ok(n),
        None => Err(ConfigError::Invalid(key)),
    }
}

/// The name of a variable.
pub open spec fn key_name(k: ConfigKey) -> Seq<char> {
    match k {
        ConfigKey::JwtSecret => "ECMEM_JWT_SECRET"@,
        ConfigKey::GithubClientId => "ECMEM_GITHUB_CLIENT_ID"@,
        ConfigKey::GithubClientSecret => "ECMEM_GITHUB_CLIENT_SECRET"@,
        ConfigKey::GithubRedirectUri => "ECMEM_GITHUB_REDIRECT_URI"@,
        ConfigKey::GithubOrg => "ECMEM_GITHUB_ORG"@,
        ConfigKey::FalkordbPort => "ECMEM_FALKORDB_PORT"@,
        ConfigKey::ServerPort => "ECMEM_SERVER_PORT"@,
        ConfigKey::SyncBatchSize => "ECMEM_SYNC_BATCH_SIZE"@,
        ConfigKey::MaxFileDepth => "ECMEM_MAX_FILE_DEPTH"@,
    }
}

/// The text an error is reported with: the variable's name, then what is
/// wrong with it.
pub open spec fn error_message(e: ConfigError) -> Seq<char> {
    match e {
        ConfigError::Missing(k) => key_name(k) + " environment variable is required"@,
        ConfigError::Invalid(k) => key_name(k) + if k == ConfigKey::FalkordbPort || k == ConfigKey::ServerPort {
            " must be a valid port number"@
        } else {
            " must be a number"@
        },
    }
}

impl ConfigError {
    /// The message the error is reported with.
    pub fn message(&self) -> (s: String)
        ensures
            s@ == error_message(*self),
    {
        let (key, text) = match self {
            ConfigError::Missing(k) => (k, " environment variable is required"),
            ConfigError::Invalid(k) => (k, match k {
                ConfigKey::FalkordbPort | ConfigKey::ServerPort => " must be a valid port number",
                _ => " must be a number",
            }),
        };
        let name = key.variable();
        concat(name.as_str(), text)
    }
}

impl ConfigKey {
    /// The name of the environment variable.
    pub fn variable(&self) -> (s: String)
        ensures
            s@ == key_name(*self),
    {
        let s = match self {
            ConfigKey::JwtSecret => "ECMEM_JWT_SECRET",
            ConfigKey::GithubClientId => "ECMEM_GITHUB_CLIENT_ID",
            ConfigKey::GithubClientSecret => "ECMEM_GITHUB_CLIENT_SECRET",
            ConfigKey::GithubRedirectUri => "ECMEM_GITHUB_REDIRECT_URI",
            ConfigKey::GithubOrg => "ECMEM_GITHUB_ORG",
            ConfigKey::FalkordbPort => "ECMEM_FALKORDB_PORT",
            ConfigKey::ServerPort => "ECMEM_SERVER_PORT",
            ConfigKey::SyncBatchSize => "ECMEM_SYNC_BATCH_SIZE",
            ConfigKey::MaxFileDepth => "ECMEM_MAX_FILE_DEPTH",
        };
        s.to_owned()
    }
}

impl AppConfig {
    /// Builds the configuration from the values of the environment variables.
    pub fn from_vars(env: &EnvVars) -> (r: Result<AppConfig, ConfigError>)
        ensures
            match config_error(*env) {
                Some(e) => r == Err::<AppConfig, ConfigError>(e),
                None => (r matches Ok(c) && config_matches(*env, c)),
            },
    {
        let mode_text = value_or(&env.auth_mode, "github");
        let auth_mode = parse_auth_mode(mode_text.as_str());
        let jwt_secret = if auth_mode == AuthMode::Jwt {
            match required(&env.jwt_secret, ConfigKey::JwtSecret) {
                Ok(x) => Some(x),
                Err(e) => {
                    return Err(e);
                },
            }
        } else {
            copy_opt(&env.jwt_secret)
        };
        let (github_client_id, github_client_secret, github_redirect_uri) = if auth_mode
            != AuthMode::GitHub {
            (
                value_or(&env.github_client_id, ""),
                value_or(&env.github_client_secret, ""),
                value_or(&env.github_redirect_uri, ""),
            )
        } else {
            let id = match required(&env.github_client_id, ConfigKey::GithubClientId) {
                Ok(x) => x,
                Err(e) => {
                    return Err(e);
                },
            };
            let secret = match required(&env.github_client_secret, ConfigKey::GithubClientSecret) {
                Ok(x) => x,
                Err(e) => {
                    return Err(e);
                },
            };
            let redirect = match required(&env.github_redirect_uri, ConfigKey::GithubRedirectUri) {
                Ok(x) => x,
                Err(e) => {
                    return Err(e);
                },
            };
            (id, secret, redirect)
        };
        proof {
            reveal_strlit("");
        }
        let orgs = match &env.github_orgs {
            Some(orgs_str) => multi_org_configs(orgs_str.as_str(), &env.repos),
            None => {
                let org = match required(&env.github_org, ConfigKey::GithubOrg) {
                    Ok(x) => x,
                    Err(e) => {
                        return Err(e);
                    },
                };
                let one = single_org_config(env, org);
                let v = vec![one];
                assert(org_views(v@) =~= seq![one@]);
                v
            },
        };
        let github_auth_url = value_or(&env.github_auth_url, "https://github.com/login/oauth/authorize");
        let github_token_url = value_or(&env.github_token_url, "https://github.com/login/oauth/access_token");
        let falkordb_host = value_or(&env.falkordb_host, "127.0.0.1");
        let falkordb_port_value = match parse_setting(&env.falkordb_port, "6379", 65535, ConfigKey::FalkordbPort) {
            Ok(x) => x,
            Err(e) => {
                return Err(e);
            },
        };
        let falkordb_port = falkordb_port_value as u16;
        let falkordb_password = copy_opt(&env.falkordb_password);
        let falkordb_graph_name = value_or(&env.falkordb_graph, "enterprise_code");
        let server_host = value_or(&env.server_host, "127.0.0.1");
        let server_port_value = match parse_setting(&env.server_port, "8080", 65535, ConfigKey::ServerPort) {
            Ok(x) => x,
            Err(e) => {
                return Err(e);
            },
        };
        let server_port = server_port_value as u16;
        let sync_batch_size_value = match parse_setting(&env.sync_batch_size, "50", usize::MAX as u64, ConfigKey::SyncBatchSize) {
            Ok(x) => x,
            Err(e) => {
                return Err(e);
            },
        };
        let sync_batch_size = sync_batch_size_value as usize;
        let max_file_depth_value = match parse_setting(&env.max_file_depth, "2", usize::MAX as u64, ConfigKey::MaxFileDepth) {
            Ok(x) => x,
            Err(e) => {
                return Err(e);
            },
        };
        let max_file_depth = max_file_depth_value as usize;
        let c = AppConfig {
            github_client_id,
            github_client_secret,
            github_redirect_uri,
            github_auth_url,
            github_token_url,
            orgs,
            falkordb_host,
            falkordb_port,
            falkordb_password,
            falkordb_graph_name,
            server_host,
            server_port,
            auth_mode,
            jwt_secret,
            sync_batch_size,
            max_file_depth,
        };
        assert(""@ =~= Seq::<char>::empty());
        assert(c.auth_mode == env_auth_mode(*env));
        assert(sv(c.jwt_secret) == sv(env.jwt_secret));
        assert(c.github_client_id@ == or_default(env.github_client_id, Seq::empty()));
        assert(org_views(c.orgs@) == env_orgs(*env));
        assert(Some(c.falkordb_port as nat) == parse_unsigned(or_default(env.falkordb_port, "6379"@), u16_max()));
        assert(Some(c.sync_batch_size as nat) == parse_unsigned(or_default(env.sync_batch_size, "50"@), usize::MAX as nat));
        Ok(c)
    }

    /// The `host:port` address the server listens on.
    pub fn server_addr(&self) -> (s: String)
        ensures
            s@ == self.server_host@ + ":"@ + decimal(self.server_port as nat),
    {
        let a = concat(self.server_host.as_str(), ":");
        let port = u64_to_string(self.server_port as u64);
        concat(a.as_str(), port.as_str())
    }
}

/// The API URL derived from a host names that host again: taking the host
/// out of `api_url_for_hostname`'s result gives back any host name that
/// holds no `/`.
pub proof fn law_hostname_of_api_url(hostname: Seq<char>)
    requires
        !hostname.contains('/'),
    ensures
        hostname_of(api_url_for(hostname)) == hostname,
{
    reveal_strlit("github.com");
    reveal_strlit("https://api.github.com");
    reveal_strlit("https://");
    reveal_strlit("http://");
    reveal_strlit("/api/v3");
    if hostname == "github.com"@ {
    } else {
        let u = api_url_for(hostname);
        assert(u.len() == 8 + hostname.len() + 7);
        assert(u != "https://api.github.com"@) by {
            if u == "https://api.github.com"@ {
                assert(u[u.len() - 1] == '3');
                assert("https://api.github.com"@[21] == 'm');
            }
        }
        assert(starts_with(u, "https://"@)) by {
            assert(u.take(8) =~= "https://"@);
        }
        let rest = u.skip(8);
        assert(rest =~= hostname + "/api/v3"@);
        crate::text::lemma_split_first(hostname, "/api/v3"@, '/');
    }
}

/// ECMEM_GITHUB_ORGS, when set, decides the orgs; ECMEM_GITHUB_ORG is then
/// not consulted.
pub proof fn law_org_list_takes_precedence(env: EnvVars, other_org: Option<String>)
    requires
        env.github_orgs is Some,
    ensures
        env_orgs(env) == env_orgs(EnvVars { github_org: other_org, ..env }),
        config_error(env) != Some(ConfigError::Missing(ConfigKey::GithubOrg)),
{
}

/// An org named without a host is an org on github.com, reached through
/// the public API.
pub proof fn law_plain_org_is_on_github_com(entry: Seq<char>, lists: RepoListsView)
    requires
        !trim(entry).contains('@'),
    ensures
        org_entry(entry, lists).org == trim(entry),
        org_entry(entry, lists).hostname == "github.com"@,
        org_entry(entry, lists).api_url == "https://api.github.com"@,
{
    let e = trim(entry);
    crate::text::lemma_find_any_some(e, seq!['@']);
    if let Some(i) = crate::text::find_any(e, seq!['@']) {
        crate::text::lemma_singleton_contains('@', e[i]);
        assert(e.contains('@')) by {
            assert(e[i] == '@');
        }
    }
}


proof fn lemma_default_numbers()
    ensures
        parse_unsigned("6379"@, 65535) == Some(6379nat),
        parse_unsigned("8080"@, 65535) == Some(8080nat),
        parse_unsigned("50"@, usize::MAX as nat) == Some(50nat),
        parse_unsigned("2"@, usize::MAX as nat) == Some(2nat),
{
    reveal_strlit("6379");
    reveal_strlit("8080");
    reveal_strlit("50");
    reveal_strlit("2");
    reveal_with_fuel(decimal, 5);
    assert(decimal(6379) =~= "6379"@);
    assert(decimal(8080) =~= "8080"@);
    assert(decimal(50) =~= "50"@);
    assert(decimal(2) =~= "2"@);
    law_decimal_parses_back(6379, 65535);
    law_decimal_parses_back(8080, 65535);
    law_decimal_parses_back(50, usize::MAX as nat);
    law_decimal_parses_back(2, usize::MAX as nat);
}

/// Every setting of a configuration built from an environment is the
/// variable's value when the variable is set, and its documented default
/// only when it is unset: OAuth client settings empty, the OAuth URLs
/// github.com's, FalkorDB at 127.0.0.1:6379 in graph `enterprise_code`,
/// the server at 127.0.0.1:8080, batches of 50, file depth 2; the password
/// and the JWT secret are the variables' values, if any.
pub proof fn law_settings_follow_environment(env: EnvVars, c: AppConfig)
    requires
        config_matches(env, c),
    ensures
        env.github_client_id matches Some(v) ==> c.github_client_id@ == v@,
        env.github_client_id is None ==> c.github_client_id@ == Seq::<char>::empty(),
        env.github_client_secret matches Some(v) ==> c.github_client_secret@ == v@,
        env.github_client_secret is None ==> c.github_client_secret@ == Seq::<char>::empty(),
        env.github_redirect_uri matches Some(v) ==> c.github_redirect_uri@ == v@,
        env.github_redirect_uri is None ==> c.github_redirect_uri@ == Seq::<char>::empty(),
        env.github_auth_url matches Some(v) ==> c.github_auth_url@ == v@,
        env.github_auth_url is None ==> c.github_auth_url@ == "https://github.com/login/oauth/authorize"@,
        env.github_token_url matches Some(v) ==> c.github_token_url@ == v@,
        env.github_token_url is None ==> c.github_token_url@ == "https://github.com/login/oauth/access_token"@,
        env.falkordb_host matches Some(v) ==> c.falkordb_host@ == v@,
        env.falkordb_host is None ==> c.falkordb_host@ == "127.0.0.1"@,
        env.falkordb_graph matches Some(v) ==> c.falkordb_graph_name@ == v@,
        env.falkordb_graph is None ==> c.falkordb_graph_name@ == "enterprise_code"@,
        env.server_host matches Some(v) ==> c.server_host@ == v@,
        env.server_host is None ==> c.server_host@ == "127.0.0.1"@,
        env.falkordb_password matches Some(v) ==> (c.falkordb_password matches Some(x) && x@ == v@),
        env.falkordb_password is None ==> c.falkordb_password is None,
        env.jwt_secret matches Some(v) ==> (c.jwt_secret matches Some(x) && x@ == v@),
        env.jwt_secret is None ==> c.jwt_secret is None,
        env.falkordb_port matches Some(v) ==> parse_unsigned(v@, 65535) == Some(c.falkordb_port as nat),
        env.falkordb_port is None ==> c.falkordb_port == 6379,
        env.server_port matches Some(v) ==> parse_unsigned(v@, 65535) == Some(c.server_port as nat),
        env.server_port is None ==> c.server_port == 8080,
        env.sync_batch_size matches Some(v) ==> parse_unsigned(v@, usize::MAX as nat) == Some(c.sync_batch_size as nat),
        env.sync_batch_size is None ==> c.sync_batch_size == 50,
        env.max_file_depth matches Some(v) ==> parse_unsigned(v@, usize::MAX as nat) == Some(c.max_file_depth as nat),
        env.max_file_depth is None ==> c.max_file_depth == 2,
{
    lemma_default_numbers();
}

/// The auth mode is JWT for `jwt`, gh CLI for `gh_cli`, `gh-cli` or
/// `ghcli`, and GitHub OAuth for anything else, including an unset variable.
pub proof fn law_auth_mode_follows_environment(env: EnvVars, c: AppConfig)
    requires
        config_matches(env, c),
    ensures
        (env.auth_mode matches Some(v) && v@ == "jwt"@) ==> c.auth_mode == AuthMode::Jwt,
        (env.auth_mode matches Some(v) && (v@ == "gh_cli"@ || v@ == "gh-cli"@ || v@ == "ghcli"@))
            ==> c.auth_mode == AuthMode::GhCli,
        (env.auth_mode matches Some(v) && v@ != "jwt"@ && v@ != "gh_cli"@ && v@ != "gh-cli"@ && v@ != "ghcli"@)
            ==> c.auth_mode == AuthMode::GitHub,
        env.auth_mode is None ==> c.auth_mode == AuthMode::GitHub,
{
    reveal_strlit("github");
    reveal_strlit("jwt");
    reveal_strlit("gh_cli");
    reveal_strlit("gh-cli");
    reveal_strlit("ghcli");
    assert("jwt"@.len() == 3);
    assert("gh_cli"@.len() == 6);
    assert("gh-cli"@.len() == 6);
    assert("ghcli"@.len() == 5);
    assert("github"@.len() == 6);
    assert("github"@ != "gh_cli"@) by {
        assert("github"@[2] != "gh_cli"@[2]);
    }
    assert("github"@ != "gh-cli"@) by {
        assert("github"@[2] != "gh-cli"@[2]);
    }
}

/// Without ECMEM_GITHUB_ORGS the configuration holds exactly one org: the
/// one ECMEM_GITHUB_ORG names, at ECMEM_GITHUB_API_URL (default the public
/// API), with the host of that URL.
pub proof fn law_single_org_follows_environment(env: EnvVars, c: AppConfig)
    requires
        config_matches(env, c),
        config_error(env) is None,
        env.github_orgs is None,
    ensures
        c.orgs@.len() == 1,
        env.github_org matches Some(o) && c.orgs@[0].org@ == o@,
        env.github_api_url matches Some(u) ==> c.orgs@[0].api_url@ == u@,
        env.github_api_url is None ==> c.orgs@[0].api_url@ == "https://api.github.com"@ && c.orgs@[0].hostname@
            == "github.com"@,
        c.orgs@[0].hostname@ == hostname_of(c.orgs@[0].api_url@),
{
    assert(org_views(c.orgs@).len() == 1);
    assert(org_views(c.orgs@)[0] == c.orgs@[0]@);
}

/// An org entry `org@host` (trimmed, `org` without `@`) is the org `org` on
/// `host`, reached through `https://host/api/v3`, or through the public API
/// when the host is github.com.
pub proof fn law_org_entry_with_host(entry: Seq<char>, o: Seq<char>, h: Seq<char>, lists: RepoListsView)
    requires
        trim(entry) == o + seq!['@'] + h,
        !o.contains('@'),
    ensures
        org_entry(entry, lists).org == o,
        org_entry(entry, lists).hostname == h,
        h == "github.com"@ ==> org_entry(entry, lists).api_url == "https://api.github.com"@,
        h != "github.com"@ ==> org_entry(entry, lists).api_url == "https://"@ + h + "/api/v3"@,
{
    let e = trim(entry);
    let n = o.len() as int;
    assert(e[n] == '@');
    assert forall|j: int| 0 <= j < n implies !seq!['@'].contains(#[trigger] e[j]) by {
        assert(e[j] == o[j]);
        crate::text::lemma_singleton_contains('@', e[j]);
        if e[j] == '@' {
            assert(o.contains('@'));
        }
    }
    crate::text::lemma_singleton_contains('@', e[n]);
    crate::text::lemma_find_any_is(e, seq!['@'], n);
    assert(e.take(n) =~= o);
    assert(e.skip(n + 1) =~= h);
}


/// A repo list without `:` or `;` in ECMEM_REPOS (`repo-a,repo-b`) is the
/// list of every org, whatever its name.
pub proof fn law_plain_repo_list_is_everyones(v: Seq<char>, org: Seq<char>)
    requires
        v.len() > 0,
        trim(v).len() > 0,
        !v.contains(':'),
        !v.contains(';'),
    ensures
        repos_for(repo_lists(Some(v)), org) == repo_list(trim(v)),
{
    crate::text::lemma_split_no_sep(v, ';');
    let segs = split_char(v, ';');
    assert(segs.drop_last() =~= Seq::<Seq<char>>::empty());
    let t = trim(v);
    crate::text::lemma_trim_keeps_absent(v, ':');
    assert forall|j: int| 0 <= j < t.len() implies !seq![':'].contains(#[trigger] t[j]) by {
        crate::text::lemma_singleton_contains(':', t[j]);
    }
    crate::text::lemma_find_any_some(t, seq![':']);
    assert(crate::text::find_any(t, seq![':']) is None);
    assert(split_once(t, ':') is None);
    assert(segs.last() == v);
    assert(repo_pairs(segs.drop_last()) =~= Seq::<(Seq<char>, Seq<Seq<char>>)>::empty());
    assert(repo_pairs(segs) =~= Seq::<(Seq<char>, Seq<Seq<char>>)>::empty());
    assert(shared_repos(segs) == Some(repo_list(t)));
}


/// A single `org:repo-a,repo-b` segment in ECMEM_REPOS (with no
/// surrounding blanks) gives that org those repos, and no other org any.
pub proof fn law_org_repo_list(o: Seq<char>, rs: Seq<char>, other: Seq<char>)
    requires
        !o.contains(':'),
        !o.contains(';'),
        !rs.contains(';'),
        trim(o + seq![':'] + rs) == o + seq![':'] + rs,
        other != trim(o),
    ensures
        repos_for(repo_lists(Some(o + seq![':'] + rs)), trim(o)) == repo_list(rs),
        repos_for(repo_lists(Some(o + seq![':'] + rs)), other) == Seq::<Seq<char>>::empty(),
{
    let v = o + seq![':'] + rs;
    assert(!v.contains(';')) by {
        if v.contains(';') {
            let k = choose|k: int| 0 <= k < v.len() && v[k] == ';';
            if k < o.len() {
                assert(o[k] == ';');
            } else if k > o.len() {
                assert(rs[k - o.len() - 1] == ';');
            }
        }
    }
    crate::text::lemma_split_no_sep(v, ';');
    let segs = split_char(v, ';');
    assert(segs.last() == v);
    assert(segs.drop_last() =~= Seq::<Seq<char>>::empty());
    let n = o.len() as int;
    assert(v[n] == ':');
    crate::text::lemma_singleton_contains(':', v[n]);
    assert forall|j: int| 0 <= j < n implies !seq![':'].contains(#[trigger] v[j]) by {
        assert(v[j] == o[j]);
        crate::text::lemma_singleton_contains(':', v[j]);
        if v[j] == ':' {
            assert(o.contains(':'));
        }
    }
    crate::text::lemma_find_any_is(v, seq![':'], n);
    assert(v.take(n) =~= o);
    assert(v.skip(n + 1) =~= rs);
    assert(split_once(v, ':') == Some((o, rs)));
    assert(repo_pairs(segs.drop_last()) =~= Seq::<(Seq<char>, Seq<Seq<char>>)>::empty());
    assert(repo_pairs(segs) =~= seq![(trim(o), repo_list(rs))]);
    assert(shared_repos(segs.drop_last()) is None);
    assert(shared_repos(segs) is None);
    let pairs = repo_pairs(segs);
    assert(pairs.drop_last() =~= Seq::<(Seq<char>, Seq<Seq<char>>)>::empty());
    assert(v.len() > 0);
    assert(repo_lists(Some(v)).per_org == pairs);
    assert(lookup_repos(pairs.drop_last(), other) is None);
    assert(pairs.last().0 != other);
    assert(lookup_repos(pairs, other) is None);
}


/// The host of an API URL is what stands between `https://` (or `http://`)
/// and the next `/`; the public API `https://api.github.com` is github.com.
pub proof fn law_host_of_api_url(h: Seq<char>, rest: Seq<char>)
    requires
        !h.contains('/'),
    ensures
        hostname_of("https://api.github.com"@) == "github.com"@,
        "https://"@ + h + seq!['/'] + rest != "https://api.github.com"@ ==> hostname_of(
            "https://"@ + h + seq!['/'] + rest,
        ) == h,
        hostname_of("http://"@ + h + seq!['/'] + rest) == h,
{
    reveal_strlit("https://");
    reveal_strlit("http://");
    reveal_strlit("https://api.github.com");
    let u = "https://"@ + h + seq!['/'] + rest;
    assert(u.take(8) =~= "https://"@);
    assert(u.skip(8) =~= h + (seq!['/'] + rest));
    crate::text::lemma_split_first(h, seq!['/'] + rest, '/');
    let w = "http://"@ + h + seq!['/'] + rest;
    assert(w != "https://api.github.com"@) by {
        assert(w[4] == ':');
        assert("https://api.github.com"@[4] == 's');
    }
    assert(!starts_with(w, "https://"@)) by {
        if starts_with(w, "https://"@) {
            assert(w.take(8)[4] == "https://"@[4]);
        }
    }
    assert(w.take(7) =~= "http://"@);
    assert(w.skip(7) =~= h + (seq!['/'] + rest));
}

} // verus!
