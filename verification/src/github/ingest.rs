//! The decisions of the ingestion pipeline: which graph writes a repository
//! turns into, which files of its tree are recorded, how listing pages
//! advance, and how sync outcomes are tallied.
use vstd::prelude::*;

use crate::config::OrgConfig;
use crate::github::client::TreeEntry;
use crate::graph::client::{param_views, text_param, FalkorParam, GraphRequest, ParamView};
use crate::graph::models::{kind_of_lower, Dependency, FileKind};
use crate::graph::queries;
use crate::text::{concat, count_char, count_char_str, eq_str, lowercase, views};

verus! {

/// Results of a sync operation.
#[derive(Debug, Clone)]
pub struct SyncReport {
    pub repos_processed: usize,
    pub repos_updated: usize,
    pub languages_found: usize,
    pub dependencies_found: usize,
    pub errors: Vec<String>,
}

/// Every processed repository was either updated or reported as an error.
pub open spec fn report_consistent(r: SyncReport) -> bool {
    r.repos_processed == r.repos_updated + r.errors@.len()
}

impl Default for SyncReport {
    fn default() -> (r: SyncReport)
        ensures
            r.repos_processed == 0,
            r.repos_updated == 0,
            r.languages_found == 0,
            r.dependencies_found == 0,
            r.errors@.len() == 0,
            report_consistent(r),
    {
        SyncReport {
            repos_processed: 0,
            repos_updated: 0,
            languages_found: 0,
            dependencies_found: 0,
            errors: Vec::new(),
        }
    }
}

impl SyncReport {
    /// Counts one repository synced with `languages` languages and
    /// `dependencies` dependencies found.
    pub fn record_success(&mut self, languages: usize, dependencies: usize)
        requires
            old(self).repos_processed < usize::MAX,
            old(self).repos_updated < usize::MAX,
            old(self).languages_found + languages <= usize::MAX,
            old(self).dependencies_found + dependencies <= usize::MAX,
        ensures
            final(self).repos_processed == old(self).repos_processed + 1,
            final(self).repos_updated == old(self).repos_updated + 1,
            final(self).languages_found == old(self).languages_found + languages,
            final(self).dependencies_found == old(self).dependencies_found + dependencies,
            final(self).errors@ == old(self).errors@,
            report_consistent(*old(self)) ==> report_consistent(*final(self)),
    {
        self.repos_updated = self.repos_updated + 1;
        self.languages_found = self.languages_found + languages;
        self.dependencies_found = self.dependencies_found + dependencies;
        self.repos_processed = self.repos_processed + 1;
    }

    /// Counts one repository whose sync failed, reported as `repo: message`.
    pub fn record_failure(&mut self, repo_name: &str, message: &str)
        requires
            old(self).repos_processed < usize::MAX,
        ensures
            final(self).repos_processed == old(self).repos_processed + 1,
            final(self).repos_updated == old(self).repos_updated,
            final(self).languages_found == old(self).languages_found,
            final(self).dependencies_found == old(self).dependencies_found,
            views(final(self).errors@) == views(old(self).errors@).push(repo_name@ + ": "@ + message@),
            report_consistent(*old(self)) ==> report_consistent(*final(self)),
    {
        let a = concat(repo_name, ": ");
        let line = concat(a.as_str(), message);
        let ghost before = views(self.errors@);
        self.errors.push(line);
        assert(views(self.errors@) =~= before.push(line@));
        self.repos_processed = self.repos_processed + 1;
    }

    /// Adds the counts and errors of another report to this one.
    pub fn merge(&mut self, other: SyncReport)
        requires
            old(self).repos_processed + other.repos_processed <= usize::MAX,
            old(self).repos_updated + other.repos_updated <= usize::MAX,
            old(self).languages_found + other.languages_found <= usize::MAX,
            old(self).dependencies_found + other.dependencies_found <= usize::MAX,
        ensures
            final(self).repos_processed == old(self).repos_processed + other.repos_processed,
            final(self).repos_updated == old(self).repos_updated + other.repos_updated,
            final(self).languages_found == old(self).languages_found + other.languages_found,
            final(self).dependencies_found == old(self).dependencies_found + other.dependencies_found,
            views(final(self).errors@) == views(old(self).errors@) + views(other.errors@),
            report_consistent(*old(self)) && report_consistent(other) ==> report_consistent(*final(self)),
    {
        self.repos_processed = self.repos_processed + other.repos_processed;
        self.repos_updated = self.repos_updated + other.repos_updated;
        self.languages_found = self.languages_found + other.languages_found;
        self.dependencies_found = self.dependencies_found + other.dependencies_found;
        let mut errs = other.errors;
        let ghost before = views(self.errors@);
        let ghost added = views(errs@);
        self.errors.append(&mut errs);
        assert(views(self.errors@) =~= before + added);
    }
}

// ---------------------------------------------------------------------------
// Listing pages
// ---------------------------------------------------------------------------

/// Repositories asked for per listing page.
pub const PAGE_SIZE: u8 = 100;

/// The page to list after a page that held `fetched` repositories: none
/// after an empty or a short page.
pub open spec fn next_page_of(page: u32, fetched: nat) -> Option<u32> {
    if fetched == 0 || fetched < PAGE_SIZE {
        None
    } else {
        Some((page + 1) as u32)
    }
}

/// The page to list after a page that held `fetched` repositories.
pub fn next_page(page: u32, fetched: usize) -> (r: Option<u32>)
    requires
        fetched >= PAGE_SIZE ==> page < u32::MAX,
    ensures
        r == next_page_of(page, fetched as nat),
        r matches Some(p) ==> p == page + 1,
{
    if fetched == 0 || fetched < PAGE_SIZE as usize {
        None
    } else {
        Some(page + 1)
    }
}

/// Position of the first repository named `target`.
pub fn find_repo_by_name(names: &Vec<String>, target: &str) -> (r: Option<usize>)
    ensures
        match r {
            Some(i) => i < names@.len() && names@[i as int]@ == target@ && forall|j: int|
                0 <= j < i ==> (#[trigger] names@[j])@ != target@,
            None => forall|j: int| 0 <= j < names@.len() ==> (#[trigger] names@[j])@ != target@,
        },
{
    let mut i: usize = 0;
    while i < names.len()
        invariant
            0 <= i <= names.len(),
            forall|j: int| 0 <= j < i ==> (#[trigger] names@[j])@ != target@,
        decreases names.len() - i,
    {
        if eq_str(names[i].as_str(), target) {
            return Some(i);
        }
        i = i + 1;
    }
    None
}

/// How an org is synced.
#[derive(Debug, Clone, Copy, PartialEq, Eq, Structural)]
pub enum SyncMode {
    /// Re-index everything.
    Full,
    /// Only changed repos (the default).
    Incremental,
}

/// The sync mode a tool parameter asks for: "full", else incremental.
pub fn sync_mode(mode: Option<&str>) -> (m: SyncMode)
    ensures
        m == (if (match mode {
            Some(s) => s@ == "full"@,
            None => false,
        }) {
            SyncMode::Full
        } else {
            SyncMode::Incremental
        }),
{
    match mode {
        Some(s) => if eq_str(s, "full") {
            SyncMode::Full
        } else {
            SyncMode::Incremental
        },
        None => SyncMode::Incremental,
    }
}

/// The error of a by-name sync when no listed repository has the name.
pub fn repo_not_found_message(repo_name: &str, org: &str) -> (s: String)
    ensures
        s@ == "Repository "@ + repo_name@ + " not found in org "@ + org@,
{
    let a = concat("Repository ", repo_name);
    let b = concat(a.as_str(), " not found in org ");
    concat(b.as_str(), org)
}

// ---------------------------------------------------------------------------
// Graph writes
// ---------------------------------------------------------------------------

/// The fields of a listed repository the pipeline reads.
#[derive(Debug, Clone)]
pub struct RepoMeta {
    pub name: String,
    pub full_name: Option<String>,
    pub description: Option<String>,
    pub default_branch: Option<String>,
    pub archived: Option<bool>,
    pub fork: Option<bool>,
    pub stargazers_count: Option<u32>,
    /// RFC 3339 time of the last update
    pub updated_at: Option<String>,
    pub html_url: Option<String>,
}

pub open spec fn text_or(o: Option<String>, d: Seq<char>) -> Seq<char> {
    match o {
        Some(s) => s@,
        None => d,
    }
}

pub open spec fn flag_or(o: Option<bool>) -> bool {
    match o {
        Some(b) => b,
        None => false,
    }
}

/// The repository's full name, or its name where none is given.
pub open spec fn full_name_of(m: RepoMeta) -> Seq<char> {
    text_or(m.full_name, m.name@)
}

/// The branch whose tree is read: the default branch, or "main".
pub open spec fn branch_of(m: RepoMeta) -> Seq<char> {
    text_or(m.default_branch, "main"@)
}

fn text_value_or(o: &Option<String>, d: &str) -> (r: String)
    ensures
        r@ == text_or(*o, d@),
{
    match o {
        Some(s) => s.clone(),
        None => d.to_owned(),
    }
}

/// The repository's full name, or its name where none is given.
pub fn repo_full_name(meta: &RepoMeta) -> (r: String)
    ensures
        r@ == full_name_of(*meta),
{
    text_value_or(&meta.full_name, meta.name.as_str())
}

/// The branch whose tree is read.
pub fn repo_branch(meta: &RepoMeta) -> (r: String)
    ensures
        r@ == branch_of(*meta),
{
    text_value_or(&meta.default_branch, "main")
}

pub open spec fn text_p(k: Seq<char>, v: Seq<char>) -> (Seq<char>, ParamView) {
    (k, ParamView::Text(v))
}

/// The parameters of the repository node write.
pub open spec fn repo_params(m: RepoMeta) -> Seq<(Seq<char>, ParamView)> {
    seq![
        text_p("full_name"@, full_name_of(m)),
        text_p("name"@, m.name@),
        text_p("description"@, text_or(m.description, Seq::empty())),
        text_p("default_branch"@, branch_of(m)),
        ("is_archived"@, ParamView::Bool(flag_or(m.archived))),
        ("is_fork"@, ParamView::Bool(flag_or(m.fork))),
        ("stars"@, ParamView::Int(match m.stargazers_count {
            Some(n) => n as i64,
            None => 0,
        })),
        text_p("updated_at"@, text_or(m.updated_at, Seq::empty())),
        text_p("url"@, text_or(m.html_url, Seq::empty())),
    ]
}

fn push_text(ps: &mut Vec<(String, FalkorParam)>, key: &str, value: &str)
    ensures
        param_views(final(ps)@) == param_views(old(ps)@).push(text_p(key@, value@)),
{
    let ghost before = param_views(ps@);
    let k = key.to_owned();
    let v = text_param(value);
    ps.push((k, v));
    assert(param_views(ps@) =~= before.push(text_p(key@, value@)));
}

fn push_value(ps: &mut Vec<(String, FalkorParam)>, key: &str, value: FalkorParam)
    ensures
        param_views(final(ps)@) == param_views(old(ps)@).push((key@, value@)),
{
    let ghost before = param_views(ps@);
    let k = key.to_owned();
    let ghost vv = value@;
    ps.push((k, value));
    assert(param_views(ps@) =~= before.push((key@, vv)));
}

/// The write of a repository node.
pub fn repo_merge_request(meta: &RepoMeta) -> (r: GraphRequest)
    ensures
        r.query@ == queries::MERGE_REPO@,
        param_views(r.params@) == repo_params(*meta),
{
    proof {
        reveal_strlit("");
    }
    let mut ps: Vec<(String, FalkorParam)> = Vec::new();
    let full_name = repo_full_name(meta);
    push_text(&mut ps, "full_name", full_name.as_str());
    push_text(&mut ps, "name", meta.name.as_str());
    let description = text_value_or(&meta.description, "");
    push_text(&mut ps, "description", description.as_str());
    let branch = repo_branch(meta);
    push_text(&mut ps, "default_branch", branch.as_str());
    let archived = match meta.archived {
        Some(b) => b,
        None => false,
    };
    push_value(&mut ps, "is_archived", FalkorParam::Bool(archived));
    let fork = match meta.fork {
        Some(b) => b,
        None => false,
    };
    push_value(&mut ps, "is_fork", FalkorParam::Bool(fork));
    let stars: i64 = match meta.stargazers_count {
        Some(n) => n as i64,
        None => 0,
    };
    push_value(&mut ps, "stars", FalkorParam::Int(stars));
    let updated = text_value_or(&meta.updated_at, "");
    push_text(&mut ps, "updated_at", updated.as_str());
    let url = text_value_or(&meta.html_url, "");
    push_text(&mut ps, "url", url.as_str());
    assert(""@ =~= Seq::<char>::empty());
    assert(param_views(ps@) =~= repo_params(*meta));
    GraphRequest { query: queries::MERGE_REPO, params: ps }
}

/// The write of an organization node, with its URL under the org's API.
pub fn org_merge_request(org: &OrgConfig) -> (r: GraphRequest)
    ensures
        r.query@ == queries::MERGE_ORG@,
        param_views(r.params@) == seq![
            text_p("login"@, org.org@),
            text_p("name"@, org.org@),
            text_p("url"@, org.api_url@ + "/orgs/"@ + org.org@),
        ],
{
    let mut ps: Vec<(String, FalkorParam)> = Vec::new();
    push_text(&mut ps, "login", org.org.as_str());
    push_text(&mut ps, "name", org.org.as_str());
    let a = concat(org.api_url.as_str(), "/orgs/");
    let url = concat(a.as_str(), org.org.as_str());
    push_text(&mut ps, "url", url.as_str());
    GraphRequest { query: queries::MERGE_ORG, params: ps }
}

/// The write of an org's last sync time.
pub fn sync_time_request(org: &str, at: &str) -> (r: GraphRequest)
    ensures
        r.query@ == queries::UPDATE_ORG_SYNC_TIME@,
        param_views(r.params@) == seq![text_p("login"@, org@), text_p("last_sync_at"@, at@)],
{
    let mut ps: Vec<(String, FalkorParam)> = Vec::new();
    push_text(&mut ps, "login", org);
    push_text(&mut ps, "last_sync_at", at);
    GraphRequest { query: queries::UPDATE_ORG_SYNC_TIME, params: ps }
}

/// The read of an org's last sync time, made before an incremental sync.
pub const LAST_SYNC_QUERY: &'static str = "MATCH (o:Organization {login: $login}) RETURN o.last_sync_at";

/// The read of an org's last sync time.
pub fn last_sync_request(org: &str) -> (r: GraphRequest)
    ensures
        r.query@ == LAST_SYNC_QUERY@,
        param_views(r.params@) == seq![text_p("login"@, org@)],
{
    let mut ps: Vec<(String, FalkorParam)> = Vec::new();
    push_text(&mut ps, "login", org);
    GraphRequest { query: LAST_SYNC_QUERY, params: ps }
}

/// The link from an org to one of its repositories.
pub fn org_has_repo_request(org: &str, full_name: &str) -> (r: GraphRequest)
    ensures
        r.query@ == queries::MERGE_ORG_HAS_REPO@,
        param_views(r.params@) == seq![text_p("org_login"@, org@), text_p("repo_full_name"@, full_name@)],
{
    let mut ps: Vec<(String, FalkorParam)> = Vec::new();
    push_text(&mut ps, "org_login", org);
    push_text(&mut ps, "repo_full_name", full_name);
    GraphRequest { query: queries::MERGE_ORG_HAS_REPO, params: ps }
}

/// The link from a repository to a language it uses, with its byte count
/// (taken as a signed 64-bit number, as the database stores it).
pub fn language_request(full_name: &str, language: &str, bytes: u64) -> (r: GraphRequest)
    ensures
        r.query@ == queries::MERGE_REPO_USES_LANGUAGE@,
        param_views(r.params@) == seq![
            text_p("repo_full_name"@, full_name@),
            text_p("lang_name"@, language@),
            ("bytes"@, ParamView::Int(bytes as i64)),
        ],
{
    let mut ps: Vec<(String, FalkorParam)> = Vec::new();
    push_text(&mut ps, "repo_full_name", full_name);
    push_text(&mut ps, "lang_name", language);
    push_value(&mut ps, "bytes", FalkorParam::Int(bytes as i64));
    GraphRequest { query: queries::MERGE_REPO_USES_LANGUAGE, params: ps }
}

/// The link from a repository to one of its topics.
pub fn topic_request(full_name: &str, topic: &str) -> (r: GraphRequest)
    ensures
        r.query@ == queries::MERGE_TOPIC@,
        param_views(r.params@) == seq![text_p("repo_full_name"@, full_name@), text_p("topic_name"@, topic@)],
{
    let mut ps: Vec<(String, FalkorParam)> = Vec::new();
    push_text(&mut ps, "repo_full_name", full_name);
    push_text(&mut ps, "topic_name", topic);
    GraphRequest { query: queries::MERGE_TOPIC, params: ps }
}

/// The link from a repository to a team owning it (with read permission).
pub fn team_request(full_name: &str, slug: &str, name: &str) -> (r: GraphRequest)
    ensures
        r.query@ == queries::MERGE_TEAM@,
        param_views(r.params@) == seq![
            text_p("repo_full_name"@, full_name@),
            text_p("team_slug"@, slug@),
            text_p("team_name"@, name@),
            text_p("permission"@, "read"@),
        ],
{
    let mut ps: Vec<(String, FalkorParam)> = Vec::new();
    push_text(&mut ps, "repo_full_name", full_name);
    push_text(&mut ps, "team_slug", slug);
    push_text(&mut ps, "team_name", name);
    push_text(&mut ps, "permission", "read");
    GraphRequest { query: queries::MERGE_TEAM, params: ps }
}

/// The link from a repository to one of its files, with the file's kind.
pub fn file_request(full_name: &str, path: &str, kind: FileKind) -> (r: GraphRequest)
    ensures
        r.query@ == queries::MERGE_FILE@,
        param_views(r.params@) == seq![
            text_p("repo_full_name"@, full_name@),
            text_p("path"@, path@),
            text_p("kind"@, kind.label()),
        ],
{
    let mut ps: Vec<(String, FalkorParam)> = Vec::new();
    push_text(&mut ps, "repo_full_name", full_name);
    push_text(&mut ps, "path", path);
    let k = kind.to_string();
    push_text(&mut ps, "kind", k.as_str());
    GraphRequest { query: queries::MERGE_FILE, params: ps }
}

/// The link from a repository to a dependency of one of its manifests
/// (version "" where none is given; never marked as a dev dependency).
pub fn dependency_request(full_name: &str, dep: &Dependency) -> (r: GraphRequest)
    ensures
        r.query@ == queries::MERGE_DEPENDENCY@,
        param_views(r.params@) == seq![
            text_p("repo_full_name"@, full_name@),
            text_p("dep_name"@, dep.name@),
            text_p("ecosystem"@, dep.ecosystem@),
            text_p("version"@, text_or(dep.version_spec, Seq::empty())),
            ("dev"@, ParamView::Bool(false)),
        ],
{
    proof {
        reveal_strlit("");
    }
    let mut ps: Vec<(String, FalkorParam)> = Vec::new();
    push_text(&mut ps, "repo_full_name", full_name);
    push_text(&mut ps, "dep_name", dep.name.as_str());
    push_text(&mut ps, "ecosystem", dep.ecosystem.as_str());
    let version = text_value_or(&dep.version_spec, "");
    push_text(&mut ps, "version", version.as_str());
    push_value(&mut ps, "dev", FalkorParam::Bool(false));
    assert(""@ =~= Seq::<char>::empty());
    GraphRequest { query: queries::MERGE_DEPENDENCY, params: ps }
}

/// The cross-repository dependency resolution (no parameters).
pub fn cross_repo_request() -> (r: GraphRequest)
    ensures
        r.query@ == queries::MERGE_CROSS_REPO_DEPENDENCY@,
        r.params@.len() == 0,
{
    GraphRequest { query: queries::MERGE_CROSS_REPO_DEPENDENCY, params: Vec::new() }
}

// ---------------------------------------------------------------------------
// Files of a repository tree
// ---------------------------------------------------------------------------

/// Whether a file of a tree is recorded: no deeper than `max_depth`
/// directories, and of a kind worth recording (not source or other files).
pub open spec fn recorded(path: Seq<char>, max_depth: nat) -> bool {
    count_char(path, '/') <= max_depth && kind_of_lower(lowercase(path)) != FileKind::Other
        && kind_of_lower(lowercase(path)) != FileKind::Source
}

/// The files of a tree that are recorded, in tree order, with their kinds.
pub open spec fn planned_files(tree: Seq<Seq<char>>, max_depth: nat) -> Seq<(Seq<char>, FileKind)>
    decreases tree.len(),
{
    if tree.len() == 0 {
        Seq::empty()
    } else {
        planned_files(tree.drop_last(), max_depth) + if recorded(tree.last(), max_depth) {
            seq![(tree.last(), kind_of_lower(lowercase(tree.last())))]
        } else {
            Seq::empty()
        }
    }
}

pub open spec fn tree_paths(tree: Seq<TreeEntry>) -> Seq<Seq<char>> {
    tree.map_values(|e: TreeEntry| e.path@)
}

pub open spec fn plan_views(v: Seq<(String, FileKind)>) -> Seq<(Seq<char>, FileKind)> {
    v.map_values(|p: (String, FileKind)| (p.0@, p.1))
}

/// The files of a tree that are recorded, with their kinds (manifests
/// among them are then read for dependencies).
pub fn plan_files(tree: &Vec<TreeEntry>, max_depth: usize) -> (r: Vec<(String, FileKind)>)
    ensures
        plan_views(r@) == planned_files(tree_paths(tree@), max_depth as nat),
{
    let ghost paths = tree_paths(tree@);
    let mut out: Vec<(String, FileKind)> = Vec::new();
    let mut i: usize = 0;
    assert(paths.take(0) =~= Seq::<Seq<char>>::empty());
    while i < tree.len()
        invariant
            0 <= i <= tree.len(),
            paths == tree_paths(tree@),
            plan_views(out@) == planned_files(paths.take(i as int), max_depth as nat),
        decreases tree.len() - i,
    {
        assert(paths.take(i + 1).drop_last() =~= paths.take(i as int));
        assert(paths.take(i + 1).last() == tree@[i as int].path@);
        let ghost before = plan_views(out@);
        let path = &tree[i].path;
        let depth = count_char_str(path.as_str(), '/');
        if depth <= max_depth {
            let kind = FileKind::from_path(path.as_str());
            match kind {
                FileKind::Other | FileKind::Source => {
                    assert(plan_views(out@) =~= before + Seq::<(Seq<char>, FileKind)>::empty());
                },
                _ => {
                    out.push((path.clone(), kind));
                    assert(plan_views(out@) =~= before.push((path@, kind)));
                },
            }
        } else {
            assert(plan_views(out@) =~= before + Seq::<(Seq<char>, FileKind)>::empty());
        }
        i = i + 1;
    }
    assert(paths.take(paths.len() as int) =~= paths);
    out
}

/// Every planned file is recorded-worthy and comes from the tree, and every
/// recorded-worthy file of the tree is planned.
pub proof fn law_planned_files_are_exactly_recorded(tree: Seq<Seq<char>>, max_depth: nat)
    ensures
        forall|i: int|
            0 <= i < planned_files(tree, max_depth).len() ==> recorded(
                #[trigger] planned_files(tree, max_depth)[i].0,
                max_depth,
            ) && tree.contains(planned_files(tree, max_depth)[i].0) && planned_files(
                tree,
                max_depth,
            )[i].1 == kind_of_lower(lowercase(planned_files(tree, max_depth)[i].0)),
        forall|j: int|
            0 <= j < tree.len() && recorded(#[trigger] tree[j], max_depth) ==> exists|i: int|
                0 <= i < planned_files(tree, max_depth).len() && planned_files(tree, max_depth)[i].0
                    == tree[j],
    decreases tree.len(),
{
    if tree.len() > 0 {
        let t = tree.drop_last();
        law_planned_files_are_exactly_recorded(t, max_depth);
        let p = planned_files(t, max_depth);
        let q = planned_files(tree, max_depth);
        assert forall|i: int| 0 <= i < q.len() implies recorded(#[trigger] q[i].0, max_depth)
            && tree.contains(q[i].0) && q[i].1 == kind_of_lower(lowercase(q[i].0)) by {
            if i < p.len() {
                assert(q[i] == p[i]);
                let k = choose|k: int| 0 <= k < t.len() && t[k] == p[i].0;
                assert(tree[k] == t[k]);
            } else {
                assert(tree[tree.len() - 1] == tree.last());
            }
        }
        assert forall|j: int| 0 <= j < tree.len() && recorded(#[trigger] tree[j], max_depth) implies exists|i: int|
            0 <= i < q.len() && q[i].0 == tree[j] by {
            if j < tree.len() - 1 {
                assert(t[j] == tree[j]);
                let i = choose|i: int| 0 <= i < p.len() && p[i].0 == t[j];
                assert(q[i] == p[i]);
            } else {
                assert(q[q.len() - 1].0 == tree[j]);
            }
        }
    }
}


/// The repository write names the repository by its full name (its name
/// where none is given), records its default branch ("main" where none is
/// given), its archived and fork flags (false where unknown), its stars (0
/// where unknown) and its description, update time and URL (empty where
/// unknown), in this order.
pub proof fn law_repository_write(m: RepoMeta)
    ensures
        repo_params(m).len() == 9,
        repo_params(m)[0] == ("full_name"@, ParamView::Text(
            match m.full_name {
                Some(f) => f@,
                None => m.name@,
            },
        )),
        repo_params(m)[1] == ("name"@, ParamView::Text(m.name@)),
        repo_params(m)[2] == ("description"@, ParamView::Text(
            match m.description {
                Some(d) => d@,
                None => Seq::empty(),
            },
        )),
        repo_params(m)[3] == ("default_branch"@, ParamView::Text(
            match m.default_branch {
                Some(b) => b@,
                None => "main"@,
            },
        )),
        repo_params(m)[4] == ("is_archived"@, ParamView::Bool(m.archived == Some(true))),
        repo_params(m)[5] == ("is_fork"@, ParamView::Bool(m.fork == Some(true))),
        repo_params(m)[6] == ("stars"@, ParamView::Int(
            match m.stargazers_count {
                Some(n) => n as i64,
                None => 0i64,
            },
        )),
        repo_params(m)[7] == ("updated_at"@, ParamView::Text(
            match m.updated_at {
                Some(t) => t@,
                None => Seq::empty(),
            },
        )),
        repo_params(m)[8] == ("url"@, ParamView::Text(
            match m.html_url {
                Some(u) => u@,
                None => Seq::empty(),
            },
        )),
{
}

} // verus!
