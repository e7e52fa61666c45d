//! The decisions of a repository's sync, as a state machine: which graph
//! write or GitHub read comes next, what a read's outcome adds to the work
//! left, and what the sync reports when it ends.
//!
//! The caller performs each action (a graph write or a GitHub read) and
//! hands its outcome back as the next event.
use vstd::prelude::*;

use crate::github::client::TreeEntry;
use crate::github::ingest::{
    branch_of, dependency_request, file_request, full_name_of, language_request, org_has_repo_request,
    plan_files, plan_views, planned_files, repo_branch, repo_full_name, repo_merge_request, repo_params,
    team_request, text_p, topic_request, tree_paths, RepoMeta,
};
use crate::github::parsers::{manifest_deps, parse_manifest};
use crate::graph::client::{param_views, GraphRequest, ParamView};
use crate::graph::models::{dep_views, Dependency, DependencyView, FileKind, Team};
use crate::graph::queries;
use crate::text::{lowercase, views};

verus! {

/// A piece of work left in a repository's sync.
#[derive(Debug)]
pub enum RepoTask {
    /// Write to the graph.
    Write(GraphRequest),
    /// Read the repository's languages.
    FetchLanguages,
    /// Read the repository's topics.
    FetchTopics,
    /// Read the repository's teams.
    FetchTeams,
    /// Read the repository's file tree.
    FetchTree,
    /// Read a manifest file (its path) to record its dependencies.
    FetchManifest(String),
}

pub enum TaskView {
    Write(Seq<char>, Seq<(Seq<char>, ParamView)>),
    FetchLanguages,
    FetchTopics,
    FetchTeams,
    FetchTree,
    FetchManifest(Seq<char>),
}

impl View for RepoTask {
    type V = TaskView;

    open spec fn view(&self) -> TaskView {
        match self {
            RepoTask::Write(r) => TaskView::Write(r.query@, param_views(r.params@)),
            RepoTask::FetchLanguages => TaskView::FetchLanguages,
            RepoTask::FetchTopics => TaskView::FetchTopics,
            RepoTask::FetchTeams => TaskView::FetchTeams,
            RepoTask::FetchTree => TaskView::FetchTree,
            RepoTask::FetchManifest(p) => TaskView::FetchManifest(p@),
        }
    }
}

pub open spec fn task_views(v: Seq<RepoTask>) -> Seq<TaskView> {
    v.map_values(|t: RepoTask| t@)
}

/// What the machine waits for: the outcome of the action it last asked for.
#[derive(Debug)]
pub enum Awaiting {
    /// Nothing: the sync has ended.
    Idle,
    Write,
    Languages,
    Topics,
    Teams,
    Tree,
    /// The content of the manifest at this path.
    Manifest(String),
}

pub enum AwaitView {
    Idle,
    Write,
    Languages,
    Topics,
    Teams,
    Tree,
    Manifest(Seq<char>),
}

impl View for Awaiting {
    type V = AwaitView;

    open spec fn view(&self) -> AwaitView {
        match self {
            Awaiting::Idle => AwaitView::Idle,
            Awaiting::Write => AwaitView::Write,
            Awaiting::Languages => AwaitView::Languages,
            Awaiting::Topics => AwaitView::Topics,
            Awaiting::Teams => AwaitView::Teams,
            Awaiting::Tree => AwaitView::Tree,
            Awaiting::Manifest(p) => AwaitView::Manifest(p@),
        }
    }
}

/// The state of one repository's sync.
#[derive(Debug)]
pub struct RepoSyncState {
    /// The repository's full name, as written to the graph.
    pub full_name: String,
    /// The branch whose tree is read.
    pub branch: String,
    /// Files deeper than this many directories are not recorded.
    pub max_depth: usize,
    /// The work left, in order (not counting what is awaited).
    pub tasks: Vec<RepoTask>,
    pub awaiting: Awaiting,
    /// Languages recorded so far.
    pub languages: usize,
    /// Dependencies recorded so far.
    pub dependencies: usize,
}

pub struct RepoSyncView {
    pub full_name: Seq<char>,
    pub branch: Seq<char>,
    pub max_depth: usize,
    pub tasks: Seq<TaskView>,
    pub awaiting: AwaitView,
    pub languages: usize,
    pub dependencies: usize,
}

impl View for RepoSyncState {
    type V = RepoSyncView;

    open spec fn view(&self) -> RepoSyncView {
        RepoSyncView {
            full_name: self.full_name@,
            branch: self.branch@,
            max_depth: self.max_depth,
            tasks: task_views(self.tasks@),
            awaiting: self.awaiting@,
            languages: self.languages,
            dependencies: self.dependencies,
        }
    }
}

/// What the caller does next.
#[derive(Debug)]
pub enum RepoSyncAction {
    /// Run this graph write; answer `Written` or `WriteFailed`.
    Write(GraphRequest),
    /// Read the languages; answer `Languages`.
    FetchLanguages,
    /// Read the topics; answer `Topics`.
    FetchTopics,
    /// Read the teams; answer `Teams`.
    FetchTeams,
    /// Read the file tree of this branch; answer `Tree`.
    FetchTree(String),
    /// Read the file at this path; answer `Manifest`.
    FetchManifest(String),
    /// The sync is done: languages and dependencies recorded.
    Finished(usize, usize),
    /// A graph write failed with this message: the sync fails.
    Failed(String),
}

pub enum ActionView {
    Write(Seq<char>, Seq<(Seq<char>, ParamView)>),
    FetchLanguages,
    FetchTopics,
    FetchTeams,
    FetchTree(Seq<char>),
    FetchManifest(Seq<char>),
    Finished(usize, usize),
    Failed(Seq<char>),
}

impl View for RepoSyncAction {
    type V = ActionView;

    open spec fn view(&self) -> ActionView {
        match self {
            RepoSyncAction::Write(r) => ActionView::Write(r.query@, param_views(r.params@)),
            RepoSyncAction::FetchLanguages => ActionView::FetchLanguages,
            RepoSyncAction::FetchTopics => ActionView::FetchTopics,
            RepoSyncAction::FetchTeams => ActionView::FetchTeams,
            RepoSyncAction::FetchTree(b) => ActionView::FetchTree(b@),
            RepoSyncAction::FetchManifest(p) => ActionView::FetchManifest(p@),
            RepoSyncAction::Finished(l, d) => ActionView::Finished(*l, *d),
            RepoSyncAction::Failed(m) => ActionView::Failed(m@),
        }
    }
}

/// The outcome of the last action. A failed GitHub read is `None`: the
/// sync goes on without what it would have given.
#[derive(Debug)]
pub enum RepoSyncEvent {
    Written,
    WriteFailed(String),
    Languages(Option<Vec<(String, u64)>>),
    Topics(Option<Vec<String>>),
    Teams(Option<Vec<Team>>),
    Tree(Option<Vec<TreeEntry>>),
    Manifest(Option<String>),
}

pub enum EventView {
    Written,
    WriteFailed(Seq<char>),
    Languages(Option<Seq<(Seq<char>, u64)>>),
    Topics(Option<Seq<Seq<char>>>),
    Teams(Option<Seq<(Seq<char>, Seq<char>)>>),
    Tree(Option<Seq<Seq<char>>>),
    Manifest(Option<Seq<char>>),
}

pub open spec fn language_views(v: Seq<(String, u64)>) -> Seq<(Seq<char>, u64)> {
    v.map_values(|p: (String, u64)| (p.0@, p.1))
}

pub open spec fn team_views(v: Seq<Team>) -> Seq<(Seq<char>, Seq<char>)> {
    v.map_values(|t: Team| (t.slug@, t.name@))
}

impl View for RepoSyncEvent {
    type V = EventView;

    open spec fn view(&self) -> EventView {
        match self {
            RepoSyncEvent::Written => EventView::Written,
            RepoSyncEvent::WriteFailed(m) => EventView::WriteFailed(m@),
            RepoSyncEvent::Languages(o) => EventView::Languages(
                match o {
                    Some(v) => Some(language_views(v@)),
                    None => None,
                },
            ),
            RepoSyncEvent::Topics(o) => EventView::Topics(
                match o {
                    Some(v) => Some(views(v@)),
                    None => None,
                },
            ),
            RepoSyncEvent::Teams(o) => EventView::Teams(
                match o {
                    Some(v) => Some(team_views(v@)),
                    None => None,
                },
            ),
            RepoSyncEvent::Tree(o) => EventView::Tree(
                match o {
                    Some(v) => Some(tree_paths(v@)),
                    None => None,
                },
            ),
            RepoSyncEvent::Manifest(o) => EventView::Manifest(
                match o {
                    Some(c) => Some(c@),
                    None => None,
                },
            ),
        }
    }
}

// ---------------------------------------------------------------------------
// Specification of the machine
// ---------------------------------------------------------------------------

/// The language writes of a repository, one per language read.
pub open spec fn language_writes(full: Seq<char>, ls: Seq<(Seq<char>, u64)>) -> Seq<TaskView> {
    Seq::new(
        ls.len(),
        |i: int|
            TaskView::Write(
                queries::MERGE_REPO_USES_LANGUAGE@,
                seq![
                    text_p("repo_full_name"@, full),
                    text_p("lang_name"@, ls[i].0),
                    ("bytes"@, ParamView::Int(ls[i].1 as i64)),
                ],
            ),
    )
}

/// The topic writes of a repository, one per topic read.
pub open spec fn topic_writes(full: Seq<char>, ts: Seq<Seq<char>>) -> Seq<TaskView> {
    Seq::new(
        ts.len(),
        |i: int|
            TaskView::Write(
                queries::MERGE_TOPIC@,
                seq![text_p("repo_full_name"@, full), text_p("topic_name"@, ts[i])],
            ),
    )
}

/// The team writes of a repository, one per team read (read permission).
pub open spec fn team_writes(full: Seq<char>, ts: Seq<(Seq<char>, Seq<char>)>) -> Seq<TaskView> {
    Seq::new(
        ts.len(),
        |i: int|
            TaskView::Write(
                queries::MERGE_TEAM@,
                seq![
                    text_p("repo_full_name"@, full),
                    text_p("team_slug"@, ts[i].0),
                    text_p("team_name"@, ts[i].1),
                    text_p("permission"@, "read"@),
                ],
            ),
    )
}

pub open spec fn seq_or_empty(o: Option<Seq<char>>) -> Seq<char> {
    match o {
        Some(s) => s,
        None => Seq::empty(),
    }
}

/// The dependency writes of a repository, one per dependency parsed.
pub open spec fn dependency_writes(full: Seq<char>, ds: Seq<DependencyView>) -> Seq<TaskView> {
    Seq::new(
        ds.len(),
        |i: int|
            TaskView::Write(
                queries::MERGE_DEPENDENCY@,
                seq![
                    text_p("repo_full_name"@, full),
                    text_p("dep_name"@, ds[i].name),
                    text_p("ecosystem"@, ds[i].ecosystem),
                    text_p("version"@, seq_or_empty(ds[i].version_spec)),
                    ("dev"@, ParamView::Bool(false)),
                ],
            ),
    )
}

/// The work a recorded file brings: its write, then, for a manifest, the
/// read of its content.
pub open spec fn file_tasks(full: Seq<char>, file: (Seq<char>, FileKind)) -> Seq<TaskView> {
    seq![
        TaskView::Write(
            queries::MERGE_FILE@,
            seq![text_p("repo_full_name"@, full), text_p("path"@, file.0), text_p("kind"@, file.1.label())],
        ),
    ] + if file.1 == FileKind::Manifest {
        seq![TaskView::FetchManifest(file.0)]
    } else {
        Seq::empty()
    }
}

/// The work the recorded files of a tree bring, in tree order.
pub open spec fn tree_tasks(full: Seq<char>, files: Seq<(Seq<char>, FileKind)>) -> Seq<TaskView>
    decreases files.len(),
{
    if files.len() == 0 {
        Seq::empty()
    } else {
        tree_tasks(full, files.drop_last()) + file_tasks(full, files.last())
    }
}

/// What an awaited outcome adds: the new work (done before the work left),
/// and the languages and dependencies it records. A failed read adds nothing.
pub open spec fn expansion(s: RepoSyncView, e: EventView) -> (Seq<TaskView>, nat, nat) {
    match (s.awaiting, e) {
        (AwaitView::Languages, EventView::Languages(Some(ls))) => (
            language_writes(s.full_name, ls),
            ls.len(),
            0,
        ),
        (AwaitView::Topics, EventView::Topics(Some(ts))) => (topic_writes(s.full_name, ts), 0, 0),
        (AwaitView::Teams, EventView::Teams(Some(ts))) => (team_writes(s.full_name, ts), 0, 0),
        (AwaitView::Tree, EventView::Tree(Some(paths))) => (
            tree_tasks(s.full_name, planned_files(paths, s.max_depth as nat)),
            0,
            0,
        ),
        (AwaitView::Manifest(p), EventView::Manifest(Some(c))) => match manifest_deps(lowercase(p), c) {
            Some(ds) => (dependency_writes(s.full_name, ds), 0, ds.len()),
            None => (Seq::empty(), 0, 0),
        },
        _ => (Seq::empty(), 0, 0),
    }
}

/// A counter after adding `n`, held at `usize::MAX`.
pub open spec fn counter_plus(c: usize, n: nat) -> usize {
    if c + n > usize::MAX {
        usize::MAX
    } else {
        (c + n) as usize
    }
}

/// What is awaited after asking for a task.
pub open spec fn task_awaiting(t: TaskView) -> AwaitView {
    match t {
        TaskView::Write(_, _) => AwaitView::Write,
        TaskView::FetchLanguages => AwaitView::Languages,
        TaskView::FetchTopics => AwaitView::Topics,
        TaskView::FetchTeams => AwaitView::Teams,
        TaskView::FetchTree => AwaitView::Tree,
        TaskView::FetchManifest(p) => AwaitView::Manifest(p),
    }
}

/// The action that performs a task.
pub open spec fn task_action(t: TaskView, branch: Seq<char>) -> ActionView {
    match t {
        TaskView::Write(q, ps) => ActionView::Write(q, ps),
        TaskView::FetchLanguages => ActionView::FetchLanguages,
        TaskView::FetchTopics => ActionView::FetchTopics,
        TaskView::FetchTeams => ActionView::FetchTeams,
        TaskView::FetchTree => ActionView::FetchTree(branch),
        TaskView::FetchManifest(p) => ActionView::FetchManifest(p),
    }
}

/// Asks for the next task, or reports the sync done when none is left.
pub open spec fn advance(s: RepoSyncView) -> (RepoSyncView, ActionView) {
    if s.tasks.len() == 0 {
        (RepoSyncView { awaiting: AwaitView::Idle, ..s }, ActionView::Finished(s.languages, s.dependencies))
    } else {
        (
            RepoSyncView { tasks: s.tasks.skip(1), awaiting: task_awaiting(s.tasks[0]), ..s },
            task_action(s.tasks[0], s.branch),
        )
    }
}

/// The work a repository's sync starts with: write the repository, link it
/// to its org, then read its languages, topics, teams and file tree.
pub open spec fn repo_sync_initial(meta: RepoMeta, org: Seq<char>, max_depth: usize) -> RepoSyncView {
    RepoSyncView {
        full_name: full_name_of(meta),
        branch: branch_of(meta),
        max_depth,
        tasks: seq![
            TaskView::Write(queries::MERGE_REPO@, repo_params(meta)),
            TaskView::Write(
                queries::MERGE_ORG_HAS_REPO@,
                seq![text_p("org_login"@, org), text_p("repo_full_name"@, full_name_of(meta))],
            ),
            TaskView::FetchLanguages,
            TaskView::FetchTopics,
            TaskView::FetchTeams,
            TaskView::FetchTree,
        ],
        awaiting: AwaitView::Idle,
        languages: 0,
        dependencies: 0,
    }
}

/// The first step of a repository's sync.
pub open spec fn repo_sync_begin(meta: RepoMeta, org: Seq<char>, max_depth: usize) -> (RepoSyncView, ActionView) {
    advance(repo_sync_initial(meta, org, max_depth))
}

/// One step: a failed graph write fails the sync; any other outcome adds
/// its work in front of the work left, and the next task is asked for.
pub open spec fn repo_sync_next(s: RepoSyncView, e: EventView) -> (RepoSyncView, ActionView) {
    match e {
        EventView::WriteFailed(m) => (RepoSyncView { awaiting: AwaitView::Idle, ..s }, ActionView::Failed(m)),
        _ => {
            let x = expansion(s, e);
            advance(
                RepoSyncView {
                    tasks: x.0 + s.tasks,
                    languages: counter_plus(s.languages, x.1),
                    dependencies: counter_plus(s.dependencies, x.2),
                    ..s
                },
            )
        },
    }
}

// ---------------------------------------------------------------------------
// The machine
// ---------------------------------------------------------------------------

fn plus(c: usize, n: usize) -> (r: usize)
    ensures
        r == counter_plus(c, n as nat),
{
    c.saturating_add(n)
}

fn next_task(s: RepoSyncState) -> (r: (RepoSyncState, RepoSyncAction))
    ensures
        (r.0@, r.1@) == advance(s@),
{
    let mut s = s;
    if s.tasks.len() == 0 {
        let action = RepoSyncAction::Finished(s.languages, s.dependencies);
        s.awaiting = Awaiting::Idle;
        return (s, action);
    }
    let ghost before = task_views(s.tasks@);
    let t = s.tasks.remove(0);
    assert(task_views(s.tasks@) =~= before.skip(1));
    let (awaiting, action) = match t {
        RepoTask::Write(r) => (Awaiting::Write, RepoSyncAction::Write(r)),
        RepoTask::FetchLanguages => (Awaiting::Languages, RepoSyncAction::FetchLanguages),
        RepoTask::FetchTopics => (Awaiting::Topics, RepoSyncAction::FetchTopics),
        RepoTask::FetchTeams => (Awaiting::Teams, RepoSyncAction::FetchTeams),
        RepoTask::FetchTree => (Awaiting::Tree, RepoSyncAction::FetchTree(s.branch.clone())),
        RepoTask::FetchManifest(p) => (Awaiting::Manifest(p.clone()), RepoSyncAction::FetchManifest(p)),
    };
    s.awaiting = awaiting;
    (s, action)
}

/// Starts the sync of a repository of `org`.
pub fn repo_sync_start(meta: &RepoMeta, org: &str, max_depth: usize) -> (r: (RepoSyncState, RepoSyncAction))
    ensures
        (r.0@, r.1@) == repo_sync_begin(*meta, org@, max_depth),
{
    let full_name = repo_full_name(meta);
    let branch = repo_branch(meta);
    let mut tasks: Vec<RepoTask> = Vec::new();
    tasks.push(RepoTask::Write(repo_merge_request(meta)));
    tasks.push(RepoTask::Write(org_has_repo_request(org, full_name.as_str())));
    tasks.push(RepoTask::FetchLanguages);
    tasks.push(RepoTask::FetchTopics);
    tasks.push(RepoTask::FetchTeams);
    tasks.push(RepoTask::FetchTree);
    let s = RepoSyncState {
        full_name,
        branch,
        max_depth,
        tasks,
        awaiting: Awaiting::Idle,
        languages: 0,
        dependencies: 0,
    };
    assert(s@.tasks =~= repo_sync_initial(*meta, org@, max_depth).tasks);
    next_task(s)
}

fn language_tasks(full: &str, ls: &Vec<(String, u64)>) -> (r: Vec<RepoTask>)
    ensures
        task_views(r@) == language_writes(full@, language_views(ls@)),
{
    let mut out: Vec<RepoTask> = Vec::new();
    let mut i: usize = 0;
    while i < ls.len()
        invariant
            0 <= i <= ls.len(),
            task_views(out@) == language_writes(full@, language_views(ls@)).take(i as int),
        decreases ls.len() - i,
    {
        let t = RepoTask::Write(language_request(full, ls[i].0.as_str(), ls[i].1));
        let ghost before = task_views(out@);
        out.push(t);
        assert(task_views(out@) =~= before.push(t@));
        assert(task_views(out@) =~= language_writes(full@, language_views(ls@)).take(i + 1));
        i = i + 1;
    }
    assert(language_writes(full@, language_views(ls@)).take(ls@.len() as int) =~= language_writes(
        full@,
        language_views(ls@),
    ));
    out
}

fn topic_tasks(full: &str, ts: &Vec<String>) -> (r: Vec<RepoTask>)
    ensures
        task_views(r@) == topic_writes(full@, views(ts@)),
{
    let mut out: Vec<RepoTask> = Vec::new();
    let mut i: usize = 0;
    while i < ts.len()
        invariant
            0 <= i <= ts.len(),
            task_views(out@) == topic_writes(full@, views(ts@)).take(i as int),
        decreases ts.len() - i,
    {
        let t = RepoTask::Write(topic_request(full, ts[i].as_str()));
        let ghost before = task_views(out@);
        out.push(t);
        assert(task_views(out@) =~= before.push(t@));
        assert(task_views(out@) =~= topic_writes(full@, views(ts@)).take(i + 1));
        i = i + 1;
    }
    assert(topic_writes(full@, views(ts@)).take(ts@.len() as int) =~= topic_writes(full@, views(ts@)));
    out
}

fn team_tasks(full: &str, ts: &Vec<Team>) -> (r: Vec<RepoTask>)
    ensures
        task_views(r@) == team_writes(full@, team_views(ts@)),
{
    let mut out: Vec<RepoTask> = Vec::new();
    let mut i: usize = 0;
    while i < ts.len()
        invariant
            0 <= i <= ts.len(),
            task_views(out@) == team_writes(full@, team_views(ts@)).take(i as int),
        decreases ts.len() - i,
    {
        let t = RepoTask::Write(team_request(full, ts[i].slug.as_str(), ts[i].name.as_str()));
        let ghost before = task_views(out@);
        out.push(t);
        assert(task_views(out@) =~= before.push(t@));
        assert(task_views(out@) =~= team_writes(full@, team_views(ts@)).take(i + 1));
        i = i + 1;
    }
    assert(team_writes(full@, team_views(ts@)).take(ts@.len() as int) =~= team_writes(full@, team_views(ts@)));
    out
}

fn dependency_tasks(full: &str, ds: &Vec<Dependency>) -> (r: Vec<RepoTask>)
    ensures
        task_views(r@) == dependency_writes(full@, dep_views(ds@)),
{
    let mut out: Vec<RepoTask> = Vec::new();
    let mut i: usize = 0;
    while i < ds.len()
        invariant
            0 <= i <= ds.len(),
            task_views(out@) == dependency_writes(full@, dep_views(ds@)).take(i as int),
        decreases ds.len() - i,
    {
        let t = RepoTask::Write(dependency_request(full, &ds[i]));
        let ghost before = task_views(out@);
        out.push(t);
        assert(task_views(out@) =~= before.push(t@));
        assert(task_views(out@) =~= dependency_writes(full@, dep_views(ds@)).take(i + 1));
        i = i + 1;
    }
    assert(dependency_writes(full@, dep_views(ds@)).take(ds@.len() as int) =~= dependency_writes(
        full@,
        dep_views(ds@),
    ));
    out
}

fn file_work(full: &str, tree: &Vec<TreeEntry>, max_depth: usize) -> (r: Vec<RepoTask>)
    ensures
        task_views(r@) == tree_tasks(full@, planned_files(tree_paths(tree@), max_depth as nat)),
{
    let files = plan_files(tree, max_depth);
    let ghost fv = plan_views(files@);
    let mut out: Vec<RepoTask> = Vec::new();
    let mut i: usize = 0;
    assert(fv.take(0) =~= Seq::<(Seq<char>, FileKind)>::empty());
    while i < files.len()
        invariant
            0 <= i <= files.len(),
            fv == plan_views(files@),
            task_views(out@) == tree_tasks(full@, fv.take(i as int)),
        decreases files.len() - i,
    {
        assert(fv.take(i + 1).drop_last() =~= fv.take(i as int));
        assert(fv.take(i + 1).last() == fv[i as int]);
        let ghost before = task_views(out@);
        let path = &files[i].0;
        let kind = files[i].1;
        let w = RepoTask::Write(file_request(full, path.as_str(), kind));
        out.push(w);
        if kind == FileKind::Manifest {
            let m = RepoTask::FetchManifest(path.clone());
            out.push(m);
            assert(task_views(out@) =~= before + file_tasks(full@, fv[i as int]));
        } else {
            assert(task_views(out@) =~= before + file_tasks(full@, fv[i as int]));
        }
        i = i + 1;
    }
    assert(fv.take(fv.len() as int) =~= fv);
    out
}

/// One step of a repository's sync: takes the outcome of the last action
/// and gives the state after it and the next action.
pub fn repo_sync_step(state: RepoSyncState, event: RepoSyncEvent) -> (r: (RepoSyncState, RepoSyncAction))
    ensures
        (r.0@, r.1@) == repo_sync_next(state@, event@),
{
    let mut s = state;
    let ghost s0 = s@;
    let ghost e0 = event@;
    let event = match event {
        RepoSyncEvent::WriteFailed(m) => {
            s.awaiting = Awaiting::Idle;
            return (s, RepoSyncAction::Failed(m));
        },
        e => e,
    };
    let (mut work, langs, deps): (Vec<RepoTask>, usize, usize) = match (&s.awaiting, event) {
        (Awaiting::Languages, RepoSyncEvent::Languages(Some(ls))) => {
            let n = ls.len();
            (language_tasks(s.full_name.as_str(), &ls), n, 0)
        },
        (Awaiting::Topics, RepoSyncEvent::Topics(Some(ts))) => (topic_tasks(s.full_name.as_str(), &ts), 0, 0),
        (Awaiting::Teams, RepoSyncEvent::Teams(Some(ts))) => (team_tasks(s.full_name.as_str(), &ts), 0, 0),
        (Awaiting::Tree, RepoSyncEvent::Tree(Some(tree))) => (
            file_work(s.full_name.as_str(), &tree, s.max_depth),
            0,
            0,
        ),
        (Awaiting::Manifest(p), RepoSyncEvent::Manifest(Some(content))) => {
            match parse_manifest(p.as_str(), content.as_str()) {
                Ok(ds) => {
                    let n = ds.len();
                    (dependency_tasks(s.full_name.as_str(), &ds), 0, n)
                },
                Err(_) => (Vec::new(), 0, 0),
            }
        },
        _ => (Vec::new(), 0, 0),
    };
    let ghost x = expansion(s0, e0);
    assert(task_views(work@) == x.0);
    assert(langs as nat == x.1);
    assert(deps as nat == x.2);
    let ghost old_tasks = task_views(s.tasks@);
    work.append(&mut s.tasks);
    s.tasks = work;
    assert(task_views(s.tasks@) =~= x.0 + old_tasks);
    s.languages = plus(s.languages, langs);
    s.dependencies = plus(s.dependencies, deps);
    next_task(s)
}


// ---------------------------------------------------------------------------
// Laws
// ---------------------------------------------------------------------------

/// Whether an event is the outcome of a GitHub read that failed.
pub open spec fn failed_read(e: EventView) -> bool {
    ||| e matches EventView::Languages(None)
    ||| e matches EventView::Topics(None)
    ||| e matches EventView::Teams(None)
    ||| e matches EventView::Tree(None)
    ||| e matches EventView::Manifest(None)
}

/// Only a failed graph write fails a repository's sync.
pub proof fn law_only_failed_writes_fail(s: RepoSyncView, e: EventView)
    ensures
        (repo_sync_next(s, e).1 is Failed) <==> (e is WriteFailed),
{
}

/// A failed GitHub read is skipped: nothing is added, nothing is counted,
/// and the sync goes on with the work left.
pub proof fn law_failed_reads_are_skipped(s: RepoSyncView, e: EventView)
    requires
        failed_read(e),
    ensures
        repo_sync_next(s, e) == advance(s),
{
    assert(s.tasks =~= Seq::<TaskView>::empty() + s.tasks);
}

/// The languages counted grow by the number of languages read, and the
/// dependencies counted by the number parsed from a manifest; nothing else
/// changes them (short of the counters' limit).
pub proof fn law_counts_follow_reads(s: RepoSyncView, e: EventView)
    requires
        !(e is WriteFailed),
    ensures
        repo_sync_next(s, e).0.languages == counter_plus(
            s.languages,
            match (s.awaiting, e) {
                (AwaitView::Languages, EventView::Languages(Some(ls))) => ls.len(),
                _ => 0,
            },
        ),
        repo_sync_next(s, e).0.dependencies == counter_plus(
            s.dependencies,
            match (s.awaiting, e) {
                (AwaitView::Manifest(p), EventView::Manifest(Some(c))) => match manifest_deps(lowercase(p), c) {
                    Some(ds) => ds.len(),
                    None => 0,
                },
                _ => 0,
            },
        ),
{
}

/// A sync finishes exactly when no work is left, and then reports the
/// languages and dependencies it counted.
pub proof fn law_finish_reports_counts(s: RepoSyncView)
    ensures
        (advance(s).1 is Finished) <==> s.tasks.len() == 0,
        advance(s).1 matches ActionView::Finished(l, d) ==> l == s.languages && d == s.dependencies,
{
}

/// The first three steps of a sync whose writes succeed: the repository is
/// written, then linked to its org, then its languages are read.
pub proof fn law_sync_begins_with_repo_then_link(meta: RepoMeta, org: Seq<char>, max_depth: usize)
    ensures
        repo_sync_begin(meta, org, max_depth).1 == ActionView::Write(queries::MERGE_REPO@, repo_params(meta)),
        repo_sync_next(repo_sync_begin(meta, org, max_depth).0, EventView::Written).1 == ActionView::Write(
            queries::MERGE_ORG_HAS_REPO@,
            seq![text_p("org_login"@, org), text_p("repo_full_name"@, full_name_of(meta))],
        ),
        repo_sync_next(
            repo_sync_next(repo_sync_begin(meta, org, max_depth).0, EventView::Written).0,
            EventView::Written,
        ).1 == ActionView::FetchLanguages,
{
    let s0 = repo_sync_initial(meta, org, max_depth);
    let s1 = repo_sync_begin(meta, org, max_depth).0;
    assert(s1.tasks == s0.tasks.skip(1));
    assert(Seq::<TaskView>::empty() + s1.tasks =~= s1.tasks);
    let s2 = repo_sync_next(s1, EventView::Written).0;
    assert(s2.tasks == s1.tasks.skip(1));
    assert(Seq::<TaskView>::empty() + s2.tasks =~= s2.tasks);
}


/// The parameters a dependency is written with, spelled out: the
/// repository, the dependency's name and ecosystem, its version part (empty
/// only where the manifest gives none), and `dev` false.
pub open spec fn written_dependency(full: Seq<char>, d: DependencyView) -> TaskView {
    TaskView::Write(
        queries::MERGE_DEPENDENCY@,
        seq![
            ("repo_full_name"@, ParamView::Text(full)),
            ("dep_name"@, ParamView::Text(d.name)),
            ("ecosystem"@, ParamView::Text(d.ecosystem)),
            ("version"@, ParamView::Text(version_text(d.version_spec))),
            ("dev"@, ParamView::Bool(false)),
        ],
    )
}

/// A version part as written: the text itself, or empty where there is none.
pub open spec fn version_text(v: Option<Seq<char>>) -> Seq<char> {
    match v {
        Some(t) => t,
        None => Seq::empty(),
    }
}

/// After a manifest is read, every dependency parsed from it is written,
/// in order and before the work that was left, each with its name,
/// ecosystem and version; the first of them is the next action, and the
/// dependencies counted grow by their number.
pub proof fn law_manifest_dependencies_are_written(s: RepoSyncView, path: Seq<char>, content: Seq<char>)
    requires
        s.awaiting == AwaitView::Manifest(path),
        manifest_deps(lowercase(path), content) is Some,
        manifest_deps(lowercase(path), content).unwrap().len() > 0,
    ensures
        ({
            let ds = manifest_deps(lowercase(path), content).unwrap();
            let r = repo_sync_next(s, EventView::Manifest(Some(content)));
            &&& task_action(written_dependency(s.full_name, ds[0]), s.branch) == r.1
            &&& r.0.tasks.len() == ds.len() - 1 + s.tasks.len()
            &&& forall|i: int| 1 <= i < ds.len() ==> r.0.tasks[i - 1] == written_dependency(s.full_name, #[trigger] ds[i])
            &&& r.0.tasks.skip(ds.len() - 1) == s.tasks
            &&& r.0.dependencies == counter_plus(s.dependencies, ds.len())
            &&& r.0.languages == s.languages
        }),
{
    let ds = manifest_deps(lowercase(path), content).unwrap();
    let w = dependency_writes(s.full_name, ds);
    assert forall|i: int| 0 <= i < ds.len() implies w[i] == written_dependency(s.full_name, #[trigger] ds[i]) by {
        let ps = seq![
            text_p("repo_full_name"@, s.full_name),
            text_p("dep_name"@, ds[i].name),
            text_p("ecosystem"@, ds[i].ecosystem),
            text_p("version"@, seq_or_empty(ds[i].version_spec)),
            ("dev"@, ParamView::Bool(false)),
        ];
        let qs = seq![
            ("repo_full_name"@, ParamView::Text(s.full_name)),
            ("dep_name"@, ParamView::Text(ds[i].name)),
            ("ecosystem"@, ParamView::Text(ds[i].ecosystem)),
            ("version"@, ParamView::Text(version_text(ds[i].version_spec))),
            ("dev"@, ParamView::Bool(false)),
        ];
        assert(version_text(ds[i].version_spec) == seq_or_empty(ds[i].version_spec));
        assert(ps =~= qs);
        assert(w[i] == TaskView::Write(queries::MERGE_DEPENDENCY@, ps));
        assert(written_dependency(s.full_name, ds[i]) == TaskView::Write(queries::MERGE_DEPENDENCY@, qs));
    }
    let all = w + s.tasks;
    assert(all[0] == w[0]);
    assert(all.skip(1).skip(ds.len() - 1) =~= s.tasks);
    assert forall|i: int| 1 <= i < ds.len() implies all.skip(1)[i - 1] == written_dependency(
        s.full_name,
        #[trigger] ds[i],
    ) by {
        assert(all.skip(1)[i - 1] == w[i]);
    }
}


/// The write of a language read: the repository, the language's name and
/// its byte count.
pub open spec fn written_language(full: Seq<char>, l: (Seq<char>, u64)) -> TaskView {
    TaskView::Write(
        queries::MERGE_REPO_USES_LANGUAGE@,
        seq![
            ("repo_full_name"@, ParamView::Text(full)),
            ("lang_name"@, ParamView::Text(l.0)),
            ("bytes"@, ParamView::Int(l.1 as i64)),
        ],
    )
}

/// The write of a topic read.
pub open spec fn written_topic(full: Seq<char>, t: Seq<char>) -> TaskView {
    TaskView::Write(
        queries::MERGE_TOPIC@,
        seq![("repo_full_name"@, ParamView::Text(full)), ("topic_name"@, ParamView::Text(t))],
    )
}

/// The write of a team read, with read permission.
pub open spec fn written_team(full: Seq<char>, t: (Seq<char>, Seq<char>)) -> TaskView {
    TaskView::Write(
        queries::MERGE_TEAM@,
        seq![
            ("repo_full_name"@, ParamView::Text(full)),
            ("team_slug"@, ParamView::Text(t.0)),
            ("team_name"@, ParamView::Text(t.1)),
            ("permission"@, ParamView::Text("read"@)),
        ],
    )
}

/// After the languages are read, each language is written, in the order
/// read and before the work left, with its name and byte count, and the
/// languages counted grow by their number.
pub proof fn law_languages_are_written(s: RepoSyncView, ls: Seq<(Seq<char>, u64)>)
    requires
        s.awaiting == AwaitView::Languages,
        ls.len() > 0,
    ensures
        ({
            let r = repo_sync_next(s, EventView::Languages(Some(ls)));
            &&& r.1 == task_action(written_language(s.full_name, ls[0]), s.branch)
            &&& r.0.tasks.len() == ls.len() - 1 + s.tasks.len()
            &&& forall|i: int| 1 <= i < ls.len() ==> r.0.tasks[i - 1] == written_language(s.full_name, #[trigger] ls[i])
            &&& r.0.tasks.skip(ls.len() - 1) == s.tasks
            &&& r.0.languages == counter_plus(s.languages, ls.len())
            &&& r.0.dependencies == s.dependencies
        }),
{
    let w = language_writes(s.full_name, ls);
    assert forall|i: int| 0 <= i < ls.len() implies w[i] == written_language(s.full_name, #[trigger] ls[i]) by {
        let ps = seq![
            text_p("repo_full_name"@, s.full_name),
            text_p("lang_name"@, ls[i].0),
            ("bytes"@, ParamView::Int(ls[i].1 as i64)),
        ];
        let qs = seq![
            ("repo_full_name"@, ParamView::Text(s.full_name)),
            ("lang_name"@, ParamView::Text(ls[i].0)),
            ("bytes"@, ParamView::Int(ls[i].1 as i64)),
        ];
        assert(ps =~= qs);
        assert(w[i] == TaskView::Write(queries::MERGE_REPO_USES_LANGUAGE@, ps));
    }
    let all = w + s.tasks;
    assert(all[0] == w[0]);
    assert(all.skip(1).skip(ls.len() - 1) =~= s.tasks);
    assert forall|i: int| 1 <= i < ls.len() implies all.skip(1)[i - 1] == written_language(
        s.full_name,
        #[trigger] ls[i],
    ) by {
        assert(all.skip(1)[i - 1] == w[i]);
    }
}

/// After the topics are read, each topic is written, in order and before
/// the work left.
pub proof fn law_topics_are_written(s: RepoSyncView, ts: Seq<Seq<char>>)
    requires
        s.awaiting == AwaitView::Topics,
        ts.len() > 0,
    ensures
        ({
            let r = repo_sync_next(s, EventView::Topics(Some(ts)));
            &&& r.1 == task_action(written_topic(s.full_name, ts[0]), s.branch)
            &&& r.0.tasks.len() == ts.len() - 1 + s.tasks.len()
            &&& forall|i: int| 1 <= i < ts.len() ==> r.0.tasks[i - 1] == written_topic(s.full_name, #[trigger] ts[i])
            &&& r.0.tasks.skip(ts.len() - 1) == s.tasks
        }),
{
    let w = topic_writes(s.full_name, ts);
    assert forall|i: int| 0 <= i < ts.len() implies w[i] == written_topic(s.full_name, #[trigger] ts[i]) by {
        let ps = seq![text_p("repo_full_name"@, s.full_name), text_p("topic_name"@, ts[i])];
        let qs = seq![("repo_full_name"@, ParamView::Text(s.full_name)), ("topic_name"@, ParamView::Text(ts[i]))];
        assert(ps =~= qs);
        assert(w[i] == TaskView::Write(queries::MERGE_TOPIC@, ps));
    }
    let all = w + s.tasks;
    assert(all[0] == w[0]);
    assert(all.skip(1).skip(ts.len() - 1) =~= s.tasks);
    assert forall|i: int| 1 <= i < ts.len() implies all.skip(1)[i - 1] == written_topic(
        s.full_name,
        #[trigger] ts[i],
    ) by {
        assert(all.skip(1)[i - 1] == w[i]);
    }
}

/// After the teams are read, each team is written with read permission, in
/// order and before the work left.
pub proof fn law_teams_are_written(s: RepoSyncView, ts: Seq<(Seq<char>, Seq<char>)>)
    requires
        s.awaiting == AwaitView::Teams,
        ts.len() > 0,
    ensures
        ({
            let r = repo_sync_next(s, EventView::Teams(Some(ts)));
            &&& r.1 == task_action(written_team(s.full_name, ts[0]), s.branch)
            &&& r.0.tasks.len() == ts.len() - 1 + s.tasks.len()
            &&& forall|i: int| 1 <= i < ts.len() ==> r.0.tasks[i - 1] == written_team(s.full_name, #[trigger] ts[i])
            &&& r.0.tasks.skip(ts.len() - 1) == s.tasks
        }),
{
    let w = team_writes(s.full_name, ts);
    assert forall|i: int| 0 <= i < ts.len() implies w[i] == written_team(s.full_name, #[trigger] ts[i]) by {
        let ps = seq![
            text_p("repo_full_name"@, s.full_name),
            text_p("team_slug"@, ts[i].0),
            text_p("team_name"@, ts[i].1),
            text_p("permission"@, "read"@),
        ];
        let qs = seq![
            ("repo_full_name"@, ParamView::Text(s.full_name)),
            ("team_slug"@, ParamView::Text(ts[i].0)),
            ("team_name"@, ParamView::Text(ts[i].1)),
            ("permission"@, ParamView::Text("read"@)),
        ];
        assert(ps =~= qs);
        assert(w[i] == TaskView::Write(queries::MERGE_TEAM@, ps));
    }
    let all = w + s.tasks;
    assert(all[0] == w[0]);
    assert(all.skip(1).skip(ts.len() - 1) =~= s.tasks);
    assert forall|i: int| 1 <= i < ts.len() implies all.skip(1)[i - 1] == written_team(
        s.full_name,
        #[trigger] ts[i],
    ) by {
        assert(all.skip(1)[i - 1] == w[i]);
    }
}


/// The work the recorded files of a tree bring grows, file by file in tree
/// order, by the file's write (repository, path, and its kind as
/// `readme`, `manifest`, `ci`, `config`, ...) and, for a manifest only, the
/// read of its content.
pub proof fn law_tree_work_per_file(full: Seq<char>, files: Seq<(Seq<char>, FileKind)>, f: (Seq<char>, FileKind))
    ensures
        tree_tasks(full, files.push(f)) == tree_tasks(full, files) + seq![
            TaskView::Write(
                queries::MERGE_FILE@,
                seq![
                    ("repo_full_name"@, ParamView::Text(full)),
                    ("path"@, ParamView::Text(f.0)),
                    ("kind"@, ParamView::Text(
                        match f.1 {
                            FileKind::Config => "config"@,
                            FileKind::Readme => "readme"@,
                            FileKind::Source => "source"@,
                            FileKind::Manifest => "manifest"@,
                            FileKind::Ci => "ci"@,
                            FileKind::Other => "other"@,
                        },
                    )),
                ],
            ),
        ] + if f.1 == FileKind::Manifest {
            seq![TaskView::FetchManifest(f.0)]
        } else {
            Seq::empty()
        },
{
    assert(files.push(f).drop_last() =~= files);
    let ps = seq![text_p("repo_full_name"@, full), text_p("path"@, f.0), text_p("kind"@, f.1.label())];
    let qs = seq![
        ("repo_full_name"@, ParamView::Text(full)),
        ("path"@, ParamView::Text(f.0)),
        ("kind"@, ParamView::Text(
            match f.1 {
                FileKind::Config => "config"@,
                FileKind::Readme => "readme"@,
                FileKind::Source => "source"@,
                FileKind::Manifest => "manifest"@,
                FileKind::Ci => "ci"@,
                FileKind::Other => "other"@,
            },
        )),
    ];
    assert(ps =~= qs);
}

} // verus!
