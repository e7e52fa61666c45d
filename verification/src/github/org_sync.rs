//! The decisions of an organization's sync, as a state machine: the org
//! write (or, for an incremental sync, the read of the last sync time),
//! then the configured repositories one by one or the listing pages of the
//! org, then the cross-repository write and the sync time, with a report
//! that counts every repository once.
//!
//! The caller performs each action (a graph write or read, a listing page,
//! the sync of one repository) and hands its outcome back as the next event.
use vstd::prelude::*;

use crate::config::OrgConfig;
use crate::github::ingest::{
    cross_repo_request, find_repo_by_name, last_sync_request, org_merge_request, repo_not_found_message,
    report_consistent, text_p, SyncReport, LAST_SYNC_QUERY, PAGE_SIZE,
};
use crate::graph::client::{param_views, GraphRequest, ParamView};
use crate::graph::queries;
use crate::text::{chars_of, concat, views};

verus! {

// ---------------------------------------------------------------------------
// Times
// ---------------------------------------------------------------------------

/// Whether text `a` comes after text `b` in character order. For RFC 3339
/// times written alike (both in UTC, as `to_rfc3339` writes them) this is
/// "later than".
pub open spec fn text_later(a: Seq<char>, b: Seq<char>) -> bool
    decreases a.len(),
{
    if a.len() == 0 {
        false
    } else if b.len() == 0 {
        true
    } else if a[0] != b[0] {
        (a[0] as u32) > (b[0] as u32)
    } else {
        text_later(a.skip(1), b.skip(1))
    }
}

proof fn lemma_text_later_skip(a: Seq<char>, b: Seq<char>, i: int)
    requires
        0 <= i <= a.len(),
        i <= b.len(),
        forall|k: int| 0 <= k < i ==> a[k] == b[k],
    ensures
        text_later(a, b) == text_later(a.skip(i), b.skip(i)),
    decreases i,
{
    if i > 0 {
        assert(a[0] == b[0]);
        lemma_text_later_skip(a.skip(1), b.skip(1), i - 1);
        assert(a.skip(1).skip(i - 1) =~= a.skip(i));
        assert(b.skip(1).skip(i - 1) =~= b.skip(i));
    } else {
        assert(a.skip(0) =~= a);
        assert(b.skip(0) =~= b);
    }
}

/// Whether text `a` comes after text `b` in character order.
pub fn is_later(a: &str, b: &str) -> (r: bool)
    ensures
        r == text_later(a@, b@),
{
    let x = chars_of(a);
    let y = chars_of(b);
    let mut i: usize = 0;
    while i < x.len() && i < y.len() && x[i] == y[i]
        invariant
            0 <= i <= x.len(),
            i <= y.len(),
            x@ == a@,
            y@ == b@,
            forall|k: int| 0 <= k < i ==> x@[k] == y@[k],
        decreases x.len() - i,
    {
        i = i + 1;
    }
    proof {
        lemma_text_later_skip(a@, b@, i as int);
    }
    if i == x.len() {
        false
    } else if i == y.len() {
        true
    } else {
        (x[i] as u32) > (y[i] as u32)
    }
}

/// Whether a repository last updated at `updated_at` is synced by an
/// incremental sync whose previous run was at `last_sync`: when either time
/// is unknown it is, else only when it was updated after that run.
pub open spec fn changed_since(updated_at: Option<Seq<char>>, last_sync: Option<Seq<char>>) -> bool {
    match (updated_at, last_sync) {
        (Some(u), Some(l)) => text_later(u, l),
        _ => true,
    }
}

/// Whether a repository last updated at `updated_at` changed since `last_sync`.
pub fn is_changed_since(updated_at: &Option<String>, last_sync: &Option<String>) -> (r: bool)
    ensures
        r == changed_since(opt_text(*updated_at), opt_text(*last_sync)),
{
    match (updated_at, last_sync) {
        (Some(u), Some(l)) => is_later(u.as_str(), l.as_str()),
        _ => true,
    }
}

pub open spec fn opt_text(o: Option<String>) -> Option<Seq<char>> {
    match o {
        Some(s) => Some(s@),
        None => None,
    }
}

// ---------------------------------------------------------------------------
// The machine's data
// ---------------------------------------------------------------------------

/// A repository of a listing page: its name and when it was last updated.
#[derive(Debug)]
pub struct ListedRepo {
    pub name: String,
    /// RFC 3339
    pub updated_at: Option<String>,
}

pub open spec fn listed_views(v: Seq<ListedRepo>) -> Seq<(Seq<char>, Option<Seq<char>>)> {
    v.map_values(|r: ListedRepo| (r.name@, opt_text(r.updated_at)))
}

/// What the machine waits for.
#[derive(Debug, Clone, Copy)]
pub enum OrgAwaiting {
    Idle,
    OrgWrite,
    LastSync,
    /// The sync of the configured repository at this position.
    Named(usize),
    Page,
    /// The sync of the listed repository at this position.
    Listed(usize),
    CrossRepo,
    SyncTime,
}

pub enum OrgAwaitView {
    Idle,
    OrgWrite,
    LastSync,
    Named(usize),
    Page,
    Listed(usize),
    CrossRepo,
    SyncTime,
}

impl View for OrgAwaiting {
    type V = OrgAwaitView;

    open spec fn view(&self) -> OrgAwaitView {
        match self {
            OrgAwaiting::Idle => OrgAwaitView::Idle,
            OrgAwaiting::OrgWrite => OrgAwaitView::OrgWrite,
            OrgAwaiting::LastSync => OrgAwaitView::LastSync,
            OrgAwaiting::Named(i) => OrgAwaitView::Named(*i),
            OrgAwaiting::Page => OrgAwaitView::Page,
            OrgAwaiting::Listed(i) => OrgAwaitView::Listed(*i),
            OrgAwaiting::CrossRepo => OrgAwaitView::CrossRepo,
            OrgAwaiting::SyncTime => OrgAwaitView::SyncTime,
        }
    }
}

/// The counts and error lines of a report.
pub struct ReportView {
    pub processed: usize,
    pub updated: usize,
    pub languages: usize,
    pub dependencies: usize,
    pub errors: Seq<Seq<char>>,
}

pub open spec fn report_view(r: SyncReport) -> ReportView {
    ReportView {
        processed: r.repos_processed,
        updated: r.repos_updated,
        languages: r.languages_found,
        dependencies: r.dependencies_found,
        errors: views(r.errors@),
    }
}

/// The state of an organization's sync.
#[derive(Debug)]
pub struct OrgSyncState {
    pub org: String,
    /// The repositories configured for the org (none: all of its repositories).
    pub names: Vec<String>,
    pub incremental: bool,
    /// When the previous sync ran, as far as it is known.
    pub last_sync: Option<String>,
    /// The listing page last asked for.
    pub page: u32,
    /// The repositories of that page.
    pub listed: Vec<ListedRepo>,
    pub awaiting: OrgAwaiting,
    pub report: SyncReport,
}

pub struct OrgSyncView {
    pub org: Seq<char>,
    pub names: Seq<Seq<char>>,
    pub incremental: bool,
    pub last_sync: Option<Seq<char>>,
    pub page: u32,
    pub listed: Seq<(Seq<char>, Option<Seq<char>>)>,
    pub awaiting: OrgAwaitView,
    pub report: ReportView,
}

impl View for OrgSyncState {
    type V = OrgSyncView;

    open spec fn view(&self) -> OrgSyncView {
        OrgSyncView {
            org: self.org@,
            names: views(self.names@),
            incremental: self.incremental,
            last_sync: opt_text(self.last_sync),
            page: self.page,
            listed: listed_views(self.listed@),
            awaiting: self.awaiting@,
            report: report_view(self.report),
        }
    }
}

/// What the caller does next.
#[derive(Debug)]
pub enum OrgSyncAction {
    /// Run this graph write; answer `Written` or `WriteFailed`.
    Write(GraphRequest),
    /// Run this graph read of the last sync time; answer `LastSync`.
    ReadLastSync(GraphRequest),
    /// Sync the repository of this name; answer `RepoSynced`.
    SyncNamed(String),
    /// List this page of the org's repositories; answer `Page`.
    ListPage(u32),
    /// Sync the repository at this position of the page; answer `RepoSynced`.
    SyncListed(usize),
    /// Write the current time as the org's sync time; answer `Written` or `WriteFailed`.
    WriteSyncTime,
    /// The sync is done; its report is the state's.
    Finished,
    /// The sync fails with this message.
    Failed(String),
}

pub enum OrgActionView {
    Write(Seq<char>, Seq<(Seq<char>, ParamView)>),
    ReadLastSync(Seq<char>, Seq<(Seq<char>, ParamView)>),
    SyncNamed(Seq<char>),
    ListPage(u32),
    SyncListed(usize),
    WriteSyncTime,
    Finished,
    Failed(Seq<char>),
}

impl View for OrgSyncAction {
    type V = OrgActionView;

    open spec fn view(&self) -> OrgActionView {
        match self {
            OrgSyncAction::Write(r) => OrgActionView::Write(r.query@, param_views(r.params@)),
            OrgSyncAction::ReadLastSync(r) => OrgActionView::ReadLastSync(r.query@, param_views(r.params@)),
            OrgSyncAction::SyncNamed(n) => OrgActionView::SyncNamed(n@),
            OrgSyncAction::ListPage(p) => OrgActionView::ListPage(*p),
            OrgSyncAction::SyncListed(i) => OrgActionView::SyncListed(*i),
            OrgSyncAction::WriteSyncTime => OrgActionView::WriteSyncTime,
            OrgSyncAction::Finished => OrgActionView::Finished,
            OrgSyncAction::Failed(m) => OrgActionView::Failed(m@),
        }
    }
}

/// The outcome of the last action.
#[derive(Debug)]
pub enum OrgSyncEvent {
    Written,
    WriteFailed(String),
    /// The last sync time read (`None` when there is none or the read failed).
    LastSync(Option<String>),
    /// A listing page, or why listing failed.
    Page(Result<Vec<ListedRepo>, String>),
    /// A repository's sync: languages and dependencies found, or why it failed.
    RepoSynced(Result<(usize, usize), String>),
}

pub enum OrgEventView {
    Written,
    WriteFailed(Seq<char>),
    LastSync(Option<Seq<char>>),
    Page(Result<Seq<(Seq<char>, Option<Seq<char>>)>, Seq<char>>),
    RepoSynced(Result<(usize, usize), Seq<char>>),
}

impl View for OrgSyncEvent {
    type V = OrgEventView;

    open spec fn view(&self) -> OrgEventView {
        match self {
            OrgSyncEvent::Written => OrgEventView::Written,
            OrgSyncEvent::WriteFailed(m) => OrgEventView::WriteFailed(m@),
            OrgSyncEvent::LastSync(o) => OrgEventView::LastSync(opt_text(*o)),
            OrgSyncEvent::Page(r) => OrgEventView::Page(
                match r {
                    Ok(v) => Ok(listed_views(v@)),
                    Err(m) => Err(m@),
                },
            ),
            OrgSyncEvent::RepoSynced(r) => OrgEventView::RepoSynced(
                match r {
                    Ok(c) => Ok(*c),
                    Err(m) => Err(m@),
                },
            ),
        }
    }
}

// ---------------------------------------------------------------------------
// Specification of the machine
// ---------------------------------------------------------------------------

pub open spec fn overflow_message() -> Seq<char> {
    "sync report counters overflowed"@
}

pub open spec fn too_many_pages_message() -> Seq<char> {
    "repository listing has too many pages"@
}

pub open spec fn unexpected_message() -> Seq<char> {
    "unexpected sync event"@
}

/// The report after one repository's outcome; `None` when a counter would
/// pass `usize::MAX`.
pub open spec fn recorded(r: ReportView, name: Seq<char>, outcome: Result<(usize, usize), Seq<char>>) -> Option<
    ReportView,
> {
    match outcome {
        Ok((l, d)) => if r.processed < usize::MAX && r.updated < usize::MAX && r.languages + l
            <= usize::MAX && r.dependencies + d <= usize::MAX {
            Some(
                ReportView {
                    processed: (r.processed + 1) as usize,
                    updated: (r.updated + 1) as usize,
                    languages: (r.languages + l) as usize,
                    dependencies: (r.dependencies + d) as usize,
                    errors: r.errors,
                },
            )
        } else {
            None
        },
        Err(m) => if r.processed < usize::MAX {
            Some(ReportView { processed: (r.processed + 1) as usize, errors: r.errors.push(name + ": "@ + m), ..r })
        } else {
            None
        },
    }
}

/// Whether the sync takes up a listed repository.
pub open spec fn wanted(s: OrgSyncView, item: (Seq<char>, Option<Seq<char>>)) -> bool {
    !s.incremental || changed_since(item.1, s.last_sync)
}

/// The first listed repository at or after `from` that the sync takes up.
pub open spec fn first_wanted(s: OrgSyncView, from: int) -> Option<int>
    decreases s.listed.len() - from,
{
    if from < 0 || from >= s.listed.len() {
        None
    } else if wanted(s, s.listed[from]) {
        Some(from)
    } else {
        first_wanted(s, from + 1)
    }
}

pub open spec fn failing(s: OrgSyncView, m: Seq<char>) -> (OrgSyncView, OrgActionView) {
    (OrgSyncView { awaiting: OrgAwaitView::Idle, ..s }, OrgActionView::Failed(m))
}

/// After the repositories: the cross-repository write.
pub open spec fn cross_repo_step(s: OrgSyncView) -> (OrgSyncView, OrgActionView) {
    (
        OrgSyncView { awaiting: OrgAwaitView::CrossRepo, ..s },
        OrgActionView::Write(queries::MERGE_CROSS_REPO_DEPENDENCY@, Seq::empty()),
    )
}

/// After a page: the next page when this one was full, else the
/// cross-repository write.
pub open spec fn page_end(s: OrgSyncView) -> (OrgSyncView, OrgActionView) {
    if s.listed.len() == 0 || s.listed.len() < PAGE_SIZE {
        cross_repo_step(s)
    } else if s.page == u32::MAX {
        failing(s, too_many_pages_message())
    } else {
        (
            OrgSyncView { page: (s.page + 1) as u32, awaiting: OrgAwaitView::Page, ..s },
            OrgActionView::ListPage((s.page + 1) as u32),
        )
    }
}

/// The next listed repository to sync, from `from` on, or the page's end.
pub open spec fn listed_step(s: OrgSyncView, from: int) -> (OrgSyncView, OrgActionView) {
    match first_wanted(s, from) {
        Some(j) => (
            OrgSyncView { awaiting: OrgAwaitView::Listed(j as usize), ..s },
            OrgActionView::SyncListed(j as usize),
        ),
        None => page_end(s),
    }
}

/// The configured repository at `i`, or, past the last, the cross-repository write.
pub open spec fn named_step(s: OrgSyncView, i: int) -> (OrgSyncView, OrgActionView) {
    if 0 <= i < s.names.len() {
        (OrgSyncView { awaiting: OrgAwaitView::Named(i as usize), ..s }, OrgActionView::SyncNamed(s.names[i]))
    } else {
        cross_repo_step(s)
    }
}

/// The repositories' part: the configured ones, else the first listing page.
pub open spec fn repos_step(s: OrgSyncView) -> (OrgSyncView, OrgActionView) {
    if s.names.len() > 0 {
        named_step(s, 0)
    } else {
        (OrgSyncView { page: 1, awaiting: OrgAwaitView::Page, ..s }, OrgActionView::ListPage(1))
    }
}

pub open spec fn empty_report() -> ReportView {
    ReportView { processed: 0, updated: 0, languages: 0, dependencies: 0, errors: Seq::empty() }
}

/// The first step of an org's sync: a full sync writes the org, an
/// incremental one reads when the org was last synced.
pub open spec fn org_sync_begin(org: Seq<char>, api_url: Seq<char>, names: Seq<Seq<char>>, incremental: bool) -> (
    OrgSyncView,
    OrgActionView,
) {
    let s = OrgSyncView {
        org,
        names,
        incremental,
        last_sync: None,
        page: 0,
        listed: Seq::empty(),
        awaiting: if incremental {
            OrgAwaitView::LastSync
        } else {
            OrgAwaitView::OrgWrite
        },
        report: empty_report(),
    };
    if incremental {
        (s, OrgActionView::ReadLastSync(LAST_SYNC_QUERY@, seq![text_p("login"@, org)]))
    } else {
        (
            s,
            OrgActionView::Write(
                queries::MERGE_ORG@,
                seq![text_p("login"@, org), text_p("name"@, org), text_p("url"@, api_url + "/orgs/"@ + org)],
            ),
        )
    }
}

/// One step of an org's sync.
pub open spec fn org_sync_next(s: OrgSyncView, e: OrgEventView) -> (OrgSyncView, OrgActionView) {
    match (s.awaiting, e) {
        (OrgAwaitView::OrgWrite, OrgEventView::Written) => repos_step(s),
        (OrgAwaitView::OrgWrite, OrgEventView::WriteFailed(m)) => failing(s, m),
        (OrgAwaitView::LastSync, OrgEventView::LastSync(t)) => repos_step(OrgSyncView { last_sync: t, ..s }),
        (OrgAwaitView::Named(i), OrgEventView::RepoSynced(out)) => if i < s.names.len() {
            match recorded(s.report, s.names[i as int], out) {
                Some(r) => named_step(OrgSyncView { report: r, ..s }, i + 1),
                None => failing(s, overflow_message()),
            }
        } else {
            failing(s, unexpected_message())
        },
        (OrgAwaitView::Page, OrgEventView::Page(Err(m))) => failing(s, m),
        (OrgAwaitView::Page, OrgEventView::Page(Ok(items))) => listed_step(OrgSyncView { listed: items, ..s }, 0),
        (OrgAwaitView::Listed(i), OrgEventView::RepoSynced(out)) => if i < s.listed.len() {
            match recorded(s.report, s.listed[i as int].0, out) {
                Some(r) => listed_step(OrgSyncView { report: r, ..s }, i + 1),
                None => failing(s, overflow_message()),
            }
        } else {
            failing(s, unexpected_message())
        },
        (OrgAwaitView::CrossRepo, OrgEventView::Written) => (
            OrgSyncView { awaiting: OrgAwaitView::SyncTime, ..s },
            OrgActionView::WriteSyncTime,
        ),
        (OrgAwaitView::CrossRepo, OrgEventView::WriteFailed(m)) => failing(s, m),
        (OrgAwaitView::SyncTime, OrgEventView::Written) => (
            OrgSyncView { awaiting: OrgAwaitView::Idle, ..s },
            OrgActionView::Finished,
        ),
        (OrgAwaitView::SyncTime, OrgEventView::WriteFailed(m)) => failing(s, m),
        _ => failing(s, unexpected_message()),
    }
}

// ---------------------------------------------------------------------------
// The machine
// ---------------------------------------------------------------------------

fn fail(s: OrgSyncState, message: String) -> (r: (OrgSyncState, OrgSyncAction))
    ensures
        (r.0@, r.1@) == failing(s@, message@),
        r.0.report == s.report,
{
    let mut s = s;
    s.awaiting = OrgAwaiting::Idle;
    (s, OrgSyncAction::Failed(message))
}

fn cross_repo(s: OrgSyncState) -> (r: (OrgSyncState, OrgSyncAction))
    ensures
        (r.0@, r.1@) == cross_repo_step(s@),
        r.0.report == s.report,
{
    let mut s = s;
    s.awaiting = OrgAwaiting::CrossRepo;
    let req = cross_repo_request();
    assert(param_views(req.params@) =~= Seq::<(Seq<char>, ParamView)>::empty());
    (s, OrgSyncAction::Write(req))
}

fn end_of_page(s: OrgSyncState) -> (r: (OrgSyncState, OrgSyncAction))
    ensures
        (r.0@, r.1@) == page_end(s@),
        r.0.report == s.report,
{
    let n = s.listed.len();
    if n == 0 || n < PAGE_SIZE as usize {
        cross_repo(s)
    } else if s.page == u32::MAX {
        fail(s, "repository listing has too many pages".to_owned())
    } else {
        let mut s = s;
        s.page = s.page + 1;
        s.awaiting = OrgAwaiting::Page;
        let p = s.page;
        (s, OrgSyncAction::ListPage(p))
    }
}

fn next_listed(s: OrgSyncState, from: usize) -> (r: (OrgSyncState, OrgSyncAction))
    ensures
        (r.0@, r.1@) == listed_step(s@, from as int),
        r.0.report == s.report,
{
    let mut j = from;
    while j < s.listed.len()
        invariant
            from <= j,
            first_wanted(s@, from as int) == first_wanted(s@, j as int),
        decreases s.listed.len() - j,
    {
        let ghost item = s@.listed[j as int];
        let take = !s.incremental || is_changed_since(&s.listed[j].updated_at, &s.last_sync);
        assert(take == wanted(s@, item));
        if take {
            let mut s = s;
            s.awaiting = OrgAwaiting::Listed(j);
            return (s, OrgSyncAction::SyncListed(j));
        }
        j = j + 1;
    }
    end_of_page(s)
}

fn next_named(s: OrgSyncState, i: usize) -> (r: (OrgSyncState, OrgSyncAction))
    ensures
        (r.0@, r.1@) == named_step(s@, i as int),
        r.0.report == s.report,
{
    if i < s.names.len() {
        let name = s.names[i].clone();
        let mut s = s;
        s.awaiting = OrgAwaiting::Named(i);
        (s, OrgSyncAction::SyncNamed(name))
    } else {
        cross_repo(s)
    }
}

fn repos_first(s: OrgSyncState) -> (r: (OrgSyncState, OrgSyncAction))
    ensures
        (r.0@, r.1@) == repos_step(s@),
        r.0.report == s.report,
{
    if s.names.len() > 0 {
        next_named(s, 0)
    } else {
        let mut s = s;
        s.page = 1;
        s.awaiting = OrgAwaiting::Page;
        (s, OrgSyncAction::ListPage(1))
    }
}

/// Counts one repository's outcome; `false` (and the report unchanged)
/// when a counter would pass `usize::MAX`.
fn record(report: &mut SyncReport, name: &str, outcome: Result<(usize, usize), String>) -> (ok: bool)
    ensures
        match recorded(
            report_view(*old(report)),
            name@,
            match outcome {
                Ok(c) => Ok(c),
                Err(m) => Err(m@),
            },
        ) {
            Some(v) => ok && report_view(*final(report)) == v,
            None => !ok && *final(report) == *old(report),
        },
        report_consistent(*old(report)) ==> report_consistent(*final(report)),
{
    match outcome {
        Ok((l, d)) => {
            if report.repos_processed < usize::MAX && report.repos_updated < usize::MAX && l <= usize::MAX
                - report.languages_found && d <= usize::MAX - report.dependencies_found {
                report.record_success(l, d);
                true
            } else {
                false
            }
        },
        Err(m) => {
            if report.repos_processed < usize::MAX {
                report.record_failure(name, m.as_str());
                true
            } else {
                false
            }
        },
    }
}

/// Starts the sync of an org: a full one, or an incremental one.
pub fn org_sync_start(org: &OrgConfig, incremental: bool) -> (r: (OrgSyncState, OrgSyncAction))
    ensures
        (r.0@, r.1@) == org_sync_begin(org.org@, org.api_url@, views(org.repos@), incremental),
        report_consistent(r.0.report),
{
    let mut names: Vec<String> = Vec::new();
    let mut i: usize = 0;
    while i < org.repos.len()
        invariant
            0 <= i <= org.repos.len(),
            views(names@) == views(org.repos@).take(i as int),
        decreases org.repos.len() - i,
    {
        let ghost before = views(names@);
        let n = org.repos[i].clone();
        names.push(n);
        assert(views(names@) =~= before.push(n@));
        assert(views(names@) =~= views(org.repos@).take(i + 1));
        i = i + 1;
    }
    assert(views(org.repos@).take(org.repos@.len() as int) =~= views(org.repos@));
    let report = SyncReport::default();
    assert(views(report.errors@) =~= Seq::<Seq<char>>::empty());
    let listed: Vec<ListedRepo> = Vec::new();
    assert(listed_views(listed@) =~= Seq::<(Seq<char>, Option<Seq<char>>)>::empty());
    let s = OrgSyncState {
        org: org.org.clone(),
        names,
        incremental,
        last_sync: None,
        page: 0,
        listed,
        awaiting: if incremental {
            OrgAwaiting::LastSync
        } else {
            OrgAwaiting::OrgWrite
        },
        report,
    };
    if incremental {
        (s, OrgSyncAction::ReadLastSync(last_sync_request(org.org.as_str())))
    } else {
        (s, OrgSyncAction::Write(org_merge_request(org)))
    }
}

/// One step of an org's sync: takes the outcome of the last action and
/// gives the state after it and the next action.
pub fn org_sync_step(state: OrgSyncState, event: OrgSyncEvent) -> (r: (OrgSyncState, OrgSyncAction))
    requires
        report_consistent(state.report),
    ensures
        (r.0@, r.1@) == org_sync_next(state@, event@),
        report_consistent(r.0.report),
{
    let mut s = state;
    let awaiting = s.awaiting;
    match (awaiting, event) {
        (OrgAwaiting::OrgWrite, OrgSyncEvent::Written) => repos_first(s),
        (OrgAwaiting::OrgWrite, OrgSyncEvent::WriteFailed(m)) => fail(s, m),
        (OrgAwaiting::LastSync, OrgSyncEvent::LastSync(t)) => {
            s.last_sync = t;
            repos_first(s)
        },
        (OrgAwaiting::Named(i), OrgSyncEvent::RepoSynced(out)) => {
            if i < s.names.len() {
                let name = s.names[i].clone();
                if record(&mut s.report, name.as_str(), out) {
                    next_named(s, i + 1)
                } else {
                    fail(s, "sync report counters overflowed".to_owned())
                }
            } else {
                fail(s, "unexpected sync event".to_owned())
            }
        },
        (OrgAwaiting::Page, OrgSyncEvent::Page(Err(m))) => fail(s, m),
        (OrgAwaiting::Page, OrgSyncEvent::Page(Ok(items))) => {
            s.listed = items;
            next_listed(s, 0)
        },
        (OrgAwaiting::Listed(i), OrgSyncEvent::RepoSynced(out)) => {
            if i < s.listed.len() {
                let name = s.listed[i].name.clone();
                if record(&mut s.report, name.as_str(), out) {
                    next_listed(s, i + 1)
                } else {
                    fail(s, "sync report counters overflowed".to_owned())
                }
            } else {
                fail(s, "unexpected sync event".to_owned())
            }
        },
        (OrgAwaiting::CrossRepo, OrgSyncEvent::Written) => {
            s.awaiting = OrgAwaiting::SyncTime;
            (s, OrgSyncAction::WriteSyncTime)
        },
        (OrgAwaiting::CrossRepo, OrgSyncEvent::WriteFailed(m)) => fail(s, m),
        (OrgAwaiting::SyncTime, OrgSyncEvent::Written) => {
            s.awaiting = OrgAwaiting::Idle;
            (s, OrgSyncAction::Finished)
        },
        (OrgAwaiting::SyncTime, OrgSyncEvent::WriteFailed(m)) => fail(s, m),
        _ => fail(s, "unexpected sync event".to_owned()),
    }
}


// ---------------------------------------------------------------------------
// Finding a repository by name
// ---------------------------------------------------------------------------

/// The search of the org's listing pages for a repository by name.
#[derive(Debug)]
pub struct FindState {
    pub target: String,
    pub org: String,
    /// The page last asked for.
    pub page: u32,
}

pub struct FindView {
    pub target: Seq<char>,
    pub org: Seq<char>,
    pub page: u32,
}

impl View for FindState {
    type V = FindView;

    open spec fn view(&self) -> FindView {
        FindView { target: self.target@, org: self.org@, page: self.page }
    }
}

/// What the caller does next in a search by name.
#[derive(Debug)]
pub enum FindAction {
    /// List this page (answer with its repository names, or why listing failed).
    ListPage(u32),
    /// The repository is at this position of the page last listed.
    Found(usize),
    /// The search fails with this message.
    Failed(String),
}

pub enum FindActionView {
    ListPage(u32),
    Found(usize),
    Failed(Seq<char>),
}

impl View for FindAction {
    type V = FindActionView;

    open spec fn view(&self) -> FindActionView {
        match self {
            FindAction::ListPage(p) => FindActionView::ListPage(*p),
            FindAction::Found(i) => FindActionView::Found(*i),
            FindAction::Failed(m) => FindActionView::Failed(m@),
        }
    }
}

/// The first position of `target` among `names`.
pub open spec fn first_named(names: Seq<Seq<char>>, target: Seq<char>) -> Option<int>
    decreases names.len(),
{
    if names.len() == 0 {
        None
    } else if names[0] == target {
        Some(0)
    } else {
        match first_named(names.drop_first(), target) {
            Some(i) => Some(i + 1),
            None => None,
        }
    }
}

proof fn lemma_first_named(names: Seq<Seq<char>>, target: Seq<char>, i: int)
    requires
        (0 <= i < names.len() && names[i] == target && forall|j: int| 0 <= j < i ==> names[j] != target) || (i
            == -1 && forall|j: int| 0 <= j < names.len() ==> names[j] != target),
    ensures
        first_named(names, target) == (if i == -1 {
            None
        } else {
            Some(i)
        }),
    decreases names.len(),
{
    if names.len() > 0 {
        if names[0] != target {
            let j = if i == -1 {
                -1
            } else {
                i - 1
            };
            assert forall|k: int| 0 <= k < (if i == -1 { names.len() - 1 } else { j }) implies names.drop_first()[k]
                != target by {
                assert(names.drop_first()[k] == names[k + 1]);
            }
            if i != -1 {
                assert(names.drop_first()[j] == names[i]);
            }
            lemma_first_named(names.drop_first(), target, j);
        }
    }
}

/// One step of a search by name, from the names of the page just listed:
/// a failed listing fails it; the first repository of that name is found;
/// after a short or empty page the repository is not in the org; else the
/// next page is listed.
pub open spec fn find_next(s: FindView, page: Result<Seq<Seq<char>>, Seq<char>>) -> (FindView, FindActionView) {
    match page {
        Err(m) => (s, FindActionView::Failed(m)),
        Ok(names) => match first_named(names, s.target) {
            Some(i) => (s, FindActionView::Found(i as usize)),
            None => if names.len() == 0 || names.len() < PAGE_SIZE {
                (
                    s,
                    FindActionView::Failed("Repository "@ + s.target + " not found in org "@ + s.org),
                )
            } else if s.page == u32::MAX {
                (s, FindActionView::Failed(too_many_pages_message()))
            } else {
                (FindView { page: (s.page + 1) as u32, ..s }, FindActionView::ListPage((s.page + 1) as u32))
            },
        },
    }
}

/// Starts the search for the repository `target` of `org`: list the first page.
pub fn find_repo_start(target: &str, org: &str) -> (r: (FindState, FindAction))
    ensures
        r.0@ == (FindView { target: target@, org: org@, page: 1 }),
        r.1@ == FindActionView::ListPage(1),
{
    (FindState { target: target.to_owned(), org: org.to_owned(), page: 1 }, FindAction::ListPage(1))
}

/// One step of the search: takes the names of the page just listed (or why
/// listing failed).
pub fn find_repo_step(state: FindState, page: Result<Vec<String>, String>) -> (r: (FindState, FindAction))
    ensures
        (r.0@, r.1@) == find_next(
            state@,
            match page {
                Ok(v) => Ok(views(v@)),
                Err(m) => Err(m@),
            },
        ),
{
    let mut s = state;
    match page {
        Err(m) => (s, FindAction::Failed(m)),
        Ok(names) => {
            let found = find_repo_by_name(&names, s.target.as_str());
            proof {
                match found {
                    Some(i) => {
                        assert forall|j: int| 0 <= j < i implies views(names@)[j] != s.target@ by {
                            assert(views(names@)[j] == names@[j]@);
                        }
                        lemma_first_named(views(names@), s.target@, i as int);
                    },
                    None => {
                        assert forall|j: int| 0 <= j < views(names@).len() implies views(names@)[j]
                            != s.target@ by {
                            assert(views(names@)[j] == names@[j]@);
                        }
                        lemma_first_named(views(names@), s.target@, -1);
                    },
                }
            }
            match found {
                Some(i) => (s, FindAction::Found(i)),
                None => {
                    let n = names.len();
                    if n == 0 || n < PAGE_SIZE as usize {
                        let m = repo_not_found_message(s.target.as_str(), s.org.as_str());
                        (s, FindAction::Failed(m))
                    } else if s.page == u32::MAX {
                        (s, FindAction::Failed("repository listing has too many pages".to_owned()))
                    } else {
                        s.page = s.page + 1;
                        let p = s.page;
                        (s, FindAction::ListPage(p))
                    }
                },
            }
        },
    }
}

// ---------------------------------------------------------------------------
// Laws
// ---------------------------------------------------------------------------

/// Every repository outcome is counted once: the report's processed count
/// grows by one, an error line is added exactly for a failed sync, and no
/// other event changes the report.
pub proof fn law_each_repo_counted_once(s: OrgSyncView, e: OrgEventView)
    ensures
        !(org_sync_next(s, e).1 is Failed) ==> match (s.awaiting, e) {
            (OrgAwaitView::Named(_), OrgEventView::RepoSynced(out)) | (
                OrgAwaitView::Listed(_),
                OrgEventView::RepoSynced(out),
            ) => {
                &&& org_sync_next(s, e).0.report.processed == s.report.processed + 1
                &&& org_sync_next(s, e).0.report.errors.len() == s.report.errors.len() + if out is Err {
                    1int
                } else {
                    0int
                }
            },
            _ => org_sync_next(s, e).0.report == s.report,
        },
{
}

/// From a listing page the sync takes up exactly the repositories it wants
/// (in an incremental sync, those changed since the last sync), in page
/// order: the one it asks for next is wanted and none before it is, and
/// when it asks for none, no repository left on the page is wanted.
pub proof fn law_listed_repos_taken_in_order(s: OrgSyncView, from: int)
    requires
        0 <= from,
        s.listed.len() <= usize::MAX,
    ensures
        listed_step(s, from).1 matches OrgActionView::SyncListed(j) ==> {
            &&& from <= j < s.listed.len()
            &&& wanted(s, s.listed[j as int])
            &&& forall|k: int| from <= k < j ==> !wanted(s, #[trigger] s.listed[k])
        },
        !(listed_step(s, from).1 is SyncListed) ==> forall|k: int|
            from <= k < s.listed.len() ==> !wanted(s, #[trigger] s.listed[k]),
    decreases s.listed.len() - from,
{
    if from < s.listed.len() && !wanted(s, s.listed[from]) {
        law_listed_repos_taken_in_order(s, from + 1);
    }
}

/// A full sync takes up every listed repository.
pub proof fn law_full_sync_takes_every_repo(s: OrgSyncView, item: (Seq<char>, Option<Seq<char>>))
    requires
        !s.incremental,
    ensures
        wanted(s, item),
{
}

/// Listing stops after a short or empty page: the cross-repository write
/// follows.
pub proof fn law_short_page_ends_listing(s: OrgSyncView)
    requires
        s.listed.len() < PAGE_SIZE,
    ensures
        page_end(s).1 == OrgActionView::Write(queries::MERGE_CROSS_REPO_DEPENDENCY@, Seq::empty()),
{
}

/// The sync ends in order: the sync time is written only right after the
/// cross-repository write succeeded, and the sync finishes only right after
/// the sync time was written.
pub proof fn law_sync_ends_with_cross_repo_then_time(s: OrgSyncView, e: OrgEventView)
    ensures
        org_sync_next(s, e).1 is WriteSyncTime ==> s.awaiting is CrossRepo && e is Written,
        org_sync_next(s, e).1 is Finished ==> s.awaiting is SyncTime && e is Written,
{
}

/// A full sync first writes the org; an incremental one first reads when
/// the org was last synced.
pub proof fn law_sync_begins_with_org(org: Seq<char>, api_url: Seq<char>, names: Seq<Seq<char>>, incremental: bool)
    ensures
        incremental ==> org_sync_begin(org, api_url, names, incremental).1 is ReadLastSync,
        !incremental ==> (org_sync_begin(org, api_url, names, incremental).1 matches OrgActionView::Write(q, _)
            && q == queries::MERGE_ORG@),
{
}


proof fn lemma_first_named_sound(names: Seq<Seq<char>>, target: Seq<char>)
    ensures
        first_named(names, target) matches Some(i) ==> 0 <= i < names.len() && names[i] == target && forall|j: int|
            0 <= j < i ==> names[j] != target,
        first_named(names, target) is None ==> forall|j: int| 0 <= j < names.len() ==> names[j] != target,
    decreases names.len(),
{
    if names.len() > 0 {
        lemma_first_named_sound(names.drop_first(), target);
        assert forall|j: int| 0 < j < names.len() implies names[j] == names.drop_first()[j - 1] by {}
    }
}

/// A search by name finds the first repository of the page with that name,
/// and reports the repository missing only after a short page holding none.
pub proof fn law_search_finds_first_match(s: FindView, names: Seq<Seq<char>>)
    requires
        names.len() <= usize::MAX,
    ensures
        find_next(s, Ok(names)).1 matches FindActionView::Found(i) ==> i < names.len() && names[i as int] == s.target
            && forall|j: int| 0 <= j < i ==> names[j] != s.target,
        find_next(s, Ok(names)).1 is Failed ==> forall|j: int| 0 <= j < names.len() ==> names[j] != s.target,
{
    lemma_first_named_sound(names, s.target);
}


/// A sync of configured repositories: the org has a repository list and
/// the sync is not reading listing pages.
pub open spec fn syncing_named(s: OrgSyncView) -> bool {
    &&& s.names.len() > 0
    &&& !(s.awaiting is Page)
    &&& !(s.awaiting is Listed)
}

/// When the org has a configured repository list, a sync (full or
/// incremental) takes up its first configured repository right after the
/// org write or the read of the last sync time, whatever that read gave.
pub proof fn law_configured_repos_come_first(
    org: Seq<char>,
    api_url: Seq<char>,
    names: Seq<Seq<char>>,
    incremental: bool,
    last_sync: Option<Seq<char>>,
)
    requires
        names.len() > 0,
    ensures
        ({
            let s0 = org_sync_begin(org, api_url, names, incremental).0;
            let e = if incremental {
                OrgEventView::LastSync(last_sync)
            } else {
                OrgEventView::Written
            };
            &&& syncing_named(s0)
            &&& org_sync_next(s0, e).1 == OrgActionView::SyncNamed(names[0])
        }),
{
}

/// A sync of configured repositories never lists pages: no step from such
/// a state asks for a listing page, and the state after it is again one.
/// Together with `law_configured_repos_come_first`, no sync of an org with a
/// configured repository list ever lists its repositories.
pub proof fn law_configured_repos_are_never_listed(s: OrgSyncView, e: OrgEventView)
    requires
        syncing_named(s),
    ensures
        !(org_sync_next(s, e).1 is ListPage),
        !(org_sync_next(s, e).1 is SyncListed),
        syncing_named(org_sync_next(s, e).0),
        org_sync_next(s, e).0.names == s.names,
{
}

/// The configured repositories are taken up one after the other, in the
/// configured order: after the outcome of the one at `i`, the next is the
/// one at `i + 1`, and after the last the cross-repository write follows.
pub proof fn law_configured_repos_in_order(s: OrgSyncView, i: usize, out: Result<(usize, usize), Seq<char>>)
    requires
        s.awaiting == OrgAwaitView::Named(i),
        i < s.names.len(),
        recorded(s.report, s.names[i as int], out) is Some,
    ensures
        i + 1 < s.names.len() ==> org_sync_next(s, OrgEventView::RepoSynced(out)).1 == OrgActionView::SyncNamed(
            s.names[i + 1],
        ),
        i + 1 == s.names.len() ==> org_sync_next(s, OrgEventView::RepoSynced(out)).1 == OrgActionView::Write(
            queries::MERGE_CROSS_REPO_DEPENDENCY@,
            Seq::empty(),
        ),
{
}

} // verus!
