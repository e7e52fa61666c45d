//! Planning of the exploration tools' graph queries.
use vstd::prelude::*;

use crate::graph::client::{param_views, text_param, FalkorParam, GraphRequest, ParamView};
use crate::graph::queries;
use crate::text::eq_str;
use crate::tools::search::{keyed, keyed_request, limit_or, limit_value, request_view};

verus! {

#[derive(Debug, Clone)]
pub struct ExploreDepsParams {
    /// Full name of the repo (e.g., "org/repo-name")
    pub repo: String,
    /// Direction: "upstream" (what this repo depends on) or "downstream" (what depends on this repo)
    pub direction: Option<String>,
    /// Maximum results (default 20)
    pub limit: Option<i64>,
}

#[derive(Debug, Clone)]
pub struct OrgStatsParams {
    /// Organization login name (uses configured org if omitted)
    pub org: Option<String>,
}

/// The traversal `explore_dependency_graph` runs: downstream only when asked
/// for, upstream otherwise.
pub open spec fn explore_query(direction: Option<Seq<char>>) -> Seq<char> {
    match direction {
        Some(d) => if d == "downstream"@ {
            queries::EXPLORE_DEPS_DOWNSTREAM@
        } else {
            queries::EXPLORE_DEPS_UPSTREAM@
        },
        None => queries::EXPLORE_DEPS_UPSTREAM@,
    }
}

/// The query and parameters of the `explore_dependency_graph` tool.
pub fn explore_dependency_graph_request(params: &ExploreDepsParams) -> (r: GraphRequest)
    ensures
        request_view(r) == (
            explore_query(match params.direction {
                Some(d) => Some(d@),
                None => None,
            }),
            keyed("repo"@, params.repo@, limit_or(params.limit, 20)),
        ),
{
    let limit = limit_value(params.limit, 20);
    let query = match &params.direction {
        Some(d) => if eq_str(d.as_str(), "downstream") {
            queries::EXPLORE_DEPS_DOWNSTREAM
        } else {
            queries::EXPLORE_DEPS_UPSTREAM
        },
        None => queries::EXPLORE_DEPS_UPSTREAM,
    };
    keyed_request(query, "repo", params.repo.as_str(), limit)
}

/// The query of the `list_languages` tool (no parameters).
pub fn list_languages_request() -> (r: GraphRequest)
    ensures
        request_view(r) == (queries::LIST_LANGUAGES@, Seq::<(Seq<char>, ParamView)>::empty()),
{
    let r = GraphRequest { query: queries::LIST_LANGUAGES, params: Vec::new() };
    assert(param_views(r.params@) =~= Seq::<(Seq<char>, ParamView)>::empty());
    r
}

/// The query of the `list_teams` tool (no parameters).
pub fn list_teams_request() -> (r: GraphRequest)
    ensures
        request_view(r) == (queries::LIST_TEAMS@, Seq::<(Seq<char>, ParamView)>::empty()),
{
    let r = GraphRequest { query: queries::LIST_TEAMS, params: Vec::new() };
    assert(param_views(r.params@) =~= Seq::<(Seq<char>, ParamView)>::empty());
    r
}

/// The query and parameter of the `get_org_stats` tool for one org.
pub fn get_org_stats_request(org: &str) -> (r: GraphRequest)
    ensures
        request_view(r) == (queries::GET_ORG_STATS@, seq![("org"@, ParamView::Text(org@))]),
{
    let mut ps: Vec<(String, FalkorParam)> = Vec::new();
    ps.push((String::from_str("org"), text_param(org)));
    let r = GraphRequest { query: queries::GET_ORG_STATS, params: ps };
    assert(param_views(r.params@) =~= seq![("org"@, ParamView::Text(org@))]);
    r
}


/// The dependency graph is explored downstream only for "downstream", and
/// upstream for anything else or no direction.
pub proof fn law_explore_direction(direction: Option<Seq<char>>)
    ensures
        direction == Some("downstream"@) ==> explore_query(direction) == queries::EXPLORE_DEPS_DOWNSTREAM@,
        direction != Some("downstream"@) ==> explore_query(direction) == queries::EXPLORE_DEPS_UPSTREAM@,
{
}

} // verus!
