//! Planning of the search tools' graph queries.
use vstd::prelude::*;

use crate::graph::client::{param_views, text_param, FalkorParam, GraphRequest, ParamView};
use crate::graph::queries;

verus! {

#[derive(Debug, Clone)]
pub struct SearchReposParams {
    /// Substring to match against repo names
    pub query: Option<String>,
    /// Filter by programming language
    pub language: Option<String>,
    /// Filter by topic
    pub topic: Option<String>,
    /// Filter by dependency name
    pub dependency: Option<String>,
    /// Maximum results (default 20)
    pub limit: Option<i64>,
}

#[derive(Debug, Clone)]
pub struct GetRepoDetailsParams {
    /// Full name of the repo (e.g., "org/repo-name")
    pub repo: String,
}

#[derive(Debug, Clone)]
pub struct FindDependentsParams {
    /// Name of the dependency to search for
    pub dependency: String,
    /// Filter by ecosystem (e.g., "npm", "crates", "pypi")
    pub ecosystem: Option<String>,
    /// Maximum results (default 50)
    pub limit: Option<i64>,
}

#[derive(Debug, Clone)]
pub struct FindRelatedParams {
    /// Full name of the repo to find related repos for
    pub repo: String,
    /// Type of relation: "dependencies", "team", "topics" (default: "dependencies")
    pub relation_type: Option<String>,
    /// Maximum results (default 10)
    pub limit: Option<i64>,
}

/// A limit, or its default.
pub open spec fn limit_or(l: Option<i64>, default: i64) -> i64 {
    match l {
        Some(x) => x,
        None => default,
    }
}

/// A text parameter followed by the result limit.
pub open spec fn keyed(key: Seq<char>, value: Seq<char>, limit: i64) -> Seq<(Seq<char>, ParamView)> {
    seq![(key, ParamView::Text(value)), ("limit"@, ParamView::Int(limit))]
}

/// A request's query text and parameters, by view.
pub open spec fn request_view(r: GraphRequest) -> (Seq<char>, Seq<(Seq<char>, ParamView)>) {
    (r.query@, param_views(r.params@))
}

/// The query `search_repos` runs and its parameters: a dependency filter
/// wins over a language filter, which wins over a topic filter; with none of
/// them the repo names are matched against `query` (default empty).
pub open spec fn search_plan(p: SearchReposParams) -> (Seq<char>, Seq<(Seq<char>, ParamView)>) {
    let limit = limit_or(p.limit, 20);
    match p.dependency {
        Some(d) => (queries::SEARCH_REPOS_BY_DEPENDENCY@, keyed("dependency"@, d@, limit)),
        None => match p.language {
            Some(l) => (queries::SEARCH_REPOS_BY_LANGUAGE@, keyed("language"@, l@, limit)),
            None => match p.topic {
                Some(t) => (queries::SEARCH_REPOS_BY_TOPIC@, keyed("topic"@, t@, limit)),
                None => (queries::SEARCH_REPOS@, keyed("query"@, match p.query {
                    Some(q) => q@,
                    None => Seq::empty(),
                }, limit)),
            },
        },
    }
}

pub fn limit_value(l: Option<i64>, default: i64) -> (r: i64)
    ensures
        r == limit_or(l, default),
{
    match l {
        Some(x) => x,
        None => default,
    }
}

/// A request with one text parameter and the result limit.
pub fn keyed_request(query: &'static str, key: &str, value: &str, limit: i64) -> (r: GraphRequest)
    ensures
        request_view(r) == (query@, keyed(key@, value@, limit)),
{
    let mut params: Vec<(String, FalkorParam)> = Vec::new();
    let k = key.to_owned();
    let v = text_param(value);
    params.push((k, v));
    let l = String::from_str("limit");
    params.push((l, FalkorParam::Int(limit)));
    let r = GraphRequest { query, params };
    assert(param_views(r.params@) =~= keyed(key@, value@, limit));
    r
}

/// The query and parameters of the `search_repos` tool.
pub fn search_repos_request(params: &SearchReposParams) -> (r: GraphRequest)
    ensures
        request_view(r) == search_plan(*params),
{
    let limit = limit_value(params.limit, 20);
    match &params.dependency {
        Some(dep) => keyed_request(queries::SEARCH_REPOS_BY_DEPENDENCY, "dependency", dep.as_str(), limit),
        None => match &params.language {
            Some(lang) => keyed_request(queries::SEARCH_REPOS_BY_LANGUAGE, "language", lang.as_str(), limit),
            None => match &params.topic {
                Some(topic) => keyed_request(queries::SEARCH_REPOS_BY_TOPIC, "topic", topic.as_str(), limit),
                None => match &params.query {
                    Some(q) => keyed_request(queries::SEARCH_REPOS, "query", q.as_str(), limit),
                    None => {
                        proof {
                            reveal_strlit("");
                        }
                        assert(""@ =~= Seq::<char>::empty());
                        keyed_request(queries::SEARCH_REPOS, "query", "", limit)
                    },
                },
            },
        },
    }
}

/// The query and parameters of the `get_repo_details` tool.
pub fn get_repo_details_request(params: &GetRepoDetailsParams) -> (r: GraphRequest)
    ensures
        request_view(r) == (
            queries::GET_REPO_DETAILS@,
            seq![("full_name"@, ParamView::Text(params.repo@))],
        ),
{
    let mut ps: Vec<(String, FalkorParam)> = Vec::new();
    ps.push((String::from_str("full_name"), text_param(params.repo.as_str())));
    let r = GraphRequest { query: queries::GET_REPO_DETAILS, params: ps };
    assert(param_views(r.params@) =~= seq![("full_name"@, ParamView::Text(params.repo@))]);
    r
}

/// The query and parameters of the `find_dependents` tool (limit default
/// 50): with an ecosystem, only dependencies of that ecosystem match.
pub open spec fn dependents_plan(p: FindDependentsParams) -> (Seq<char>, Seq<(Seq<char>, ParamView)>) {
    let limit = limit_or(p.limit, 50);
    match p.ecosystem {
        Some(e) => (
            queries::FIND_DEPENDENTS_IN_ECOSYSTEM@,
            seq![
                ("dependency"@, ParamView::Text(p.dependency@)),
                ("ecosystem"@, ParamView::Text(e@)),
                ("limit"@, ParamView::Int(limit)),
            ],
        ),
        None => (queries::FIND_DEPENDENTS@, keyed("dependency"@, p.dependency@, limit)),
    }
}

/// The query and parameters of the `find_dependents` tool.
pub fn find_dependents_request(params: &FindDependentsParams) -> (r: GraphRequest)
    ensures
        request_view(r) == dependents_plan(*params),
{
    let limit = limit_value(params.limit, 50);
    match &params.ecosystem {
        Some(e) => {
            let mut ps: Vec<(String, FalkorParam)> = Vec::new();
            ps.push((String::from_str("dependency"), text_param(params.dependency.as_str())));
            ps.push((String::from_str("ecosystem"), text_param(e.as_str())));
            ps.push((String::from_str("limit"), FalkorParam::Int(limit)));
            let r = GraphRequest { query: queries::FIND_DEPENDENTS_IN_ECOSYSTEM, params: ps };
            assert(param_views(r.params@) =~= dependents_plan(*params).1);
            r
        },
        None => keyed_request(queries::FIND_DEPENDENTS, "dependency", params.dependency.as_str(), limit),
    }
}

/// The query `find_related` runs for a relation type (default "dependencies").
pub open spec fn related_query(relation: Option<Seq<char>>) -> Seq<char> {
    match relation {
        Some(r) => if r == "team"@ {
            queries::FIND_RELATED_BY_TEAM@
        } else if r == "topics"@ {
            queries::FIND_RELATED_BY_TOPIC@
        } else {
            queries::FIND_RELATED_BY_DEPS@
        },
        None => queries::FIND_RELATED_BY_DEPS@,
    }
}

/// The query and parameters of the `find_related` tool (limit default 10).
pub fn find_related_request(params: &FindRelatedParams) -> (r: GraphRequest)
    ensures
        request_view(r) == (
            related_query(match params.relation_type {
                Some(t) => Some(t@),
                None => None,
            }),
            keyed("repo"@, params.repo@, limit_or(params.limit, 10)),
        ),
{
    let limit = limit_value(params.limit, 10);
    let query = match &params.relation_type {
        Some(t) => if crate::text::eq_str(t.as_str(), "team") {
            queries::FIND_RELATED_BY_TEAM
        } else if crate::text::eq_str(t.as_str(), "topics") {
            queries::FIND_RELATED_BY_TOPIC
        } else {
            queries::FIND_RELATED_BY_DEPS
        },
        None => queries::FIND_RELATED_BY_DEPS,
    };
    keyed_request(query, "repo", params.repo.as_str(), limit)
}


// ---------------------------------------------------------------------------
// Laws
// ---------------------------------------------------------------------------

/// The search filters and the default limit of 20, spelled out: a
/// dependency filter wins over a language filter, which wins over a topic
/// filter; with none, repository names are matched against the query text
/// (empty when none is given). The filter value and the limit are the
/// query's two parameters, in that order.
pub proof fn law_search_filters(p: SearchReposParams)
    ensures
        ({
            let limit = match p.limit {
                Some(l) => l,
                None => 20i64,
            };
            &&& p.dependency matches Some(d) ==> search_plan(p) == (
                queries::SEARCH_REPOS_BY_DEPENDENCY@,
                seq![("dependency"@, ParamView::Text(d@)), ("limit"@, ParamView::Int(limit))],
            )
            &&& p.dependency is None ==> (p.language matches Some(l) ==> search_plan(p) == (
                queries::SEARCH_REPOS_BY_LANGUAGE@,
                seq![("language"@, ParamView::Text(l@)), ("limit"@, ParamView::Int(limit))],
            ))
            &&& (p.dependency is None && p.language is None) ==> (p.topic matches Some(t) ==> search_plan(p) == (
                queries::SEARCH_REPOS_BY_TOPIC@,
                seq![("topic"@, ParamView::Text(t@)), ("limit"@, ParamView::Int(limit))],
            ))
            &&& (p.dependency is None && p.language is None && p.topic is None) ==> search_plan(p) == (
                queries::SEARCH_REPOS@,
                seq![
                    ("query"@, ParamView::Text(
                        match p.query {
                            Some(q) => q@,
                            None => Seq::empty(),
                        },
                    )),
                    ("limit"@, ParamView::Int(limit)),
                ],
            )
        }),
{
}

/// `find_dependents` looks a dependency up by name, within the given
/// ecosystem when there is one, with at most 50 results by default.
pub proof fn law_dependents_lookup(p: FindDependentsParams)
    ensures
        ({
            let limit = match p.limit {
                Some(l) => l,
                None => 50i64,
            };
            &&& p.ecosystem matches Some(e) ==> dependents_plan(p) == (
                queries::FIND_DEPENDENTS_IN_ECOSYSTEM@,
                seq![
                    ("dependency"@, ParamView::Text(p.dependency@)),
                    ("ecosystem"@, ParamView::Text(e@)),
                    ("limit"@, ParamView::Int(limit)),
                ],
            )
            &&& p.ecosystem is None ==> dependents_plan(p) == (
                queries::FIND_DEPENDENTS@,
                seq![("dependency"@, ParamView::Text(p.dependency@)), ("limit"@, ParamView::Int(limit))],
            )
        }),
{
}

/// `find_related` relates repositories by team for "team", by topics for
/// "topics", and by shared dependencies otherwise (also when no relation
/// is given).
pub proof fn law_related_relations(relation: Option<Seq<char>>)
    ensures
        relation == Some("team"@) ==> related_query(relation) == queries::FIND_RELATED_BY_TEAM@,
        relation == Some("topics"@) ==> related_query(relation) == queries::FIND_RELATED_BY_TOPIC@,
        relation != Some("team"@) && relation != Some("topics"@) ==> related_query(relation)
            == queries::FIND_RELATED_BY_DEPS@,
{
    reveal_strlit("team");
    reveal_strlit("topics");
    assert("team"@.len() != "topics"@.len());
}

} // verus!
