//! Texts the MCP tools answer with.
use vstd::prelude::*;

use crate::config::AuthMode;
use crate::text::{concat, join, join_str, views};

verus! {

/// The statistics of all configured orgs, separated by `---` lines.
pub fn org_stats_text(results: &Vec<String>) -> (s: String)
    ensures
        s@ == join(views(results@), "\n---\n"@),
{
    join_str(results, "\n---\n")
}

/// The answer to a successful single-repo sync.
pub fn synced_repo_message(repo: &str) -> (s: String)
    ensures
        s@ == "Successfully synced repo: "@ + repo@,
{
    concat("Successfully synced repo: ", repo)
}

/// The answer when no configured org has the repository.
pub fn repo_not_in_any_org_message(repo: &str) -> (s: String)
    ensures
        s@ == "Repository "@ + repo@ + " not found in any configured organization"@,
{
    let a = concat("Repository ", repo);
    concat(a.as_str(), " not found in any configured organization")
}

/// The error when no valid GitHub token is at hand, by auth mode.
pub open spec fn missing_token_message(mode: AuthMode) -> Seq<char> {
    if mode == AuthMode::GhCli {
        "GitHub CLI token expired. Restart the server to refresh."@
    } else {
        "No valid GitHub token found. Please re-authenticate."@
    }
}

/// The GitHub token an org's ingester uses. Without any valid token it is an
/// error; in gh CLI mode it is the token of the org's own host where there is
/// one, else any valid token; in the other modes, any valid token.
pub open spec fn org_token(mode: AuthMode, host_token: Option<Seq<char>>, any_token: Option<Seq<char>>) -> Result<
    Seq<char>,
    Seq<char>,
> {
    match any_token {
        None => Err(missing_token_message(mode)),
        Some(t) => if mode == AuthMode::GhCli {
            match host_token {
                Some(h) => Ok(h),
                None => Ok(t),
            }
        } else {
            Ok(t)
        },
    }
}

pub open spec fn opt_text(o: Option<&str>) -> Option<Seq<char>> {
    match o {
        Some(s) => Some(s@),
        None => None,
    }
}

pub open spec fn text_result(r: Result<String, String>) -> Result<Seq<char>, Seq<char>> {
    match r {
        Ok(s) => Ok(s@),
        Err(e) => Err(e@),
    }
}

/// Picks the GitHub token for one org's ingester (see `org_token`).
pub fn select_org_token(mode: AuthMode, host_token: Option<&str>, any_token: Option<&str>) -> (r: Result<
    String,
    String,
>)
    ensures
        text_result(r) == org_token(mode, opt_text(host_token), opt_text(any_token)),
{
    match any_token {
        None => {
            if mode == AuthMode::GhCli {
                Err("GitHub CLI token expired. Restart the server to refresh.".to_owned())
            } else {
                Err("No valid GitHub token found. Please re-authenticate.".to_owned())
            }
        },
        Some(t) => {
            if mode == AuthMode::GhCli {
                match host_token {
                    Some(h) => Ok(h.to_owned()),
                    None => Ok(t.to_owned()),
                }
            } else {
                Ok(t.to_owned())
            }
        },
    }
}


/// The token of an org's ingester: in gh CLI mode its own host's token
/// when there is one; else (and in the other modes) the token at hand; with
/// no token at hand, an error asking to restart (gh CLI) or to
/// re-authenticate.
pub proof fn law_org_token(mode: AuthMode, host: Option<Seq<char>>, any: Option<Seq<char>>)
    ensures
        any is None && mode == AuthMode::GhCli ==> org_token(mode, host, any) == Err::<Seq<char>, Seq<char>>(
            "GitHub CLI token expired. Restart the server to refresh."@,
        ),
        any is None && mode != AuthMode::GhCli ==> org_token(mode, host, any) == Err::<Seq<char>, Seq<char>>(
            "No valid GitHub token found. Please re-authenticate."@,
        ),
        (any is Some && mode == AuthMode::GhCli) ==> (host matches Some(h) ==> org_token(mode, host, any) == Ok::<
            Seq<char>,
            Seq<char>,
        >(h)),
        any matches Some(a) ==> (!(mode == AuthMode::GhCli && host is Some) ==> org_token(mode, host, any) == Ok::<
            Seq<char>,
            Seq<char>,
        >(a)),
{
}

} // verus!
