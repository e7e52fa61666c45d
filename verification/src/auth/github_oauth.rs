//! The computing side of the GitHub OAuth endpoints: the authorization
//! redirect, the token exchange request, and recording a completed login.
use vstd::prelude::*;

use crate::auth::token_store::{inserted, timestamp_wf, Timestamp, TokenStore};
use crate::config::AppConfig;
use crate::text::concat;

verus! {

/// Query parameters of the OAuth callback.
#[derive(Debug, Clone)]
pub struct CallbackParams {
    pub code: String,
    pub state: Option<String>,
}

/// What the callback answers once the login completed.
#[derive(Debug, Clone)]
pub struct TokenResponse {
    pub access_token: String,
    pub token_type: String,
    pub login: String,
}

/// An error reported to an OAuth client (as 500 with this message).
#[derive(Debug, Clone)]
pub struct AppError(pub String);

/// The GitHub authorization page a login is redirected to.
pub open spec fn authorize_url_of(c: AppConfig) -> Seq<char> {
    c.github_auth_url@ + "?client_id="@ + c.github_client_id@ + "&redirect_uri="@
        + c.github_redirect_uri@ + "&scope=repo,read:org"@
}

/// The GitHub authorization page a login is redirected to.
pub fn login_redirect_url(config: &AppConfig) -> (s: String)
    ensures
        s@ == authorize_url_of(*config),
{
    let a = concat(config.github_auth_url.as_str(), "?client_id=");
    let b = concat(a.as_str(), config.github_client_id.as_str());
    let c = concat(b.as_str(), "&redirect_uri=");
    let d = concat(c.as_str(), config.github_redirect_uri.as_str());
    concat(d.as_str(), "&scope=repo,read:org")
}

pub open spec fn field_views(v: Seq<(String, String)>) -> Seq<(Seq<char>, Seq<char>)> {
    v.map_values(|p: (String, String)| (p.0@, p.1@))
}

/// The fields of the code-for-token exchange request, in order.
pub fn token_request_fields(config: &AppConfig, code: &str) -> (r: Vec<(String, String)>)
    ensures
        field_views(r@) == seq![
            ("client_id"@, config.github_client_id@),
            ("client_secret"@, config.github_client_secret@),
            ("code"@, code@),
            ("redirect_uri"@, config.github_redirect_uri@),
        ],
{
    let mut r: Vec<(String, String)> = Vec::new();
    r.push((String::from_str("client_id"), config.github_client_id.clone()));
    r.push((String::from_str("client_secret"), config.github_client_secret.clone()));
    r.push((String::from_str("code"), code.to_owned()));
    r.push((String::from_str("redirect_uri"), config.github_redirect_uri.clone()));
    assert(field_views(r@) =~= seq![
        ("client_id"@, config.github_client_id@),
        ("client_secret"@, config.github_client_secret@),
        ("code"@, code@),
        ("redirect_uri"@, config.github_redirect_uri@),
    ]);
    r
}

/// The endpoint that names the user a token belongs to.
pub fn user_endpoint(api_url: &str) -> (s: String)
    ensures
        s@ == api_url@ + "/user"@,
{
    concat(api_url, "/user")
}

/// The `Authorization` header value for a token.
pub fn bearer_header(token: &str) -> (s: String)
    ensures
        s@ == "Bearer "@ + token@,
{
    concat("Bearer ", token)
}

/// Records a completed login at time `now`: the GitHub access token itself
/// serves as the bearer token, mapped to the user's login and that token.
pub fn complete_login_at(
    store: &mut TokenStore,
    access_token: String,
    token_type: String,
    login: String,
    now: Timestamp,
) -> (r: TokenResponse)
    ensures
        final(store)@ == inserted(old(store)@, access_token@, login@, access_token@, now),
        r.access_token@ == access_token@,
        r.token_type@ == token_type@,
        r.login@ == login@,
{
    store.insert_at(access_token.as_str(), login.clone(), access_token.clone(), now);
    TokenResponse { access_token, token_type, login }
}

/// Records a completed login at the current time (read from the clock).
pub fn complete_login(store: &mut TokenStore, access_token: String, token_type: String, login: String) -> (r: TokenResponse)
    ensures
        exists|t: Timestamp|
            timestamp_wf(t) && final(store)@ == inserted(
                old(store)@,
                access_token@,
                login@,
                access_token@,
                t,
            ),
        r.access_token@ == access_token@,
        r.token_type@ == token_type@,
        r.login@ == login@,
{
    let t = crate::auth::token_store::now();
    complete_login_at(store, access_token, token_type, login, t)
}

} // verus!
