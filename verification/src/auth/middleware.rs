//! The decision of the bearer-token check in front of the MCP endpoint.
use vstd::prelude::*;

use crate::auth::token_store::{after_lookup, lookup, timestamp_wf, Timestamp, TokenStore};
use crate::config::AuthMode;
use crate::text::{concat, starts_with, strip_prefix_str};

verus! {

/// Shared auth state consulted for every request.
pub struct AuthState {
    pub token_store: TokenStore,
    pub auth_mode: AuthMode,
    pub jwt_secret: Option<String>,
}

/// Why a request is refused (answered with 401 and this message).
#[derive(Debug, Clone)]
pub struct AuthRejection {
    pub message: String,
}

/// The token of an `Authorization` header value, or the reason it has none.
pub open spec fn bearer_of(header: Option<Seq<char>>) -> Result<Seq<char>, Seq<char>> {
    match header {
        None => Err("Missing Authorization header"@),
        Some(h) => if starts_with(h, "Bearer "@) {
            Ok(h.skip("Bearer "@.len() as int))
        } else {
            Err("Authorization header must use Bearer scheme"@)
        },
    }
}

fn reject(message: &str) -> (r: AuthRejection)
    ensures
        r.message@ == message@,
{
    AuthRejection { message: message.to_owned() }
}

/// The bearer token of an `Authorization` header value (`None` when the
/// header is absent or not visible ASCII).
pub fn bearer_token(header: Option<&str>) -> (r: Result<String, AuthRejection>)
    ensures
        match bearer_of(match header {
            Some(h) => Some(h@),
            None => None,
        }) {
            Ok(t) => (r matches Ok(x) && x@ == t),
            Err(m) => (r matches Err(e) && e.message@ == m),
        },
{
    match header {
        None => Err(reject("Missing Authorization header")),
        Some(h) => match strip_prefix_str(h, "Bearer ") {
            Some(t) => Ok(t),
            None => Err(reject("Authorization header must use Bearer scheme")),
        },
    }
}

/// What `jsonwebtoken::decode` makes of a token under an HMAC secret, with
/// every check of `Validation::default()` but the expiry one: the token's
/// claims, or the decoder's error message.
pub uninterp spec fn jwt_untimed(token: Seq<char>, secret: Seq<char>) -> Result<serde_json::Value, Seq<char>>;

pub open spec fn untimed_view(r: Result<serde_json::Value, String>) -> Result<serde_json::Value, Seq<char>> {
    match r {
        Ok(v) => Ok(v),
        Err(m) => Err(m@),
    }
}

/// `jsonwebtoken::decode::<serde_json::Value>` with the secret's bytes as
/// the HMAC key (`DecodingKey::from_secret`) and `Validation::default()`
/// (HS256, a required `exp` claim) with `validate_exp` switched off, so that
/// no clock is read: the result depends on the token and the secret alone,
/// and is named `jwt_untimed`. On success the claims are returned, on
/// failure the error's message.
#[verifier::external_body]
fn jwt_decode_untimed(token: &str, secret: &str) -> (r: Result<serde_json::Value, String>)
    ensures
        untimed_view(r) == jwt_untimed(token@, secret@),
{
    let mut validation = jsonwebtoken::Validation::default();
    validation.validate_exp = false;
    let key = jsonwebtoken::DecodingKey::from_secret(secret.as_bytes());
    jsonwebtoken::decode::<serde_json::Value>(token, &key, &validation).map(|data| data.claims).map_err(
        |e| e.to_string(),
    )
}

/// The leeway, in seconds, that `Validation::default()` grants past `exp`.
pub const JWT_LEEWAY_SECS: i64 = 60;

/// How a token with expiry time `exp` (whole seconds since the epoch) fares
/// at time `now`: refused as expired once more than the leeway has passed
/// since `exp` (as jsonwebtoken's own check does), refused when it has no
/// readable `exp`, else accepted.
pub open spec fn exp_verdict(exp: Option<u64>, now: Timestamp) -> Result<(), Seq<char>> {
    match exp {
        None => Err("Invalid JWT: Missing required claim: exp"@),
        Some(e) => if (e as int) < now.secs - JWT_LEEWAY_SECS {
            Err("Invalid JWT: ExpiredSignature"@)
        } else {
            Ok(())
        },
    }
}

pub open spec fn rejection_view(r: Result<(), AuthRejection>) -> Result<(), Seq<char>> {
    match r {
        Ok(()) => Ok(()),
        Err(e) => Err(e.message@),
    }
}

/// Whether `answer` is what a JWT check answers at time `now` for a token
/// and the configured secret, the claims' `exp` being read by `exp_of`: no
/// secret is a misconfiguration; a token the decoder refuses is refused with
/// its message; otherwise the answer goes by the expiry `exp_of` gives.
pub open spec fn jwt_answers<F: Fn(&serde_json::Value) -> Option<u64>>(
    token: Seq<char>,
    secret: Option<Seq<char>>,
    now: Timestamp,
    exp_of: F,
    answer: Result<(), Seq<char>>,
) -> bool {
    match secret {
        None => answer == Err::<(), Seq<char>>("Server misconfigured: missing JWT secret"@),
        Some(s) => match jwt_untimed(token, s) {
            Err(m) => answer == Err::<(), Seq<char>>("Invalid JWT: "@ + m),
            Ok(claims) => exists|e: Option<u64>|
                #![trigger exp_verdict(e, now)]
                call_ensures(exp_of, (&claims,), e) && answer == exp_verdict(e, now),
        },
    }
}

/// The answer to a token with expiry time `exp` at time `now`.
pub fn jwt_exp_verdict(exp: Option<u64>, now: Timestamp) -> (r: Result<(), AuthRejection>)
    ensures
        rejection_view(r) == exp_verdict(exp, now),
{
    match exp {
        None => Err(reject("Invalid JWT: Missing required claim: exp")),
        Some(e) => {
            if (e as i128) < (now.secs as i128) - (JWT_LEEWAY_SECS as i128) {
                Err(reject("Invalid JWT: ExpiredSignature"))
            } else {
                Ok(())
            }
        },
    }
}

pub open spec fn secret_view(s: Option<String>) -> Option<Seq<char>> {
    match s {
        Some(x) => Some(x@),
        None => None,
    }
}

/// Validates a JWT against the configured secret at time `now`, the claims'
/// `exp` being read by `exp_of`.
pub fn validate_jwt_at<F: Fn(&serde_json::Value) -> Option<u64>>(
    token: &str,
    secret: &Option<String>,
    now: Timestamp,
    exp_of: F,
) -> (r: Result<(), AuthRejection>)
    requires
        forall|v: &serde_json::Value| exp_of.requires((v,)),
    ensures
        jwt_answers(token@, secret_view(*secret), now, exp_of, rejection_view(r)),
{
    match secret {
        None => Err(reject("Server misconfigured: missing JWT secret")),
        Some(s) => match jwt_decode_untimed(token, s.as_str()) {
            Err(m) => Err(AuthRejection { message: concat("Invalid JWT: ", m.as_str()) }),
            Ok(claims) => {
                let e = exp_of(&claims);
                let r = jwt_exp_verdict(e, now);
                assert(call_ensures(exp_of, (&claims,), e) && rejection_view(r) == exp_verdict(e, now));
                assert(jwt_answers(token@, secret_view(*secret), now, exp_of, rejection_view(r)));
                r
            },
        },
    }
}

/// Validates a JWT against the configured secret at the current time (read
/// from the clock), the claims' `exp` being read by `exp_of`.
pub fn validate_jwt<F: Fn(&serde_json::Value) -> Option<u64>>(token: &str, secret: &Option<String>, exp_of: F) -> (r:
    Result<(), AuthRejection>)
    requires
        forall|v: &serde_json::Value| exp_of.requires((v,)),
    ensures
        exists|now: Timestamp|
            timestamp_wf(now) && jwt_answers(token@, secret_view(*secret), now, exp_of, rejection_view(r)),
{
    let now = crate::auth::token_store::now();
    validate_jwt_at(token, secret, now, exp_of)
}

/// The store-backed check at time `now`: the token must be stored and not
/// yet expired.
pub fn check_stored_token(store: &mut TokenStore, token: &str, now: Timestamp) -> (r: Result<(), AuthRejection>)
    ensures
        (r is Ok) == (lookup(old(store)@, token@, now) is Some),
        r matches Err(e) ==> e.message@ == "Invalid or expired token"@,
        final(store)@ == after_lookup(old(store)@, token@, now),
{
    match store.get_at(token, now) {
        Some(_) => Ok(()),
        None => Err(reject("Invalid or expired token")),
    }
}

/// Whether a request with this `Authorization` header is let through, with
/// stored tokens judged at time `now`. GitHub and gh_cli modes accept a
/// stored, unexpired token; JWT mode accepts a JWT valid for the secret and
/// not expired at `now`, its `exp` claim read by `exp_of`.
pub fn authorize_at<F: Fn(&serde_json::Value) -> Option<u64>>(
    state: &mut AuthState,
    header: Option<&str>,
    now: Timestamp,
    exp_of: F,
) -> (r: Result<(), AuthRejection>)
    requires
        forall|v: &serde_json::Value| exp_of.requires((v,)),
    ensures
        final(state).auth_mode == old(state).auth_mode,
        match bearer_of(match header {
            Some(h) => Some(h@),
            None => None,
        }) {
            Err(m) => (r matches Err(e) && e.message@ == m) && final(state).token_store@ == old(state).token_store@,
            Ok(t) => match old(state).auth_mode {
                AuthMode::Jwt => {
                    &&& final(state).token_store@ == old(state).token_store@
                    &&& jwt_answers(t, secret_view(old(state).jwt_secret), now, exp_of, rejection_view(r))
                },
                _ => {
                    &&& (r is Ok) == (lookup(old(state).token_store@, t, now) is Some)
                    &&& r matches Err(e) ==> e.message@ == "Invalid or expired token"@
                    &&& final(state).token_store@ == after_lookup(old(state).token_store@, t, now)
                },
            },
        },
{
    let token = match bearer_token(header) {
        Ok(t) => t,
        Err(e) => {
            return Err(e);
        },
    };
    match state.auth_mode {
        AuthMode::Jwt => validate_jwt_at(token.as_str(), &state.jwt_secret, now, exp_of),
        _ => check_stored_token(&mut state.token_store, token.as_str(), now),
    }
}

/// Whether a request with this `Authorization` header is let through, with
/// stored tokens judged at the current time (read from the clock).
pub fn authorize<F: Fn(&serde_json::Value) -> Option<u64>>(
    state: &mut AuthState,
    header: Option<&str>,
    exp_of: F,
) -> (r: Result<(), AuthRejection>)
    requires
        forall|v: &serde_json::Value| exp_of.requires((v,)),
    ensures
        final(state).auth_mode == old(state).auth_mode,
        match bearer_of(match header {
            Some(h) => Some(h@),
            None => None,
        }) {
            Err(m) => (r matches Err(e) && e.message@ == m),
            Ok(t) => exists|now: Timestamp|
                timestamp_wf(now) && if old(state).auth_mode == AuthMode::Jwt {
                    jwt_answers(t, secret_view(old(state).jwt_secret), now, exp_of, rejection_view(r))
                        && final(state).token_store@ == old(state).token_store@
                } else {
                    (r is Ok) == (lookup(old(state).token_store@, t, now) is Some)
                        && final(state).token_store@ == after_lookup(old(state).token_store@, t, now)
                },
        },
{
    let now = crate::auth::token_store::now();
    authorize_at(state, header, now, exp_of)
}


/// A header `Bearer <token>` carries the token; no header, or one without
/// the `Bearer ` scheme, is refused with its reason.
pub proof fn law_bearer_header(token: Seq<char>, other: Seq<char>)
    requires
        !(other.len() >= 7 && other.take(7) == "Bearer "@),
    ensures
        bearer_of(Some("Bearer "@ + token)) == Ok::<Seq<char>, Seq<char>>(token),
        bearer_of(None) == Err::<Seq<char>, Seq<char>>("Missing Authorization header"@),
        bearer_of(Some(other)) == Err::<Seq<char>, Seq<char>>("Authorization header must use Bearer scheme"@),
{
    reveal_strlit("Bearer ");
    let h = "Bearer "@ + token;
    assert(h.take(7) =~= "Bearer "@);
    assert(h.skip(7) =~= token);
}

/// A JWT is refused as expired exactly when more than 60 seconds have
/// passed since its `exp`, whole seconds counted; without a readable `exp`
/// it is refused.
pub proof fn law_jwt_expiry(exp: u64, now: Timestamp)
    ensures
        exp_verdict(Some(exp), now) is Ok <==> now.secs <= exp + 60,
        exp_verdict(Some(exp), now) is Err ==> exp_verdict(Some(exp), now) == Err::<(), Seq<char>>(
            "Invalid JWT: ExpiredSignature"@,
        ),
        exp_verdict(None, now) is Err,
{
}

} // verus!
