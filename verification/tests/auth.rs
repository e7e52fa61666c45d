use enterprise_code_memory::auth::github_oauth::{
    bearer_header, complete_login, complete_login_at, login_redirect_url, token_request_fields,
    user_endpoint,
};
use enterprise_code_memory::auth::middleware::{
    authorize, authorize_at, bearer_token, jwt_exp_verdict, validate_jwt, validate_jwt_at, AuthState,
};
use enterprise_code_memory::auth::token_store::{elapsed_seconds, Timestamp, TokenStore};
use enterprise_code_memory::config::{AppConfig, AuthMode};
use enterprise_code_memory::server::select_org_token;

fn at(secs: i64, nanos: u32) -> Timestamp {
    Timestamp { secs, nanos }
}

/// Reads `exp` as jsonwebtoken does: a whole number, or a finite
/// non-negative fraction rounded.
fn exp_of(claims: &serde_json::Value) -> Option<u64> {
    let exp = claims.get("exp")?;
    if let Some(n) = exp.as_u64() {
        return Some(n);
    }
    exp.as_f64().filter(|v| v.is_finite() && *v >= 0.0 && *v < (u64::MAX as f64)).map(|v| v.round() as u64)
}

#[test]
fn elapsed_whole_seconds_round_toward_zero() {
    assert_eq!(elapsed_seconds(at(10, 0), at(10, 0)), 0);
    assert_eq!(elapsed_seconds(at(311, 0), at(10, 900_000_000)), 300);
    assert_eq!(elapsed_seconds(at(311, 0), at(10, 0)), 301);
    assert_eq!(elapsed_seconds(at(10, 0), at(11, 500_000_000)), -1);
    assert_eq!(elapsed_seconds(at(10, 0), at(10, 500_000_000)), 0);
}

#[test]
fn tokens_expire_after_their_ttl() {
    let mut store = TokenStore::new(300);
    store.insert_at("bearer-1", "octocat".to_string(), "gho_x".to_string(), at(1000, 0));
    let info = store.get_at("bearer-1", at(1300, 999_999_999)).expect("still valid");
    assert_eq!(info.github_login, "octocat");
    assert_eq!(info.github_token, "gho_x");
    assert_eq!(info.ttl_seconds, 300);
    assert_eq!(info.validated_at, at(1000, 0));
    assert!(!info.is_expired_at(at(1300, 0)));
    assert!(info.is_expired_at(at(1301, 0)));
    assert!(store.get_at("bearer-1", at(1301, 0)).is_none());
    // the expired token was dropped: even an earlier clock no longer finds it
    assert!(store.get_at("bearer-1", at(1000, 0)).is_none());
    assert!(store.get_at("unknown", at(1000, 0)).is_none());
}

#[test]
fn remove_and_cleanup() {
    let mut store = TokenStore::new(10);
    store.insert_at("a", "la".to_string(), "ta".to_string(), at(0, 0));
    store.insert_at("b", "lb".to_string(), "tb".to_string(), at(100, 0));
    store.insert_at("c", "lc".to_string(), "tc".to_string(), at(100, 0));
    store.remove("c");
    assert!(store.get_at("c", at(100, 0)).is_none());
    store.cleanup_expired_at(at(105, 0));
    assert!(store.get_at("a", at(0, 0)).is_none());
    assert_eq!(store.get_at("b", at(105, 0)).unwrap().github_login, "lb");
    store.store_pkce("state-1", "challenge".to_string(), "S256".to_string());
}

#[test]
fn clock_based_operations() {
    let mut store = TokenStore::new(300);
    store.insert("tok", "me".to_string(), "gh".to_string());
    let info = store.get("tok").expect("fresh token");
    assert_eq!(info.github_login, "me");
    assert!(!info.is_expired());
    store.cleanup_expired();
    assert!(store.get("tok").is_some());
    let mut short = TokenStore::new(-1);
    short.insert("tok", "me".to_string(), "gh".to_string());
    assert!(short.get("tok").is_none());
}

#[test]
fn bearer_headers() {
    assert_eq!(bearer_token(Some("Bearer abc")).unwrap(), "abc");
    assert_eq!(bearer_token(None).unwrap_err().message, "Missing Authorization header");
    assert_eq!(
        bearer_token(Some("Basic abc")).unwrap_err().message,
        "Authorization header must use Bearer scheme"
    );
    assert_eq!(bearer_header("t"), "Bearer t");
}

#[test]
fn store_backed_authorization() {
    let mut state = AuthState { token_store: TokenStore::new(60), auth_mode: AuthMode::GitHub, jwt_secret: None };
    state.token_store.insert_at("good", "u".to_string(), "good".to_string(), at(50, 0));
    assert!(authorize_at(&mut state, Some("Bearer good"), at(60, 0), exp_of).is_ok());
    assert_eq!(
        authorize_at(&mut state, Some("Bearer bad"), at(60, 0), exp_of).unwrap_err().message,
        "Invalid or expired token"
    );
    assert_eq!(
        authorize_at(&mut state, Some("Bearer good"), at(200, 0), exp_of).unwrap_err().message,
        "Invalid or expired token"
    );
    assert_eq!(authorize_at(&mut state, None, at(60, 0), exp_of).unwrap_err().message, "Missing Authorization header");
    state.auth_mode = AuthMode::GhCli;
    state.token_store.insert("fresh", "u".to_string(), "fresh".to_string());
    assert!(authorize(&mut state, Some("Bearer fresh"), exp_of).is_ok());
}

fn jwt_with_exp(exp: serde_json::Value, secret: &str) -> String {
    let mut claims = serde_json::Map::new();
    claims.insert("sub".to_string(), serde_json::Value::String("me".to_string()));
    claims.insert("exp".to_string(), exp);
    jsonwebtoken::encode(
        &jsonwebtoken::Header::default(),
        &serde_json::Value::Object(claims),
        &jsonwebtoken::EncodingKey::from_secret(secret.as_bytes()),
    )
    .unwrap()
}

#[test]
fn jwt_authorization() {
    assert_eq!(
        validate_jwt("x.y.z", &None, exp_of).unwrap_err().message,
        "Server misconfigured: missing JWT secret"
    );
    let err = validate_jwt("not-a-jwt", &Some("secret".to_string()), exp_of).unwrap_err();
    assert!(err.message.starts_with("Invalid JWT: "));
    assert!(jwt_exp_verdict(Some(1000), at(1060, 0)).is_ok());
    assert_eq!(jwt_exp_verdict(Some(1000), at(1061, 0)).unwrap_err().message, "Invalid JWT: ExpiredSignature");
    assert_eq!(jwt_exp_verdict(None, at(0, 0)).unwrap_err().message, "Invalid JWT: Missing required claim: exp");
    let mut state = AuthState { token_store: TokenStore::new(60), auth_mode: AuthMode::Jwt, jwt_secret: None };
    assert_eq!(
        authorize_at(&mut state, Some("Bearer x"), at(0, 0), exp_of).unwrap_err().message,
        "Server misconfigured: missing JWT secret"
    );
}

#[test]
fn jwt_is_checked_against_token_secret_and_time() {
    let secret = Some("s3cret".to_string());
    let token = jwt_with_exp(serde_json::Value::from(2_000_000_000u64), "s3cret");
    assert!(validate_jwt_at(&token, &secret, at(1_700_000_000, 0), exp_of).is_ok());
    assert!(validate_jwt(&token, &secret, exp_of).is_ok());
    assert_eq!(
        validate_jwt_at(&token, &secret, at(2_000_000_061, 0), exp_of).unwrap_err().message,
        "Invalid JWT: ExpiredSignature"
    );
    assert!(validate_jwt_at(&token, &secret, at(2_000_000_060, 0), exp_of).is_ok());
    assert_eq!(
        validate_jwt_at(&token, &Some("other".to_string()), at(1_700_000_000, 0), exp_of).unwrap_err().message,
        "Invalid JWT: InvalidSignature"
    );
    assert!(validate_jwt_at("s3cret", &Some(token.clone()), at(1_700_000_000, 0), exp_of).is_err());
    let no_exp = {
        let mut claims = serde_json::Map::new();
        claims.insert("sub".to_string(), serde_json::Value::String("me".to_string()));
        jsonwebtoken::encode(
            &jsonwebtoken::Header::default(),
            &serde_json::Value::Object(claims),
            &jsonwebtoken::EncodingKey::from_secret(b"s3cret"),
        )
        .unwrap()
    };
    assert_eq!(
        validate_jwt_at(&no_exp, &secret, at(0, 0), exp_of).unwrap_err().message,
        "Invalid JWT: Missing required claim: exp"
    );
    let mut state = AuthState { token_store: TokenStore::new(60), auth_mode: AuthMode::Jwt, jwt_secret: secret };
    let header = format!("Bearer {token}");
    assert!(authorize_at(&mut state, Some(&header), at(1_700_000_000, 0), exp_of).is_ok());
    assert!(authorize_at(&mut state, Some(&header), at(2_100_000_000, 0), exp_of).is_err());
    let fractional = jwt_with_exp(serde_json::Value::from(2_000_000_000.4f64), "s3cret");
    let secret = Some("s3cret".to_string());
    assert!(validate_jwt_at(&fractional, &secret, at(2_000_000_060, 0), exp_of).is_ok());
    assert!(validate_jwt_at(&fractional, &secret, at(2_000_000_061, 0), exp_of).is_err());
}

fn oauth_config() -> AppConfig {
    AppConfig {
        github_client_id: "cid".to_string(),
        github_client_secret: "csecret".to_string(),
        github_redirect_uri: "https://app/cb".to_string(),
        github_auth_url: "https://github.com/login/oauth/authorize".to_string(),
        github_token_url: "https://github.com/login/oauth/access_token".to_string(),
        orgs: vec![],
        falkordb_host: "h".to_string(),
        falkordb_port: 1,
        falkordb_password: None,
        falkordb_graph_name: "g".to_string(),
        server_host: "h".to_string(),
        server_port: 1,
        auth_mode: AuthMode::GitHub,
        jwt_secret: None,
        sync_batch_size: 1,
        max_file_depth: 1,
    }
}

#[test]
fn oauth_flow_pieces() {
    let c = oauth_config();
    assert_eq!(
        login_redirect_url(&c),
        "https://github.com/login/oauth/authorize?client_id=cid&redirect_uri=https://app/cb&scope=repo,read:org"
    );
    let fields = token_request_fields(&c, "code-1");
    assert_eq!(
        fields,
        vec![
            ("client_id".to_string(), "cid".to_string()),
            ("client_secret".to_string(), "csecret".to_string()),
            ("code".to_string(), "code-1".to_string()),
            ("redirect_uri".to_string(), "https://app/cb".to_string()),
        ]
    );
    assert_eq!(user_endpoint("https://api.github.com"), "https://api.github.com/user");
    let mut store = TokenStore::new(300);
    let resp = complete_login_at(&mut store, "gho_1".to_string(), "bearer".to_string(), "octo".to_string(), at(5, 0));
    assert_eq!(resp.access_token, "gho_1");
    assert_eq!(resp.token_type, "bearer");
    assert_eq!(resp.login, "octo");
    let info = store.get_at("gho_1", at(6, 0)).unwrap();
    assert_eq!(info.github_login, "octo");
    assert_eq!(info.github_token, "gho_1");
    let resp = complete_login(&mut store, "gho_2".to_string(), "bearer".to_string(), "cat".to_string());
    assert_eq!(resp.login, "cat");
    assert!(store.get("gho_2").is_some());
}

#[test]
fn ingester_token_choice() {
    assert_eq!(
        select_org_token(AuthMode::GhCli, Some("host"), Some("any")),
        Ok("host".to_string())
    );
    assert_eq!(select_org_token(AuthMode::GhCli, None, Some("any")), Ok("any".to_string()));
    assert_eq!(select_org_token(AuthMode::GitHub, Some("host"), Some("any")), Ok("any".to_string()));
    assert_eq!(select_org_token(AuthMode::Jwt, Some("host"), Some("any")), Ok("any".to_string()));
    assert_eq!(
        select_org_token(AuthMode::GhCli, Some("host"), None),
        Err("GitHub CLI token expired. Restart the server to refresh.".to_string())
    );
    assert_eq!(
        select_org_token(AuthMode::GitHub, None, None),
        Err("No valid GitHub token found. Please re-authenticate.".to_string())
    );
}

#[test]
fn other_operations_keep_a_stored_token() {
    let mut store = TokenStore::new(300);
    store.insert_at("a", "alice".to_string(), "ga".to_string(), at(100, 0));
    store.insert_at("b", "bob".to_string(), "gb".to_string(), at(0, 0));
    store.insert_at("c", "carol".to_string(), "gc".to_string(), at(100, 0));
    assert!(store.get_at("b", at(350, 0)).is_none());
    store.remove("c");
    store.store_pkce("state", "challenge".to_string(), "S256".to_string());
    store.cleanup_expired_at(at(350, 0));
    let info = store.get_at("a", at(350, 0)).unwrap();
    assert_eq!(info.github_login, "alice");
    assert_eq!(info.github_token, "ga");
    assert_eq!(info.validated_at, at(100, 0));
}
