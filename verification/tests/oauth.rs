use hone_server::config::{McpOAuthConfig, ServerConfig};
use hone_server::jwt::{cf_token_kid, cf_verdict, validate_cf_jwt_with_keys};
use hone_server::config::CfJwtConfig;
use hone_server::oauth::{
    has_mcp_read_scope, looks_like_jwt, mcp_access_claims, mcp_claims_from_json,
    mcp_claims_verdict, mint_mcp_access_token, protected_resource_metadata, resource_metadata_url,
    resource_metadata_url_with_path, resource_origin, resource_path, validate_mcp_hs256,
    validate_mcp_hs256_at,
    validate_mcp_rs256_with_keys, www_authenticate, Audience, McpTokenError, MCP_READ_SCOPE,
};

fn now_secs() -> u64 {
    std::time::SystemTime::now()
        .duration_since(std::time::UNIX_EPOCH)
        .unwrap()
        .as_secs()
}

/// An HS256 token over the given claims, built the way a third party would.
fn hs256_token(claims: Vec<(&str, serde_json::Value)>, secret: &str) -> String {
    let mut map = serde_json::Map::new();
    for (k, v) in claims {
        map.insert(k.to_string(), v);
    }
    jsonwebtoken::encode(
        &jsonwebtoken::Header::new(jsonwebtoken::Algorithm::HS256),
        &serde_json::Value::Object(map),
        &jsonwebtoken::EncodingKey::from_secret(secret.as_bytes()),
    )
    .unwrap()
}

fn mcp_config(resource: &str, secret: &str) -> McpOAuthConfig {
    McpOAuthConfig {
        resource: Some(resource.to_string()),
        jwt_secret: Some(secret.to_string()),
        ..Default::default()
    }
}

fn config_with(resource: &str, secret: &str) -> ServerConfig {
    ServerConfig {
        mcp_oauth: McpOAuthConfig {
            resource: Some(resource.to_string()),
            jwt_secret: Some(secret.to_string()),
            ..Default::default()
        },
        ..Default::default()
    }
}

#[test]
fn resource_origin_requires_scheme() {
    assert_eq!(
        resource_origin("http://pi:3001/mcp").as_deref(),
        Some("http://pi:3001")
    );
    assert!(resource_origin("pi:3001/mcp").is_none());
    assert!(resource_origin("http://").is_none());
}

#[test]
fn metadata_omits_authorization_servers_when_unset() {
    let config = config_with("http://pi:3001/mcp", "secret");
    let doc = protected_resource_metadata(&config);
    assert_eq!(doc.resource, "http://pi:3001/mcp");
    assert_eq!(doc.bearer_methods_supported[0], "header");
    assert_eq!(doc.scopes_supported[0], MCP_READ_SCOPE);
    assert!(doc.authorization_servers.is_none());
}

#[test]
fn metadata_includes_authorization_servers_when_set() {
    let mut config = config_with("http://pi:3001/mcp", "secret");
    config.mcp_oauth.authorization_servers = vec!["https://auth.example".to_string()];
    let doc = protected_resource_metadata(&config);
    assert_eq!(doc.authorization_servers.unwrap()[0], "https://auth.example");
}

#[test]
fn challenge_includes_resource_metadata_and_scope() {
    let config = config_with("http://pi:3001/mcp", "secret");
    let header = www_authenticate(&config);
    assert!(header.starts_with("Bearer "));
    assert!(header.contains(
        r#"resource_metadata="http://pi:3001/.well-known/oauth-protected-resource""#
    ));
    assert!(header.contains(r#"scope="mcp:read""#));
    assert!(header.contains(r#"realm="mcp""#));
}

#[test]
fn well_known_urls_follow_rfc9728_insert() {
    let config = config_with("http://pi:3001/mcp", "secret");
    assert_eq!(
        resource_metadata_url(&config).as_deref(),
        Some("http://pi:3001/.well-known/oauth-protected-resource")
    );
    assert_eq!(
        resource_metadata_url_with_path(&config).as_deref(),
        Some("http://pi:3001/.well-known/oauth-protected-resource/mcp")
    );
}

#[test]
fn metadata_defaults_resource_when_unconfigured() {
    let doc = protected_resource_metadata(&ServerConfig::default());
    assert_eq!(doc.resource, "http://127.0.0.1/mcp");
    assert_eq!(doc.resource_name, "Hone MCP");
}

#[test]
fn challenge_without_resource_has_no_metadata_url() {
    let header = www_authenticate(&ServerConfig::default());
    assert_eq!(header, r#"Bearer realm="mcp", scope="mcp:read""#);
}

#[test]
fn resource_path_is_after_authority() {
    assert_eq!(resource_path("http://pi:3001/mcp"), "/mcp");
    assert_eq!(resource_path("http://pi:3001"), "");
    assert_eq!(resource_path("pi:3001/mcp"), "");
}

#[test]
fn well_known_url_with_root_path_has_no_suffix() {
    let config = config_with("http://pi:3001/", "secret");
    assert_eq!(
        resource_metadata_url_with_path(&config).as_deref(),
        Some("http://pi:3001/.well-known/oauth-protected-resource")
    );
}

#[test]
fn jwt_shape_needs_two_inner_dots() {
    assert!(looks_like_jwt("a.b.c"));
    assert!(!looks_like_jwt("a.b"));
    assert!(!looks_like_jwt(".a.b"));
    assert!(!looks_like_jwt("a.b."));
    assert!(!looks_like_jwt("a.b.c.d"));
}

#[test]
fn minted_token_has_jwt_shape() {
    let token = mint_mcp_access_token("test-mcp-jwt-secret", "http://127.0.0.1:3001/mcp", 60).unwrap();
    assert!(looks_like_jwt(&token));
}

#[test]
fn minting_needs_secret_and_absolute_resource() {
    assert!(matches!(
        mint_mcp_access_token("", "http://127.0.0.1:3001/mcp", 60),
        Err(McpTokenError::EmptySecret)
    ));
    assert!(matches!(
        mint_mcp_access_token("s", "127.0.0.1:3001/mcp", 60),
        Err(McpTokenError::InvalidResource)
    ));
    assert_eq!(
        McpTokenError::InvalidResource.message(),
        "HONE_MCP_RESOURCE must be an absolute URI with a scheme"
    );
}

#[test]
fn claims_carry_read_scope_and_saturating_expiry() {
    let claims = mcp_access_claims("http://x/mcp", 60, 1000);
    assert_eq!(claims.exp, 1060);
    assert_eq!(claims.iat, Some(1000));
    assert_eq!(claims.scope.as_deref(), Some("mcp:read"));
    assert!(has_mcp_read_scope(&claims));
    let far = mcp_access_claims("http://x/mcp", u64::MAX, 10);
    assert_eq!(far.exp, u64::MAX);
}

#[test]
fn scope_claim_must_name_read_scope() {
    let mut claims = mcp_access_claims("http://x/mcp", 60, 1000);
    claims.scope = Some("other mcp:write".to_string());
    assert!(!has_mcp_read_scope(&claims));
    claims.scope = Some("other mcp:read".to_string());
    assert!(has_mcp_read_scope(&claims));
    claims.scope = None;
    claims.scp = Some(vec![]);
    assert!(has_mcp_read_scope(&claims));
    claims.scp = Some(vec!["x".to_string()]);
    assert!(!has_mcp_read_scope(&claims));
    claims.scp = Some(vec!["mcp:read".to_string()]);
    assert!(has_mcp_read_scope(&claims));
}

#[test]
fn minted_token_validates_for_mcp_audience() {
    let resource = "http://127.0.0.1:3001/mcp";
    let secret = "test-mcp-jwt-secret";
    let token = mint_mcp_access_token(secret, resource, 60).unwrap();
    assert!(looks_like_jwt(&token));
    let config = McpOAuthConfig {
        resource: Some(resource.to_string()),
        jwt_secret: Some(secret.to_string()),
        ..Default::default()
    };
    validate_mcp_hs256(&token, &config).unwrap();
}

#[test]
fn token_for_api_audience_is_rejected_on_mcp() {
    let secret = "test-mcp-jwt-secret";
    let token = mint_mcp_access_token(secret, "http://127.0.0.1:3000/api", 60).unwrap();
    let config = McpOAuthConfig {
        resource: Some("http://127.0.0.1:3001/mcp".to_string()),
        jwt_secret: Some(secret.to_string()),
        ..Default::default()
    };
    assert!(validate_mcp_hs256(&token, &config).is_err());
}

#[test]
fn expired_token_is_rejected() {
    let resource = "http://127.0.0.1:3001/mcp";
    let secret = "test-mcp-jwt-secret";
    let now = now_secs();
    let token = hs256_token(
        vec![
            ("aud", serde_json::Value::from(resource)),
            ("exp", serde_json::Value::from(now.saturating_sub(120))),
            ("iat", serde_json::Value::from(now.saturating_sub(180))),
            ("iss", serde_json::Value::Null),
            ("scope", serde_json::Value::from(MCP_READ_SCOPE)),
            ("scp", serde_json::Value::Null),
        ],
        secret,
    );
    let config = McpOAuthConfig {
        resource: Some(resource.to_string()),
        jwt_secret: Some(secret.to_string()),
        ..Default::default()
    };
    assert!(validate_mcp_hs256(&token, &config).is_err());
}

#[test]
fn hs256_validation_needs_secret_then_resource() {
    let token = mint_mcp_access_token("s", "http://h/mcp", 60).unwrap();
    let mut config = mcp_config("http://h/mcp", "");
    assert_eq!(
        validate_mcp_hs256(&token, &config),
        Err("MCP JWT secret not configured".to_string())
    );
    config.jwt_secret = Some("s".to_string());
    config.resource = Some(String::new());
    assert_eq!(
        validate_mcp_hs256(&token, &config),
        Err("MCP resource not configured".to_string())
    );
}

#[test]
fn token_signed_with_another_secret_is_rejected() {
    let token = mint_mcp_access_token("other-secret", "http://h/mcp", 60).unwrap();
    let result = validate_mcp_hs256(&token, &mcp_config("http://h/mcp", "s"));
    assert!(result.unwrap_err().starts_with("MCP JWT validation failed: "));
}

#[test]
fn audience_list_naming_the_resource_is_accepted() {
    let now = now_secs();
    let token = hs256_token(
        vec![
            (
                "aud",
                serde_json::Value::from(vec!["http://h/api", "http://h/mcp"]),
            ),
            ("exp", serde_json::Value::from(now + 60)),
        ],
        "s",
    );
    assert_eq!(validate_mcp_hs256(&token, &mcp_config("http://h/mcp", "s")), Ok(()));
}

#[test]
fn token_without_read_scope_is_refused() {
    let now = now_secs();
    let token = hs256_token(
        vec![
            ("aud", serde_json::Value::from("http://h/mcp")),
            ("exp", serde_json::Value::from(now + 60)),
            ("scope", serde_json::Value::from("mcp:write")),
        ],
        "s",
    );
    assert_eq!(
        validate_mcp_hs256(&token, &mcp_config("http://h/mcp", "s")),
        Err("MCP token missing mcp:read scope".to_string())
    );
}

#[test]
fn token_from_another_issuer_is_refused() {
    let now = now_secs();
    let token = hs256_token(
        vec![
            ("aud", serde_json::Value::from("http://h/mcp")),
            ("exp", serde_json::Value::from(now + 60)),
            ("iss", serde_json::Value::from("https://elsewhere")),
        ],
        "s",
    );
    let mut config = mcp_config("http://h/mcp", "s");
    config.issuer = Some("https://as.example".to_string());
    assert!(validate_mcp_hs256(&token, &config).is_err());
    config.issuer = Some("https://elsewhere".to_string());
    assert_eq!(validate_mcp_hs256(&token, &config), Ok(()));
}

#[test]
fn claims_are_read_from_their_json() {
    let claims = mcp_claims_from_json(
        r#"{"aud":["a","b"],"exp":10,"iat":null,"scope":"mcp:read x","scp":["y"]}"#,
    )
    .unwrap();
    match claims.aud {
        Audience::Many(v) => assert_eq!(v, vec!["a".to_string(), "b".to_string()]),
        Audience::One(_) => panic!("expected a list audience"),
    }
    assert_eq!(claims.exp, 10);
    assert_eq!(claims.iat, None);
    assert_eq!(claims.iss, None);
    assert_eq!(claims.scope.as_deref(), Some("mcp:read x"));
    assert_eq!(claims.scp, Some(vec!["y".to_string()]));
    assert!(mcp_claims_from_json(r#"{"aud":"a"}"#).is_none());
    assert!(mcp_claims_from_json(r#"{"aud":["a",1],"exp":1}"#).is_none());
    assert!(mcp_claims_from_json(r#"{"aud":"a","exp":-1}"#).is_none());
    assert!(mcp_claims_from_json(r#"{"aud":"a","exp":1,"scope":5}"#).is_none());
    assert!(mcp_claims_from_json("not json").is_none());
}

#[test]
fn verdict_follows_validation_expiry_and_scope() {
    assert_eq!(
        mcp_claims_verdict(Err("InvalidAudience".to_string()), 100),
        Err("MCP JWT validation failed: InvalidAudience".to_string())
    );
    assert_eq!(
        mcp_claims_verdict(Ok(r#"{"aud":"a","exp":1000}"#.to_string()), 1000),
        Ok(())
    );
    // Sixty seconds of leeway, as jsonwebtoken allows.
    assert_eq!(
        mcp_claims_verdict(Ok(r#"{"aud":"a","exp":1000}"#.to_string()), 1060),
        Ok(())
    );
    assert_eq!(
        mcp_claims_verdict(Ok(r#"{"aud":"a","exp":1000}"#.to_string()), 1061),
        Err("MCP JWT validation failed: ExpiredSignature".to_string())
    );
    assert_eq!(
        mcp_claims_verdict(Ok(r#"{"aud":"a","exp":1000,"scp":["other"]}"#.to_string()), 10),
        Err("MCP token missing mcp:read scope".to_string())
    );
    assert_eq!(
        mcp_claims_verdict(Ok(r#"{"exp":1}"#.to_string()), 0),
        Err("MCP JWT validation failed: malformed claims".to_string())
    );
}

#[test]
fn hs256_validation_at_a_given_time() {
    let token = mint_mcp_access_token("s", "http://h/mcp", 60).unwrap();
    let config = mcp_config("http://h/mcp", "s");
    let now = now_secs();
    assert_eq!(validate_mcp_hs256_at(&token, &config, now), Ok(()));
    assert_eq!(
        validate_mcp_hs256_at(&token, &config, now + 200),
        Err("MCP JWT validation failed: ExpiredSignature".to_string())
    );
    let other = mcp_config("http://h/other", "s");
    assert!(validate_mcp_hs256_at(&token, &other, now)
        .unwrap_err()
        .starts_with("MCP JWT validation failed: "));
}

#[test]
fn cloudflare_verdict_names_email_else_subject() {
    assert_eq!(
        cf_verdict(Ok(r#"{"email":"a@b","sub":"u1","exp":100}"#.to_string()), 100),
        Ok("a@b".to_string())
    );
    assert_eq!(
        cf_verdict(Ok(r#"{"email":null,"sub":"u1","exp":100}"#.to_string()), 100),
        Ok("u1".to_string())
    );
    assert_eq!(
        cf_verdict(Ok(r#"{"sub":"u1","exp":100}"#.to_string()), 161),
        Err("JWT validation failed: ExpiredSignature".to_string())
    );
    assert_eq!(
        cf_verdict(Ok(r#"{"email":"a@b","exp":100}"#.to_string()), 0),
        Err("JWT validation failed: malformed claims".to_string())
    );
    assert_eq!(
        cf_verdict(Err("InvalidIssuer".to_string()), 0),
        Err("JWT validation failed: InvalidIssuer".to_string())
    );
}

#[test]
fn rs256_validation_reports_header_and_key_problems() {
    let config = mcp_config("http://h/mcp", "");
    let unset = McpOAuthConfig::default();
    assert_eq!(
        validate_mcp_rs256_with_keys("a.b.c", &unset, &[]),
        Err("MCP resource not configured".to_string())
    );
    let bad = validate_mcp_rs256_with_keys("not-a-token", &config, &[]).unwrap_err();
    assert!(bad.starts_with("Invalid JWT header: "));
    let token = mint_mcp_access_token("s", "http://h/mcp", 60).unwrap();
    assert_eq!(
        validate_mcp_rs256_with_keys(&token, &config, &[]),
        Err("JWKS is empty".to_string())
    );
}

#[test]
fn cloudflare_token_needs_a_key_id() {
    let token = mint_mcp_access_token("s", "http://h/mcp", 60).unwrap();
    assert_eq!(cf_token_kid(&token), Err("JWT missing key ID (kid)".to_string()));
    assert!(cf_token_kid("nope").unwrap_err().starts_with("Invalid JWT header: "));
    let config = CfJwtConfig {
        team_name: Some("team".to_string()),
        audience: Some("aud".to_string()),
    };
    assert_eq!(
        validate_cf_jwt_with_keys(&token, &config, &[]),
        Err("JWT missing key ID (kid)".to_string())
    );
    let unset = CfJwtConfig::default();
    assert_eq!(
        validate_cf_jwt_with_keys(&token, &unset, &[]),
        Err("Team name not configured".to_string())
    );
}

/// An HMAC key published as a JWK (`kty` "oct"), with its key identifier.
fn oct_jwk(kid: &str, secret: &str) -> String {
    let k = base64::Engine::encode(&base64::engine::general_purpose::URL_SAFE_NO_PAD, secret);
    format!(r#"{{"kty":"oct","k":"{k}","kid":"{kid}"}}"#)
}

fn hs256_token_with_kid(kid: &str, aud: &str, secret: &str) -> String {
    let mut header = jsonwebtoken::Header::new(jsonwebtoken::Algorithm::HS256);
    header.kid = Some(kid.to_string());
    let mut map = serde_json::Map::new();
    map.insert("aud".to_string(), serde_json::Value::from(aud));
    map.insert("exp".to_string(), serde_json::Value::from(now_secs() + 60));
    jsonwebtoken::encode(
        &header,
        &serde_json::Value::Object(map),
        &jsonwebtoken::EncodingKey::from_secret(secret.as_bytes()),
    )
    .unwrap()
}

#[test]
fn published_key_is_the_one_the_header_names() {
    let config = mcp_config("http://h/mcp", "");
    let token = hs256_token_with_kid("b", "http://h/mcp", "right");
    let keys = vec![oct_jwk("a", "wrong"), oct_jwk("b", "right")];
    assert_eq!(validate_mcp_rs256_with_keys(&token, &config, &keys), Ok(()));
    let swapped = vec![oct_jwk("a", "right"), oct_jwk("b", "wrong")];
    assert!(validate_mcp_rs256_with_keys(&token, &config, &swapped)
        .unwrap_err()
        .starts_with("MCP JWT validation failed: "));
    let other = vec![oct_jwk("a", "right")];
    assert_eq!(
        validate_mcp_rs256_with_keys(&token, &config, &other),
        Err("No matching key for kid: b".to_string())
    );
}

#[test]
fn header_without_kid_uses_the_first_published_key() {
    let config = mcp_config("http://h/mcp", "");
    let token = mint_mcp_access_token("right", "http://h/mcp", 60).unwrap();
    let keys = vec![oct_jwk("a", "right"), oct_jwk("b", "wrong")];
    assert_eq!(validate_mcp_rs256_with_keys(&token, &config, &keys), Ok(()));
    let bad = vec!["{\"kty\":\"nope\"}".to_string()];
    assert!(validate_mcp_rs256_with_keys(&token, &config, &bad)
        .unwrap_err()
        .starts_with("Invalid JWK: "));
}

#[test]
fn cloudflare_key_must_match_the_kid() {
    let config = CfJwtConfig {
        team_name: Some("team".to_string()),
        audience: Some("aud".to_string()),
    };
    let token = hs256_token_with_kid("b", "aud", "right");
    let keys = vec![oct_jwk("a", "right")];
    assert_eq!(
        validate_cf_jwt_with_keys(&token, &config, &keys),
        Err("No matching key found for kid: b".to_string())
    );
    // The key matches, but Cloudflare tokens must be RS256.
    let keys = vec![oct_jwk("b", "right")];
    assert!(validate_cf_jwt_with_keys(&token, &config, &keys)
        .unwrap_err()
        .starts_with("JWT validation failed: "));
}
