use hone_server::config::{CfJwtConfig, McpOAuthConfig};
use hone_server::jwt::{
    cf_certs_url, cf_identity, cf_issuer, cf_jwt_params, mcp_rs256_params, select_cf_key,
    select_mcp_key,
};
use hone_server::mcp::{mcp_tools, server_info};
use hone_server::net::{forwarded_for_candidate, network_from_entry, trusted_network_entries, IpAddress};
use hone_server::oauth::{check_mcp_claims, mcp_access_claims, mcp_hs256_params};

fn ids(v: &[Option<&str>]) -> Vec<Option<String>> {
    v.iter().map(|k| k.map(str::to_string)).collect()
}

#[test]
fn mcp_keys_are_chosen_by_kid() {
    let keys = ids(&[None, Some("a"), Some("b"), Some("a")]);
    assert_eq!(select_mcp_key(&keys, Some("a")), Ok(1));
    assert_eq!(select_mcp_key(&keys, Some("z")), Err("No matching key for kid: z".to_string()));
    assert_eq!(select_mcp_key(&keys, None), Ok(0));
    assert_eq!(select_mcp_key(&vec![], None), Err("JWKS is empty".to_string()));
}

#[test]
fn cloudflare_keys_need_kid() {
    let keys = ids(&[Some("k1"), Some("k2")]);
    assert_eq!(select_cf_key(&keys, Some("k2")), Ok(1));
    assert_eq!(select_cf_key(&keys, None), Err("JWT missing key ID (kid)".to_string()));
    assert_eq!(select_cf_key(&keys, Some("k3")), Err("No matching key found for kid: k3".to_string()));
    assert_eq!(cf_certs_url("team"), "https://team.cloudflareaccess.com/cdn-cgi/access/certs");
    assert_eq!(cf_issuer("team"), "https://team.cloudflareaccess.com");
    assert_eq!(cf_identity(Some("a@b.c".into()), "sub".into()), "a@b.c");
    assert_eq!(cf_identity(None, "sub".into()), "sub");
}

#[test]
fn validation_parameters_come_from_config() {
    let none = CfJwtConfig { team_name: None, audience: Some("x".into()) };
    assert_eq!(cf_jwt_params(&none), Err("Team name not configured".to_string()));
    let no_aud = CfJwtConfig { team_name: Some("t".into()), audience: None };
    assert_eq!(cf_jwt_params(&no_aud), Err("Audience not configured".to_string()));
    let both = CfJwtConfig { team_name: Some("t".into()), audience: Some("a".into()) };
    assert_eq!(cf_jwt_params(&both), Ok(("t".to_string(), "a".to_string())));

    let mut c = McpOAuthConfig::default();
    assert_eq!(mcp_hs256_params(&c).unwrap_err(), "MCP JWT secret not configured");
    c.jwt_secret = Some("s".into());
    assert_eq!(mcp_hs256_params(&c).unwrap_err(), "MCP resource not configured");
    assert_eq!(mcp_rs256_params(&c).unwrap_err(), "MCP resource not configured");
    c.resource = Some("http://x/mcp".into());
    c.issuer = Some(String::new());
    let p = mcp_hs256_params(&c).unwrap();
    assert_eq!((p.secret.as_str(), p.resource.as_str(), p.issuer), ("s", "http://x/mcp", None));
    c.issuer = Some("https://as".into());
    assert_eq!(mcp_rs256_params(&c).unwrap().issuer.as_deref(), Some("https://as"));
}

#[test]
fn claims_without_read_scope_are_refused() {
    let mut claims = mcp_access_claims("http://x/mcp", 60, 0);
    assert!(check_mcp_claims(&claims).is_ok());
    claims.scope = Some("mcp:write".into());
    assert_eq!(check_mcp_claims(&claims), Err("MCP token missing mcp:read scope".to_string()));
}

#[test]
fn mcp_server_describes_itself() {
    let info = server_info("1.2.3");
    assert_eq!((info.name.as_str(), info.version.as_str()), ("hone", "1.2.3"));
    assert_eq!(info.title, "Hone Personal Finance");
    assert!(info.tools_enabled);
    assert!(info.instructions.starts_with("Hone is a personal finance tool"));
    let tools: Vec<&str> = mcp_tools().iter().map(|t| t.0).collect();
    assert_eq!(
        tools,
        vec![
            "search_transactions",
            "get_spending_summary",
            "get_subscriptions",
            "get_alerts",
            "compare_spending",
            "get_merchants",
            "get_account_summary"
        ]
    );
}

#[test]
fn trusted_network_entries_are_parsed() {
    assert_eq!(
        trusted_network_entries(" 192.168.1.0/24, ,10.0.0.5,"),
        vec!["192.168.1.0/24".to_string(), "10.0.0.5".to_string()]
    );
    let n = network_from_entry("192.168.1.0/24", None).unwrap();
    assert_eq!((n.addr(), n.prefix_len()), (IpAddress::V4(0xC0A8_0100), 24));
    let host = network_from_entry("10.0.0.5", Some(IpAddress::V4(0x0A00_0005))).unwrap();
    assert_eq!((host.addr(), host.prefix_len()), (IpAddress::V4(0x0A00_0005), 32));
    let v6 = network_from_entry("::1", Some(IpAddress::V6(1))).unwrap();
    assert_eq!(v6.prefix_len(), 128);
    assert!(network_from_entry("not-a-network", None).is_none());
    assert!(network_from_entry("10.0.0.0/33", None).is_none());
    assert_eq!(forwarded_for_candidate(" 1.2.3.4 , 10.0.0.1"), "1.2.3.4");
}
