use hone_server::auth::{
    decide_auth, deny_audit_details, get_user_email, unauthorized, validate_api_key, AuthDecision,
    AuthMethod, AuthSurface,
};
use hone_server::config::{CfJwtConfig, McpOAuthConfig, ServerConfig};
use hone_server::error::AppError;
use hone_server::net::{get_client_ip, is_ip_trusted, IpAddress, IpNetwork};
use hone_server::numbers::{i64_to_string, parse_i64, parse_u64, parse_usize, u64_to_string};
use hone_server::paging::{cap_limit, clamp_limit, clamp_offset, limit_or, MAX_PAGE_LIMIT};
use hone_server::periods::{resolve_period_on, CalendarDate};
use hone_server::router::{cors_headers, cors_methods, cors_origins, security_headers, CorsOrigins};
use hone_server::scheduler::{BackupScheduleConfig, BackupTicker};

fn date(year: i32, month: u32, day: u32) -> CalendarDate {
    CalendarDate { year, month, day }
}

fn range(r: Result<(CalendarDate, CalendarDate), AppError>) -> ((i32, u32, u32), (i32, u32, u32)) {
    let (f, t) = r.unwrap();
    ((f.year, f.month, f.day), (t.year, t.month, t.day))
}

#[test]
fn test_config_from_env_not_set() {
    assert!(BackupScheduleConfig::from_values(None, None, None).is_none());
}

#[test]
fn test_config_from_env_zero() {
    assert!(BackupScheduleConfig::from_values(Some("0"), None, None).is_none());
}

#[test]
fn schedule_defaults_retention_to_seven() {
    let c = BackupScheduleConfig::from_values(Some("24"), None, Some("/backups")).unwrap();
    assert_eq!(c.interval_hours, 24);
    assert_eq!(c.retention_count, 7);
    assert_eq!(c.backup_dir.as_deref(), Some("/backups"));
    assert_eq!(c.interval_secs(), 86_400);
    let c = BackupScheduleConfig::from_values(Some("168"), Some("30"), None).unwrap();
    assert_eq!(c.retention_count, 30);
    let c = BackupScheduleConfig::from_values(Some("1"), Some("many"), None).unwrap();
    assert_eq!(c.retention_count, 7);
    assert!(BackupScheduleConfig::from_values(Some("daily"), None, None).is_none());
    assert!(BackupScheduleConfig::from_values(Some("-1"), None, None).is_none());
}

#[test]
fn ticker_skips_first_tick() {
    let mut t = BackupTicker::new();
    assert!(!t.tick());
    assert!(t.tick());
    assert!(t.tick());
}

#[test]
fn decimal_round_trips() {
    for n in [0i64, 7, -7, 42, i64::MAX, i64::MIN, -1000, 1_000_000] {
        assert_eq!(i64_to_string(n), n.to_string());
        assert_eq!(parse_i64(&n.to_string()), Some(n));
    }
    assert_eq!(u64_to_string(u64::MAX), u64::MAX.to_string());
    assert_eq!(parse_u64(&u64::MAX.to_string()), Some(u64::MAX));
}

#[test]
fn decimal_parsing_matches_std() {
    for s in [
        "", "+", "-", "12", "+12", "-12", " 12", "12 ", "1_2", "0x10", "9223372036854775807",
        "9223372036854775808", "-9223372036854775808", "-9223372036854775809", "007", "-0",
    ] {
        assert_eq!(parse_i64(s), s.parse::<i64>().ok(), "i64 {s:?}");
        assert_eq!(parse_u64(s), s.parse::<u64>().ok(), "u64 {s:?}");
        assert_eq!(parse_usize(s), s.parse::<usize>().ok(), "usize {s:?}");
    }
    assert_eq!(parse_u64("18446744073709551616"), None);
}

#[test]
fn page_limits_are_clamped() {
    assert_eq!(clamp_limit(0), 1);
    assert_eq!(clamp_limit(-5), 1);
    assert_eq!(clamp_limit(50), 50);
    assert_eq!(clamp_limit(5000), MAX_PAGE_LIMIT);
    assert_eq!(clamp_limit(clamp_limit(5000)), 1000);
    assert_eq!(clamp_offset(-3), 0);
    assert_eq!(clamp_offset(3), 3);
    assert_eq!(cap_limit(-3), -3);
    assert_eq!(cap_limit(2000), 1000);
    assert_eq!(limit_or(None, 50, 200), 50);
    assert_eq!(limit_or(Some(500), 50, 200), 200);
}

#[test]
fn periods_resolve_from_today() {
    let today = date(2024, 3, 15);
    assert_eq!(range(resolve_period_on("this-month", None, None, today)), ((2024, 3, 1), (2024, 3, 15)));
    assert_eq!(range(resolve_period_on("LAST-MONTH", None, None, today)), ((2024, 2, 1), (2024, 2, 29)));
    assert_eq!(range(resolve_period_on("this-year", None, None, today)), ((2024, 1, 1), (2024, 3, 15)));
    assert_eq!(range(resolve_period_on("last-year", None, None, today)), ((2023, 1, 1), (2023, 12, 31)));
    assert_eq!(range(resolve_period_on("last-30-days", None, None, today)), ((2024, 2, 14), (2024, 3, 15)));
    assert_eq!(range(resolve_period_on("last-90-days", None, None, today)), ((2023, 12, 16), (2024, 3, 15)));
    assert_eq!(range(resolve_period_on("last-12-months", None, None, today)), ((2023, 3, 1), (2024, 3, 15)));
    assert_eq!(range(resolve_period_on("all", None, None, today)), ((2000, 1, 1), (2024, 3, 15)));
    let jan = date(2024, 1, 10);
    assert_eq!(range(resolve_period_on("last-month", None, None, jan)), ((2023, 12, 1), (2023, 12, 31)));
    assert_eq!(range(resolve_period_on("last-12-months", None, None, jan)), ((2023, 1, 1), (2024, 1, 10)));
}

#[test]
fn custom_dates_win_and_must_parse() {
    let today = date(2024, 3, 15);
    assert_eq!(
        range(resolve_period_on("bogus", Some("2023-01-02"), Some("2023-02-03"), today)),
        ((2023, 1, 2), (2023, 2, 3))
    );
    let e = resolve_period_on("all", Some("2023-13-01"), Some("2023-02-03"), today).unwrap_err();
    assert_eq!(e.status(), 400);
    assert_eq!(e.message(), "Invalid from date format (use YYYY-MM-DD)");
    let e = resolve_period_on("all", Some("2023-01-01"), Some("x"), today).unwrap_err();
    assert_eq!(e.message(), "Invalid to date format (use YYYY-MM-DD)");
    let e = resolve_period_on("next-week", None, None, today).unwrap_err();
    assert_eq!(
        e.message(),
        "Unknown period: next-week. Available: this-month, last-month, this-year, last-year, last-30-days, last-90-days, last-12-months, all"
    );
}

#[test]
fn errors_carry_status_and_message() {
    let e = AppError::not_found_id("Account", 42);
    assert_eq!(e.status(), 404);
    assert_eq!(e.message(), "Account 42 not found");
    let e = AppError::from("disk full".to_string());
    assert_eq!(e.status(), 500);
    assert_eq!(e.message(), "An internal error occurred");
    assert_eq!(e.internal_detail(), Some("disk full"));
    let r = AppError::conflict("busy").into_response();
    assert_eq!((r.status, r.error.as_str()), (409, "busy"));
}

fn net(a: u32, len: u8) -> IpNetwork {
    IpNetwork::new(IpAddress::V4(a), len).unwrap()
}

const V4_10_42_0_1: u32 = 0x0A2A_0001;
const V4_192_168_1_7: u32 = 0xC0A8_0107;

#[test]
fn forwarded_headers_only_from_trusted_proxies() {
    let proxies = vec![net(0x0A2A_0000, 16)];
    let client = IpAddress::V4(V4_192_168_1_7);
    let proxy = IpAddress::V4(V4_10_42_0_1);
    assert_eq!(get_client_ip(Some(proxy), Some(client), None, &proxies), Some(client));
    assert_eq!(get_client_ip(Some(proxy), None, Some(client), &proxies), Some(client));
    assert_eq!(get_client_ip(Some(proxy), None, None, &proxies), Some(proxy));
    let outsider = IpAddress::V4(0x0808_0808);
    assert_eq!(get_client_ip(Some(outsider), Some(client), None, &proxies), Some(outsider));
    assert_eq!(get_client_ip(Some(outsider), Some(client), None, &vec![]), Some(outsider));
    assert_eq!(get_client_ip(None, Some(client), None, &proxies), None);
}

#[test]
fn trusted_networks_contain_addresses() {
    let nets = vec![net(0xC0A8_0100, 24)];
    assert!(is_ip_trusted(&IpAddress::V4(V4_192_168_1_7), &nets));
    assert!(!is_ip_trusted(&IpAddress::V4(0xC0A8_0207), &nets));
    assert!(IpNetwork::new(IpAddress::V4(0), 33).is_none());
}

fn auth_config() -> ServerConfig {
    ServerConfig {
        api_keys: vec!["api-secret".to_string()],
        mcp_keys: vec!["mcp-secret".to_string()],
        ..Default::default()
    }
}

fn user_of(d: AuthDecision) -> Option<(String, AuthMethod)> {
    match d {
        AuthDecision::Allow(p) => Some((p.user, p.method)),
        _ => None,
    }
}

#[test]
fn api_keys_work_on_both_surfaces_mcp_keys_on_mcp_only() {
    let c = auth_config();
    for surface in [AuthSurface::Api, AuthSurface::Mcp] {
        let d = decide_auth(&c, surface, None, None, None, Some("Bearer api-secret"), false);
        assert_eq!(user_of(d), Some(("api-key".to_string(), AuthMethod::ApiKey)));
    }
    let d = decide_auth(&c, AuthSurface::Mcp, None, None, None, Some("Bearer mcp-secret"), false);
    assert_eq!(user_of(d), Some(("mcp-key".to_string(), AuthMethod::McpKey)));
    let d = decide_auth(&c, AuthSurface::Api, None, None, None, Some("Bearer mcp-secret"), false);
    assert!(matches!(d, AuthDecision::Deny));
    let d = decide_auth(&c, AuthSurface::Api, None, None, None, Some("Bearer a.b.c"), true);
    assert!(matches!(d, AuthDecision::Deny));
    let d = decide_auth(&c, AuthSurface::Mcp, None, None, None, Some("Bearer a.b.c"), true);
    assert_eq!(user_of(d), Some(("mcp-jwt".to_string(), AuthMethod::McpJwt)));
}

#[test]
fn cloudflare_header_must_not_be_blank() {
    let c = auth_config();
    let d = decide_auth(&c, AuthSurface::Api, None, None, Some("   "), None, false);
    assert!(matches!(d, AuthDecision::Deny));
    let d = decide_auth(&c, AuthSurface::Api, None, None, Some(""), None, false);
    assert!(matches!(d, AuthDecision::Deny));
    let d = decide_auth(&c, AuthSurface::Api, None, None, Some(" a@b.c "), None, false);
    assert_eq!(user_of(d), Some(("a@b.c".to_string(), AuthMethod::CloudflareHeader)));
}

#[test]
fn cloudflare_jwt_counts_only_when_configured() {
    let mut c = auth_config();
    let d = decide_auth(&c, AuthSurface::Api, None, Some("x@y.z".to_string()), None, None, false);
    assert!(matches!(d, AuthDecision::Deny));
    c.cf_jwt = CfJwtConfig { team_name: Some("team".into()), audience: Some("aud".into()) };
    let d = decide_auth(&c, AuthSurface::Api, None, Some("x@y.z".to_string()), None, None, false);
    assert_eq!(user_of(d), Some(("x@y.z".to_string(), AuthMethod::CloudflareJwt)));
}

#[test]
fn trusted_network_and_disabled_auth_pass() {
    let mut c = auth_config();
    c.trusted_networks = vec![net(0xC0A8_0100, 24)];
    let d = decide_auth(&c, AuthSurface::Api, Some(IpAddress::V4(V4_192_168_1_7)), None, None, None, false);
    assert_eq!(user_of(d), Some(("trusted-network".to_string(), AuthMethod::TrustedNetwork)));
    let d = decide_auth(&c, AuthSurface::Api, Some(IpAddress::V4(0x0808_0808)), None, None, None, false);
    assert!(matches!(d, AuthDecision::Deny));
    c.require_auth = false;
    assert!(matches!(decide_auth(&c, AuthSurface::Api, None, None, None, None, false), AuthDecision::Open));
}

#[test]
fn unauthorized_answers() {
    let mut c = ServerConfig::default();
    c.mcp_oauth = McpOAuthConfig { resource: Some("http://127.0.0.1:3001/mcp".into()), ..Default::default() };
    let u = unauthorized(&c, AuthSurface::Mcp);
    assert_eq!(u.status, 401);
    assert_eq!(u.error, "Authentication required");
    let ch = u.www_authenticate.unwrap();
    assert!(ch.contains("resource_metadata="));
    assert!(ch.contains("scope=\"mcp:read\""));
    assert!(unauthorized(&c, AuthSurface::Api).www_authenticate.is_none());
    assert_eq!(deny_audit_details("POST", "/mcp"), "POST /mcp");
}

#[test]
fn audit_user_and_api_key_check() {
    assert_eq!(get_user_email(Some("a@b.c"), Some("Bearer k")), "a@b.c");
    assert_eq!(get_user_email(Some(""), Some("Bearer k")), "api-key");
    assert_eq!(get_user_email(None, Some("Basic k")), "local-dev");
    assert_eq!(get_user_email(None, None), "local-dev");
    let keys = vec!["alpha".to_string(), "beta".to_string()];
    assert!(validate_api_key("beta", &keys));
    assert!(!validate_api_key("bet", &keys));
    assert!(!validate_api_key("gamma", &keys));
}

#[test]
fn cors_and_security_headers() {
    assert!(matches!(cors_origins(&vec![]), CorsOrigins::SameOrigin));
    match cors_origins(&vec!["https://a.example".to_string(), "bad\u{7f}".to_string()]) {
        CorsOrigins::Listed(v) => assert_eq!(v, vec!["https://a.example".to_string()]),
        CorsOrigins::SameOrigin => panic!("expected listed origins"),
    }
    assert_eq!(cors_methods(), vec!["GET", "POST", "PATCH", "DELETE", "OPTIONS"]);
    assert_eq!(cors_headers(), vec!["content-type", "authorization"]);
    let h = security_headers();
    assert_eq!(h[0], ("x-content-type-options", "nosniff"));
    assert_eq!(h[1], ("x-frame-options", "DENY"));
    assert_eq!(h[2], ("x-xss-protection", "1; mode=block"));
    assert!(h[3].1.starts_with("default-src 'self'"));
}
