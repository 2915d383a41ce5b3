//! Server configuration.

use vstd::prelude::*;

use crate::net::IpNetwork;

verus! {

/// Cloudflare Access JWT validation configuration: both the team name and
/// the application audience tag are needed to validate
/// `Cf-Access-Jwt-Assertion` tokens.
#[derive(Debug, Clone)]
pub struct CfJwtConfig {
    pub team_name: Option<String>,
    pub audience: Option<String>,
}

impl CfJwtConfig {
    /// JWT validation is configured: team name and audience are both set.
    pub open spec fn spec_is_configured(&self) -> bool {
        self.team_name is Some && self.audience is Some
    }

    pub fn is_configured(&self) -> (r: bool)
        ensures
            r == self.spec_is_configured(),
    {
        self.team_name.is_some() && self.audience.is_some()
    }
}

impl Default for CfJwtConfig {
    fn default() -> (r: Self)
        ensures
            r.team_name is None,
            r.audience is None,
    {
        CfJwtConfig { team_name: None, audience: None }
    }
}

/// Canonical MCP resource and how to validate audience-bound tokens.
#[derive(Debug, Clone)]
pub struct McpOAuthConfig {
    /// RFC 8707 / RFC 9728 resource identifier (e.g. `http://pi:3001/mcp`).
    pub resource: Option<String>,
    /// Authorization-server issuer URIs advertised in the resource metadata.
    pub authorization_servers: Vec<String>,
    /// HS256 secret for locally minted MCP-audience JWTs.
    pub jwt_secret: Option<String>,
    /// Expected `iss` when validating JWTs.
    pub issuer: Option<String>,
    /// JWKS URL for RS256 tokens from an external authorization server.
    pub jwks_url: Option<String>,
}

impl Default for McpOAuthConfig {
    fn default() -> (r: Self)
        ensures
            r.resource is None,
            r.authorization_servers@.len() == 0,
            r.jwt_secret is None,
            r.issuer is None,
            r.jwks_url is None,
    {
        McpOAuthConfig {
            resource: None,
            authorization_servers: Vec::new(),
            jwt_secret: None,
            issuer: None,
            jwks_url: None,
        }
    }
}

/// Server configuration.
#[derive(Debug, Clone)]
pub struct ServerConfig {
    /// Whether authentication is required (secure by default).
    pub require_auth: bool,
    /// Allowed CORS origins (empty: same-origin only).
    pub allowed_origins: Vec<String>,
    /// API keys accepted as `Authorization: Bearer <key>` on `/api` and `/mcp`.
    pub api_keys: Vec<String>,
    /// Keys accepted as `Authorization: Bearer <key>` on `/mcp` only.
    pub mcp_keys: Vec<String>,
    /// Cloudflare Access JWT validation.
    pub cf_jwt: CfJwtConfig,
    /// Networks whose clients need no authentication.
    pub trusted_networks: Vec<IpNetwork>,
    /// Proxies whose `X-Forwarded-For` / `X-Real-IP` headers are believed.
    pub trusted_proxies: Vec<IpNetwork>,
    /// MCP OAuth resource-server settings.
    pub mcp_oauth: McpOAuthConfig,
}

impl Default for ServerConfig {
    fn default() -> (r: Self)
        ensures
            r.require_auth,
            r.allowed_origins@.len() == 0,
            r.api_keys@.len() == 0,
            r.mcp_keys@.len() == 0,
            r.cf_jwt.team_name is None,
            r.cf_jwt.audience is None,
            r.trusted_networks@.len() == 0,
            r.trusted_proxies@.len() == 0,
            r.mcp_oauth.resource is None,
            r.mcp_oauth.authorization_servers@.len() == 0,
            r.mcp_oauth.jwt_secret is None,
            r.mcp_oauth.issuer is None,
            r.mcp_oauth.jwks_url is None,
    {
        ServerConfig {
            require_auth: true,
            allowed_origins: Vec::new(),
            api_keys: Vec::new(),
            mcp_keys: Vec::new(),
            cf_jwt: CfJwtConfig::default(),
            trusted_networks: Vec::new(),
            trusted_proxies: Vec::new(),
            mcp_oauth: McpOAuthConfig::default(),
        }
    }
}

} // verus!
