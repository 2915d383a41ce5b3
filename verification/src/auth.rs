//! Authentication decisions: who a request is, and whether it may pass.

use vstd::prelude::*;
use vstd::string::*;

use crate::config::ServerConfig;
use crate::net::{in_any, is_ip_trusted, nets_view, IpAddress};
use crate::text::{chars_eq, find_char_from, first_char, substring, to_chars, trim_bounds, trimmed};

verus! {

/// The `Authorization` scheme prefix of bearer credentials.
pub open spec fn bearer_prefix() -> Seq<char> {
    seq!['B', 'e', 'a', 'r', 'e', 'r', ' ']
}

/// `s` without the prefix `p`, when `s` starts with it.
pub open spec fn spec_strip_prefix(s: Seq<char>, p: Seq<char>) -> Option<Seq<char>> {
    if p.len() <= s.len() && s.subrange(0, p.len() as int) == p {
        Some(s.subrange(p.len() as int, s.len() as int))
    } else {
        None
    }
}

/// The bearer token of an `Authorization` header value, if it has one.
pub fn bearer_token(authorization: &str) -> (r: Option<String>)
    ensures
        crate::text::opt_view(r) == spec_strip_prefix(authorization@, bearer_prefix()),
{
    let cs = to_chars(authorization);
    let p: Vec<char> = vec!['B', 'e', 'a', 'r', 'e', 'r', ' '];
    assert(p@ =~= bearer_prefix());
    if p.len() > cs.len() {
        return None;
    }
    let mut i: usize = 0;
    while i < p.len()
        invariant
            p.len() <= cs.len(),
            cs@ == authorization@,
            p@ == bearer_prefix(),
            i <= p.len(),
            forall|j: int| 0 <= j < i ==> cs@[j] == p@[j],
        decreases p.len() - i,
    {
        if cs[i] != p[i] {
            assert(cs@.subrange(0, p.len() as int)[i as int] != p@[i as int]);
            return None;
        }
        i = i + 1;
    }
    assert(cs@.subrange(0, p.len() as int) =~= p@);
    Some(substring(authorization, p.len(), cs.len()))
}

/// Some key of `keys` is exactly `provided`.
pub open spec fn key_listed(provided: Seq<char>, keys: Seq<String>) -> bool {
    exists|k: int| 0 <= k < keys.len() && keys[k]@ == provided
}

/// `subtle`'s `ConstantTimeEq::ct_eq` on byte slices, turned into a
/// `bool`: true exactly when the slices are equal (it returns false at
/// once on a length mismatch, otherwise compares every byte).
#[verifier::external_body]
fn ct_bytes_eq(a: &[u8], b: &[u8]) -> (r: bool)
    ensures
        r == (a@ == b@),
{
    subtle::ConstantTimeEq::ct_eq(a, b).into()
}

/// Validate an API key against the configured keys, comparing in
/// constant time (for keys of the provided key's length).
pub fn validate_api_key(provided: &str, valid_keys: &[String]) -> (r: bool)
    ensures
        r == key_listed(provided@, valid_keys@),
{
    let provided_bytes = provided.as_bytes();
    let mut i: usize = 0;
    while i < valid_keys.len()
        invariant
            i <= valid_keys.len(),
            provided_bytes@ == provided.spec_bytes(),
            forall|k: int| 0 <= k < i ==> valid_keys@[k]@ != provided@,
        decreases valid_keys.len() - i,
    {
        let key = valid_keys[i].as_str();
        let key_bytes = key.as_bytes();
        if provided_bytes.len() == key_bytes.len() {
            if ct_bytes_eq(provided_bytes, key_bytes) {
                proof {
                    vstd::utf8::encode_utf8_decode_utf8(key@);
                    vstd::utf8::encode_utf8_decode_utf8(provided@);
                }
                return true;
            }
        }
        assert(valid_keys@[i as int]@ != provided@) by {
            if valid_keys@[i as int]@ == provided@ {
                assert(key.spec_bytes() == provided.spec_bytes());
            }
        }
        i = i + 1;
    }
    false
}

/// Where a request is going: the REST API or the MCP endpoint.
#[derive(Clone, Copy, Debug, PartialEq, Eq, Structural)]
pub enum AuthSurface {
    Api,
    Mcp,
}

/// How a request was authenticated.
#[derive(Clone, Copy, Debug, PartialEq, Eq, Structural)]
pub enum AuthMethod {
    TrustedNetwork,
    CloudflareJwt,
    CloudflareHeader,
    ApiKey,
    McpKey,
    McpJwt,
}

impl AuthMethod {
    /// The method's name as `/api/me` reports it.
    pub open spec fn spec_name(self) -> Seq<char> {
        match self {
            AuthMethod::TrustedNetwork => "trusted_network"@,
            AuthMethod::CloudflareJwt => "cloudflare_jwt"@,
            AuthMethod::CloudflareHeader => "cloudflare_header"@,
            AuthMethod::ApiKey => "api_key"@,
            AuthMethod::McpKey => "mcp_key"@,
            AuthMethod::McpJwt => "mcp_jwt"@,
        }
    }

    pub fn as_str(&self) -> (r: &'static str)
        ensures
            r@ == self.spec_name(),
    {
        match self {
            AuthMethod::TrustedNetwork => "trusted_network",
            AuthMethod::CloudflareJwt => "cloudflare_jwt",
            AuthMethod::CloudflareHeader => "cloudflare_header",
            AuthMethod::ApiKey => "api_key",
            AuthMethod::McpKey => "mcp_key",
            AuthMethod::McpJwt => "mcp_jwt",
        }
    }
}

/// The authenticated identity that the middleware attaches to a request.
#[derive(Debug, Clone)]
pub struct AuthPrincipal {
    pub user: String,
    pub method: AuthMethod,
}

/// What the authentication middleware does with a request.
#[derive(Debug)]
pub enum AuthDecision {
    /// Authentication is disabled: pass, with no principal.
    Open,
    /// Pass, as this principal.
    Allow(AuthPrincipal),
    /// Answer 401.
    Deny,
}

/// The outcome of the authentication decision, as views.
pub enum AuthOutcome {
    Open,
    Allow(Seq<char>, AuthMethod),
    Deny,
}

pub open spec fn decision_view(d: AuthDecision) -> AuthOutcome {
    match d {
        AuthDecision::Open => AuthOutcome::Open,
        AuthDecision::Allow(p) => AuthOutcome::Allow(p.user@, p.method),
        AuthDecision::Deny => AuthOutcome::Deny,
    }
}

/// An optional string as a character sequence.
pub open spec fn opt_str(o: Option<&str>) -> Option<Seq<char>> {
    match o {
        Some(s) => Some(s@),
        None => None,
    }
}

/// The authentication policy.
///
/// In order: with authentication disabled everything passes; a client in a
/// trusted network passes; a Cloudflare Access JWT that validated (only
/// when JWT validation is configured) passes as its email; a non-blank
/// Cloudflare Access user header passes as its trimmed value; a bearer
/// token passes when it is an API key (both surfaces), an MCP key (MCP
/// only), or a valid MCP-audience JWT (MCP only). Anything else is denied.
pub open spec fn spec_decide_auth(
    config: ServerConfig,
    surface: AuthSurface,
    client_ip: Option<IpAddress>,
    cf_jwt_email: Option<Seq<char>>,
    cf_user_header: Option<Seq<char>>,
    authorization: Option<Seq<char>>,
    mcp_jwt_valid: bool,
) -> AuthOutcome {
    let token = match authorization {
        Some(a) => spec_strip_prefix(a, bearer_prefix()),
        None => None,
    };
    if !config.require_auth {
        AuthOutcome::Open
    } else if config.trusted_networks@.len() > 0 && client_ip is Some && in_any(
        nets_view(config.trusted_networks@),
        client_ip->0,
    ) {
        AuthOutcome::Allow("trusted-network"@, AuthMethod::TrustedNetwork)
    } else if config.cf_jwt.spec_is_configured() && cf_jwt_email is Some {
        AuthOutcome::Allow(cf_jwt_email->0, AuthMethod::CloudflareJwt)
    } else if cf_user_header is Some && trimmed(cf_user_header->0).len() > 0 {
        AuthOutcome::Allow(trimmed(cf_user_header->0), AuthMethod::CloudflareHeader)
    } else if token is Some && key_listed(token->0, config.api_keys@) {
        AuthOutcome::Allow("api-key"@, AuthMethod::ApiKey)
    } else if surface == AuthSurface::Mcp && token is Some && key_listed(
        token->0,
        config.mcp_keys@,
    ) {
        AuthOutcome::Allow("mcp-key"@, AuthMethod::McpKey)
    } else if surface == AuthSurface::Mcp && token is Some && mcp_jwt_valid {
        AuthOutcome::Allow("mcp-jwt"@, AuthMethod::McpJwt)
    } else {
        AuthOutcome::Deny
    }
}

/// Decide a request's authentication. `client_ip` is the address from
/// `get_client_ip`; `cf_jwt_email` the email of a `Cf-Access-Jwt-Assertion`
/// token that validated against Cloudflare's keys; `mcp_jwt_valid` whether
/// the bearer token validated as an MCP-audience JWT.
pub fn decide_auth(
    config: &ServerConfig,
    surface: AuthSurface,
    client_ip: Option<IpAddress>,
    cf_jwt_email: Option<String>,
    cf_user_header: Option<&str>,
    authorization: Option<&str>,
    mcp_jwt_valid: bool,
) -> (r: AuthDecision)
    ensures
        decision_view(r) == spec_decide_auth(
            *config,
            surface,
            client_ip,
            crate::text::opt_view(cf_jwt_email),
            opt_str(cf_user_header),
            opt_str(authorization),
            mcp_jwt_valid,
        ),
{
    if !config.require_auth {
        return AuthDecision::Open;
    }
    if config.trusted_networks.len() > 0 {
        if let Some(ip) = client_ip {
            if is_ip_trusted(&ip, &config.trusted_networks) {
                return AuthDecision::Allow(
                    AuthPrincipal {
                        user: String::from_str("trusted-network"),
                        method: AuthMethod::TrustedNetwork,
                    },
                );
            }
        }
    }
    if config.cf_jwt.is_configured() {
        if let Some(email) = cf_jwt_email {
            return AuthDecision::Allow(
                AuthPrincipal { user: email, method: AuthMethod::CloudflareJwt },
            );
        }
    }
    if let Some(h) = cf_user_header {
        let cs = to_chars(h);
        let (a, b) = trim_bounds(&cs, 0, cs.len());
        assert(cs@.subrange(0, cs.len() as int) =~= cs@);
        if a < b {
            return AuthDecision::Allow(
                AuthPrincipal { user: substring(h, a, b), method: AuthMethod::CloudflareHeader },
            );
        }
    }
    let token = match authorization {
        Some(a) => bearer_token(a),
        None => None,
    };
    if let Some(t) = token {
        if validate_api_key(t.as_str(), config.api_keys.as_slice()) {
            return AuthDecision::Allow(
                AuthPrincipal { user: String::from_str("api-key"), method: AuthMethod::ApiKey },
            );
        }
        if surface == AuthSurface::Mcp {
            if validate_api_key(t.as_str(), config.mcp_keys.as_slice()) {
                return AuthDecision::Allow(
                    AuthPrincipal { user: String::from_str("mcp-key"), method: AuthMethod::McpKey },
                );
            }
            if mcp_jwt_valid {
                return AuthDecision::Allow(
                    AuthPrincipal { user: String::from_str("mcp-jwt"), method: AuthMethod::McpJwt },
                );
            }
        }
    }
    AuthDecision::Deny
}

/// The user recorded in the audit log for a request: the Cloudflare
/// Access user header when it is non-empty, `api-key` when a bearer token
/// is present, and `local-dev` otherwise.
pub open spec fn spec_user_email(
    cf_user_header: Option<Seq<char>>,
    authorization: Option<Seq<char>>,
) -> Seq<char> {
    if cf_user_header is Some && cf_user_header->0.len() > 0 {
        cf_user_header->0
    } else if authorization is Some && spec_strip_prefix(authorization->0, bearer_prefix()) is Some {
        "api-key"@
    } else {
        "local-dev"@
    }
}

pub fn get_user_email(cf_user_header: Option<&str>, authorization: Option<&str>) -> (r: String)
    ensures
        r@ == spec_user_email(opt_str(cf_user_header), opt_str(authorization)),
{
    if let Some(h) = cf_user_header {
        if h.unicode_len() > 0 {
            return String::from_str(h);
        }
    }
    if let Some(a) = authorization {
        if bearer_token(a).is_some() {
            return String::from_str("api-key");
        }
    }
    String::from_str("local-dev")
}

/// Response for `/api/me`.
#[derive(Debug)]
pub struct MeResponse {
    /// The authenticated user's email or identifier.
    pub user: String,
    /// How the user was authenticated.
    pub auth_method: String,
}

/// Are two strings equal?
pub fn str_eq(a: &str, b: &str) -> (r: bool)
    ensures
        r == (a@ == b@),
{
    let x = to_chars(a);
    let y = to_chars(b);
    chars_eq(&x, &y)
}

/// Who `/api/me` reports, and how they authenticated. A trusted-network
/// principal is reported by its client address when known; without a
/// principal (authentication disabled) the audit user is classified.
pub open spec fn spec_me(
    principal: Option<(Seq<char>, AuthMethod)>,
    client_ip_text: Option<Seq<char>>,
    header_user: Seq<char>,
) -> (Seq<char>, Seq<char>) {
    match principal {
        Some((user, method)) => if method == AuthMethod::TrustedNetwork {
            (
                match client_ip_text {
                    Some(ip) => ip,
                    None => user,
                },
                method.spec_name(),
            )
        } else {
            (user, method.spec_name())
        },
        None => if header_user == "api-key"@ {
            (header_user, "api_key"@)
        } else if header_user == "local-dev"@ {
            (header_user, "none"@)
        } else if first_char(header_user, '@') is Some {
            (header_user, "cloudflare_header"@)
        } else {
            (header_user, "unknown"@)
        },
    }
}

pub open spec fn principal_view(p: Option<AuthPrincipal>) -> Option<(Seq<char>, AuthMethod)> {
    match p {
        Some(p) => Some((p.user@, p.method)),
        None => None,
    }
}

/// Who `/api/me` reports for a signed-in principal: one admitted by its
/// trusted network is reported by the client address it came from (its
/// principal name only when that address is unknown); any other principal
/// by its own name; the method is always the principal's. Without a
/// principal the request's user is reported as it is, an API key as
/// "api_key" and local development as "none".
pub proof fn law_me_reports_principal(
    user: Seq<char>,
    method: AuthMethod,
    ip: Seq<char>,
    header_user: Seq<char>,
)
    ensures
        spec_me(Some((user, AuthMethod::TrustedNetwork)), Some(ip), header_user) == (
            ip,
            "trusted_network"@,
        ),
        spec_me(Some((user, AuthMethod::TrustedNetwork)), None, header_user) == (
            user,
            "trusted_network"@,
        ),
        method != AuthMethod::TrustedNetwork ==> spec_me(Some((user, method)), Some(ip), header_user).0
            == user,
        spec_me(Some((user, method)), Some(ip), header_user).1 == method.spec_name(),
        spec_me(None, Some(ip), "api-key"@) == ("api-key"@, "api_key"@),
        spec_me(None, Some(ip), "local-dev"@) == ("local-dev"@, "none"@),
        spec_me(None, Some(ip), header_user).0 == header_user,
{
    reveal_strlit("api-key");
    reveal_strlit("local-dev");
    assert("api-key"@.len() != "local-dev"@.len());
}

/// The `/api/me` answer. `client_ip_text` is the client address as text,
/// `header_user` what `get_user_email` gives for the request.
pub fn get_me(
    principal: Option<AuthPrincipal>,
    client_ip_text: Option<String>,
    header_user: String,
) -> (r: MeResponse)
    ensures
        (r.user@, r.auth_method@) == spec_me(
            principal_view(principal),
            crate::text::opt_view(client_ip_text),
            header_user@,
        ),
        principal matches Some(p) ==> r.auth_method@ == p.method.spec_name(),
        principal matches Some(p) ==> (p.method == AuthMethod::TrustedNetwork ==> match client_ip_text {
            Some(ip) => r.user@ == ip@,
            None => r.user@ == p.user@,
        }),
        principal matches Some(p) ==> (p.method != AuthMethod::TrustedNetwork ==> r.user@ == p.user@),
{
    if let Some(p) = principal {
        let method = String::from_str(p.method.as_str());
        if p.method == AuthMethod::TrustedNetwork {
            let user = match client_ip_text {
                Some(ip) => ip,
                None => p.user,
            };
            return MeResponse { user, auth_method: method };
        }
        return MeResponse { user: p.user, auth_method: method };
    }
    if str_eq(header_user.as_str(), "api-key") {
        return MeResponse { user: header_user, auth_method: String::from_str("api_key") };
    }
    if str_eq(header_user.as_str(), "local-dev") {
        return MeResponse { user: header_user, auth_method: String::from_str("none") };
    }
    let cs = to_chars(header_user.as_str());
    if find_char_from(&cs, 0, '@').is_some() {
        assert(cs@.subrange(0, cs.len() as int) =~= cs@);
        return MeResponse { user: header_user, auth_method: String::from_str("cloudflare_header") };
    }
    assert(cs@.subrange(0, cs.len() as int) =~= cs@);
    MeResponse { user: header_user, auth_method: String::from_str("unknown") }
}

/// The answer to a denied request.
#[derive(Debug)]
pub struct Unauthorized {
    pub status: u16,
    /// The `error` field of the JSON body.
    pub error: String,
    /// The `WWW-Authenticate` challenge, sent on the MCP surface.
    pub www_authenticate: Option<String>,
}

/// A denied request gets 401 and "Authentication required"; on the MCP
/// surface with the challenge that points at the resource metadata.
pub fn unauthorized(config: &ServerConfig, surface: AuthSurface) -> (r: Unauthorized)
    ensures
        r.status == 401,
        r.error@ == "Authentication required"@,
        surface == AuthSurface::Api ==> r.www_authenticate is None,
        surface == AuthSurface::Mcp ==> (r.www_authenticate matches Some(c) && c@
            == crate::oauth::spec_www_authenticate(
            crate::oauth::spec_resource_metadata_url(crate::text::opt_view(config.mcp_oauth.resource)),
        )),
{
    let challenge = match surface {
        AuthSurface::Api => None,
        AuthSurface::Mcp => Some(crate::oauth::www_authenticate(config)),
    };
    Unauthorized {
        status: 401,
        error: String::from_str("Authentication required"),
        www_authenticate: challenge,
    }
}

/// The audit record of a denied request: action "auth_deny", with the
/// request's method and path as details.
pub fn deny_audit_entry(method: &str, path: &str) -> (r: (String, String))
    ensures
        r.0@ == "auth_deny"@,
        r.1@ == method@ + " "@ + path@,
{
    (String::from_str("auth_deny"), deny_audit_details(method, path))
}

/// The audit detail of a denied request: its method and path.
pub fn deny_audit_details(method: &str, path: &str) -> (r: String)
    ensures
        r@ == method@ + " "@ + path@,
{
    let mut s = String::from_str(method);
    s.append(" ");
    s.append(path);
    s
}

proof fn lemma_bearer(key: Seq<char>)
    ensures
        spec_strip_prefix(bearer_prefix() + key, bearer_prefix()) == Some(key),
{
    let s = bearer_prefix() + key;
    assert(s.subrange(0, bearer_prefix().len() as int) =~= bearer_prefix());
    assert(s.subrange(bearer_prefix().len() as int, s.len() as int) =~= key);
}

/// With authentication disabled, every request passes.
pub proof fn law_auth_disabled_opens(
    config: ServerConfig,
    surface: AuthSurface,
    client_ip: Option<IpAddress>,
    cf_jwt_email: Option<Seq<char>>,
    cf_user_header: Option<Seq<char>>,
    authorization: Option<Seq<char>>,
    mcp_jwt_valid: bool,
)
    requires
        !config.require_auth,
    ensures
        spec_decide_auth(
            config,
            surface,
            client_ip,
            cf_jwt_email,
            cf_user_header,
            authorization,
            mcp_jwt_valid,
        ) == AuthOutcome::Open,
{
}

/// A configured API key is accepted on the API and on the MCP endpoint.
pub proof fn law_api_key_on_both_surfaces(config: ServerConfig, surface: AuthSurface, key: Seq<char>)
    requires
        config.require_auth,
        key_listed(key, config.api_keys@),
    ensures
        spec_decide_auth(config, surface, None, None, None, Some(bearer_prefix() + key), false)
            == AuthOutcome::Allow("api-key"@, AuthMethod::ApiKey),
{
    lemma_bearer(key);
}

/// MCP keys and MCP-audience JWTs open only the MCP endpoint: on the API
/// a bearer token that is not an API key is refused.
pub proof fn law_mcp_credentials_not_for_api(
    config: ServerConfig,
    key: Seq<char>,
    mcp_jwt_valid: bool,
)
    requires
        config.require_auth,
        !key_listed(key, config.api_keys@),
    ensures
        spec_decide_auth(
            config,
            AuthSurface::Api,
            None,
            None,
            None,
            Some(bearer_prefix() + key),
            mcp_jwt_valid,
        ) == AuthOutcome::Deny,
{
    lemma_bearer(key);
}

/// An MCP key is accepted on the MCP endpoint.
pub proof fn law_mcp_key_on_mcp(config: ServerConfig, key: Seq<char>)
    requires
        config.require_auth,
        key_listed(key, config.mcp_keys@),
    ensures
        spec_decide_auth(config, AuthSurface::Mcp, None, None, None, Some(bearer_prefix() + key), false)
            is Allow,
{
    lemma_bearer(key);
}

/// An empty or blank Cloudflare user header authenticates nobody.
pub proof fn law_blank_cf_header_refused(
    config: ServerConfig,
    surface: AuthSurface,
    header: Seq<char>,
)
    requires
        config.require_auth,
        trimmed(header).len() == 0,
    ensures
        spec_decide_auth(config, surface, None, None, Some(header), None, false)
            == AuthOutcome::Deny,
{
}

/// Without credentials, a request is refused when authentication is on.
pub proof fn law_no_credentials_refused(config: ServerConfig, surface: AuthSurface)
    requires
        config.require_auth,
    ensures
        spec_decide_auth(config, surface, None, None, None, None, false) == AuthOutcome::Deny,
{
}

} // verus!
