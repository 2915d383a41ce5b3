//! MCP OAuth resource-server helpers.

use vstd::prelude::*;
use vstd::string::*;

use crate::config::{McpOAuthConfig, ServerConfig};
use crate::json::{
    all_texts, json_member, member_texts, opt_strings_view, opt_text_member, opt_text_value,
    opt_texts_member, opt_texts_value, opt_u64_member, opt_u64_value, parsed_member,
    texts_member, u64_member, JsonMember, MemberValue,
};
use crate::jwt::{
    check_exp, claims_pass_checks, decode_claims, exp_current, has_prefix, jwk_checked,
    jwk_verifying_key, jwt_claims, jwt_decoded, jwt_header, key_ids, lemma_has_prefix,
    lemma_selected, lemma_unselected, mcp_rs256_params, res_text, secret_verifying_key,
    select_mcp_key, spec_key_choice, token_header, KeySource, TokenChecks,
};
use crate::text::{
    chars_eq, clone_strings, is_white_space, matches_at, occurs_at, white_space, find_char_from, find_first, first_char, first_char_at, first_occurrence, first_occurrence_at, lemma_first_occurrence_unique, opt_view, strings_view,
    substring, to_chars,
};

verus! {

/// The separator between a URI's scheme and its authority.
pub open spec fn scheme_separator() -> Seq<char> {
    seq![':', '/', '/']
}

/// RFC 8707 / RFC 9728 origin of an absolute resource URI: the scheme,
/// `://`, and the authority (everything up to the first `/` after the
/// separator). `None` when there is no separator, or when the scheme, the
/// rest, or the authority is empty.
pub open spec fn spec_resource_origin(r: Seq<char>) -> Option<Seq<char>> {
    match first_occurrence(r, scheme_separator()) {
        None => None,
        Some(i) => {
            let scheme = r.subrange(0, i);
            let after = r.subrange(i + 3, r.len() as int);
            let authority = match first_char(after, '/') {
                Some(j) => after.subrange(0, j),
                None => after,
            };
            if scheme.len() == 0 || after.len() == 0 || authority.len() == 0 {
                None
            } else {
                Some(scheme + scheme_separator() + authority)
            }
        },
    }
}

/// Path part of a resource URI: from the first `/` after the scheme
/// separator to the end; empty when there is no separator or no `/`.
pub open spec fn spec_resource_path(r: Seq<char>) -> Seq<char> {
    match first_occurrence(r, scheme_separator()) {
        None => Seq::empty(),
        Some(i) => {
            let after = r.subrange(i + 3, r.len() as int);
            match first_char(after, '/') {
                Some(j) => after.subrange(j, after.len() as int),
                None => Seq::empty(),
            }
        },
    }
}

pub fn resource_origin(resource: &str) -> (r: Option<String>)
    ensures
        opt_view(r) == spec_resource_origin(resource@),
{
    let cs = to_chars(resource);
    let sep: Vec<char> = vec![':', '/', '/'];
    assert(sep@ =~= scheme_separator());
    match find_first(&cs, &sep) {
        None => None,
        Some(i) => {
            let n = cs.len();
            let start = i + 3;
            let ghost after = resource@.subrange(start as int, n as int);
            if i == 0 || start == n {
                return None;
            }
            let end = match find_char_from(&cs, start, '/') {
                Some(j) => j,
                None => n,
            };
            if end == start {
                return None;
            }
            let mut out = substring(resource, 0, i);
            out.append("://");
            let auth = substring(resource, start, end);
            out.append(auth.as_str());
            proof {
                reveal_strlit("://");
                assert("://"@ =~= scheme_separator());
                assert(after.subrange(0, end - start) =~= resource@.subrange(start as int, end as int));
            }
            Some(out)
        },
    }
}

pub fn resource_path(resource: &str) -> (r: &str)
    ensures
        r@ == spec_resource_path(resource@),
{
    let cs = to_chars(resource);
    let sep: Vec<char> = vec![':', '/', '/'];
    assert(sep@ =~= scheme_separator());
    let n = resource.unicode_len();
    match find_first(&cs, &sep) {
        None => {
            let e = resource.substring_char(0, 0);
            assert(e@ =~= Seq::<char>::empty());
            e
        },
        Some(i) => {
            let start = i + 3;
            match find_char_from(&cs, start, '/') {
                Some(j) => {
                    let ghost after = resource@.subrange(start as int, n as int);
                    assert(after.subrange(j - start, after.len() as int) =~= resource@.subrange(
                        j as int,
                        n as int,
                    ));
                    resource.substring_char(j, n)
                },
                None => {
                    let e = resource.substring_char(0, 0);
                    assert(e@ =~= Seq::<char>::empty());
                    e
                },
            }
        },
    }
}

/// Number of `'.'` characters in `s`.
pub open spec fn dot_count(s: Seq<char>) -> nat
    decreases s.len(),
{
    if s.len() == 0 {
        0
    } else {
        dot_count(s.drop_last()) + if s.last() == '.' { 1nat } else { 0nat }
    }
}

/// A token has the shape of a compact JWT: exactly two dots, and it
/// neither starts nor ends with one.
pub open spec fn spec_looks_like_jwt(t: Seq<char>) -> bool {
    &&& dot_count(t) == 2
    &&& !(t.len() > 0 && t[0] == '.')
    &&& !(t.len() > 0 && t.last() == '.')
}

pub fn looks_like_jwt(token: &str) -> (r: bool)
    ensures
        r == spec_looks_like_jwt(token@),
{
    let cs = crate::text::to_chars(token);
    let mut dots: usize = 0;
    let mut i: usize = 0;
    while i < cs.len()
        invariant
            i <= cs.len(),
            dots == dot_count(cs@.take(i as int)),
            dots <= i,
        decreases cs.len() - i,
    {
        assert(cs@.take(i + 1).drop_last() =~= cs@.take(i as int));
        if cs[i] == '.' {
            dots = dots + 1;
        }
        i = i + 1;
    }
    assert(cs@.take(cs.len() as int) =~= cs@);
    let starts = cs.len() > 0 && cs[0] == '.';
    let ends = cs.len() > 0 && cs[cs.len() - 1] == '.';
    dots == 2 && !starts && !ends
}

/// Scope advertised for read-only MCP tools.
pub const MCP_READ_SCOPE: &'static str = "mcp:read";

/// The well-known suffix of RFC 9728 protected-resource metadata.
pub open spec fn well_known_suffix() -> Seq<char> {
    "/.well-known/oauth-protected-resource"@
}

/// RFC 9728 metadata URL: the resource's origin followed by the well-known
/// suffix; `None` without a resource or when it has no origin.
pub open spec fn spec_resource_metadata_url(resource: Option<Seq<char>>) -> Option<Seq<char>> {
    match resource {
        None => None,
        Some(r) => match spec_resource_origin(r) {
            None => None,
            Some(o) => Some(o + well_known_suffix()),
        },
    }
}

/// Origin-level `/.well-known/oauth-protected-resource` URL.
pub fn resource_metadata_url(config: &ServerConfig) -> (r: Option<String>)
    ensures
        opt_view(r) == spec_resource_metadata_url(opt_view(config.mcp_oauth.resource)),
{
    match &config.mcp_oauth.resource {
        None => None,
        Some(resource) => match resource_origin(resource.as_str()) {
            None => None,
            Some(origin) => {
                let mut url = origin;
                url.append("/.well-known/oauth-protected-resource");
                Some(url)
            },
        },
    }
}

/// Path-aware well-known URL: the suffix is followed by the resource's
/// path unless that path is empty or `/`.
pub open spec fn spec_resource_metadata_url_with_path(resource: Option<Seq<char>>) -> Option<
    Seq<char>,
> {
    match resource {
        None => None,
        Some(r) => match spec_resource_origin(r) {
            None => None,
            Some(o) => {
                let path = spec_resource_path(r);
                if path.len() == 0 || path == seq!['/'] {
                    Some(o + well_known_suffix())
                } else {
                    Some(o + well_known_suffix() + path)
                }
            },
        },
    }
}

pub fn resource_metadata_url_with_path(config: &ServerConfig) -> (r: Option<String>)
    ensures
        opt_view(r) == spec_resource_metadata_url_with_path(opt_view(config.mcp_oauth.resource)),
{
    match &config.mcp_oauth.resource {
        None => None,
        Some(resource) => match resource_origin(resource.as_str()) {
            None => None,
            Some(origin) => {
                let path = resource_path(resource.as_str());
                let mut url = origin;
                url.append("/.well-known/oauth-protected-resource");
                let n = path.unicode_len();
                if n == 0 || (n == 1 && path.get_char(0) == '/') {
                    assert(n == 1 ==> path@ =~= seq![path@[0]]);
                    return Some(url);
                }
                assert(path@ != seq!['/']);
                url.append(path);
                Some(url)
            },
        },
    }
}

/// RFC 6750 challenge for MCP 401s: realm, the metadata URL when there is
/// one, and the read scope, joined by `", "`.
pub open spec fn spec_www_authenticate(metadata_url: Option<Seq<char>>) -> Seq<char> {
    match metadata_url {
        Some(u) => "Bearer realm=\"mcp\", resource_metadata=\""@ + u + "\", scope=\"mcp:read\""@,
        None => "Bearer realm=\"mcp\", scope=\"mcp:read\""@,
    }
}

pub fn www_authenticate(config: &ServerConfig) -> (r: String)
    ensures
        r@ == spec_www_authenticate(
            spec_resource_metadata_url(opt_view(config.mcp_oauth.resource)),
        ),
{
    match resource_metadata_url(config) {
        Some(url) => {
            let mut out = String::from_str("Bearer realm=\"mcp\", resource_metadata=\"");
            out.append(url.as_str());
            out.append("\", scope=\"mcp:read\"");
            out
        },
        None => String::from_str("Bearer realm=\"mcp\", scope=\"mcp:read\""),
    }
}

/// RFC 9728 protected-resource metadata for this MCP server.
#[derive(Debug)]
pub struct ProtectedResourceMetadata {
    pub resource: String,
    pub bearer_methods_supported: Vec<String>,
    pub scopes_supported: Vec<String>,
    pub resource_name: String,
    /// Omitted (`None`) when no authorization server is configured.
    pub authorization_servers: Option<Vec<String>>,
}

/// The metadata document: the configured resource (default
/// `http://127.0.0.1/mcp`), header bearer tokens, the read scope, and the
/// configured authorization servers only when there are some.
pub fn protected_resource_metadata(config: &ServerConfig) -> (r: ProtectedResourceMetadata)
    ensures
        r.resource@ == match config.mcp_oauth.resource {
            Some(s) => s@,
            None => "http://127.0.0.1/mcp"@,
        },
        strings_view(r.bearer_methods_supported@) == seq!["header"@],
        strings_view(r.scopes_supported@) == seq!["mcp:read"@],
        r.resource_name@ == "Hone MCP"@,
        config.mcp_oauth.authorization_servers@.len() == 0 <==> r.authorization_servers is None,
        r.authorization_servers matches Some(v) ==> strings_view(v@) == strings_view(
            config.mcp_oauth.authorization_servers@,
        ),
{
    let resource = match &config.mcp_oauth.resource {
        Some(s) => s.clone(),
        None => String::from_str("http://127.0.0.1/mcp"),
    };
    let mut bearer: Vec<String> = Vec::new();
    bearer.push(String::from_str("header"));
    let mut scopes: Vec<String> = Vec::new();
    scopes.push(String::from_str("mcp:read"));
    assert(strings_view(bearer@) =~= seq!["header"@]);
    assert(strings_view(scopes@) =~= seq!["mcp:read"@]);
    let servers = if config.mcp_oauth.authorization_servers.len() == 0 {
        None
    } else {
        Some(clone_strings(&config.mcp_oauth.authorization_servers))
    };
    ProtectedResourceMetadata {
        resource,
        bearer_methods_supported: bearer,
        scopes_supported: scopes,
        resource_name: String::from_str("Hone MCP"),
        authorization_servers: servers,
    }
}

/// The read scope, as characters.
pub open spec fn read_scope() -> Seq<char> {
    seq!['m', 'c', 'p', ':', 'r', 'e', 'a', 'd']
}

/// JWT `aud`: a single string or a list (RFC 7519).
#[derive(Debug)]
pub enum Audience {
    One(String),
    Many(Vec<String>),
}

/// The claims of an MCP access token.
#[derive(Debug)]
pub struct McpAccessClaims {
    pub aud: Audience,
    pub exp: u64,
    pub iat: Option<u64>,
    pub iss: Option<String>,
    pub scope: Option<String>,
    pub scp: Option<Vec<String>>,
}

/// `tok` is one of the white-space separated words of `s` (what
/// `s.split_whitespace().any(|p| p == tok)` tests, for a `tok` without
/// white space).
pub open spec fn has_word(s: Seq<char>, tok: Seq<char>) -> bool {
    exists|i: int|
        #![trigger occurs_at(s, tok, i)]
        occurs_at(s, tok, i) && (i == 0 || is_white_space(s[i - 1])) && (i + tok.len() == s.len()
            || is_white_space(s[i + tok.len()]))
}

/// Does the word `tok` (non-empty) occur in `s`?
pub fn contains_word(s: &str, tok: &Vec<char>) -> (r: bool)
    requires
        tok.len() > 0,
    ensures
        r == has_word(s@, tok@),
{
    let cs = to_chars(s);
    if tok.len() > cs.len() {
        assert forall|i: int| !occurs_at(s@, tok@, i) by {}
        return false;
    }
    let end = cs.len() - tok.len() + 1;
    let mut i: usize = 0;
    while i < end
        invariant
            cs@ == s@,
            end == cs.len() - tok.len() + 1,
            tok.len() <= cs.len(),
            i <= end,
            forall|j: int|
                #![trigger occurs_at(s@, tok@, j)]
                0 <= j < i ==> !(occurs_at(s@, tok@, j) && (j == 0 || is_white_space(s@[j - 1])) && (j
                    + tok.len() == s@.len() || is_white_space(s@[j + tok.len()]))),
        decreases end - i,
    {
        if matches_at(&cs, tok, i) {
            let before_ok = i == 0 || white_space(cs[i - 1]);
            let after_ok = i + tok.len() == cs.len() || white_space(cs[i + tok.len()]);
            if before_ok && after_ok {
                return true;
            }
        }
        i = i + 1;
    }
    assert forall|j: int|
        #![trigger occurs_at(s@, tok@, j)]
        occurs_at(s@, tok@, j) implies !((j == 0 || is_white_space(s@[j - 1])) && (j + tok.len()
            == s@.len() || is_white_space(s@[j + tok.len()]))) by {
        assert(0 <= j < end);
    }
    false
}

/// Some element of `list` is exactly `tok`.
pub open spec fn listed(list: Seq<String>, tok: Seq<char>) -> bool {
    exists|k: int| 0 <= k < list.len() && list[k]@ == tok
}

/// Is some element of `list` exactly `tok`?
pub fn list_contains(list: &Vec<String>, tok: &Vec<char>) -> (r: bool)
    ensures
        r == listed(list@, tok@),
{
    let mut k: usize = 0;
    while k < list.len()
        invariant
            k <= list.len(),
            forall|j: int| 0 <= j < k ==> list@[j]@ != tok@,
        decreases list.len() - k,
    {
        let cs = to_chars(list[k].as_str());
        if chars_eq(&cs, tok) {
            return true;
        }
        k = k + 1;
    }
    false
}

/// A token grants MCP read access when it carries no scope claim at all
/// (neither `scope` nor a non-empty `scp`), or when `mcp:read` is one of
/// the words of `scope` or an element of `scp`.
pub open spec fn spec_has_mcp_read_scope(claims: McpAccessClaims) -> bool {
    let has_scope_claim = claims.scope is Some || (claims.scp is Some && claims.scp->0@.len() > 0);
    if !has_scope_claim {
        true
    } else if claims.scope is Some && has_word(claims.scope->0@, read_scope()) {
        true
    } else {
        claims.scp is Some && listed(claims.scp->0@, read_scope())
    }
}

pub fn has_mcp_read_scope(claims: &McpAccessClaims) -> (r: bool)
    ensures
        r == spec_has_mcp_read_scope(*claims),
{
    let scope_word: Vec<char> = vec!['m', 'c', 'p', ':', 'r', 'e', 'a', 'd'];
    assert(scope_word@ =~= read_scope());
    let has_scp = match &claims.scp {
        Some(v) => v.len() > 0,
        None => false,
    };
    if !(claims.scope.is_some() || has_scp) {
        return true;
    }
    if let Some(sc) = &claims.scope {
        if contains_word(sc.as_str(), &scope_word) {
            return true;
        }
    }
    match &claims.scp {
        Some(list) => list_contains(list, &scope_word),
        None => false,
    }
}

/// The claims minted for `resource` at time `now` (seconds since the
/// epoch), expiring `ttl_secs` later (saturating).
pub open spec fn spec_mcp_claims_exp(now: u64, ttl_secs: u64) -> u64 {
    if now + ttl_secs > u64::MAX {
        u64::MAX
    } else {
        (now + ttl_secs) as u64
    }
}

/// The claims of a locally minted MCP token.
pub fn mcp_access_claims(resource: &str, ttl_secs: u64, now: u64) -> (r: McpAccessClaims)
    ensures
        r.aud matches Audience::One(a) && a@ == resource@,
        r.exp == spec_mcp_claims_exp(now, ttl_secs),
        r.iat == Some(now),
        r.iss is None,
        r.scope matches Some(sc) && sc@ == MCP_READ_SCOPE@,
        r.scp is None,
{
    McpAccessClaims {
        aud: Audience::One(String::from_str(resource)),
        exp: now.saturating_add(ttl_secs),
        iat: Some(now),
        iss: None,
        scope: Some(String::from_str(MCP_READ_SCOPE)),
        scp: None,
    }
}

/// The compact JWS that `jsonwebtoken::encode` produces for an HS256
/// header and the claims `{aud, exp, iat, iss: null, scope, scp: null}`
/// signed with `secret`.
pub uninterp spec fn signed_mcp_token(
    aud: Seq<char>,
    exp: u64,
    iat: u64,
    scope: Seq<char>,
    secret: Seq<char>,
) -> Seq<char>;

/// The single-string audience the claims of `token` carry.
pub open spec fn token_audience(token: Seq<char>) -> Option<Seq<char>> {
    match jwt_claims(token) {
        Some(doc) => match parsed_member(doc, "aud"@) {
            Some(MemberValue::Text(a)) => Some(a),
            _ => None,
        },
        None => None,
    }
}

/// The claims (as JSON text) written for a minted token: a single-string
/// `aud`, `exp` and `iat` as numbers, `iss` null, the `scope` string, and
/// `scp` null.
pub open spec fn minted_claims(doc: Seq<char>, aud: Seq<char>, exp: u64, iat: u64, scope: Seq<char>) -> bool {
    &&& parsed_member(doc, "aud"@) == Some(MemberValue::Text(aud))
    &&& parsed_member(doc, "exp"@) == Some(MemberValue::Number(Some(exp)))
    &&& parsed_member(doc, "iat"@) == Some(MemberValue::Number(Some(iat)))
    &&& parsed_member(doc, "iss"@) == Some(MemberValue::Null)
    &&& parsed_member(doc, "scope"@) == Some(MemberValue::Text(scope))
    &&& parsed_member(doc, "scp"@) == Some(MemberValue::Null)
}

/// `t` is an HS256 token signed with `secret` over the minted claims:
/// `jsonwebtoken::decode` with that secret, HS256, `exp` and `aud`
/// required, the audience `aud` and no issuer lets its claims through.
pub open spec fn token_minted(
    t: Seq<char>,
    secret: Seq<char>,
    aud: Seq<char>,
    exp: u64,
    iat: u64,
    scope: Seq<char>,
) -> bool {
    &&& jwt_claims(t) matches Some(doc)
    &&& jwt_decoded(t, KeySource::Secret(secret), "HS256"@, mcp_required_claims(), aud, None)
        == Ok::<Seq<char>, Seq<char>>(doc)
    &&& minted_claims(doc, aud, exp, iat, scope)
}

/// `jsonwebtoken::encode` with `Header::new(Algorithm::HS256)`,
/// `EncodingKey::from_secret(secret)` and the claims built from the
/// arguments (a single-string `aud`, `iss` and `scp` null), the error
/// turned into its message. Claims that a token is the named encoding of
/// the arguments, and has the compact shape `header.claims.signature`
/// (three base64url parts joined by dots) whose claims carry `aud` as a
/// single string; and that `jsonwebtoken::decode` gives back what was
/// encoded (`token_minted`): with the same secret, HS256, `exp` and `aud`
/// required and the same audience, the signature verifies and the claims
/// pass.
#[verifier::external_body]
fn sign_mcp_token(aud: &str, exp: u64, iat: u64, scope: &str, secret: &str) -> (r: Result<
    String,
    String,
>)
    ensures
        r matches Ok(t) ==> t@ == signed_mcp_token(aud@, exp, iat, scope@, secret@)
            && spec_looks_like_jwt(t@) && token_audience(t@) == Some(aud@) && token_minted(
            t@,
            secret@,
            aud@,
            exp,
            iat,
            scope@,
        ),
{
    let mut claims = serde_json::Map::new();
    claims.insert("aud".to_string(), serde_json::Value::from(aud));
    claims.insert("exp".to_string(), serde_json::Value::from(exp));
    claims.insert("iat".to_string(), serde_json::Value::from(iat));
    claims.insert("iss".to_string(), serde_json::Value::Null);
    claims.insert("scope".to_string(), serde_json::Value::from(scope));
    claims.insert("scp".to_string(), serde_json::Value::Null);
    let header = jsonwebtoken::Header::new(jsonwebtoken::Algorithm::HS256);
    let key = jsonwebtoken::EncodingKey::from_secret(secret.as_bytes());
    jsonwebtoken::encode(&header, &serde_json::Value::Object(claims), &key).map_err(|e| format!("{e}"))
}

/// Seconds since the Unix epoch (`SystemTime::now().duration_since(UNIX_EPOCH)`),
/// or the error's message when the clock is before the epoch. Nothing is
/// claimed about the value.
#[verifier::external_body]
pub(crate) fn unix_now_secs() -> (r: Result<u64, String>) {
    std::time::SystemTime::now().duration_since(std::time::UNIX_EPOCH).map(|d| d.as_secs()).map_err(
        |e| format!("{e}"),
    )
}

/// Why an MCP access token could not be minted.
#[derive(Debug)]
pub enum McpTokenError {
    EmptySecret,
    InvalidResource,
    Clock(String),
    Signing(String),
}

impl McpTokenError {
    pub open spec fn spec_message(&self) -> Seq<char> {
        match self {
            McpTokenError::EmptySecret => "HONE_MCP_JWT_SECRET is empty"@,
            McpTokenError::InvalidResource => "HONE_MCP_RESOURCE must be an absolute URI with a scheme"@,
            McpTokenError::Clock(e) => "clock error: "@ + e@,
            McpTokenError::Signing(e) => "failed to sign MCP token: "@ + e@,
        }
    }

    /// The error's message.
    pub fn message(&self) -> (r: String)
        ensures
            r@ == self.spec_message(),
    {
        match self {
            McpTokenError::EmptySecret => String::from_str("HONE_MCP_JWT_SECRET is empty"),
            McpTokenError::InvalidResource => String::from_str(
                "HONE_MCP_RESOURCE must be an absolute URI with a scheme",
            ),
            McpTokenError::Clock(e) => {
                let mut m = String::from_str("clock error: ");
                m.append(e.as_str());
                m
            },
            McpTokenError::Signing(e) => {
                let mut m = String::from_str("failed to sign MCP token: ");
                m.append(e.as_str());
                m
            },
        }
    }
}

/// Mint an HS256 access token bound to `resource` (RFC 8707 audience).
/// The secret must be non-empty and the resource an absolute URI; the
/// token carries the read scope and expires `ttl_secs` after now.
pub fn mint_mcp_access_token(secret: &str, resource: &str, ttl_secs: u64) -> (r: Result<
    String,
    McpTokenError,
>)
    ensures
        secret@.len() == 0 ==> r matches Err(McpTokenError::EmptySecret),
        secret@.len() > 0 && spec_resource_origin(resource@) is None ==> r matches Err(
            McpTokenError::InvalidResource,
        ),
        r matches Ok(t) ==> secret@.len() > 0 && spec_resource_origin(resource@) is Some
            && spec_looks_like_jwt(t@) && token_audience(t@) == Some(resource@) && exists|now: u64|
            t@ == signed_mcp_token(
                resource@,
                spec_mcp_claims_exp(now, ttl_secs),
                now,
                MCP_READ_SCOPE@,
                secret@,
            ) && token_minted(
                t@,
                secret@,
                resource@,
                spec_mcp_claims_exp(now, ttl_secs),
                now,
                MCP_READ_SCOPE@,
            ),
        r matches Err(McpTokenError::Clock(_)) ==> secret@.len() > 0 && spec_resource_origin(
            resource@,
        ) is Some,
        r matches Err(McpTokenError::Signing(_)) ==> secret@.len() > 0 && spec_resource_origin(
            resource@,
        ) is Some,
{
    if secret.unicode_len() == 0 {
        return Err(McpTokenError::EmptySecret);
    }
    if resource_origin(resource).is_none() {
        return Err(McpTokenError::InvalidResource);
    }
    let now = match unix_now_secs() {
        Ok(n) => n,
        Err(e) => return Err(McpTokenError::Clock(e)),
    };
    let claims = mcp_access_claims(resource, ttl_secs, now);
    match sign_mcp_token(resource, claims.exp, now, MCP_READ_SCOPE, secret) {
        Ok(t) => Ok(t),
        Err(e) => Err(McpTokenError::Signing(e)),
    }
}

/// What HS256 validation of an MCP token needs from the configuration.
#[derive(Debug)]
pub struct McpHs256Params {
    pub secret: String,
    pub resource: String,
    pub issuer: Option<String>,
}

/// An optional configuration string that is set and non-empty.
pub open spec fn non_empty(o: Option<String>) -> Option<Seq<char>> {
    match o {
        Some(s) => if s@.len() > 0 {
            Some(s@)
        } else {
            None
        },
        None => None,
    }
}

/// The HS256 validation parameters: the secret and the resource must be
/// set and non-empty (secret checked first); the issuer is required only
/// when one is configured non-empty.
pub fn mcp_hs256_params(config: &McpOAuthConfig) -> (r: Result<McpHs256Params, String>)
    ensures
        match r {
            Ok(p) => non_empty(config.jwt_secret) == Some(p.secret@) && non_empty(config.resource)
                == Some(p.resource@) && opt_view(p.issuer) == non_empty(config.issuer),
            Err(e) => if non_empty(config.jwt_secret) is None {
                e@ == "MCP JWT secret not configured"@
            } else {
                non_empty(config.resource) is None && e@ == "MCP resource not configured"@
            },
        },
{
    let secret = match &config.jwt_secret {
        Some(s) if s.as_str().unicode_len() > 0 => s.clone(),
        _ => return Err(String::from_str("MCP JWT secret not configured")),
    };
    let resource = match &config.resource {
        Some(s) if s.as_str().unicode_len() > 0 => s.clone(),
        _ => return Err(String::from_str("MCP resource not configured")),
    };
    let issuer = match &config.issuer {
        Some(s) if s.as_str().unicode_len() > 0 => Some(s.clone()),
        _ => None,
    };
    Ok(McpHs256Params { secret, resource, issuer })
}

/// The verdict on claims that passed signature, expiry and audience
/// validation: they must grant the read scope.
pub fn check_mcp_claims(claims: &McpAccessClaims) -> (r: Result<(), String>)
    ensures
        match r {
            Ok(()) => spec_has_mcp_read_scope(*claims),
            Err(e) => !spec_has_mcp_read_scope(*claims) && e@ == "MCP token missing mcp:read scope"@,
        },
{
    if !has_mcp_read_scope(claims) {
        return Err(String::from_str("MCP token missing mcp:read scope"));
    }
    Ok(())
}

/// `aud` as the claims carry it, with its strings as characters.
pub enum AudienceView {
    One(Seq<char>),
    Many(Seq<Seq<char>>),
}

/// MCP access claims with their strings as characters.
pub struct McpClaimsView {
    pub aud: AudienceView,
    pub exp: u64,
    pub iat: Option<u64>,
    pub iss: Option<Seq<char>>,
    pub scope: Option<Seq<char>>,
    pub scp: Option<Seq<Seq<char>>>,
}

pub open spec fn audience_view(a: Audience) -> AudienceView {
    match a {
        Audience::One(s) => AudienceView::One(s@),
        Audience::Many(v) => AudienceView::Many(strings_view(v@)),
    }
}

pub open spec fn claims_view(c: McpAccessClaims) -> McpClaimsView {
    McpClaimsView {
        aud: audience_view(c.aud),
        exp: c.exp,
        iat: c.iat,
        iss: opt_view(c.iss),
        scope: opt_view(c.scope),
        scp: opt_strings_view(c.scp),
    }
}

/// The `aud` member as `Audience` deserializes it: a string, else a list
/// of strings.
pub open spec fn aud_member(m: Option<MemberValue>) -> Option<AudienceView> {
    match m {
        Some(MemberValue::Text(t)) => Some(AudienceView::One(t)),
        _ => match texts_member(m) {
            Some(l) => Some(AudienceView::Many(l)),
            None => None,
        },
    }
}

/// The MCP access claims written as the JSON object `doc`, when its
/// members have the forms the claims take: `aud` (string or list of
/// strings) and `exp` (unsigned integer) present, `iat`, `iss`, `scope`
/// and `scp` absent, `null` or of their form.
pub open spec fn mcp_claims_read(doc: Seq<char>) -> Option<McpClaimsView> {
    match (
        aud_member(parsed_member(doc, "aud"@)),
        u64_member(parsed_member(doc, "exp"@)),
        opt_u64_member(parsed_member(doc, "iat"@)),
        opt_text_member(parsed_member(doc, "iss"@)),
        opt_text_member(parsed_member(doc, "scope"@)),
        opt_texts_member(parsed_member(doc, "scp"@)),
    ) {
        (Some(aud), Some(exp), Some(iat), Some(iss), Some(scope), Some(scp)) => Some(
            McpClaimsView { aud, exp, iat, iss, scope, scp },
        ),
        _ => None,
    }
}

/// Read MCP access claims from their JSON text.
pub fn mcp_claims_from_json(doc: &str) -> (r: Option<McpAccessClaims>)
    ensures
        match r {
            Some(c) => mcp_claims_read(doc@) == Some(claims_view(c)),
            None => mcp_claims_read(doc@) is None,
        },
{
    let aud = match json_member(doc, "aud") {
        Some(JsonMember::Text(t)) => Audience::One(t),
        Some(JsonMember::List(l)) => match member_texts(l) {
            Some(v) => Audience::Many(v),
            None => {
                return None;
            },
        },
        _ => {
            return None;
        },
    };
    let exp = match json_member(doc, "exp") {
        Some(JsonMember::Number(Some(n))) => n,
        _ => {
            return None;
        },
    };
    let iat = match opt_u64_value(json_member(doc, "iat")) {
        Some(v) => v,
        None => {
            return None;
        },
    };
    let iss = match opt_text_value(json_member(doc, "iss")) {
        Some(v) => v,
        None => {
            return None;
        },
    };
    let scope = match opt_text_value(json_member(doc, "scope")) {
        Some(v) => v,
        None => {
            return None;
        },
    };
    let scp = match opt_texts_value(json_member(doc, "scp")) {
        Some(v) => v,
        None => {
            return None;
        },
    };
    Some(McpAccessClaims { aud, exp, iat, iss, scope, scp })
}

/// `spec_has_mcp_read_scope`, read on the characters of the claims.
pub open spec fn scope_grants_read(v: McpClaimsView) -> bool {
    let has_scope_claim = v.scope is Some || (v.scp is Some && v.scp->0.len() > 0);
    if !has_scope_claim {
        true
    } else if v.scope is Some && has_word(v.scope->0, read_scope()) {
        true
    } else {
        v.scp is Some && v.scp->0.contains(read_scope())
    }
}

proof fn lemma_scope_view(c: McpAccessClaims)
    ensures
        spec_has_mcp_read_scope(c) == scope_grants_read(claims_view(c)),
{
    if let Some(l) = c.scp {
        let sv = strings_view(l@);
        assert(sv.len() == l@.len());
        if listed(l@, read_scope()) {
            let k = choose|k: int| 0 <= k < l@.len() && l@[k]@ == read_scope();
            assert(sv[k] == read_scope());
        }
        if sv.contains(read_scope()) {
            let k = choose|k: int| 0 <= k < sv.len() && sv[k] == read_scope();
            assert(l@[k]@ == read_scope());
        }
    }
}

/// The audience `a` names `resource`.
pub open spec fn audience_names(a: AudienceView, resource: Seq<char>) -> bool {
    match a {
        AudienceView::One(t) => t == resource,
        AudienceView::Many(l) => l.contains(resource),
    }
}

/// Claims (as JSON text) that the MCP resource server accepts for
/// `resource`: of the claims' form, naming the resource among their
/// audiences, consistent with the configured issuer, and granting the
/// read scope.
pub open spec fn mcp_claims_accepted(doc: Seq<char>, resource: Seq<char>, issuer: Option<Seq<char>>) -> bool {
    &&& mcp_claims_read(doc) matches Some(v)
    &&& audience_names(v.aud, resource)
    &&& scope_grants_read(v)
    &&& (issuer matches Some(i) ==> (v.iss matches Some(t) ==> t == i))
}


pub open spec fn res_unit_view(r: Result<(), String>) -> Result<(), Seq<char>> {
    match r {
        Ok(()) => Ok(()),
        Err(e) => Err(e@),
    }
}

/// The verdict on an MCP token at `now` (seconds since the epoch) from
/// what its validation gave: a failed validation is reported as such;
/// validated claims must be of the claims' form, must not have expired
/// (`exp_current`), and must grant the read scope.
pub open spec fn spec_mcp_verdict(decoded: Result<Seq<char>, Seq<char>>, now: u64) -> Result<
    (),
    Seq<char>,
> {
    match decoded {
        Err(e) => Err("MCP JWT validation failed: "@ + e),
        Ok(doc) => match mcp_claims_read(doc) {
            None => Err("MCP JWT validation failed: malformed claims"@),
            Some(v) => if !exp_current(v.exp, now) {
                Err("MCP JWT validation failed: ExpiredSignature"@)
            } else if scope_grants_read(v) {
                Ok(())
            } else {
                Err("MCP token missing mcp:read scope"@)
            },
        },
    }
}

/// The verdict on an MCP token at `now`, given what `jsonwebtoken` made of
/// it: its claims as JSON text, or why it was refused.
pub fn mcp_claims_verdict(decoded: Result<String, String>, now: u64) -> (r: Result<(), String>)
    ensures
        res_unit_view(r) == spec_mcp_verdict(res_text(decoded), now),
{
    match decoded {
        Err(e) => {
            let mut m = String::from_str("MCP JWT validation failed: ");
            m.append(e.as_str());
            Err(m)
        },
        Ok(doc) => match mcp_claims_from_json(doc.as_str()) {
            None => Err(String::from_str("MCP JWT validation failed: malformed claims")),
            Some(c) => {
                if !check_exp(c.exp, now) {
                    return Err(String::from_str("MCP JWT validation failed: ExpiredSignature"));
                }
                proof {
                    lemma_scope_view(c);
                }
                check_mcp_claims(&c)
            },
        },
    }
}

/// What validation of `token` for `resource` guarantees of the claims it
/// lets through: they are the token's own, and passed the audience
/// (required) and issuer checks.
pub open spec fn mcp_decoded(
    decoded: Result<Seq<char>, Seq<char>>,
    token: Seq<char>,
    resource: Seq<char>,
    issuer: Option<Seq<char>>,
) -> bool {
    decoded matches Ok(doc) ==> jwt_claims(token) == Some(doc) && claims_pass_checks(
        doc,
        resource,
        issuer,
        true,
    )
}

/// The claims `token` carries are accepted for `resource`.
pub open spec fn mcp_token_accepted(token: Seq<char>, resource: Seq<char>, issuer: Option<Seq<char>>) -> bool {
    jwt_claims(token) matches Some(doc) && mcp_claims_accepted(doc, resource, issuer)
}

proof fn lemma_verdict_accepts(
    decoded: Result<Seq<char>, Seq<char>>,
    token: Seq<char>,
    resource: Seq<char>,
    issuer: Option<Seq<char>>,
    now: u64,
)
    requires
        mcp_decoded(decoded, token, resource, issuer),
        spec_mcp_verdict(decoded, now) is Ok,
    ensures
        mcp_token_accepted(token, resource, issuer),
{
    let doc = decoded->Ok_0;
    let v = mcp_claims_read(doc)->0;
    let m = parsed_member(doc, "aud"@);
    match v.aud {
        AudienceView::One(t) => {},
        AudienceView::Many(l) => {
            let raw = m->0->List_0;
            assert(all_texts(raw));
            let i = choose|i: int| 0 <= i < raw.len() && raw[i] == Some(resource);
            assert(l[i] == resource);
        },
    }
    assert(mcp_claims_accepted(doc, resource, issuer));
}

/// A token whose claims name another audience (as a single string) is
/// never accepted for `resource`: a token minted for the API does not
/// open the MCP server.
pub proof fn law_other_audience_refused(
    token: Seq<char>,
    audience: Seq<char>,
    resource: Seq<char>,
    issuer: Option<Seq<char>>,
)
    requires
        token_audience(token) == Some(audience),
        audience != resource,
    ensures
        !mcp_token_accepted(token, resource, issuer),
{
}

/// A minted token validates: checked with the secret it was signed with,
/// for the resource it was minted for (no issuer configured), before it
/// expires, HS256 validation accepts it.
pub proof fn law_minted_token_validates(
    t: Seq<char>,
    secret: Seq<char>,
    resource: Seq<char>,
    exp: u64,
    iat: u64,
    now: u64,
)
    requires
        token_minted(t, secret, resource, exp, iat, MCP_READ_SCOPE@),
        exp_current(exp, now),
    ensures
        spec_mcp_hs256_at(t, Some(secret), Some(resource), None, now) == Ok::<(), Seq<char>>(()),
{
    assert(MCP_READ_SCOPE@ == read_scope()) by {
        reveal_strlit("mcp:read");
    }
    assert(occurs_at(read_scope(), read_scope(), 0)) by {
        assert(read_scope().subrange(0, read_scope().len() as int) =~= read_scope());
    }
    assert(has_word(read_scope(), read_scope()));
    let doc = jwt_claims(t)->0;
    assert(mcp_claims_read(doc) is Some);
}

/// The checks an MCP token is validated against: the algorithm named,
/// the `exp` and `aud` claims required, the audience the MCP resource,
/// and the issuer when one is configured.
pub fn mcp_token_checks(algorithm: &str, resource: &str, issuer: &Option<String>) -> (r: TokenChecks)
    ensures
        r.algorithm@ == algorithm@,
        strings_view(r.required_claims@) == mcp_required_claims(),
        r.audience@ == resource@,
        opt_view(r.issuer) == opt_view(*issuer),
{
    let required = vec![String::from_str("exp"), String::from_str("aud")];
    assert(strings_view(required@) =~= mcp_required_claims());
    TokenChecks {
        algorithm: String::from_str(algorithm),
        required_claims: required,
        audience: String::from_str(resource),
        issuer: match issuer {
            Some(i) => Some(i.clone()),
            None => None,
        },
    }
}

/// The registered claims an MCP token must carry.
pub open spec fn mcp_required_claims() -> Seq<Seq<char>> {
    seq!["exp"@, "aud"@]
}

/// HS256 validation of `token` at `now` against the configured secret,
/// resource and issuer: the configuration errors, then the verdict on
/// what `jsonwebtoken` gives for this token and secret.
pub open spec fn spec_mcp_hs256_at(
    token: Seq<char>,
    secret: Option<Seq<char>>,
    resource: Option<Seq<char>>,
    issuer: Option<Seq<char>>,
    now: u64,
) -> Result<(), Seq<char>> {
    match (secret, resource) {
        (None, _) => Err("MCP JWT secret not configured"@),
        (Some(_), None) => Err("MCP resource not configured"@),
        (Some(s), Some(res)) => spec_mcp_verdict(
            jwt_decoded(token, KeySource::Secret(s), "HS256"@, mcp_required_claims(), res, issuer),
            now,
        ),
    }
}

/// Validate an HS256 MCP-audience JWT at `now` (seconds since the epoch).
pub fn validate_mcp_hs256_at(token: &str, config: &McpOAuthConfig, now: u64) -> (r: Result<
    (),
    String,
>)
    ensures
        res_unit_view(r) == spec_mcp_hs256_at(
            token@,
            non_empty(config.jwt_secret),
            non_empty(config.resource),
            non_empty(config.issuer),
            now,
        ),
        r is Ok ==> mcp_token_accepted(
            token@,
            non_empty(config.resource)->0,
            non_empty(config.issuer),
        ),
{
    let params = match mcp_hs256_params(config) {
        Ok(p) => p,
        Err(e) => {
            return Err(e);
        },
    };
    let checks = mcp_token_checks("HS256", params.resource.as_str(), &params.issuer);
    let key = secret_verifying_key(params.secret.as_str());
    let decoded = decode_claims(token, &key, &checks);
    proof {
        assert(mcp_required_claims()[1] == "aud"@);
    }
    let r = mcp_claims_verdict(decoded, now);
    proof {
        let d = res_text(decoded);
        assert(mcp_decoded(d, token@, params.resource@, opt_view(params.issuer)));
        if r is Ok {
            lemma_verdict_accepts(d, token@, params.resource@, opt_view(params.issuer), now);
        }
    }
    r
}

/// Validate an HS256 MCP-audience JWT. `Ok` only when the token's own
/// claims name the configured MCP resource (not the main API), have not
/// expired and grant the read scope: the outcome is
/// `validate_mcp_hs256_at` at the time read from the clock.
pub fn validate_mcp_hs256(token: &str, config: &McpOAuthConfig) -> (r: Result<(), String>)
    ensures
        non_empty(config.jwt_secret) is None ==> (r matches Err(e) && e@
            == "MCP JWT secret not configured"@),
        non_empty(config.jwt_secret) is Some && non_empty(config.resource) is None ==> (r matches Err(
            e,
        ) && e@ == "MCP resource not configured"@),
        non_empty(config.jwt_secret) is Some && non_empty(config.resource) is Some ==> ((r matches Err(
            e,
        ) && has_prefix(e@, "MCP JWT validation failed: clock error: "@)) || exists|now: u64|
            #[trigger] spec_mcp_hs256_at(
                token@,
                non_empty(config.jwt_secret),
                non_empty(config.resource),
                non_empty(config.issuer),
                now,
            ) == res_unit_view(r)),
        r is Ok ==> mcp_token_accepted(
            token@,
            non_empty(config.resource)->0,
            non_empty(config.issuer),
        ),
{
    if let Err(e) = mcp_hs256_params(config) {
        return Err(e);
    }
    let now = match unix_now_secs() {
        Ok(n) => n,
        Err(e) => {
            let mut m = String::from_str("MCP JWT validation failed: clock error: ");
            m.append(e.as_str());
            proof {
                lemma_has_prefix("MCP JWT validation failed: clock error: "@, e@);
            }
            return Err(m);
        },
    };
    validate_mcp_hs256_at(token, config, now)
}

/// Which MCP token validations a configuration calls for: HS256 against
/// the secret when one is set, then the published keys at the JWKS URL
/// when one is set.
#[derive(Debug)]
pub struct McpJwtPlan {
    pub secret: bool,
    pub jwks_url: Option<String>,
}

pub fn mcp_jwt_plan(config: &McpOAuthConfig) -> (r: McpJwtPlan)
    ensures
        r.secret == (non_empty(config.jwt_secret) is Some),
        opt_view(r.jwks_url) == opt_view(config.jwks_url),
{
    let secret = match &config.jwt_secret {
        Some(s) => s.as_str().unicode_len() > 0,
        None => false,
    };
    let jwks_url = match &config.jwks_url {
        Some(u) => Some(u.clone()),
        None => None,
    };
    McpJwtPlan { secret, jwks_url }
}

/// RS256 (or other asymmetric) validation of `token` at `now` against
/// published keys (as JWK JSON texts): the configuration error, the
/// header's, the key choice (the first key with the header's key
/// identifier, the first key when it names none), the key's, then the
/// verdict on what `jsonwebtoken` gives with that key and the algorithm
/// the header names.
pub open spec fn spec_mcp_rs256_at(
    token: Seq<char>,
    resource: Option<Seq<char>>,
    issuer: Option<Seq<char>>,
    keys: Seq<Seq<char>>,
    now: u64,
) -> Result<(), Seq<char>> {
    match resource {
        None => Err("MCP resource not configured"@),
        Some(res) => match jwt_header(token) {
            Err(e) => Err(e),
            Ok((alg, kid)) => match spec_key_choice(keys, kid, true, "No matching key for kid: "@) {
                Err(e) => Err(e),
                Ok(i) => match jwk_checked(keys[i]) {
                    Err(e) => Err(e),
                    Ok(()) => spec_mcp_verdict(
                        jwt_decoded(
                            token,
                            KeySource::Jwk(keys[i]),
                            alg,
                            mcp_required_claims(),
                            res,
                            issuer,
                        ),
                        now,
                    ),
                },
            },
        },
    }
}

/// Validate an RS256 (or other asymmetric) MCP-audience JWT at `now`
/// against published keys given as their JWK JSON texts.
pub fn validate_mcp_rs256_with_keys_at(
    token: &str,
    config: &McpOAuthConfig,
    keys: &[String],
    now: u64,
) -> (r: Result<(), String>)
    ensures
        res_unit_view(r) == spec_mcp_rs256_at(
            token@,
            non_empty(config.resource),
            non_empty(config.issuer),
            strings_view(keys@),
            now,
        ),
        r is Ok ==> mcp_token_accepted(
            token@,
            non_empty(config.resource)->0,
            non_empty(config.issuer),
        ),
{
    let params = match mcp_rs256_params(config) {
        Ok(p) => p,
        Err(e) => {
            return Err(e);
        },
    };
    let (alg, kid) = match token_header(token) {
        Ok(h) => h,
        Err(e) => {
            return Err(e);
        },
    };
    let ids = key_ids(keys);
    let kid_str: Option<&str> = match &kid {
        Some(k) => Some(k.as_str()),
        None => None,
    };
    let index = match select_mcp_key(&ids, kid_str) {
        Ok(i) => i,
        Err(e) => {
            proof {
                if let Some(k) = kid_str {
                    lemma_unselected(ids@, strings_view(keys@), k@);
                }
            }
            return Err(e);
        },
    };
    proof {
        if let Some(k) = kid_str {
            lemma_selected(ids@, strings_view(keys@), k@, index as int);
        }
    }
    let key = match jwk_verifying_key(keys[index].as_str()) {
        Ok(k) => k,
        Err(e) => {
            return Err(e);
        },
    };
    let checks = mcp_token_checks(alg.as_str(), params.resource.as_str(), &params.issuer);
    let decoded = decode_claims(token, &key, &checks);
    proof {
        assert(mcp_required_claims()[1] == "aud"@);
    }
    let r = mcp_claims_verdict(decoded, now);
    proof {
        let d = res_text(decoded);
        assert(mcp_decoded(d, token@, params.resource@, opt_view(params.issuer)));
        if r is Ok {
            lemma_verdict_accepts(d, token@, params.resource@, opt_view(params.issuer), now);
            assert(non_empty(config.resource)->0 == params.resource@);
        }
    }
    r
}

/// Validate an RS256 (or other asymmetric) MCP-audience JWT against
/// published keys (JWK JSON texts): `validate_mcp_rs256_with_keys_at` at
/// the time read from the clock, once the resource is known to be set.
pub fn validate_mcp_rs256_with_keys(token: &str, config: &McpOAuthConfig, keys: &[String]) -> (r:
    Result<(), String>)
    ensures
        non_empty(config.resource) is None ==> (r matches Err(e) && e@
            == "MCP resource not configured"@),
        non_empty(config.resource) is Some ==> ((r matches Err(e) && has_prefix(
            e@,
            "MCP JWT validation failed: clock error: "@,
        )) || exists|now: u64|
            #[trigger] spec_mcp_rs256_at(
                token@,
                non_empty(config.resource),
                non_empty(config.issuer),
                strings_view(keys@),
                now,
            ) == res_unit_view(r)),
        r is Ok ==> mcp_token_accepted(
            token@,
            non_empty(config.resource)->0,
            non_empty(config.issuer),
        ),
{
    if let Err(e) = mcp_rs256_params(config) {
        return Err(e);
    }
    let now = match unix_now_secs() {
        Ok(n) => n,
        Err(e) => {
            let mut m = String::from_str("MCP JWT validation failed: clock error: ");
            m.append(e.as_str());
            proof {
                lemma_has_prefix("MCP JWT validation failed: clock error: "@, e@);
            }
            return Err(m);
        },
    };
    validate_mcp_rs256_with_keys_at(token, config, keys, now)
}

proof fn lemma_char_has_first(s: Seq<char>, c: char, k: int)
    requires
        0 <= k < s.len(),
        s[k] == c,
    ensures
        first_char(s, c) is Some,
    decreases k,
{
    if forall|j: int| 0 <= j < k ==> s[j] != c {
        assert(first_char_at(s, c, k));
    } else {
        let j = choose|j: int| 0 <= j < k && s[j] == c;
        lemma_char_has_first(s, c, j);
    }
}

/// The origin of a resource is its own origin: resolving it again gives
/// it back.
pub proof fn law_origin_is_fixed_point(r: Seq<char>)
    ensures
        spec_resource_origin(r) matches Some(o) ==> spec_resource_origin(o) == Some(o),
{
    if let Some(i) = first_occurrence(r, scheme_separator()) {
        let k = choose|k: int| first_occurrence_at(r, scheme_separator(), k);
        assert(first_occurrence_at(r, scheme_separator(), k));
        assert(i == k);
        let scheme = r.subrange(0, i);
        let after = r.subrange(i + 3, r.len() as int);
        let authority = match first_char(after, '/') {
            Some(j) => after.subrange(0, j),
            None => after,
        };
        if scheme.len() > 0 && after.len() > 0 && authority.len() > 0 {
            let o = scheme + scheme_separator() + authority;
            assert(r.subrange(i, i + 3) == scheme_separator());
            assert(r.subrange(0, o.len() as int) =~= o);
            // The separator first occurs in `o` where it does in `r`.
            assert(o.subrange(i, i + 3) =~= scheme_separator());
            assert forall|j: int| 0 <= j < i implies !occurs_at(o, scheme_separator(), j) by {
                assert(!occurs_at(r, scheme_separator(), j));
                assert(o.subrange(j, j + 3) =~= r.subrange(j, j + 3));
            }
            assert(first_occurrence_at(o, scheme_separator(), i));
            lemma_first_occurrence_unique(o, scheme_separator(), i);
            let after_o = o.subrange(i + 3, o.len() as int);
            assert(after_o =~= authority);
            // The authority holds no '/'.
            assert forall|m: int| 0 <= m < authority.len() implies authority[m] != '/' by {
                match first_char(after, '/') {
                    Some(j) => {
                        let jj = choose|jj: int| first_char_at(after, '/', jj);
                        assert(first_char_at(after, '/', jj));
                        assert(j == jj);
                        assert(authority[m] == after[m]);
                    },
                    None => {
                        if authority[m] == '/' {
                            lemma_char_has_first(after, '/', m);
                        }
                    },
                }
            }
            if first_char(after_o, '/') is Some {
                let q = choose|q: int| first_char_at(after_o, '/', q);
                assert(first_char_at(after_o, '/', q));
                assert(authority[q] == '/');
            }
            assert(first_char(after_o, '/') is None);
            assert(o.subrange(0, i) =~= scheme);
        }
    }
}

/// A resource URI without `://` has no origin, and an origin is always a
/// prefix of its resource with a non-empty scheme and authority.
pub proof fn law_origin_is_prefix(r: Seq<char>)
    ensures
        (forall|i: int| !occurs_at(r, scheme_separator(), i)) ==> spec_resource_origin(r) is None,
        spec_resource_origin(r) matches Some(o) ==> o.len() <= r.len() && r.subrange(
            0,
            o.len() as int,
        ) == o && o.len() > 3,
{
    match first_occurrence(r, scheme_separator()) {
        None => {},
        Some(i) => {
            let k = choose|k: int| first_occurrence_at(r, scheme_separator(), k);
            assert(first_occurrence_at(r, scheme_separator(), k));
            assert(i == k);
            let scheme = r.subrange(0, i);
            let after = r.subrange(i + 3, r.len() as int);
            let authority = match first_char(after, '/') {
                Some(j) => after.subrange(0, j),
                None => after,
            };
            if let Some(j) = first_char(after, '/') {
                let jj = choose|jj: int| first_char_at(after, '/', jj);
                assert(first_char_at(after, '/', jj));
                assert(j == jj);
            }
            if scheme.len() > 0 && after.len() > 0 && authority.len() > 0 {
                let o = scheme + scheme_separator() + authority;
                assert(r.subrange(i, i + 3) == scheme_separator());
                assert(r.subrange(0, o.len() as int) =~= o);
            }
        },
    }
}

} // verus!
