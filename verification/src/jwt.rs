//! JWT validation: which configuration a validation needs, what a token
//! is checked against, where Cloudflare's keys are, which key verifies a
//! token, and whom a validated Cloudflare token names. Signatures and the
//! audience and issuer checks are `jsonwebtoken`'s; expiry is checked
//! here, against a time the caller reads from the clock.

use vstd::prelude::*;
use vstd::string::*;

use jsonwebtoken::{Algorithm, Validation};

use crate::config::{CfJwtConfig, McpOAuthConfig};
use crate::json::{
    all_texts, json_member, opt_text_member, opt_text_value, parsed_member, text_member,
    u64_member, JsonMember, MemberValue,
};
use crate::oauth::{non_empty, unix_now_secs};
use crate::text::{opt_view, str_is, strings_view, to_chars};

verus! {

#[verifier::external_type_specification]
#[verifier::external_body]
pub struct ExDecodingKey(jsonwebtoken::DecodingKey);

/// What a token is validated against besides its signature and expiry.
pub struct TokenChecks {
    /// The name of the signature algorithm the token must use ("HS256",
    /// "RS256", or the one its header names), as `jsonwebtoken` spells it.
    pub algorithm: String,
    /// Registered claims that must be present.
    pub required_claims: Vec<String>,
    /// The audience the token must name.
    pub audience: String,
    /// The issuer the token must name, when one is configured.
    pub issuer: Option<String>,
}

/// What `jsonwebtoken` lets through as the `aud` member `m` of validated
/// claims: a string equal to the expected audience, or a list of strings
/// one of which is; any other form only when `aud` is not required.
pub open spec fn audience_admits(m: Option<MemberValue>, audience: Seq<char>, required: bool) -> bool {
    match m {
        Some(MemberValue::Text(t)) => t == audience,
        Some(MemberValue::List(l)) => if all_texts(l) {
            exists|i: int| 0 <= i < l.len() && l[i] == Some(audience)
        } else {
            !required
        },
        _ => !required,
    }
}

/// What holds of the claims (as JSON text) of a token that passed
/// validation against `audience` and `issuer`.
pub open spec fn claims_pass_checks(
    doc: Seq<char>,
    audience: Seq<char>,
    issuer: Option<Seq<char>>,
    aud_required: bool,
) -> bool {
    &&& (parsed_member(doc, "aud"@) matches Some(MemberValue::Absent) || audience_admits(
        parsed_member(doc, "aud"@),
        audience,
        aud_required,
    ))
    &&& (issuer matches Some(i) ==> (parsed_member(doc, "iss"@) matches Some(MemberValue::Text(t))
        ==> t == i))
}

/// What `jsonwebtoken::decode_header` finds in a token's header: the
/// name of its algorithm and its key identifier (`kid`), or the error's
/// message (which starts "Invalid JWT header: ").
pub uninterp spec fn jwt_header(token: Seq<char>) -> Result<(Seq<char>, Option<Seq<char>>), Seq<char>>;

/// The key identifier a token's header carries (`None` when the header
/// does not decode).
pub open spec fn jwt_header_kid(token: Seq<char>) -> Option<Option<Seq<char>>> {
    match jwt_header(token) {
        Ok((_, kid)) => Some(kid),
        Err(_) => None,
    }
}

pub open spec fn has_prefix(s: Seq<char>, p: Seq<char>) -> bool {
    p.len() <= s.len() && s.subrange(0, p.len() as int) == p
}

pub proof fn lemma_has_prefix(p: Seq<char>, rest: Seq<char>)
    ensures
        has_prefix(p + rest, p),
{
    assert((p + rest).subrange(0, p.len() as int) =~= p);
}

/// `jsonwebtoken::decode_header`: the name of the algorithm the header
/// names (its `Debug` form, which `Algorithm::from_str` reads back) and its
/// key identifier. Claimed: the result is `jwt_header(token)`, and an error
/// has the prefix "Invalid JWT header: ".
#[verifier::external_body]
pub(crate) fn token_header(token: &str) -> (r: Result<(String, Option<String>), String>)
    ensures
        match r {
            Ok((alg, kid)) => jwt_header(token@) == Ok::<(Seq<char>, Option<Seq<char>>), Seq<char>>(
                (alg@, opt_view(kid)),
            ),
            Err(e) => jwt_header(token@) == Err::<(Seq<char>, Option<Seq<char>>), Seq<char>>(e@)
                && has_prefix(e@, "Invalid JWT header: "@),
        },
{
    match jsonwebtoken::decode_header(token) {
        Ok(h) => Ok((format!("{:?}", h.alg), h.kid)),
        Err(e) => Err(format!("Invalid JWT header: {e}")),
    }
}

/// What becomes of a published key given as its JWK JSON text: `Ok` when
/// `serde_json` reads it as a `Jwk` and `DecodingKey::from_jwk` makes a key
/// of it, else the error's message (which starts "Invalid JWK: ").
pub uninterp spec fn jwk_checked(jwk: Seq<char>) -> Result<(), Seq<char>>;

/// `DecodingKey::from_secret` on the secret's bytes (an HMAC key).
#[verifier::external_body]
fn hmac_key(secret: &str) -> jsonwebtoken::DecodingKey {
    jsonwebtoken::DecodingKey::from_secret(secret.as_bytes())
}

/// `serde_json::from_str::<Jwk>` and `DecodingKey::from_jwk` on a published
/// key's JSON text. Claimed: it succeeds or fails as `jwk_checked(jwk)`
/// says, with the prefix "Invalid JWK: " on an error.
#[verifier::external_body]
fn jwk_key(jwk: &str) -> (r: Result<jsonwebtoken::DecodingKey, String>)
    ensures
        match r {
            Ok(_) => jwk_checked(jwk@) == Ok::<(), Seq<char>>(()),
            Err(e) => jwk_checked(jwk@) == Err::<(), Seq<char>>(e@) && has_prefix(
                e@,
                "Invalid JWK: "@,
            ),
        },
{
    match serde_json::from_str::<jsonwebtoken::jwk::Jwk>(jwk) {
        Ok(k) => jsonwebtoken::DecodingKey::from_jwk(&k).map_err(|e| format!("Invalid JWK: {e}")),
        Err(e) => Err(format!("Invalid JWK: {e}")),
    }
}

/// What a signature is checked with: an HMAC secret, or a published key
/// given as its JWK JSON text.
pub enum KeySource {
    Secret(Seq<char>),
    Jwk(Seq<char>),
}

/// A key a token's signature is checked with, with what it was made from.
/// It is made only by `secret_verifying_key` and `jwk_verifying_key`, each
/// of which records its source.
pub struct VerifyingKey {
    key: jsonwebtoken::DecodingKey,
    source: Ghost<KeySource>,
}

impl VerifyingKey {
    /// What the key was made from.
    pub closed spec fn source(&self) -> KeySource {
        self.source@
    }
}

/// The HMAC key made from `secret`.
pub fn secret_verifying_key(secret: &str) -> (r: VerifyingKey)
    ensures
        r.source() == KeySource::Secret(secret@),
{
    VerifyingKey { key: hmac_key(secret), source: Ghost(KeySource::Secret(secret@)) }
}

/// The key made from a published key's JWK JSON text.
pub fn jwk_verifying_key(jwk: &str) -> (r: Result<VerifyingKey, String>)
    ensures
        match r {
            Ok(k) => k.source() == KeySource::Jwk(jwk@) && jwk_checked(jwk@) == Ok::<
                (),
                Seq<char>,
            >(()),
            Err(e) => jwk_checked(jwk@) == Err::<(), Seq<char>>(e@),
        },
{
    match jwk_key(jwk) {
        Ok(key) => Ok(VerifyingKey { key, source: Ghost(KeySource::Jwk(jwk@)) }),
        Err(e) => Err(e),
    }
}

/// The claims a compact JWT carries, as `jsonwebtoken::decode` reads
/// them: the segment between its last two dots, base64url-decoded and
/// parsed by `serde_json`, written back as JSON text (`None` when either
/// step fails).
pub uninterp spec fn jwt_claims(token: Seq<char>) -> Option<Seq<char>>;

/// What `jsonwebtoken::decode` gives for `token` with the key made from
/// `key`, the algorithm named `algorithm`, the required claims, audience
/// and issuer as given, and the expiry left unchecked: the claims as JSON
/// text, or the error's text (an algorithm name `Algorithm::from_str` does
/// not know is such an error).
pub uninterp spec fn jwt_decoded(
    token: Seq<char>,
    key: KeySource,
    algorithm: Seq<char>,
    required: Seq<Seq<char>>,
    audience: Seq<char>,
    issuer: Option<Seq<char>>,
) -> Result<Seq<char>, Seq<char>>;

/// `jsonwebtoken::decode` into a `serde_json::Value`, under a `Validation`
/// made from `checks` (the algorithm read by `Algorithm::from_str`,
/// required claims, audience, issuer; the expiry is not checked here, as
/// that needs the clock), its claims written back as JSON text. Claimed:
/// the result is `jwt_decoded(..)` of the token, the key's source and the
/// checks; claims let through are the token's own (`jwt_claims(token)`),
/// name the audience (when `aud` is required, in a form it reads), and
/// carry the configured issuer when `iss` is a string.
#[verifier::external_body]
pub(crate) fn decode_claims(token: &str, key: &VerifyingKey, checks: &TokenChecks) -> (r: Result<
    String,
    String,
>)
    ensures
        res_text(r) == jwt_decoded(
            token@,
            key.source(),
            checks.algorithm@,
            strings_view(checks.required_claims@),
            checks.audience@,
            opt_view(checks.issuer),
        ),
        r matches Ok(doc) ==> jwt_claims(token@) == Some(doc@) && claims_pass_checks(
            doc@,
            checks.audience@,
            opt_view(checks.issuer),
            strings_view(checks.required_claims@).contains("aud"@),
        ),
{
    let alg = checks.algorithm.parse::<Algorithm>().map_err(|e| e.to_string())?;
    let mut v = Validation::new(alg);
    v.validate_exp = false;
    v.set_required_spec_claims(&checks.required_claims);
    v.set_audience(&[&checks.audience]);
    v.iss = checks.issuer.as_ref().map(|i| std::iter::once(i.clone()).collect());
    jsonwebtoken::decode::<serde_json::Value>(token, &key.key, &v)
        .map(|d| d.claims.to_string())
        .map_err(|e| e.to_string())
}

/// A `Result` of texts, as characters.
pub open spec fn res_text(r: Result<String, String>) -> Result<Seq<char>, Seq<char>> {
    match r {
        Ok(s) => Ok(s@),
        Err(e) => Err(e@),
    }
}

/// A token's expiry `exp` is still good at `now` (seconds since the
/// epoch), with `jsonwebtoken`'s default leeway of 60 seconds: it is
/// expired only when `exp < now - 60`.
pub open spec fn exp_current(exp: u64, now: u64) -> bool {
    exp + 60 >= now
}

/// Is `exp` still good at `now`?
pub fn check_exp(exp: u64, now: u64) -> (r: bool)
    ensures
        r == exp_current(exp, now),
{
    now <= 60 || exp >= now - 60
}

/// What RS256 validation of an MCP token needs from the configuration.
#[derive(Debug)]
pub struct McpRs256Params {
    pub resource: String,
    pub issuer: Option<String>,
}

/// The RS256 validation parameters: the resource must be set and
/// non-empty; the issuer is required only when one is configured non-empty.
pub fn mcp_rs256_params(config: &McpOAuthConfig) -> (r: Result<McpRs256Params, String>)
    ensures
        match r {
            Ok(p) => non_empty(config.resource) == Some(p.resource@) && opt_view(p.issuer)
                == non_empty(config.issuer),
            Err(e) => non_empty(config.resource) is None && e@ == "MCP resource not configured"@,
        },
{
    let resource = match &config.resource {
        Some(s) if s.as_str().unicode_len() > 0 => s.clone(),
        _ => return Err(String::from_str("MCP resource not configured")),
    };
    let issuer = match &config.issuer {
        Some(s) if s.as_str().unicode_len() > 0 => Some(s.clone()),
        _ => None,
    };
    Ok(McpRs256Params { resource, issuer })
}

/// Position of the first key whose identifier is `kid`.
pub open spec fn first_key_with(key_ids: Seq<Option<String>>, kid: Seq<char>, i: int) -> bool {
    &&& 0 <= i < key_ids.len()
    &&& opt_view(key_ids[i]) == Some(kid)
    &&& forall|j: int| 0 <= j < i ==> opt_view(key_ids[j]) != Some(kid)
}

fn find_key(key_ids: &Vec<Option<String>>, kid: &str) -> (r: Option<usize>)
    ensures
        match r {
            Some(i) => first_key_with(key_ids@, kid@, i as int),
            None => forall|j: int| 0 <= j < key_ids@.len() ==> opt_view(key_ids@[j]) != Some(kid@),
        },
{
    let want = to_chars(kid);
    let mut i: usize = 0;
    while i < key_ids.len()
        invariant
            i <= key_ids@.len(),
            want@ == kid@,
            forall|j: int| 0 <= j < i ==> opt_view(key_ids@[j]) != Some(kid@),
        decreases key_ids.len() - i,
    {
        match &key_ids[i] {
            Some(k) => {
                if str_is(k.as_str(), &want) {
                    return Some(i);
                }
            },
            None => {},
        }
        i = i + 1;
    }
    None
}

/// The key that verifies an MCP token: the first one with the token's key
/// identifier; without one, the first key of the set.
pub fn select_mcp_key(key_ids: &Vec<Option<String>>, kid: Option<&str>) -> (r: Result<
    usize,
    String,
>)
    ensures
        match kid {
            Some(k) => match r {
                Ok(i) => first_key_with(key_ids@, k@, i as int),
                Err(e) => (forall|j: int|
                    0 <= j < key_ids@.len() ==> opt_view(key_ids@[j]) != Some(k@)) && e@
                    == "No matching key for kid: "@ + k@,
            },
            None => if key_ids@.len() > 0 {
                r == Ok::<usize, String>(0)
            } else {
                r matches Err(e) && e@ == "JWKS is empty"@
            },
        },
{
    match kid {
        Some(k) => match find_key(key_ids, k) {
            Some(i) => Ok(i),
            None => {
                let mut m = String::from_str("No matching key for kid: ");
                m.append(k);
                Err(m)
            },
        },
        None => {
            if key_ids.len() > 0 {
                Ok(0)
            } else {
                Err(String::from_str("JWKS is empty"))
            }
        },
    }
}

/// The key that verifies a Cloudflare Access token: the first one with
/// the token's key identifier, which the token must carry.
pub fn select_cf_key(key_ids: &Vec<Option<String>>, kid: Option<&str>) -> (r: Result<
    usize,
    String,
>)
    ensures
        match kid {
            Some(k) => match r {
                Ok(i) => first_key_with(key_ids@, k@, i as int),
                Err(e) => (forall|j: int|
                    0 <= j < key_ids@.len() ==> opt_view(key_ids@[j]) != Some(k@)) && e@
                    == "No matching key found for kid: "@ + k@,
            },
            None => r matches Err(e) && e@ == "JWT missing key ID (kid)"@,
        },
{
    match kid {
        Some(k) => match find_key(key_ids, k) {
            Some(i) => Ok(i),
            None => {
                let mut m = String::from_str("No matching key found for kid: ");
                m.append(k);
                Err(m)
            },
        },
        None => Err(String::from_str("JWT missing key ID (kid)")),
    }
}

/// The team and audience a Cloudflare Access token is validated against.
pub fn cf_jwt_params(config: &CfJwtConfig) -> (r: Result<(String, String), String>)
    ensures
        match (config.team_name, config.audience) {
            (Some(t), Some(a)) => r matches Ok((rt, ra)) && rt@ == t@ && ra@ == a@,
            (None, _) => r matches Err(e) && e@ == "Team name not configured"@,
            (Some(_), None) => r matches Err(e) && e@ == "Audience not configured"@,
        },
{
    let team = match &config.team_name {
        Some(t) => t.clone(),
        None => return Err(String::from_str("Team name not configured")),
    };
    let audience = match &config.audience {
        Some(a) => a.clone(),
        None => return Err(String::from_str("Audience not configured")),
    };
    Ok((team, audience))
}

/// Where a Cloudflare Access team publishes its signing keys.
pub fn cf_certs_url(team: &str) -> (r: String)
    ensures
        r@ == "https://"@ + team@ + ".cloudflareaccess.com/cdn-cgi/access/certs"@,
{
    let mut s = String::from_str("https://");
    s.append(team);
    s.append(".cloudflareaccess.com/cdn-cgi/access/certs");
    s
}

/// The issuer of a Cloudflare Access team's tokens.
pub open spec fn spec_cf_issuer(team: Seq<char>) -> Seq<char> {
    "https://"@ + team + ".cloudflareaccess.com"@
}

/// The issuer of a Cloudflare Access team's tokens.
pub fn cf_issuer(team: &str) -> (r: String)
    ensures
        r@ == spec_cf_issuer(team@),
{
    let mut s = String::from_str("https://");
    s.append(team);
    s.append(".cloudflareaccess.com");
    s
}

/// Whom a validated Cloudflare Access token names: its email, else its
/// subject.
pub fn cf_identity(email: Option<String>, sub: String) -> (r: String)
    ensures
        match email {
            Some(e) => r@ == e@,
            None => r@ == sub@,
        },
{
    match email {
        Some(e) => e,
        None => sub,
    }
}

/// The key identifier (`kid`) of a published key given as its JWK JSON
/// text: its `kid` member when that is a string.
pub open spec fn spec_key_kid(jwk: Seq<char>) -> Option<Seq<char>> {
    text_member(parsed_member(jwk, "kid"@))
}

/// The key identifiers of published keys, in order.
pub open spec fn kids_of(keys: Seq<Seq<char>>) -> Seq<Option<Seq<char>>> {
    keys.map_values(|k: Seq<char>| spec_key_kid(k))
}

/// `i` is the first position whose key identifier is `kid`.
pub open spec fn first_kid_at(kids: Seq<Option<Seq<char>>>, kid: Seq<char>, i: int) -> bool {
    &&& 0 <= i < kids.len()
    &&& kids[i] == Some(kid)
    &&& forall|j: int| 0 <= j < i ==> kids[j] != Some(kid)
}

/// The first position whose key identifier is `kid`, if any.
pub open spec fn first_kid(kids: Seq<Option<Seq<char>>>, kid: Seq<char>) -> Option<int> {
    if exists|i: int| first_kid_at(kids, kid, i) {
        Some(choose|i: int| first_kid_at(kids, kid, i))
    } else {
        None
    }
}

proof fn lemma_first_kid(kids: Seq<Option<Seq<char>>>, kid: Seq<char>, i: int)
    requires
        first_kid_at(kids, kid, i),
    ensures
        first_kid(kids, kid) == Some(i),
{
    let k = choose|k: int| first_kid_at(kids, kid, k);
    assert(first_kid_at(kids, kid, k));
    if k < i {
        assert(kids[k] != Some(kid));
    }
    if i < k {
        assert(kids[i] != Some(kid));
    }
}

proof fn lemma_no_kid(kids: Seq<Option<Seq<char>>>, kid: Seq<char>)
    requires
        forall|j: int| 0 <= j < kids.len() ==> kids[j] != Some(kid),
    ensures
        first_kid(kids, kid) is None,
{
}

/// The key identifier of each published key, in order.
pub(crate) fn key_ids(keys: &[String]) -> (r: Vec<Option<String>>)
    ensures
        r.len() == keys.len(),
        forall|j: int| 0 <= j < r.len() ==> opt_view(#[trigger] r@[j]) == kids_of(strings_view(keys@))[j],
{
    let mut ids: Vec<Option<String>> = Vec::new();
    let mut i: usize = 0;
    while i < keys.len()
        invariant
            i <= keys.len(),
            ids.len() == i,
            forall|j: int| 0 <= j < i ==> opt_view(#[trigger] ids@[j]) == kids_of(strings_view(keys@))[j],
        decreases keys.len() - i,
    {
        let id = match json_member(keys[i].as_str(), "kid") {
            Some(JsonMember::Text(t)) => Some(t),
            _ => None,
        };
        ids.push(id);
        i = i + 1;
    }
    ids
}

/// The position of the key a token is checked with, from its header's key
/// identifier: the first published key with that identifier (refused with
/// `missing_prefix` and the identifier when there is none); without an
/// identifier, the first key when `kid_optional` (refused when there are
/// none), else refused as missing a key identifier.
pub open spec fn spec_key_choice(
    keys: Seq<Seq<char>>,
    kid: Option<Seq<char>>,
    kid_optional: bool,
    missing_prefix: Seq<char>,
) -> Result<int, Seq<char>> {
    match kid {
        Some(k) => match first_kid(kids_of(keys), k) {
            Some(i) => Ok(i),
            None => Err(missing_prefix + k),
        },
        None => if !kid_optional {
            Err("JWT missing key ID (kid)"@)
        } else if keys.len() > 0 {
            Ok(0)
        } else {
            Err("JWKS is empty"@)
        },
    }
}

pub(crate) proof fn lemma_selected(ids: Seq<Option<String>>, keys: Seq<Seq<char>>, k: Seq<char>, i: int)
    requires
        ids.len() == keys.len(),
        forall|j: int| 0 <= j < ids.len() ==> opt_view(#[trigger] ids[j]) == kids_of(keys)[j],
        first_key_with(ids, k, i),
    ensures
        first_kid(kids_of(keys), k) == Some(i),
{
    assert forall|j: int| 0 <= j < i implies kids_of(keys)[j] != Some(k) by {
        assert(opt_view(ids[j]) == kids_of(keys)[j]);
    }
    assert(opt_view(ids[i]) == kids_of(keys)[i]);
    lemma_first_kid(kids_of(keys), k, i);
}

pub(crate) proof fn lemma_unselected(ids: Seq<Option<String>>, keys: Seq<Seq<char>>, k: Seq<char>)
    requires
        ids.len() == keys.len(),
        forall|j: int| 0 <= j < ids.len() ==> opt_view(#[trigger] ids[j]) == kids_of(keys)[j],
        forall|j: int| 0 <= j < ids.len() ==> opt_view(ids[j]) != Some(k),
    ensures
        first_kid(kids_of(keys), k) is None,
{
    assert forall|j: int| 0 <= j < kids_of(keys).len() implies kids_of(keys)[j] != Some(k) by {
        assert(opt_view(ids[j]) == kids_of(keys)[j]);
    }
    lemma_no_kid(kids_of(keys), k);
}

/// What a Cloudflare Access token's claims (as JSON text) give: its
/// `email` (absent or `null` for none), its `sub` and its `exp`.
pub open spec fn cf_claims_read(doc: Seq<char>) -> Option<(Option<Seq<char>>, Seq<char>, u64)> {
    match (
        opt_text_member(parsed_member(doc, "email"@)),
        text_member(parsed_member(doc, "sub"@)),
        u64_member(parsed_member(doc, "exp"@)),
    ) {
        (Some(email), Some(sub), Some(exp)) => Some((email, sub, exp)),
        _ => None,
    }
}

/// The verdict on a Cloudflare Access token at `now`, given what its
/// validation gave: a failed validation is reported as such; validated
/// claims must carry a `sub` (and may carry an `email`) and must not have
/// expired; the identity is the email, else the subject.
pub open spec fn spec_cf_verdict(decoded: Result<Seq<char>, Seq<char>>, now: u64) -> Result<
    Seq<char>,
    Seq<char>,
> {
    match decoded {
        Err(e) => Err("JWT validation failed: "@ + e),
        Ok(doc) => match cf_claims_read(doc) {
            None => Err("JWT validation failed: malformed claims"@),
            Some((email, sub, exp)) => if !exp_current(exp, now) {
                Err("JWT validation failed: ExpiredSignature"@)
            } else {
                Ok(
                    match email {
                        Some(e) => e,
                        None => sub,
                    },
                )
            },
        },
    }
}

/// Whom a Cloudflare Access token names at `now`, given what
/// `jsonwebtoken` made of it.
pub fn cf_verdict(decoded: Result<String, String>, now: u64) -> (r: Result<String, String>)
    ensures
        res_text(r) == spec_cf_verdict(res_text(decoded), now),
{
    let doc = match decoded {
        Ok(d) => d,
        Err(e) => {
            let mut m = String::from_str("JWT validation failed: ");
            m.append(e.as_str());
            return Err(m);
        },
    };
    let email = match opt_text_value(json_member(doc.as_str(), "email")) {
        Some(e) => e,
        None => {
            return Err(String::from_str("JWT validation failed: malformed claims"));
        },
    };
    let sub = match json_member(doc.as_str(), "sub") {
        Some(JsonMember::Text(s)) => s,
        _ => {
            return Err(String::from_str("JWT validation failed: malformed claims"));
        },
    };
    let exp = match json_member(doc.as_str(), "exp") {
        Some(JsonMember::Number(Some(n))) => n,
        _ => {
            return Err(String::from_str("JWT validation failed: malformed claims"));
        },
    };
    if !check_exp(exp, now) {
        return Err(String::from_str("JWT validation failed: ExpiredSignature"));
    }
    Ok(cf_identity(email, sub))
}

/// The registered claims a Cloudflare Access token must carry.
pub open spec fn cf_required_claims() -> Seq<Seq<char>> {
    seq!["exp"@]
}

/// The checks a Cloudflare Access token is validated against: RS256, the
/// `exp` claim required, the configured audience and the team's issuer.
pub fn cf_token_checks(audience: &str, team: &str) -> (r: TokenChecks)
    ensures
        r.algorithm@ == "RS256"@,
        strings_view(r.required_claims@) == cf_required_claims(),
        r.audience@ == audience@,
        opt_view(r.issuer) == Some(spec_cf_issuer(team@)),
{
    let required = vec![String::from_str("exp")];
    assert(strings_view(required@) =~= cf_required_claims());
    TokenChecks {
        algorithm: String::from_str("RS256"),
        required_claims: required,
        audience: String::from_str(audience),
        issuer: Some(cf_issuer(team)),
    }
}

/// The key identifier of a Cloudflare Access token, which it must carry.
pub fn cf_token_kid(token: &str) -> (r: Result<String, String>)
    ensures
        match jwt_header(token@) {
            Err(e) => r matches Err(m) && m@ == e && has_prefix(e, "Invalid JWT header: "@),
            Ok((_, None)) => r matches Err(e) && e@ == "JWT missing key ID (kid)"@,
            Ok((_, Some(k))) => r matches Ok(kid) && kid@ == k,
        },
{
    match token_header(token) {
        Err(e) => Err(e),
        Ok((_, None)) => Err(String::from_str("JWT missing key ID (kid)")),
        Ok((_, Some(k))) => Ok(k),
    }
}

/// Validation of a Cloudflare Access token at `now` against the team's
/// published keys (as JWK JSON texts): the configuration errors, the
/// header's, the key choice (the first key with the token's key
/// identifier, which the token must carry), the key's, then the verdict on
/// what `jsonwebtoken` gives with that key, RS256, `exp` required, the
/// configured audience and the team's issuer.
pub open spec fn spec_cf_at(
    token: Seq<char>,
    team: Option<Seq<char>>,
    audience: Option<Seq<char>>,
    keys: Seq<Seq<char>>,
    now: u64,
) -> Result<Seq<char>, Seq<char>> {
    match (team, audience) {
        (None, _) => Err("Team name not configured"@),
        (Some(_), None) => Err("Audience not configured"@),
        (Some(t), Some(a)) => match jwt_header(token) {
            Err(e) => Err(e),
            Ok((_, kid)) => match spec_key_choice(
                keys,
                kid,
                false,
                "No matching key found for kid: "@,
            ) {
                Err(e) => Err(e),
                Ok(i) => match jwk_checked(keys[i]) {
                    Err(e) => Err(e),
                    Ok(()) => spec_cf_verdict(
                        jwt_decoded(
                            token,
                            KeySource::Jwk(keys[i]),
                            "RS256"@,
                            cf_required_claims(),
                            a,
                            Some(spec_cf_issuer(t)),
                        ),
                        now,
                    ),
                },
            },
        },
    }
}

/// `id` is whom the token's own claims name (email, else subject), and
/// those claims passed the audience and issuer checks.
pub open spec fn cf_token_names(token: Seq<char>, audience: Seq<char>, issuer: Seq<char>, id: Seq<char>) -> bool {
    &&& jwt_claims(token) matches Some(doc)
    &&& claims_pass_checks(doc, audience, Some(issuer), false)
    &&& cf_claims_read(doc) matches Some((email, sub, _))
    &&& id == (match email {
        Some(e) => e,
        None => sub,
    })
}

/// Validate a Cloudflare Access JWT at `now` against the team's published
/// keys, given as their JWK JSON texts; the result is whom it names.
pub fn validate_cf_jwt_with_keys_at(
    token: &str,
    config: &CfJwtConfig,
    keys: &[String],
    now: u64,
) -> (r: Result<String, String>)
    ensures
        res_text(r) == spec_cf_at(
            token@,
            opt_view(config.team_name),
            opt_view(config.audience),
            strings_view(keys@),
            now,
        ),
        r matches Ok(id) ==> cf_token_names(
            token@,
            config.audience->0@,
            spec_cf_issuer(config.team_name->0@),
            id@,
        ),
{
    let (team, audience) = match cf_jwt_params(config) {
        Ok(p) => p,
        Err(e) => {
            return Err(e);
        },
    };
    let kid = match cf_token_kid(token) {
        Ok(k) => k,
        Err(e) => {
            return Err(e);
        },
    };
    let ids = key_ids(keys);
    let index = match select_cf_key(&ids, Some(kid.as_str())) {
        Ok(i) => i,
        Err(e) => {
            proof {
                lemma_unselected(ids@, strings_view(keys@), kid@);
            }
            return Err(e);
        },
    };
    proof {
        lemma_selected(ids@, strings_view(keys@), kid@, index as int);
    }
    let key = match jwk_verifying_key(keys[index].as_str()) {
        Ok(k) => k,
        Err(e) => {
            return Err(e);
        },
    };
    let checks = cf_token_checks(audience.as_str(), team.as_str());
    let decoded = decode_claims(token, &key, &checks);
    let r = cf_verdict(decoded, now);
    proof {
        assert("exp"@ != "aud"@) by {
            reveal_strlit("exp");
            reveal_strlit("aud");
            assert("exp"@[0] != "aud"@[0]);
        }
        assert(!cf_required_claims().contains("aud"@));
        if r is Ok {
            assert(cf_token_names(token@, audience@, spec_cf_issuer(team@), r->Ok_0@));
        }
    }
    r
}

/// Validate a Cloudflare Access JWT against the team's published keys
/// (JWK JSON texts): `validate_cf_jwt_with_keys_at` at the time read from
/// the clock, once the configuration is known to be complete.
pub fn validate_cf_jwt_with_keys(token: &str, config: &CfJwtConfig, keys: &[String]) -> (r: Result<
    String,
    String,
>)
    ensures
        config.team_name is None ==> (r matches Err(e) && e@ == "Team name not configured"@),
        config.team_name is Some && config.audience is None ==> (r matches Err(e) && e@
            == "Audience not configured"@),
        config.team_name is Some && config.audience is Some ==> ((r matches Err(e) && has_prefix(
            e@,
            "JWT validation failed: clock error: "@,
        )) || exists|now: u64|
            #[trigger] spec_cf_at(
                token@,
                opt_view(config.team_name),
                opt_view(config.audience),
                strings_view(keys@),
                now,
            ) == res_text(r)),
        r matches Ok(id) ==> cf_token_names(
            token@,
            config.audience->0@,
            spec_cf_issuer(config.team_name->0@),
            id@,
        ),
{
    if let Err(e) = cf_jwt_params(config) {
        return Err(e);
    }
    let now = match unix_now_secs() {
        Ok(n) => n,
        Err(e) => {
            let mut m = String::from_str("JWT validation failed: clock error: ");
            m.append(e.as_str());
            proof {
                lemma_has_prefix("JWT validation failed: clock error: "@, e@);
            }
            return Err(m);
        },
    };
    validate_cf_jwt_with_keys_at(token, config, keys, now)
}

} // verus!
