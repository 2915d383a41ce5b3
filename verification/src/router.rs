//! The HTTP surface around the handlers: the CORS policy and the security
//! headers set on every response.

use vstd::prelude::*;
use vstd::string::*;

use crate::text::{strings_view, to_chars};

verus! {

/// A character a header value may hold: tab, or anything from space on
/// but DEL (non-ASCII characters are sent as their UTF-8 bytes, all valid).
pub open spec fn header_char_ok(c: char) -> bool {
    c == '\t' || (c as u32 >= 32 && c as u32 != 127)
}

pub open spec fn spec_header_value_ok(s: Seq<char>) -> bool {
    forall|i: int| 0 <= i < s.len() ==> header_char_ok(#[trigger] s[i])
}

/// Whether `s` is a valid header value: the rule `http::HeaderValue::from_str`
/// applies to each byte (tab, or 32 and above but 127), read on characters.
fn header_value_ok(s: &str) -> (r: bool)
    ensures
        r == spec_header_value_ok(s@),
{
    let cs = to_chars(s);
    let mut i: usize = 0;
    while i < cs.len()
        invariant
            cs@ == s@,
            i <= cs.len(),
            forall|j: int| 0 <= j < i ==> header_char_ok(#[trigger] s@[j]),
        decreases cs.len() - i,
    {
        let c = cs[i];
        let code = c as u32;
        if !(c == '\t' || (code >= 32 && code != 127)) {
            return false;
        }
        i = i + 1;
    }
    true
}

/// The origins of `os` that are valid header values, in order.
pub open spec fn valid_origins(os: Seq<Seq<char>>) -> Seq<Seq<char>>
    decreases os.len(),
{
    if os.len() == 0 {
        Seq::empty()
    } else {
        let rest = valid_origins(os.drop_last());
        if spec_header_value_ok(os.last()) {
            rest.push(os.last())
        } else {
            rest
        }
    }
}

/// Which origins may make cross-origin requests.
#[derive(Debug)]
pub enum CorsOrigins {
    /// None configured: same-origin only.
    SameOrigin,
    /// The configured origins that are valid header values.
    Listed(Vec<String>),
}

/// The CORS origins for the configured list.
pub fn cors_origins(allowed: &Vec<String>) -> (r: CorsOrigins)
    ensures
        allowed@.len() == 0 ==> r is SameOrigin,
        allowed@.len() > 0 ==> (r matches CorsOrigins::Listed(v) && strings_view(v@)
            == valid_origins(strings_view(allowed@))),
{
    if allowed.len() == 0 {
        return CorsOrigins::SameOrigin;
    }
    let mut out: Vec<String> = Vec::new();
    let mut i: usize = 0;
    while i < allowed.len()
        invariant
            i <= allowed@.len(),
            strings_view(out@) == valid_origins(strings_view(allowed@.take(i as int))),
        decreases allowed.len() - i,
    {
        let ghost pre = strings_view(allowed@.take(i + 1));
        assert(pre.drop_last() =~= strings_view(allowed@.take(i as int)));
        assert(pre.last() == allowed@[i as int]@);
        if header_value_ok(allowed[i].as_str()) {
            out.push(allowed[i].clone());
            assert(strings_view(out@) =~= valid_origins(strings_view(allowed@.take(i as int))).push(
                allowed@[i as int]@,
            ));
        }
        i = i + 1;
    }
    assert(allowed@.take(allowed@.len() as int) =~= allowed@);
    CorsOrigins::Listed(out)
}

/// Methods allowed cross-origin.
pub open spec fn spec_cors_methods() -> Seq<Seq<char>> {
    seq!["GET"@, "POST"@, "PATCH"@, "DELETE"@, "OPTIONS"@]
}

pub fn cors_methods() -> (r: Vec<&'static str>)
    ensures
        r@.map_values(|s: &str| s@) == spec_cors_methods(),
{
    let v = vec!["GET", "POST", "PATCH", "DELETE", "OPTIONS"];
    assert(v@.map_values(|s: &str| s@) =~= spec_cors_methods());
    v
}

/// Request headers allowed cross-origin.
pub open spec fn spec_cors_headers() -> Seq<Seq<char>> {
    seq!["content-type"@, "authorization"@]
}

pub fn cors_headers() -> (r: Vec<&'static str>)
    ensures
        r@.map_values(|s: &str| s@) == spec_cors_headers(),
{
    let v = vec!["content-type", "authorization"];
    assert(v@.map_values(|s: &str| s@) =~= spec_cors_headers());
    v
}

/// The content security policy: scripts from the same origin only,
/// inline styles allowed, images also from `blob:` and `data:`, and no
/// framing.
pub const CONTENT_SECURITY_POLICY: &'static str =
    "default-src 'self'; script-src 'self'; style-src 'self' 'unsafe-inline'; img-src 'self' blob: data:; font-src 'self'; connect-src 'self'; frame-ancestors 'none'";

/// The headers set, overriding, on every response.
pub open spec fn spec_security_headers() -> Seq<(Seq<char>, Seq<char>)> {
    seq![
        ("x-content-type-options"@, "nosniff"@),
        ("x-frame-options"@, "DENY"@),
        ("x-xss-protection"@, "1; mode=block"@),
        ("content-security-policy"@, CONTENT_SECURITY_POLICY@),
    ]
}

pub fn security_headers() -> (r: Vec<(&'static str, &'static str)>)
    ensures
        r@.map_values(|p: (&str, &str)| (p.0@, p.1@)) == spec_security_headers(),
{
    let v = vec![
        ("x-content-type-options", "nosniff"),
        ("x-frame-options", "DENY"),
        ("x-xss-protection", "1; mode=block"),
        ("content-security-policy", CONTENT_SECURITY_POLICY),
    ];
    assert(v@.map_values(|p: (&str, &str)| (p.0@, p.1@)) =~= spec_security_headers());
    v
}

} // verus!
