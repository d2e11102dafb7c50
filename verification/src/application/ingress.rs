//! Browser-origin checks: does a request's `Origin` header name the app's public base URL?

use vstd::prelude::*;
use crate::error::AuthStackError;
use crate::text::{
    chars_of, concat2, eq_ignore_ascii_case, eq_ignore_ascii_case_vec, owned, slice_vec, string_of, trim,
    trim_chars, trim_end_char, trim_end_char_vec, vec_eq, vec_is,
};

verus! {

/// Canonical browser-facing origin fallback when no public base URL is configured.
/// `localhost` (not `127.0.0.1`) so WebAuthn rpId/origin and session cookies share a
/// browser-valid hostname.
pub const DEFAULT_PUBLIC_BASE_URL: &'static str = "http://localhost:3008";

/// The scheme, host and port that `http::Uri` reads out of `value`; `None` when `value`
/// does not parse as a URI, or the URI has no scheme or no authority.
pub uninterp spec fn uri_origin_parts(value: Seq<char>) -> Option<(Seq<char>, Seq<char>, Option<u16>)>;

/// Parses `value` with `http::Uri`'s `FromStr` and returns the URI's `scheme_str()`, its
/// authority's `host()` and `port_u16()`. Trusted: the result is the named
/// `uri_origin_parts` of `value`; what the parser accepts is not restated here.
#[verifier::external_body]
fn parse_uri_origin(value: &str) -> (parts: Option<(String, String, Option<u16>)>)
    ensures
        match parts {
            Some((scheme, host, port)) => uri_origin_parts(value@) == Some((scheme@, host@, port)),
            None => uri_origin_parts(value@) is None,
        },
{
    let uri = value.parse::<http::Uri>().ok()?;
    let scheme = uri.scheme_str()?.to_owned();
    let authority = uri.authority()?;
    Some((scheme, authority.host().to_owned(), authority.port_u16()))
}

/// The parts of a browser origin that are compared.
#[derive(Clone, Debug, PartialEq, Eq)]
pub struct BrowserOrigin {
    pub scheme: String,
    pub host: String,
    pub port: Option<u16>,
}

pub open spec fn is_bracket(c: char) -> bool {
    c == '[' || c == ']'
}

pub open spec fn leading_brackets(s: Seq<char>) -> nat
    decreases s.len(),
{
    if s.len() > 0 && is_bracket(s[0]) {
        1 + leading_brackets(s.drop_first())
    } else {
        0
    }
}

pub open spec fn trailing_brackets(s: Seq<char>) -> nat
    decreases s.len(),
{
    if s.len() > 0 && is_bracket(s.last()) {
        1 + trailing_brackets(s.drop_last())
    } else {
        0
    }
}

/// `host.trim_matches(|c| c == '[' || c == ']')`: an IPv6 literal without its brackets.
pub open spec fn strip_brackets(host: Seq<char>) -> Seq<char> {
    let t = host.subrange(leading_brackets(host) as int, host.len() as int);
    t.subrange(0, t.len() - trailing_brackets(t))
}

/// The origin read from the URI parts (scheme, host, port).
pub open spec fn origin_from_parts(parts: (Seq<char>, Seq<char>, Option<u16>)) -> (Seq<char>, Seq<char>, Option<u16>) {
    (parts.0, strip_brackets(parts.1), parts.2)
}

pub open spec fn origin_model(o: BrowserOrigin) -> (Seq<char>, Seq<char>, Option<u16>) {
    (o.scheme@, o.host@, o.port)
}

/// The origin parsed from `value`, if it parses.
pub open spec fn parsed_origin(value: Seq<char>) -> Option<(Seq<char>, Seq<char>, Option<u16>)> {
    match uri_origin_parts(value) {
        Some(parts) => Some(origin_from_parts(parts)),
        None => None,
    }
}

/// The port in effect: the explicit one, else 443 for `https` and 80 otherwise.
pub open spec fn effective_port(scheme: Seq<char>, port: Option<u16>) -> u16 {
    match port {
        Some(p) => p,
        None => if scheme == "https"@ {
            443
        } else {
            80
        },
    }
}

/// `localhost` (any ASCII case), `127.0.0.1` or `::1`.
pub open spec fn loopback_host(host: Seq<char>) -> bool {
    eq_ignore_ascii_case(host, "localhost"@) || host == "127.0.0.1"@ || host == "::1"@
}

/// Two parsed origins name the same place: same scheme (ASCII case aside), same effective
/// port, and the same host (ASCII case aside) or both loopback.
pub open spec fn origins_agree(
    request: (Seq<char>, Seq<char>, Option<u16>),
    allowed: (Seq<char>, Seq<char>, Option<u16>),
) -> bool {
    &&& eq_ignore_ascii_case(request.0, allowed.0)
    &&& effective_port(request.0, request.2) == effective_port(allowed.0, allowed.2)
    &&& (eq_ignore_ascii_case(request.1, allowed.1) || (loopback_host(request.1) && loopback_host(
        allowed.1,
    )))
}

/// A browser `Origin` header matches the configured public base URL: both trimmed (and
/// the base URL without trailing `/`), they are the same string, or both parse and agree.
pub open spec fn origins_match(request_origin: Seq<char>, allowed_base_url: Seq<char>) -> bool {
    let r = trim(request_origin);
    let a = trim_end_char(trim(allowed_base_url), '/');
    r == a || match (parsed_origin(r), parsed_origin(a)) {
        (Some(ro), Some(ao)) => origins_agree(ro, ao),
        _ => false,
    }
}

impl BrowserOrigin {
    /// The port in effect for this origin.
    pub fn effective_port(&self) -> (port: u16)
        ensures
            port == effective_port(self.scheme@, self.port),
    {
        match self.port {
            Some(p) => p,
            None => if vec_is(&chars_of(self.scheme.as_str()), "https") {
                443
            } else {
                80
            },
        }
    }
}

fn strip_brackets_exec(host: &str) -> (r: String)
    ensures
        r@ == strip_brackets(host@),
{
    let v = chars_of(host);
    let mut a: usize = 0;
    assert(v@.subrange(0, v@.len() as int) =~= v@);
    while a < v.len() && (v[a] == '[' || v[a] == ']')
        invariant
            a <= v@.len(),
            leading_brackets(v@) == a + leading_brackets(v@.subrange(a as int, v@.len() as int)),
        decreases v.len() - a,
    {
        proof {
            let t = v@.subrange(a as int, v@.len() as int);
            assert(t.drop_first() =~= v@.subrange(a as int + 1, v@.len() as int));
        }
        a = a + 1;
    }
    proof {
        assert(v@.subrange(0, v@.len() as int) =~= v@);
    }
    let t = slice_vec(&v, a, v.len());
    let mut b: usize = t.len();
    assert(t@.take(b as int) =~= t@);
    while b > 0 && (t[b - 1] == '[' || t[b - 1] == ']')
        invariant
            b <= t@.len(),
            trailing_brackets(t@) == (t@.len() - b) + trailing_brackets(t@.take(b as int)),
        decreases b,
    {
        proof {
            assert(t@.take(b as int).drop_last() =~= t@.take(b - 1));
        }
        b = b - 1;
    }
    let r = slice_vec(&t, 0, b);
    string_of(&r)
}

/// Reads a browser origin (scheme, host without IPv6 brackets, port) out of `value`.
pub fn parse_browser_origin(value: &str) -> (origin: Option<BrowserOrigin>)
    ensures
        match origin {
            Some(o) => parsed_origin(value@) == Some(origin_model(o)),
            None => parsed_origin(value@) is None,
        },
{
    match parse_uri_origin(value) {
        Some((scheme, host, port)) => {
            let host = strip_brackets_exec(host.as_str());
            Some(BrowserOrigin { scheme, host, port })
        },
        None => None,
    }
}

/// `localhost` (any ASCII case), `127.0.0.1` or `::1`.
pub fn is_loopback_host(host: &str) -> (b: bool)
    ensures
        b == loopback_host(host@),
{
    let h = chars_of(host);
    let localhost = chars_of("localhost");
    eq_ignore_ascii_case_vec(&h, &localhost) || vec_is(&h, "127.0.0.1") || vec_is(&h, "::1")
}

/// Whether two parsed origins name the same place.
pub fn browser_origins_agree(request: &BrowserOrigin, allowed: &BrowserOrigin) -> (b: bool)
    ensures
        b == origins_agree(origin_model(*request), origin_model(*allowed)),
{
    let rs = chars_of(request.scheme.as_str());
    let als = chars_of(allowed.scheme.as_str());
    if !eq_ignore_ascii_case_vec(&rs, &als) {
        return false;
    }
    if request.effective_port() != allowed.effective_port() {
        return false;
    }
    let rh = chars_of(request.host.as_str());
    let ah = chars_of(allowed.host.as_str());
    if eq_ignore_ascii_case_vec(&rh, &ah) {
        return true;
    }
    is_loopback_host(request.host.as_str()) && is_loopback_host(allowed.host.as_str())
}

/// Compares a browser `Origin` header to the configured public base URL. An exact match
/// wins first; otherwise loopback hosts (`localhost`, `127.0.0.1`, `::1`) are
/// interchangeable when scheme and port match, which is how local demos are opened.
pub fn browser_origins_match(request_origin: &str, allowed_base_url: &str) -> (b: bool)
    ensures
        b == origins_match(request_origin@, allowed_base_url@),
{
    let request = trim_chars(request_origin);
    let allowed_trimmed = trim_chars(allowed_base_url);
    let allowed = trim_end_char_vec(&allowed_trimmed, '/');
    if vec_eq(&request, &allowed) {
        return true;
    }
    let request_str = string_of(&request);
    let allowed_str = string_of(&allowed);
    let r = parse_browser_origin(request_str.as_str());
    let a = parse_browser_origin(allowed_str.as_str());
    match (r, a) {
        (Some(ro), Some(ao)) => browser_origins_agree(&ro, &ao),
        _ => false,
    }
}


/// The public base URL in effect: the configured one, else `DEFAULT_PUBLIC_BASE_URL`.
pub fn public_base_url(configured: Option<String>) -> (url: String)
    ensures
        url@ == match configured {
            Some(v) => v@,
            None => DEFAULT_PUBLIC_BASE_URL@,
        },
{
    match configured {
        Some(v) => v,
        None => owned(DEFAULT_PUBLIC_BASE_URL),
    }
}

/// A browser mutation carries an `Origin` header that matches the public base URL.
pub open spec fn browser_origin_verdict(origin: Option<Seq<char>>, allowed_base_url: Seq<char>) -> Option<Seq<char>> {
    match origin {
        None => Some("browser mutation origin is required"@),
        Some(o) => if origins_match(o, allowed_base_url) {
            None
        } else {
            Some("browser mutation origin is not allowed"@)
        },
    }
}

/// Checks the `Origin` header of a browser mutation (`None` when the header is absent or
/// not visible ASCII) against the configured public base URL.
pub fn validate_browser_origin(origin: Option<&str>, allowed_base_url: &str) -> (r: Result<(), AuthStackError>)
    ensures
        match browser_origin_verdict(
            match origin {
                Some(o) => Some(o@),
                None => None,
            },
            allowed_base_url@,
        ) {
            None => r is Ok,
            Some(message) => r matches Err(AuthStackError::Validation { message: m }) && m@ == message,
        },
{
    match origin {
        None => Err(AuthStackError::validation("browser mutation origin is required")),
        Some(o) => if browser_origins_match(o, allowed_base_url) {
            Ok(())
        } else {
            Err(AuthStackError::validation("browser mutation origin is not allowed"))
        },
    }
}

/// The public base URL names a loopback host: it parses (trimmed, without trailing `/`)
/// and its host is `localhost`, `127.0.0.1` or `::1`.
pub open spec fn loopback_base_url(base_url: Seq<char>) -> bool {
    match parsed_origin(trim_end_char(trim(base_url), '/')) {
        Some(o) => loopback_host(o.1),
        None => false,
    }
}

/// Whether the app is served on loopback. Development shortcuts (mail capture, the OAuth
/// callback bypass, derived development secrets) would let anyone take over accounts, so
/// they are only allowed on a developer's own machine: a routable public base URL means
/// real users.
pub fn loopback_public_base_url(base_url: &str) -> (b: bool)
    ensures
        b == loopback_base_url(base_url@),
{
    let t = trim_chars(base_url);
    let cut = trim_end_char_vec(&t, '/');
    let value = string_of(&cut);
    match parse_browser_origin(value.as_str()) {
        Some(origin) => is_loopback_host(origin.host.as_str()),
        None => false,
    }
}

/// Refuses a development surface unless the public base URL is loopback; the error names
/// the surface.
pub fn require_loopback_public_base_url(surface: &str, base_url: &str) -> (r: Result<(), AuthStackError>)
    ensures
        loopback_base_url(base_url@) ==> r is Ok,
        !loopback_base_url(base_url@) ==> (r matches Err(AuthStackError::Configuration { message: m })
            && m@ == surface@ + " requires a loopback AUTH_PUBLIC_BASE_URL"@),
{
    if loopback_public_base_url(base_url) {
        return Ok(());
    }
    let message = concat2(surface, " requires a loopback AUTH_PUBLIC_BASE_URL");
    Err(AuthStackError::configuration(message.as_str()))
}


/// What the trusted-context headers of a request give: none means no trusted context; a
/// context must come as one readable envelope with one readable request id. Each header
/// value is `None` when it is not readable text.
pub open spec fn trusted_context_headers_verdict(
    envelopes: Seq<Option<String>>,
    request_ids: Seq<Option<String>>,
) -> Result<Option<(Seq<char>, Seq<char>)>, AuthStackError> {
    if envelopes.len() == 0 {
        Ok(None)
    } else if envelopes.len() > 1 || envelopes[0] is None || request_ids.len() != 1 || request_ids[0] is None {
        Err(AuthStackError::InvalidCredentials)
    } else {
        Ok(Some((envelopes[0]->0@, request_ids[0]->0@)))
    }
}

/// Reads the trusted-context envelope and request id a request carries.
pub fn trusted_context_headers(
    envelopes: &Vec<Option<String>>,
    request_ids: &Vec<Option<String>>,
) -> (r: Result<Option<(String, String)>, AuthStackError>)
    ensures
        match trusted_context_headers_verdict(envelopes@, request_ids@) {
            Ok(None) => r matches Ok(None),
            Ok(Some((e, q))) => r matches Ok(Some((a, b))) && a@ == e && b@ == q,
            Err(x) => r == Err::<Option<(String, String)>, AuthStackError>(x),
        },
{
    if envelopes.len() == 0 {
        return Ok(None);
    }
    if envelopes.len() > 1 || request_ids.len() != 1 {
        return Err(AuthStackError::InvalidCredentials);
    }
    match (&envelopes[0], &request_ids[0]) {
        (Some(e), Some(q)) => Ok(Some((e.clone(), q.clone()))),
        _ => Err(AuthStackError::InvalidCredentials),
    }
}

/// A trusted context can only be opened with the trusted-ingress key configured.
pub fn require_trusted_context_key(configured: bool) -> (r: Result<(), AuthStackError>)
    ensures
        configured ==> r is Ok,
        !configured ==> (r matches Err(AuthStackError::Configuration { message: m })
            && m@ == "trusted context was supplied without AUTH_TRUSTED_INGRESS_KEY_BASE64"@),
{
    if !configured {
        return Err(AuthStackError::configuration("trusted context was supplied without AUTH_TRUSTED_INGRESS_KEY_BASE64"));
    }
    Ok(())
}

} // verus!
