//! First-party OAuth 2.1 (PKCE) and RFC 8628 device-code authorization for the desktop
//! app: request routing, PKCE checks, the pages shown to the user, and the decisions
//! taken on each grant. Reading requests and writing responses happen around this.

use vstd::prelude::*;
use vstd::utf8::encode_utf8;
use crate::application::auth::percent_byte;
use crate::domain::oauth_client::{desktop_redirect_uri_allowed, redirect_allowed, DESKTOP_CLIENT_ID};
use crate::crypto::{
    base64url, base64url_encode, entropy_error_text, fill_random, sha256, sha256_digest, zeroes,
};
use crate::error::AuthStackError;
use crate::text::{
    chars_of, concat2, contains_seq, contains_vec, index_of, index_of_vec, owned, split_on, split_vec, str_eq, string_of, trim,
    trim_vec, to_lower, lower_chars,
};

verus! {

/// How long an authorization code stays valid, in seconds.
pub const AUTH_CODE_TTL_SECONDS: i64 = 600;

/// How long a device code stays valid, in seconds.
pub const DEVICE_TTL_SECONDS: i64 = 900;

/// How often a device may poll for its token, in seconds.
pub const DEVICE_INTERVAL_SECONDS: i64 = 5;

/// The paths served by the desktop authorization server.
pub open spec fn desktop_oauth_path(path: Seq<char>) -> bool {
    path == "/.well-known/oauth-authorization-server"@ || path == "/oauth/authorize"@ || path
        == "/oauth/token"@ || path == "/oauth/device/code"@ || path == "/login/device"@
}

/// Whether `path` belongs to the desktop authorization server.
pub fn is_desktop_oauth_request(path: &str) -> (b: bool)
    ensures
        b == desktop_oauth_path(path@),
{
    str_eq(path, "/.well-known/oauth-authorization-server") || str_eq(path, "/oauth/authorize")
        || str_eq(path, "/oauth/token") || str_eq(path, "/oauth/device/code") || str_eq(
        path,
        "/login/device",
    )
}

/// The characters allowed in a PKCE code verifier (RFC 7636): ASCII letters and digits
/// and `-`, `.`, `_`, `~`.
pub open spec fn pkce_char(c: char) -> bool {
    ('A' <= c <= 'Z') || ('a' <= c <= 'z') || ('0' <= c <= '9') || c == '-' || c == '.' || c
        == '_' || c == '~'
}

/// A PKCE code verifier: 43 to 128 bytes, all of them allowed characters.
pub open spec fn pkce_verifier_ok(verifier: Seq<char>) -> bool {
    &&& 43 <= encode_utf8(verifier).len() <= 128
    &&& forall|i: int| 0 <= i < verifier.len() ==> pkce_char(#[trigger] verifier[i])
}

/// Whether `verifier` is a well-formed PKCE code verifier.
pub fn pkce_verifier_valid(verifier: &str) -> (b: bool)
    ensures
        b == pkce_verifier_ok(verifier@),
{
    let n = verifier.as_bytes().len();
    if n < 43 || n > 128 {
        return false;
    }
    let chars = chars_of(verifier);
    let mut i: usize = 0;
    while i < chars.len()
        invariant
            43 <= encode_utf8(verifier@).len() <= 128,
            chars@ == verifier@,
            i <= chars@.len(),
            forall|j: int| 0 <= j < i ==> pkce_char(#[trigger] chars@[j]),
        decreases chars.len() - i,
    {
        let c = chars[i];
        if !(('A' <= c && c <= 'Z') || ('a' <= c && c <= 'z') || ('0' <= c && c <= '9') || c == '-'
            || c == '.' || c == '_' || c == '~') {
            return false;
        }
        i = i + 1;
    }
    true
}

/// The unpadded base64url SHA-256 of the UTF-8 text.
pub open spec fn sha256_base64url(text: Seq<char>) -> Seq<char> {
    base64url(sha256(encode_utf8(text)))
}

/// The PKCE `S256` challenge of a code verifier.
pub fn pkce_s256(verifier: &str) -> (challenge: String)
    ensures
        challenge@ == sha256_base64url(verifier@),
{
    let digest = sha256_digest(verifier.as_bytes());
    base64url_encode(digest.as_slice())
}

/// The stored form of a code or token: its unpadded base64url SHA-256.
pub fn sha256_b64(value: &str) -> (hashed: String)
    ensures
        hashed@ == sha256_base64url(value@),
{
    let digest = sha256_digest(value.as_bytes());
    base64url_encode(digest.as_slice())
}

/// How one character appears in HTML text: `&`, `<`, `>` and `"` as entities.
pub open spec fn html_escape_char(c: char) -> Seq<char> {
    if c == '&' {
        "&amp;"@
    } else if c == '<' {
        "&lt;"@
    } else if c == '>' {
        "&gt;"@
    } else if c == '"' {
        "&quot;"@
    } else {
        seq![c]
    }
}

/// `value` escaped for HTML text and attribute values.
pub open spec fn html_escaped(value: Seq<char>) -> Seq<char>
    decreases value.len(),
{
    if value.len() == 0 {
        Seq::empty()
    } else {
        html_escaped(value.drop_last()) + html_escape_char(value.last())
    }
}

fn push_str(out: &mut Vec<char>, s: &str)
    ensures
        final(out)@ == old(out)@ + s@,
{
    let v = chars_of(s);
    let mut i: usize = 0;
    while i < v.len()
        invariant
            v@ == s@,
            i <= v@.len(),
            out@ == old(out)@ + v@.take(i as int),
        decreases v.len() - i,
    {
        out.push(v[i]);
        proof {
            assert(v@.take(i as int + 1) =~= v@.take(i as int).push(v@[i as int]));
        }
        i = i + 1;
    }
    assert(v@.take(v@.len() as int) =~= v@);
}

/// Escapes `&`, `<`, `>` and `"` for HTML.
pub fn html_escape(value: &str) -> (escaped: String)
    ensures
        escaped@ == html_escaped(value@),
{
    let chars = chars_of(value);
    let mut out: Vec<char> = Vec::new();
    let mut i: usize = 0;
    while i < chars.len()
        invariant
            chars@ == value@,
            i <= chars@.len(),
            out@ == html_escaped(value@.take(i as int)),
        decreases chars.len() - i,
    {
        let c = chars[i];
        proof {
            assert(value@.take(i as int + 1).drop_last() =~= value@.take(i as int));
        }
        if c == '&' {
            push_str(&mut out, "&amp;");
        } else if c == '<' {
            push_str(&mut out, "&lt;");
        } else if c == '>' {
            push_str(&mut out, "&gt;");
        } else if c == '"' {
            push_str(&mut out, "&quot;");
        } else {
            out.push(c);
        }
        proof {
            assert(out@ =~= html_escaped(value@.take(i as int + 1)));
        }
        i = i + 1;
    }
    assert(value@.take(value@.len() as int) =~= value@);
    string_of(&out)
}


/// The page shown by the authorization server: `title` as the title and heading, `copy` as the lead paragraph (both escaped), then `body` as given.
pub open spec fn oauth_page_text(title: Seq<char>, copy: Seq<char>, body: Seq<char>) -> Seq<char> {
    "<!DOCTYPE html>\n<html lang=\"en\"><head><meta charset=\"utf-8\" /><meta name=\"viewport\" content=\"width=device-width, initial-scale=1\" />\n<title>"@ + html_escaped(title) + "</title>\n<style>\nbody { font-family: ui-sans-serif, system-ui, sans-serif; background:#0d0d0d; color:#f5f5f5; margin:0; }\nmain { max-width: 28rem; margin: 12vh auto; padding: 1.5rem; }\nh1 { font-size: 1.4rem; } p { color:#c4c4c4; }\nbutton, input { font: inherit; padding: .55rem .8rem; border-radius: .5rem; }\nbutton { background:#fff; color:#111; border:0; cursor:pointer; }\ninput { width:100%; box-sizing:border-box; margin:.35rem 0 1rem; background:#1a1a1a; color:#fff; border:1px solid #333; }\nlabel { display:block; font-size:.85rem; }\n</style></head>\n<body><main><p>Buwiz</p><h1>"@ + html_escaped(title) + "</h1><p>"@ + html_escaped(copy) + "</p>"@ + body + "</main></body></html>"@
}

/// An authorization-server page with an escaped title and copy around the given body.
pub fn oauth_page(title: &str, copy: &str, body: &str) -> (page: String)
    ensures
        page@ == oauth_page_text(title@, copy@, body@),
{
    let mut out: Vec<char> = Vec::new();
    push_str(&mut out, "<!DOCTYPE html>\n<html lang=\"en\"><head><meta charset=\"utf-8\" /><meta name=\"viewport\" content=\"width=device-width, initial-scale=1\" />\n<title>");
    let e0 = html_escape(title);
    push_str(&mut out, e0.as_str());
    push_str(&mut out, "</title>\n<style>\nbody { font-family: ui-sans-serif, system-ui, sans-serif; background:#0d0d0d; color:#f5f5f5; margin:0; }\nmain { max-width: 28rem; margin: 12vh auto; padding: 1.5rem; }\nh1 { font-size: 1.4rem; } p { color:#c4c4c4; }\nbutton, input { font: inherit; padding: .55rem .8rem; border-radius: .5rem; }\nbutton { background:#fff; color:#111; border:0; cursor:pointer; }\ninput { width:100%; box-sizing:border-box; margin:.35rem 0 1rem; background:#1a1a1a; color:#fff; border:1px solid #333; }\nlabel { display:block; font-size:.85rem; }\n</style></head>\n<body><main><p>Buwiz</p><h1>");
    let e1 = html_escape(title);
    push_str(&mut out, e1.as_str());
    push_str(&mut out, "</h1><p>");
    let e2 = html_escape(copy);
    push_str(&mut out, e2.as_str());
    push_str(&mut out, "</p>");
    push_str(&mut out, body);
    push_str(&mut out, "</main></body></html>");
    assert(out@ =~= oauth_page_text(title@, copy@, body@));
    string_of(&out)
}

/// The consent form of `/oauth/authorize`: the request parameters and CSRF token as hidden fields and the signed-in user named in the prompt, every value escaped.
pub open spec fn authorize_form_text(client_id: Seq<char>, redirect_uri: Seq<char>, state: Seq<char>, challenge: Seq<char>, csrf: Seq<char>, user_label: Seq<char>) -> Seq<char> {
    "<form method=\"post\" action=\"/oauth/authorize\">\n<input type=\"hidden\" name=\"client_id\" value=\""@ + html_escaped(client_id) + "\" />\n<input type=\"hidden\" name=\"redirect_uri\" value=\""@ + html_escaped(redirect_uri) + "\" />\n<input type=\"hidden\" name=\"state\" value=\""@ + html_escaped(state) + "\" />\n<input type=\"hidden\" name=\"code_challenge\" value=\""@ + html_escaped(challenge) + "\" />\n<input type=\"hidden\" name=\"code_challenge_method\" value=\"S256\" />\n<input type=\"hidden\" name=\"csrf\" value=\""@ + html_escaped(csrf) + "\" />\n<p>Authorize <strong>Buwiz desktop</strong> to sign in as "@ + html_escaped(user_label) + " and access tax profiles.</p>\n<button type=\"submit\">Authorize desktop app</button>\n</form>"@
}

/// The consent form that posts the authorization request back with the CSRF token.
pub fn authorize_form(client_id: &str, redirect_uri: &str, state: &str, challenge: &str, csrf: &str, user_label: &str) -> (page: String)
    ensures
        page@ == authorize_form_text(client_id@, redirect_uri@, state@, challenge@, csrf@, user_label@),
{
    let mut out: Vec<char> = Vec::new();
    push_str(&mut out, "<form method=\"post\" action=\"/oauth/authorize\">\n<input type=\"hidden\" name=\"client_id\" value=\"");
    let e0 = html_escape(client_id);
    push_str(&mut out, e0.as_str());
    push_str(&mut out, "\" />\n<input type=\"hidden\" name=\"redirect_uri\" value=\"");
    let e1 = html_escape(redirect_uri);
    push_str(&mut out, e1.as_str());
    push_str(&mut out, "\" />\n<input type=\"hidden\" name=\"state\" value=\"");
    let e2 = html_escape(state);
    push_str(&mut out, e2.as_str());
    push_str(&mut out, "\" />\n<input type=\"hidden\" name=\"code_challenge\" value=\"");
    let e3 = html_escape(challenge);
    push_str(&mut out, e3.as_str());
    push_str(&mut out, "\" />\n<input type=\"hidden\" name=\"code_challenge_method\" value=\"S256\" />\n<input type=\"hidden\" name=\"csrf\" value=\"");
    let e4 = html_escape(csrf);
    push_str(&mut out, e4.as_str());
    push_str(&mut out, "\" />\n<p>Authorize <strong>Buwiz desktop</strong> to sign in as ");
    let e5 = html_escape(user_label);
    push_str(&mut out, e5.as_str());
    push_str(&mut out, " and access tax profiles.</p>\n<button type=\"submit\">Authorize desktop app</button>\n</form>");
    assert(out@ =~= authorize_form_text(client_id@, redirect_uri@, state@, challenge@, csrf@, user_label@));
    string_of(&out)
}

/// The form of `/login/device`: the CSRF token and the user code, escaped.
pub open spec fn device_form_text(csrf: Seq<char>, user_code: Seq<char>) -> Seq<char> {
    "<form method=\"post\" action=\"/login/device\">\n<input type=\"hidden\" name=\"csrf\" value=\""@ + html_escaped(csrf) + "\" />\n<label>User code\n<input name=\"user_code\" value=\""@ + html_escaped(user_code) + "\" autocomplete=\"one-time-code\" required />\n</label>\n<button type=\"submit\">Authorize this device</button>\n</form>"@
}

/// The form on which a signed-in user confirms a device's user code.
pub fn device_form(csrf: &str, user_code: &str) -> (page: String)
    ensures
        page@ == device_form_text(csrf@, user_code@),
{
    let mut out: Vec<char> = Vec::new();
    push_str(&mut out, "<form method=\"post\" action=\"/login/device\">\n<input type=\"hidden\" name=\"csrf\" value=\"");
    let e0 = html_escape(csrf);
    push_str(&mut out, e0.as_str());
    push_str(&mut out, "\" />\n<label>User code\n<input name=\"user_code\" value=\"");
    let e1 = html_escape(user_code);
    push_str(&mut out, e1.as_str());
    push_str(&mut out, "\" autocomplete=\"one-time-code\" required />\n</label>\n<button type=\"submit\">Authorize this device</button>\n</form>");
    assert(out@ =~= device_form_text(csrf@, user_code@));
    string_of(&out)
}


/// The bytes that `application/x-www-form-urlencoded` leaves as they are: `*`, `-`, `.`,
/// `_` and ASCII letters and digits.
pub open spec fn form_unchanged(b: u8) -> bool {
    b == 42 || b == 45 || b == 46 || (48 <= b <= 57) || (65 <= b <= 90) || b == 95 || (97 <= b
        <= 122)
}

/// Bytes serialised as `application/x-www-form-urlencoded`: unchanged bytes as their
/// ASCII character, space as `+`, every other byte as `%XX` (upper-case hex).
pub open spec fn form_serialized(bytes: Seq<u8>) -> Seq<char>
    decreases bytes.len(),
{
    if bytes.len() == 0 {
        Seq::empty()
    } else {
        form_serialized(bytes.drop_last()) + if form_unchanged(bytes.last()) {
            seq![bytes.last() as char]
        } else if bytes.last() == 32 {
            seq!['+']
        } else {
            percent_byte(bytes.last())
        }
    }
}

/// `form_urlencoded::byte_serialize`, collected into a string. Trusted: the text is the
/// byte-by-byte form serialisation stated by `form_serialized`, as the crate's source
/// writes it.
#[verifier::external_body]
fn form_byte_serialize(bytes: &[u8]) -> (text: String)
    ensures
        text@ == form_serialized(bytes@),
{
    form_urlencoded::byte_serialize(bytes).collect()
}

/// `value` encoded for a URL query or form field.
pub fn urlencoding_encode(value: &str) -> (encoded: String)
    ensures
        encoded@ == form_serialized(encode_utf8(value@)),
{
    form_byte_serialize(value.as_bytes())
}

/// The name/value pairs that `form_urlencoded::parse` reads out of `input`, in order.
pub uninterp spec fn form_pairs(input: Seq<u8>) -> Seq<(Seq<char>, Seq<char>)>;

pub open spec fn pair_views(pairs: Seq<(String, String)>) -> Seq<(Seq<char>, Seq<char>)> {
    pairs.map_values(|p: (String, String)| (p.0@, p.1@))
}

/// `form_urlencoded::parse(input).into_owned()`, collected. Trusted: the pairs are the
/// named `form_pairs` of the input; splitting and percent-decoding are not restated.
#[verifier::external_body]
fn parse_form_pairs(input: &[u8]) -> (pairs: Vec<(String, String)>)
    ensures
        pair_views(pairs@) == form_pairs(input@),
{
    form_urlencoded::parse(input).into_owned().collect()
}

/// The parameters of a URL query string, in order.
pub fn query_map(query: &str) -> (pairs: Vec<(String, String)>)
    ensures
        pair_views(pairs@) == form_pairs(encode_utf8(query@)),
{
    parse_form_pairs(query.as_bytes())
}

/// The fields of a form-encoded request body, in order.
pub fn form_map(body: &[u8]) -> (pairs: Vec<(String, String)>)
    ensures
        pair_views(pairs@) == form_pairs(body@),
{
    parse_form_pairs(body)
}

/// What `serde_json::from_slice::<serde_json::Value>` reads out of `body`: `Ok(Some(..))`
/// with the object's entries in key order (a string's contents, `None` for null, any other
/// value as its JSON text), `Ok(None)` when the body is JSON but not an object, or the
/// parse error's message.
pub uninterp spec fn json_object_entries(body: Seq<u8>) -> Result<Option<Seq<(Seq<char>, Option<Seq<char>>)>>, Seq<char>>;

pub open spec fn entry_views(entries: Seq<(String, Option<String>)>) -> Seq<(Seq<char>, Option<Seq<char>>)> {
    entries.map_values(
        |e: (String, Option<String>)|
            (
                e.0@,
                match e.1 {
                    Some(v) => Some(v@),
                    None => None,
                },
            ),
    )
}

pub open spec fn parsed_view(r: Result<Option<Vec<(String, Option<String>)>>, String>) -> Result<
    Option<Seq<(Seq<char>, Option<Seq<char>>)>>,
    Seq<char>,
> {
    match r {
        Ok(Some(entries)) => Ok(Some(entry_views(entries@))),
        Ok(None) => Ok(None),
        Err(e) => Err(e@),
    }
}

/// `serde_json::from_slice::<serde_json::Value>(body)`, with an object's entries read out.
/// Trusted: the result is the named `json_object_entries` of the body; JSON syntax and
/// rendering are not restated.
#[verifier::external_body]
fn parse_json_object(body: &[u8]) -> (r: Result<Option<Vec<(String, Option<String>)>>, String>)
    ensures
        parsed_view(r) == json_object_entries(body@),
{
    match serde_json::from_slice::<serde_json::Value>(body) {
        Ok(serde_json::Value::Object(map)) => Ok(Some(map.into_iter().map(|(k, v)| (k, match v {
            serde_json::Value::String(text) => Some(text),
            serde_json::Value::Null => None,
            other => Some(other.to_string()),
        })).collect())),
        Ok(_) => Ok(None),
        Err(error) => Err(error.to_string()),
    }
}

/// The entries that carry a value (nulls dropped), in order.
pub open spec fn non_null_entries(entries: Seq<(Seq<char>, Option<Seq<char>>)>) -> Seq<(Seq<char>, Seq<char>)>
    decreases entries.len(),
{
    if entries.len() == 0 {
        Seq::empty()
    } else {
        let rest = non_null_entries(entries.drop_last());
        match entries.last().1 {
            Some(v) => rest.push((entries.last().0, v)),
            None => rest,
        }
    }
}

fn non_null_fields(entries: &Vec<(String, Option<String>)>) -> (fields: Vec<(String, String)>)
    ensures
        pair_views(fields@) == non_null_entries(entry_views(entries@)),
{
    let ghost ev = entry_views(entries@);
    let mut fields: Vec<(String, String)> = Vec::new();
    let mut i: usize = 0;
    while i < entries.len()
        invariant
            ev == entry_views(entries@),
            i <= entries@.len(),
            pair_views(fields@) == non_null_entries(ev.take(i as int)),
        decreases entries.len() - i,
    {
        assert(ev.take(i + 1).drop_last() =~= ev.take(i as int));
        let entry = &entries[i];
        match &entry.1 {
            Some(v) => {
                fields.push((entry.0.clone(), v.clone()));
                assert(pair_views(fields@) =~= non_null_entries(ev.take(i as int)).push((entry.0@, v@)));
            },
            None => {},
        }
        i = i + 1;
    }
    assert(ev.take(entries@.len() as int) =~= ev);
    fields
}

/// The content type names a JSON body.
pub open spec fn json_content(content_type: Seq<char>) -> bool {
    contains_seq(to_lower(content_type), "application/json"@)
}

/// The fields of a request body: for a JSON content type, the body's object entries with
/// a value (strings as their contents, other values as JSON text; nothing when the body is
/// not an object), or a validation error on invalid JSON; otherwise the form fields.
pub fn form_or_json_fields(content_type: &str, body: &[u8]) -> (r: Result<Vec<(String, String)>, AuthStackError>)
    ensures
        !json_content(content_type@) ==> (r matches Ok(p) && pair_views(p@) == form_pairs(body@)),
        json_content(content_type@) ==> match json_object_entries(body@) {
            Err(e) => (r matches Err(AuthStackError::Validation { message }) && message@ == "invalid JSON: "@ + e),
            Ok(None) => (r matches Ok(p) && p@.len() == 0),
            Ok(Some(es)) => (r matches Ok(p) && pair_views(p@) == non_null_entries(es)),
        },
{
    let lowered = lower_chars(&chars_of(content_type));
    if !contains_vec(&lowered, "application/json") {
        return Ok(form_map(body));
    }
    match parse_json_object(body) {
        Err(e) => Err(AuthStackError::validation(concat2("invalid JSON: ", e.as_str()).as_str())),
        Ok(None) => Ok(Vec::new()),
        Ok(Some(entries)) => Ok(non_null_fields(&entries)),
    }
}

/// The value of the last pair named `key` (a later pair overrides an earlier one, as in a
/// map built from the pairs).
pub open spec fn last_value(pairs: Seq<(Seq<char>, Seq<char>)>, key: Seq<char>) -> Option<Seq<char>>
    decreases pairs.len(),
{
    if pairs.len() == 0 {
        None
    } else if pairs.last().0 == key {
        Some(pairs.last().1)
    } else {
        last_value(pairs.drop_last(), key)
    }
}

/// The value of the parameter `key`, if any.
pub fn param(pairs: &Vec<(String, String)>, key: &str) -> (value: Option<String>)
    ensures
        match value {
            Some(v) => last_value(pair_views(pairs@), key@) == Some(v@),
            None => last_value(pair_views(pairs@), key@) is None,
        },
{
    let ghost views = pair_views(pairs@);
    let mut n: usize = pairs.len();
    assert(views.take(n as int) =~= views);
    while n > 0
        invariant
            views == pair_views(pairs@),
            n <= pairs@.len(),
            last_value(views, key@) == last_value(views.take(n as int), key@),
        decreases n,
    {
        let pair = &pairs[n - 1];
        proof {
            assert(views.take(n as int).drop_last() =~= views.take(n - 1));
            assert(views.take(n as int).last() == (pair.0@, pair.1@));
        }
        if str_eq(pair.0.as_str(), key) {
            return Some(pair.1.clone());
        }
        n = n - 1;
    }
    None
}

/// The value of the parameter `key`, or empty.
pub fn param_or_empty(pairs: &Vec<(String, String)>, key: &str) -> (value: String)
    ensures
        value@ == match last_value(pair_views(pairs@), key@) {
            Some(v) => v,
            None => Seq::empty(),
        },
{
    match param(pairs, key) {
        Some(v) => v,
        None => String::new(),
    }
}

/// Why an authorization request is refused, if it is: an unknown client, a response type
/// other than `code`, a challenge method other than `S256`, a challenge shorter than 43
/// bytes, or a redirect the desktop client may not use, checked in that order.
pub open spec fn authorize_params_error(
    client_id: Seq<char>,
    redirect_uri: Seq<char>,
    challenge: Seq<char>,
    method: Seq<char>,
    response_type: Seq<char>,
    extra: Seq<String>,
) -> Option<Seq<char>> {
    if client_id != DESKTOP_CLIENT_ID@ {
        Some("unknown client_id (use buwiz-desktop)"@)
    } else if response_type != "code"@ {
        Some("response_type must be code"@)
    } else if method != "S256"@ {
        Some("code_challenge_method must be S256"@)
    } else if encode_utf8(challenge).len() < 43 {
        Some("code_challenge is required"@)
    } else if !redirect_allowed(redirect_uri, extra) {
        Some("redirect_uri is not allowed for the desktop client"@)
    } else {
        None
    }
}

/// Checks an authorization request of the desktop client; `extra` holds the deployment's
/// additional allowed redirects.
pub fn validate_authorize_params(
    client_id: &str,
    redirect_uri: &str,
    challenge: &str,
    method: &str,
    response_type: &str,
    extra: &[String],
) -> (r: Result<(), String>)
    ensures
        match authorize_params_error(client_id@, redirect_uri@, challenge@, method@, response_type@, extra@) {
            None => r is Ok,
            Some(message) => r matches Err(m) && m@ == message,
        },
{
    if !str_eq(client_id, DESKTOP_CLIENT_ID) {
        return Err(owned("unknown client_id (use buwiz-desktop)"));
    }
    if !str_eq(response_type, "code") {
        return Err(owned("response_type must be code"));
    }
    if !str_eq(method, "S256") {
        return Err(owned("code_challenge_method must be S256"));
    }
    if challenge.as_bytes().len() < 43 {
        return Err(owned("code_challenge is required"));
    }
    if !desktop_redirect_uri_allowed(redirect_uri, extra) {
        return Err(owned("redirect_uri is not allowed for the desktop client"));
    }
    Ok(())
}

/// The value of field `key`, or empty when the form has none.
pub open spec fn field_or_empty(fields: Seq<(String, String)>, key: Seq<char>) -> Seq<char> {
    match last_value(pair_views(fields), key) {
        Some(v) => v,
        None => Seq::empty(),
    }
}

/// The challenge method of an authorization form: `S256` when the form names none.
pub open spec fn form_challenge_method(fields: Seq<(String, String)>) -> Seq<char> {
    match last_value(pair_views(fields), "code_challenge_method"@) {
        Some(v) => v,
        None => "S256"@,
    }
}

/// Checks the authorization request that the consent form posts back (response type
/// `code`; a missing challenge method counts as `S256`), with the deployment's extra
/// allowed redirects.
pub fn authorize_form_check(fields: &Vec<(String, String)>, extra: &[String]) -> (r: Result<(), String>)
    ensures
        match authorize_params_error(
            field_or_empty(fields@, "client_id"@),
            field_or_empty(fields@, "redirect_uri"@),
            field_or_empty(fields@, "code_challenge"@),
            form_challenge_method(fields@),
            "code"@,
            extra@,
        ) {
            None => r is Ok,
            Some(message) => (r matches Err(m) && m@ == message),
        },
{
    let method = match param(fields, "code_challenge_method") {
        Some(m) => m,
        None => owned("S256"),
    };
    validate_authorize_params(
        param_or_empty(fields, "client_id").as_str(),
        param_or_empty(fields, "redirect_uri").as_str(),
        param_or_empty(fields, "code_challenge").as_str(),
        method.as_str(),
        "code",
        extra,
    )
}

/// The trimmed, non-blank pieces of a comma-separated list, in order.
pub open spec fn listed_values(pieces: Seq<Seq<char>>) -> Seq<Seq<char>>
    decreases pieces.len(),
{
    if pieces.len() == 0 {
        Seq::empty()
    } else if trim(pieces.last()).len() > 0 {
        listed_values(pieces.drop_last()).push(trim(pieces.last()))
    } else {
        listed_values(pieces.drop_last())
    }
}

/// The extra redirect URIs configured as a comma-separated list.
pub fn redirect_list(raw: &str) -> (uris: Vec<String>)
    ensures
        uris@.map_values(|u: String| u@) == listed_values(split_on(raw@, ',')),
{
    let chars = chars_of(raw);
    let pieces = split_vec(&chars, ',');
    let ghost views = pieces@.map_values(|p: Vec<char>| p@);
    let mut uris: Vec<String> = Vec::new();
    let mut i: usize = 0;
    while i < pieces.len()
        invariant
            views == pieces@.map_values(|p: Vec<char>| p@),
            views == split_on(raw@, ','),
            i <= pieces@.len(),
            uris@.map_values(|u: String| u@) == listed_values(views.take(i as int)),
        decreases pieces.len() - i,
    {
        let t = trim_vec(&pieces[i]);
        proof {
            assert(views.take(i as int + 1).drop_last() =~= views.take(i as int));
            assert(views.take(i as int + 1).last() == pieces@[i as int]@);
        }
        let ghost before = uris@.map_values(|u: String| u@);
        if t.len() > 0 {
            let s = string_of(&t);
            uris.push(s);
            assert(uris@.map_values(|u: String| u@) =~= before.push(t@));
        }
        i = i + 1;
    }
    assert(views.take(views.len() as int) =~= views);
    uris
}

/// Where the browser goes after consent: the redirect URI with `code` (and `state`, when
/// one was sent) appended as query parameters.
pub open spec fn authorize_location_text(redirect_uri: Seq<char>, code: Seq<char>, state: Seq<char>) -> Seq<char> {
    redirect_uri + (if index_of(redirect_uri, '?') >= 0 {
        "&"@
    } else {
        "?"@
    }) + "code="@ + form_serialized(encode_utf8(code)) + if state.len() > 0 {
        "&state="@ + form_serialized(encode_utf8(state))
    } else {
        Seq::empty()
    }
}

/// The redirect that hands an authorization code back to the desktop client.
pub fn authorize_location(redirect_uri: &str, code: &str, state: &str) -> (location: String)
    ensures
        location@ == authorize_location_text(redirect_uri@, code@, state@),
{
    let r = chars_of(redirect_uri);
    let sep = if index_of_vec(&r, '?').is_some() {
        "&"
    } else {
        "?"
    };
    let a = concat2(redirect_uri, sep);
    let b = concat2(a.as_str(), "code=");
    let code_enc = urlencoding_encode(code);
    let mut location = concat2(b.as_str(), code_enc.as_str());
    if state.as_bytes().len() > 0 {
        let with_key = concat2(location.as_str(), "&state=");
        let state_enc = urlencoding_encode(state);
        location = concat2(with_key.as_str(), state_enc.as_str());
    }
    proof {
        reveal_strlit("");
        if state@.len() == 0 {
            assert(encode_utf8(state@) =~= Seq::<u8>::empty());
        }
    }
    assert(location@ =~= authorize_location_text(redirect_uri@, code@, state@));
    location
}

/// The sign-in redirect that comes back to `next` afterwards.
pub fn login_redirect_location(next: &str) -> (location: String)
    ensures
        location@ == "/login?next="@ + form_serialized(encode_utf8(next@)),
{
    let encoded = urlencoding_encode(next);
    concat2("/login?next=", encoded.as_str())
}


/// An OAuth error answer: the HTTP status, the `error` code and its description.
#[derive(Clone, Copy, Debug)]
pub struct OAuthErrorReply {
    pub status: u16,
    pub error: &'static str,
    pub description: &'static str,
}

/// An error answer with status 400 Bad Request.
pub open spec fn bad_request(r: OAuthErrorReply, error: Seq<char>, description: Seq<char>) -> bool {
    r.status == 400 && r.error@ == error && r.description@ == description
}

/// The grant types the token endpoint serves.
#[derive(Clone, Copy, Debug, PartialEq, Eq, Structural)]
pub enum TokenGrant {
    AuthorizationCode,
    RefreshToken,
    DeviceCode,
}

/// The grant a token request asks for.
pub open spec fn grant_of(grant_type: Seq<char>) -> Option<TokenGrant> {
    if grant_type == "authorization_code"@ {
        Some(TokenGrant::AuthorizationCode)
    } else if grant_type == "refresh_token"@ {
        Some(TokenGrant::RefreshToken)
    } else if grant_type == "urn:ietf:params:oauth:grant-type:device_code"@ {
        Some(TokenGrant::DeviceCode)
    } else {
        None
    }
}

/// Which grant a token request asks for; any other grant type is answered
/// `unsupported_grant_type`.
pub fn token_grant(grant_type: &str) -> (r: Result<TokenGrant, OAuthErrorReply>)
    ensures
        match grant_of(grant_type@) {
            Some(g) => r == Ok::<TokenGrant, OAuthErrorReply>(g),
            None => r matches Err(e) && bad_request(
                e,
                "unsupported_grant_type"@,
                "grant_type is not supported"@,
            ),
        },
{
    if str_eq(grant_type, "authorization_code") {
        Ok(TokenGrant::AuthorizationCode)
    } else if str_eq(grant_type, "refresh_token") {
        Ok(TokenGrant::RefreshToken)
    } else if str_eq(grant_type, "urn:ietf:params:oauth:grant-type:device_code") {
        Ok(TokenGrant::DeviceCode)
    } else {
        Err(
            OAuthErrorReply {
                status: 400,
                error: "unsupported_grant_type",
                description: "grant_type is not supported",
            },
        )
    }
}

/// The client of a grant must be the desktop client, else `invalid_client`.
pub fn desktop_client_check(client_id: &str) -> (r: Result<(), OAuthErrorReply>)
    ensures
        client_id@ == DESKTOP_CLIENT_ID@ ==> r is Ok,
        client_id@ != DESKTOP_CLIENT_ID@ ==> (r matches Err(e) && bad_request(
            e,
            "invalid_client"@,
            "client_id is unknown"@,
        )),
{
    if str_eq(client_id, DESKTOP_CLIENT_ID) {
        Ok(())
    } else {
        Err(
            OAuthErrorReply {
                status: 400,
                error: "invalid_client",
                description: "client_id is unknown",
            },
        )
    }
}

/// What an authorization-code grant is checked for before its code is looked up: the
/// desktop client, then a well-formed PKCE verifier (else `invalid_request`).
pub fn authorization_code_request_check(client_id: &str, verifier: &str) -> (r: Result<(), OAuthErrorReply>)
    ensures
        client_id@ != DESKTOP_CLIENT_ID@ ==> (r matches Err(e) && bad_request(
            e,
            "invalid_client"@,
            "client_id is unknown"@,
        )),
        client_id@ == DESKTOP_CLIENT_ID@ && !pkce_verifier_ok(verifier@) ==> (r matches Err(e)
            && bad_request(e, "invalid_request"@, "code_verifier is invalid"@)),
        client_id@ == DESKTOP_CLIENT_ID@ && pkce_verifier_ok(verifier@) ==> r is Ok,
{
    desktop_client_check(client_id)?;
    if !pkce_verifier_valid(verifier) {
        return Err(
            OAuthErrorReply {
                status: 400,
                error: "invalid_request",
                description: "code_verifier is invalid",
            },
        );
    }
    Ok(())
}

/// What an authorization-code grant is checked for once its code was found: the code was
/// issued to this client for this redirect (else `invalid_grant`), and the verifier's
/// `S256` challenge is the stored one (else `invalid_grant`).
pub fn authorization_code_stored_check(
    client_id: &str,
    redirect_uri: &str,
    verifier: &str,
    stored_client_id: &str,
    stored_redirect_uri: &str,
    stored_challenge: &str,
) -> (r: Result<(), OAuthErrorReply>)
    ensures
        (stored_client_id@ != client_id@ || stored_redirect_uri@ != redirect_uri@) ==> (r matches Err(
            e,
        ) && bad_request(e, "invalid_grant"@, "redirect_uri does not match"@)),
        (stored_client_id@ == client_id@ && stored_redirect_uri@ == redirect_uri@) ==> if sha256_base64url(
            verifier@,
        ) == stored_challenge@ {
            r is Ok
        } else {
            r matches Err(e) && bad_request(e, "invalid_grant"@, "PKCE verification failed"@)
        },
{
    if !str_eq(stored_client_id, client_id) || !str_eq(stored_redirect_uri, redirect_uri) {
        return Err(
            OAuthErrorReply {
                status: 400,
                error: "invalid_grant",
                description: "redirect_uri does not match",
            },
        );
    }
    let challenge = pkce_s256(verifier);
    if !str_eq(challenge.as_str(), stored_challenge) {
        return Err(
            OAuthErrorReply {
                status: 400,
                error: "invalid_grant",
                description: "PKCE verification failed",
            },
        );
    }
    Ok(())
}

/// A refresh grant must carry a refresh token (else `invalid_request`).
pub fn refresh_request_check(refresh_token: &str) -> (r: Result<(), OAuthErrorReply>)
    ensures
        refresh_token@.len() > 0 ==> r is Ok,
        refresh_token@.len() == 0 ==> (r matches Err(e) && bad_request(
            e,
            "invalid_request"@,
            "refresh_token is required"@,
        )),
{
    if refresh_token.as_bytes().len() == 0 {
        proof {
            if refresh_token@.len() > 0 {
                assert(encode_utf8(refresh_token@).len() > 0);
            }
        }
        return Err(
            OAuthErrorReply {
                status: 400,
                error: "invalid_request",
                description: "refresh_token is required",
            },
        );
    }
    proof {
        if refresh_token@.len() == 0 {
            assert(encode_utf8(refresh_token@) =~= Seq::<u8>::empty());
        }
    }
    Ok(())
}

/// What a device-code poll is checked for once the pending code was found: it was issued
/// to this client (else `invalid_grant`) and the user has authorized it (else
/// `authorization_pending`).
pub fn device_poll_check(client_id: &str, pending_client_id: &str, authorized: bool) -> (r: Result<(), OAuthErrorReply>)
    ensures
        pending_client_id@ != client_id@ ==> (r matches Err(e) && bad_request(
            e,
            "invalid_grant"@,
            "client_id does not match"@,
        )),
        pending_client_id@ == client_id@ && !authorized ==> (r matches Err(e) && bad_request(
            e,
            "authorization_pending"@,
            "the user has not authorized the device yet"@,
        )),
        pending_client_id@ == client_id@ && authorized ==> r is Ok,
{
    if !str_eq(pending_client_id, client_id) {
        return Err(
            OAuthErrorReply {
                status: 400,
                error: "invalid_grant",
                description: "client_id does not match",
            },
        );
    }
    if !authorized {
        return Err(
            OAuthErrorReply {
                status: 400,
                error: "authorization_pending",
                description: "the user has not authorized the device yet",
            },
        );
    }
    Ok(())
}

fn entropy_unavailable(error: &getrandom::Error) -> (e: AuthStackError)
    ensures
        e matches AuthStackError::Store { message } && message@.len() >= 21
            && message@.subrange(0, 21) == "entropy unavailable: "@,
{
    let text = entropy_error_text(error);
    let message = concat2("entropy unavailable: ", text.as_str());
    proof {
        reveal_strlit("entropy unavailable: ");
        assert(message@.subrange(0, 21) =~= "entropy unavailable: "@);
    }
    AuthStackError::store(message.as_str())
}

/// A fresh random token: `len` random bytes in unpadded base64url.
pub fn random_token(len: usize) -> (r: Result<String, AuthStackError>)
    ensures
        r matches Ok(token) ==> exists|bytes: Seq<u8>| bytes.len() == len && token@ == base64url(bytes),
        r matches Err(e) ==> (e matches AuthStackError::Store { message } && message@.len() >= 21
            && message@.subrange(0, 21) == "entropy unavailable: "@),
{
    let mut bytes = zeroes(len);
    match fill_random(&mut bytes) {
        Ok(()) => {
            let token = base64url_encode(bytes.as_slice());
            assert(bytes@.len() == len && token@ == base64url(bytes@));
            Ok(token)
        },
        Err(error) => Err(entropy_unavailable(&error)),
    }
}

/// The alphabet of user codes: consonants and digits that are hard to confuse.
pub open spec fn user_code_alphabet() -> Seq<char> {
    "BCDFGHJKLMNPQRSTVWXZ23456789"@
}

/// The user-code character a random byte picks.
pub open spec fn user_code_char(b: u8) -> char {
    user_code_alphabet()[b as int % 28]
}

/// The user code shown for eight random bytes: `XXXX-XXXX`.
pub open spec fn user_code(bytes: Seq<u8>) -> Seq<char> {
    seq![
        user_code_char(bytes[0]),
        user_code_char(bytes[1]),
        user_code_char(bytes[2]),
        user_code_char(bytes[3]),
        '-',
        user_code_char(bytes[4]),
        user_code_char(bytes[5]),
        user_code_char(bytes[6]),
        user_code_char(bytes[7]),
    ]
}

/// The user code for eight random bytes.
pub fn user_code_from_bytes(bytes: &[u8]) -> (code: String)
    requires
        bytes@.len() == 8,
    ensures
        code@ == user_code(bytes@),
{
    let alphabet = chars_of("BCDFGHJKLMNPQRSTVWXZ23456789");
    proof {
        reveal_strlit("BCDFGHJKLMNPQRSTVWXZ23456789");
    }
    let mut out: Vec<char> = Vec::new();
    let mut i: usize = 0;
    while i < 8
        invariant
            bytes@.len() == 8,
            alphabet@ == user_code_alphabet(),
            alphabet@.len() == 28,
            i <= 8,
            out@.len() == if i <= 4 {
                i as int
            } else {
                i as int + 1
            },
            forall|k: int| 0 <= k < i && k < 4 ==> out@[k] == user_code_char(bytes@[k]),
            forall|k: int| 4 <= k < i ==> out@[k + 1] == user_code_char(bytes@[k]),
            i > 4 ==> out@[4] == '-',
        decreases 8 - i,
    {
        if i == 4 {
            out.push('-');
        }
        let idx = (bytes[i] % 28) as usize;
        out.push(alphabet[idx]);
        i = i + 1;
    }
    assert(out@ =~= user_code(bytes@));
    string_of(&out)
}

/// A fresh user code for the device flow.
pub fn random_user_code() -> (r: Result<String, AuthStackError>)
    ensures
        r matches Ok(code) ==> exists|bytes: Seq<u8>| bytes.len() == 8 && code@ == user_code(bytes),
        r matches Err(e) ==> (e matches AuthStackError::Store { message } && message@.len() >= 21
            && message@.subrange(0, 21) == "entropy unavailable: "@),
{
    let mut bytes = zeroes(8);
    match fill_random(&mut bytes) {
        Ok(()) => {
            let code = user_code_from_bytes(bytes.as_slice());
            assert(bytes@.len() == 8 && code@ == user_code(bytes@));
            Ok(code)
        },
        Err(error) => Err(entropy_unavailable(&error)),
    }
}


/// Escaped text can neither open or close a tag nor end a quoted attribute: it holds no
/// `<`, `>` or `"`.
pub proof fn lemma_html_escaped_is_inert(value: Seq<char>)
    ensures
        forall|i: int|
            0 <= i < html_escaped(value).len() ==> {
                let c = #[trigger] html_escaped(value)[i];
                c != '<' && c != '>' && c != '"'
            },
    decreases value.len(),
{
    if value.len() > 0 {
        lemma_html_escaped_is_inert(value.drop_last());
        reveal_strlit("&amp;");
        reveal_strlit("&lt;");
        reveal_strlit("&gt;");
        reveal_strlit("&quot;");
        let head = html_escaped(value.drop_last());
        let tail = html_escape_char(value.last());
        assert forall|i: int| 0 <= i < html_escaped(value).len() implies {
            let c = #[trigger] html_escaped(value)[i];
            c != '<' && c != '>' && c != '"'
        } by {
            if i < head.len() {
                assert(html_escaped(value)[i] == head[i]);
            } else {
                assert(html_escaped(value)[i] == tail[i - head.len()]);
            }
        }
    }
}

} // verus!
