//! Session and OAuth-flow cookies: how they are written and how the flow binding is read
//! back from a `Cookie` header.

use vstd::prelude::*;
use crate::auth_product::infra::{attach_public_session_id, public_session_handle};
use crate::contracts::auth::{SessionView, TokenVerifyResponse};
use crate::error::AuthStackError;
use crate::text::{
    chars_of, concat2, decimal, decimal_string, index_of, index_of_vec, is_blank, is_ws, owned,
    slice_vec, split_on, split_vec, string_of, trim, trim_str, trim_vec, vec_is,
};

verus! {

/// The session cookie's name: host-prefixed when the cookie is `Secure`.
pub open spec fn session_cookie_name(secure: bool) -> Seq<char> {
    if secure {
        "__Host-session"@
    } else {
        "wasi_auth_dev_session"@
    }
}

/// The OAuth-flow cookie's name: host-prefixed when the cookie is `Secure`.
pub open spec fn oauth_flow_cookie_name(secure: bool) -> Seq<char> {
    if secure {
        "__Host-oauth_flow"@
    } else {
        "wasi_auth_dev_oauth_flow"@
    }
}

/// `<name>=<value>; Path=/; HttpOnly; SameSite=Lax`, then `; Max-Age=<n>` when a
/// lifetime is given, then `; Secure` when secure.
pub open spec fn cookie_header(
    name: Seq<char>,
    value: Seq<char>,
    max_age: Option<u64>,
    secure: bool,
) -> Seq<char> {
    name + "="@ + value + "; Path=/; HttpOnly; SameSite=Lax"@ + match max_age {
        Some(n) => "; Max-Age="@ + decimal(n as nat),
        None => Seq::<char>::empty(),
    } + if secure {
        "; Secure"@
    } else {
        Seq::<char>::empty()
    }
}

fn append(s: &mut String, t: &str)
    ensures
        final(s)@ == old(s)@ + t@,
{
    let r = concat2(s.as_str(), t);
    *s = r;
}

fn cookie_header_value(name: &str, value: &str, max_age: Option<u64>, secure: bool) -> (h: String)
    ensures
        h@ == cookie_header(name@, value@, max_age, secure),
{
    let mut h = owned(name);
    append(&mut h, "=");
    append(&mut h, value);
    append(&mut h, "; Path=/; HttpOnly; SameSite=Lax");
    let ghost base = h@;
    match max_age {
        Some(n) => {
            append(&mut h, "; Max-Age=");
            let digits = decimal_string(n);
            append(&mut h, digits.as_str());
        },
        None => {},
    }
    let ghost with_age = h@;
    if secure {
        append(&mut h, "; Secure");
    }
    assert(h@ =~= cookie_header(name@, value@, max_age, secure));
    h
}

/// The `Set-Cookie` value that stores a session id.
pub fn session_cookie_header_value(session_id: &str, max_age_seconds: Option<u64>, secure: bool) -> (h: String)
    ensures
        h@ == cookie_header(session_cookie_name(secure), session_id@, max_age_seconds, secure),
{
    let name = if secure {
        "__Host-session"
    } else {
        "wasi_auth_dev_session"
    };
    cookie_header_value(name, session_id, max_age_seconds, secure)
}

/// The `Set-Cookie` value that clears the session cookie.
pub fn expired_session_cookie_header_value(secure: bool) -> (h: String)
    ensures
        h@ == cookie_header(session_cookie_name(secure), Seq::empty(), Some(0), secure),
{
    proof {
        reveal_strlit("");
    }
    session_cookie_header_value("", Some(0), secure)
}

/// Short-lived cookie that binds an in-flight OAuth `state` to this browser. `Lax` so the
/// provider's top-level callback redirect still carries it.
pub fn oauth_flow_cookie_header_value(value: &str, max_age_seconds: u64, secure: bool) -> (h: String)
    ensures
        h@ == cookie_header(oauth_flow_cookie_name(secure), value@, Some(max_age_seconds), secure),
{
    let name = if secure {
        "__Host-oauth_flow"
    } else {
        "wasi_auth_dev_oauth_flow"
    };
    cookie_header_value(name, value, Some(max_age_seconds), secure)
}

/// The `Set-Cookie` value that clears the OAuth-flow binding.
pub fn expired_oauth_flow_cookie_header_value(secure: bool) -> (h: String)
    ensures
        h@ == cookie_header(oauth_flow_cookie_name(secure), Seq::empty(), Some(0), secure),
{
    proof {
        reveal_strlit("");
    }
    oauth_flow_cookie_header_value("", 0, secure)
}

/// The value carried by one `;`-separated piece of a `Cookie` header under either of two
/// names: the piece, trimmed, must read `<name>=<value>` with one of the names and a value
/// that is not blank; the value is returned trimmed.
pub open spec fn cookie_value_of_part(part: Seq<char>, name_a: Seq<char>, name_b: Seq<char>) -> Option<Seq<char>> {
    let t = trim(part);
    let k = index_of(t, '=');
    if k < 0 {
        None
    } else {
        let name = t.subrange(0, k);
        let value = t.subrange(k + 1, t.len() as int);
        if (name == name_a || name == name_b) && !is_blank(value) {
            Some(trim(value))
        } else {
            None
        }
    }
}

/// The first such value among `parts[i..]`.
pub open spec fn first_cookie_value(
    parts: Seq<Seq<char>>,
    name_a: Seq<char>,
    name_b: Seq<char>,
    i: int,
) -> Option<Seq<char>>
    decreases parts.len() - i,
{
    if i < 0 || i >= parts.len() {
        None
    } else {
        match cookie_value_of_part(parts[i], name_a, name_b) {
            Some(v) => Some(v),
            None => first_cookie_value(parts, name_a, name_b, i + 1),
        }
    }
}

/// The value of the first cookie in a `Cookie` header named `name_a` or `name_b` whose
/// value is not blank.
pub open spec fn cookie_value_in_header(header: Seq<char>, name_a: Seq<char>, name_b: Seq<char>) -> Option<Seq<char>> {
    first_cookie_value(split_on(header, ';'), name_a, name_b, 0)
}

/// The OAuth-flow binding in a `Cookie` header: the first cookie, in order, named as
/// either flow cookie and holding a non-blank value.
pub open spec fn flow_value_in_header(header: Seq<char>) -> Option<Seq<char>> {
    cookie_value_in_header(header, oauth_flow_cookie_name(true), oauth_flow_cookie_name(false))
}

/// The session id in a `Cookie` header: the first cookie, in order, named as either
/// session cookie and holding a non-blank value.
pub open spec fn session_id_in_header(header: Seq<char>) -> Option<Seq<char>> {
    cookie_value_in_header(header, session_cookie_name(true), session_cookie_name(false))
}

fn cookie_value_of_part_exec(part: &Vec<char>, name_a: &str, name_b: &str) -> (r: Option<String>)
    ensures
        match r {
            Some(s) => cookie_value_of_part(part@, name_a@, name_b@) == Some(s@),
            None => cookie_value_of_part(part@, name_a@, name_b@) is None,
        },
{
    let t = trim_vec(part);
    match index_of_vec(&t, '=') {
        None => None,
        Some(k) => {
            let n = t.len();
            let name = slice_vec(&t, 0, k);
            let value = slice_vec(&t, k + 1, n);
            let known = vec_is(&name, name_a) || vec_is(&name, name_b);
            if !known {
                return None;
            }
            let trimmed = trim_vec(&value);
            proof {
                crate::text::lemma_trim_empty_is_blank(value@);
            }
            if trimmed.len() == 0 {
                None
            } else {
                Some(string_of(&trimmed))
            }
        },
    }
}

/// The value of the first cookie in `header` named `name_a` or `name_b` whose value is
/// not blank.
pub fn cookie_value_from_header(header: &str, name_a: &str, name_b: &str) -> (value: Option<String>)
    ensures
        match value {
            Some(v) => cookie_value_in_header(header@, name_a@, name_b@) == Some(v@),
            None => cookie_value_in_header(header@, name_a@, name_b@) is None,
        },
{
    let chars = chars_of(header);
    let parts = split_vec(&chars, ';');
    let ghost views = parts@.map_values(|p: Vec<char>| p@);
    let mut i: usize = 0;
    while i < parts.len()
        invariant
            views == parts@.map_values(|p: Vec<char>| p@),
            views == split_on(header@, ';'),
            i <= parts@.len(),
            first_cookie_value(views, name_a@, name_b@, 0) == first_cookie_value(
                views,
                name_a@,
                name_b@,
                i as int,
            ),
        decreases parts.len() - i,
    {
        assert(views[i as int] == parts@[i as int]@);
        match cookie_value_of_part_exec(&parts[i], name_a, name_b) {
            Some(v) => {
                return Some(v);
            },
            None => {},
        }
        i = i + 1;
    }
    None
}

/// The OAuth-flow binding carried by a `Cookie` header, if any.
pub fn oauth_flow_value_from_cookie_header(cookie_header: &str) -> (value: Option<String>)
    ensures
        match value {
            Some(v) => flow_value_in_header(cookie_header@) == Some(v@),
            None => flow_value_in_header(cookie_header@) is None,
        },
{
    cookie_value_from_header(cookie_header, "__Host-oauth_flow", "wasi_auth_dev_oauth_flow")
}

/// The session id carried by a `Cookie` header, if any.
pub fn session_id_from_cookie_header(cookie_header: &str) -> (value: Option<String>)
    ensures
        match value {
            Some(v) => session_id_in_header(cookie_header@) == Some(v@),
            None => session_id_in_header(cookie_header@) is None,
        },
{
    cookie_value_from_header(cookie_header, "__Host-session", "wasi_auth_dev_session")
}


/// A cookie value that survives a round trip through a `Cookie` header: not empty, no
/// `;`, no whitespace at either end.
pub open spec fn plain_cookie_value(value: Seq<char>) -> bool {
    &&& value.len() > 0
    &&& forall|k: int| 0 <= k < value.len() ==> value[k] != ';'
    &&& !is_ws(value[0])
    &&& !is_ws(value.last())
}

proof fn lemma_cookie_pair_read_back(name: Seq<char>, other: Seq<char>, value: Seq<char>)
    requires
        plain_cookie_value(value),
        name.len() > 0,
        !is_ws(name[0]),
        forall|k: int| 0 <= k < name.len() ==> name[k] != ';' && name[k] != '=',
    ensures
        cookie_value_in_header(name + "="@ + value, name, other) == Some(value),
        cookie_value_in_header(name + "="@ + value, other, name) == Some(value),
{
    reveal_strlit("=");
    let h = name + "="@ + value;
    assert(h[name.len() as int] == '=');
    assert forall|k: int| 0 <= k < h.len() implies h[k] != ';' by {
        if k < name.len() {
            assert(h[k] == name[k]);
        } else if k > name.len() {
            assert(h[k] == value[k - name.len() - 1]);
        }
    }
    crate::text::lemma_split_without_separator(h, ';');
    assert(h[0] == name[0]);
    assert(h.last() == value.last());
    crate::text::lemma_trim_unchanged(h);
    crate::text::lemma_trim_unchanged(value);
    assert forall|k: int| 0 <= k < name.len() implies h[k] != '=' by {
        assert(h[k] == name[k]);
    }
    crate::text::lemma_index_of_skip(h, '=', 0, name.len() as int);
    assert(index_of(h, '=') == name.len());
    assert(h.subrange(0, name.len() as int) =~= name);
    assert(h.subrange(name.len() as int + 1, h.len() as int) =~= value);
    assert(!is_blank(value));
}

/// The OAuth-flow binding written as a cookie is read back from a `Cookie` header that
/// carries it.
pub proof fn lemma_flow_cookie_read_back(value: Seq<char>, secure: bool)
    requires
        plain_cookie_value(value),
    ensures
        flow_value_in_header(oauth_flow_cookie_name(secure) + "="@ + value) == Some(value),
{
    reveal_strlit("__Host-oauth_flow");
    reveal_strlit("wasi_auth_dev_oauth_flow");
    lemma_cookie_pair_read_back(oauth_flow_cookie_name(true), oauth_flow_cookie_name(false), value);
    lemma_cookie_pair_read_back(oauth_flow_cookie_name(false), oauth_flow_cookie_name(true), value);
}

/// The session id written as a cookie is read back from a `Cookie` header that carries it.
pub proof fn lemma_session_cookie_read_back(value: Seq<char>, secure: bool)
    requires
        plain_cookie_value(value),
    ensures
        session_id_in_header(session_cookie_name(secure) + "="@ + value) == Some(value),
{
    reveal_strlit("__Host-session");
    reveal_strlit("wasi_auth_dev_session");
    lemma_cookie_pair_read_back(session_cookie_name(true), session_cookie_name(false), value);
    lemma_cookie_pair_read_back(session_cookie_name(false), session_cookie_name(true), value);
}


/// The session a request names, trimmed; none (or a blank one) means the caller must sign
/// in.
pub fn csrf_session_id(session_id: &Option<String>) -> (r: Result<String, AuthStackError>)
    ensures
        match session_id {
            Some(s) => if is_blank(s@) {
                r == Err::<String, AuthStackError>(AuthStackError::AuthRequired)
            } else {
                r matches Ok(t) && t@ == trim(s@)
            },
            None => r == Err::<String, AuthStackError>(AuthStackError::AuthRequired),
        },
{
    match session_id {
        Some(s) => {
            let t = trim_str(s.as_str());
            proof {
                crate::text::lemma_trim_empty_is_blank(s@);
            }
            if t.unicode_len() == 0 {
                Err(AuthStackError::AuthRequired)
            } else {
                Ok(t)
            }
        },
        None => Err(AuthStackError::AuthRequired),
    }
}

/// Equality of two strings that looks at every character of equally long strings, so
/// the time taken does not tell how much of a token was right.
fn constant_time_eq(a: &str, b: &str) -> (eq: bool)
    ensures
        eq == (a@ == b@),
{
    let x = chars_of(a);
    let y = chars_of(b);
    if x.len() != y.len() {
        return false;
    }
    let mut same = true;
    let mut i: usize = 0;
    while i < x.len()
        invariant
            x@ == a@,
            y@ == b@,
            x@.len() == y@.len(),
            i <= x@.len(),
            same == forall|j: int| 0 <= j < i ==> x@[j] == y@[j],
        decreases x.len() - i,
    {
        let matched = x[i] == y[i];
        same = if matched { same } else { false };
        i = i + 1;
    }
    if same {
        assert(x@ =~= y@);
    }
    same
}

/// The CSRF token a mutation presents, trimmed, must be present and equal the session's.
pub fn check_csrf_candidate(expected: &str, candidate: &Option<String>) -> (r: Result<(), AuthStackError>)
    ensures
        match candidate {
            Some(c) => if is_blank(c@) {
                r matches Err(AuthStackError::Validation { message: m }) && m@ == "x-csrf-token is required"@
            } else if expected@ == trim(c@) {
                r is Ok
            } else {
                r == Err::<(), AuthStackError>(AuthStackError::Forbidden)
            },
            None => r matches Err(AuthStackError::Validation { message: m }) && m@ == "x-csrf-token is required"@,
        },
{
    match candidate {
        Some(c) => {
            let t = trim_str(c.as_str());
            proof {
                crate::text::lemma_trim_empty_is_blank(c@);
            }
            if t.unicode_len() == 0 {
                return Err(AuthStackError::validation("x-csrf-token is required"));
            }
            if !constant_time_eq(expected, t.as_str()) {
                return Err(AuthStackError::Forbidden);
            }
            Ok(())
        },
        None => Err(AuthStackError::validation("x-csrf-token is required")),
    }
}

/// `permission` is among the scopes.
pub open spec fn has_scope(scopes: Seq<String>, permission: Seq<char>) -> bool {
    exists|k: int| 0 <= k < scopes.len() && (#[trigger] scopes[k])@ == permission
}

/// A verified access token grants a permission it carries as a scope; a system
/// administrator who has stepped up also holds every system-administration permission.
pub fn token_grants_permission(
    verified: &TokenVerifyResponse,
    permission: &str,
    step_up_satisfied: bool,
    system_administration_permission: bool,
) -> (b: bool)
    ensures
        b == (has_scope(verified.scopes@, permission@) || (verified.system_administrator
            && step_up_satisfied && system_administration_permission)),
{
    let mut k: usize = 0;
    while k < verified.scopes.len()
        invariant
            k <= verified.scopes@.len(),
            forall|j: int| 0 <= j < k ==> (#[trigger] verified.scopes@[j])@ != permission@,
        decreases verified.scopes.len() - k,
    {
        if crate::text::str_eq(verified.scopes[k].as_str(), permission) {
            return true;
        }
        k = k + 1;
    }
    verified.system_administrator && step_up_satisfied && system_administration_permission
}

/// The session view of a request authenticated by a verified access token: signed in as
/// the token's subject, with its session, tenant, scopes, assurance and times, and the
/// public handle of its session; no email and no display expiry.
pub fn token_session_view(verified: TokenVerifyResponse) -> (view: SessionView)
    ensures
        view.authenticated,
        view.session_id == verified.session_id,
        view.tenant_id == verified.tenant_id,
        view.user_id == Some(verified.subject),
        view.primary_email is None,
        view.expires_at is None,
        view.permissions == verified.scopes,
        view.assurance == verified.assurance,
        view.system_administrator == verified.system_administrator,
        view.issued_at_unix_seconds == Some(verified.issued_at_unix_seconds),
        view.expires_at_unix_seconds == Some(verified.expires_at),
        match verified.session_id {
            Some(raw) => view.public_session_id matches Some(h) && h@ == public_session_handle(raw@),
            None => view.public_session_id is None,
        },
{
    let mut view = SessionView {
        authenticated: true,
        session_id: verified.session_id,
        public_session_id: None,
        tenant_id: verified.tenant_id,
        user_id: Some(verified.subject),
        primary_email: None,
        expires_at: None,
        permissions: verified.scopes,
        assurance: verified.assurance,
        system_administrator: verified.system_administrator,
        issued_at_unix_seconds: Some(verified.issued_at_unix_seconds),
        expires_at_unix_seconds: Some(verified.expires_at),
    };
    attach_public_session_id(&mut view);
    view
}

} // verus!
