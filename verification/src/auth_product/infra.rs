//! Session views and passkey relying-party normalisation.

use vstd::prelude::*;
use vstd::utf8::encode_utf8;
use crate::contracts::auth::SessionView;
use crate::crypto::{base64url, base64url_encode, sha256, sha256_digest};
use crate::text::{
    decimal, decimal_string, find_seq, find_vec, is_blank, is_blank_str, owned, slice_vec,
    string_of, trim, trim_chars, trim_str,
    trim_end_char, trim_end_char_vec, vec_is,
};

verus! {

/// The browser-safe handle of a session id: the unpadded base64url of the first 9 bytes
/// of its SHA-256.
pub open spec fn public_session_handle(raw: Seq<char>) -> Seq<char> {
    base64url(sha256(encode_utf8(raw)).subrange(0, 9))
}

/// An opaque, stable handle for a session that is safe to show to browser clients.
pub fn public_session_id(raw: &str) -> (handle: String)
    ensures
        handle@ == public_session_handle(raw@),
{
    let digest = sha256_digest(raw.as_bytes());
    let mut head: Vec<u8> = Vec::new();
    let mut i: usize = 0;
    while i < 9
        invariant
            digest@.len() == 32,
            i <= 9,
            head@ == digest@.subrange(0, i as int),
        decreases 9 - i,
    {
        head.push(digest[i]);
        i = i + 1;
    }
    base64url_encode(head.as_slice())
}

/// Sets the view's public session handle from its raw session id (none without one);
/// nothing else changes.
pub fn attach_public_session_id(view: &mut SessionView)
    ensures
        match old(view).session_id {
            Some(raw) => final(view).public_session_id matches Some(h) && h@ == public_session_handle(
                raw@,
            ),
            None => final(view).public_session_id is None,
        },
        final(view).authenticated == old(view).authenticated,
        final(view).session_id == old(view).session_id,
        final(view).tenant_id == old(view).tenant_id,
        final(view).user_id == old(view).user_id,
        final(view).primary_email == old(view).primary_email,
        final(view).expires_at == old(view).expires_at,
        final(view).permissions == old(view).permissions,
        final(view).assurance == old(view).assurance,
        final(view).system_administrator == old(view).system_administrator,
        final(view).issued_at_unix_seconds == old(view).issued_at_unix_seconds,
        final(view).expires_at_unix_seconds == old(view).expires_at_unix_seconds,
{
    let handle = match &view.session_id {
        Some(raw) => Some(public_session_id(raw.as_str())),
        None => None,
    };
    view.public_session_id = handle;
}

/// The view of a request that is not signed in: no identity, no permissions, assurance
/// `none`.
pub fn unauthenticated_session() -> (view: SessionView)
    ensures
        !view.authenticated,
        view.session_id is None,
        view.public_session_id is None,
        view.tenant_id is None,
        view.user_id is None,
        view.primary_email is None,
        view.expires_at is None,
        view.permissions@.len() == 0,
        view.assurance@ == "none"@,
        !view.system_administrator,
        view.issued_at_unix_seconds is None,
        view.expires_at_unix_seconds is None,
{
    SessionView {
        authenticated: false,
        session_id: None,
        public_session_id: None,
        tenant_id: None,
        user_id: None,
        primary_email: None,
        expires_at: None,
        permissions: Vec::new(),
        assurance: owned("none"),
        system_administrator: false,
        issued_at_unix_seconds: None,
        expires_at_unix_seconds: None,
    }
}

/// The passkey relying-party id: loopback addresses become `localhost`, anything else is
/// kept (trimmed).
pub open spec fn passkey_rp_id(rp_id: Seq<char>) -> Seq<char> {
    let t = trim(rp_id);
    if t == "127.0.0.1"@ || t == "::1"@ || t == "[::1]"@ {
        "localhost"@
    } else {
        t
    }
}

/// Normalises a passkey relying-party id so loopback hosts share `localhost`.
pub fn normalize_passkey_rp_id(rp_id: String) -> (normalized: String)
    ensures
        normalized@ == passkey_rp_id(rp_id@),
{
    let t = trim_chars(rp_id.as_str());
    if vec_is(&t, "127.0.0.1") || vec_is(&t, "::1") || vec_is(&t, "[::1]") {
        owned("localhost")
    } else {
        string_of(&t)
    }
}

/// `s` with `host` after its first `//` replaced by `localhost`, when `//host` occurs.
pub open spec fn with_localhost(s: Seq<char>, host: Seq<char>) -> Option<Seq<char>> {
    let k = find_seq(s, "//"@ + host);
    if k < 0 {
        None
    } else {
        Some(s.subrange(0, k + 2) + "localhost"@ + s.subrange(k + 2 + host.len(), s.len() as int))
    }
}

/// The passkey origin: trimmed, without trailing `/`, and with the first loopback host
/// found (`127.0.0.1`, then `[::1]`, then `::1`) rewritten to `localhost`.
pub open spec fn passkey_origin(origin: Seq<char>) -> Seq<char> {
    let t = trim_end_char(trim(origin), '/');
    match with_localhost(t, "127.0.0.1"@) {
        Some(r) => r,
        None => match with_localhost(t, "[::1]"@) {
            Some(r) => r,
            None => match with_localhost(t, "::1"@) {
                Some(r) => r,
                None => t,
            },
        },
    }
}

fn rewrite_host(t: &Vec<char>, needle: &str, host_len: usize) -> (r: Option<String>)
    requires
        needle@.len() == 2 + host_len,
    ensures
        match r {
            Some(s) => find_seq(t@, needle@) >= 0 && s@ == t@.subrange(0, find_seq(t@, needle@) + 2)
                + "localhost"@ + t@.subrange(find_seq(t@, needle@) + 2 + host_len, t@.len() as int),
            None => find_seq(t@, needle@) < 0,
        },
{
    match find_vec(t, needle) {
        None => None,
        Some(index) => {
            let n = t.len();
            let head = slice_vec(t, 0, index + 2);
            let tail = slice_vec(t, index + 2 + host_len, n);
            let out = string_of(&head);
            let mid = crate::text::concat2(out.as_str(), "localhost");
            let tail_s = string_of(&tail);
            let all = crate::text::concat2(mid.as_str(), tail_s.as_str());
            Some(all)
        },
    }
}

/// Keeps the passkey origin's host aligned with the normalised relying-party id on
/// loopback.
pub fn normalize_passkey_origin(origin: String) -> (normalized: String)
    ensures
        normalized@ == passkey_origin(origin@),
{
    let trimmed = trim_chars(origin.as_str());
    let t = trim_end_char_vec(&trimmed, '/');
    proof {
        reveal_strlit("//127.0.0.1");
        reveal_strlit("//[::1]");
        reveal_strlit("//::1");
        reveal_strlit("127.0.0.1");
        reveal_strlit("[::1]");
        reveal_strlit("::1");
        reveal_strlit("//");
        assert("//"@ + "127.0.0.1"@ =~= "//127.0.0.1"@);
        assert("//"@ + "[::1]"@ =~= "//[::1]"@);
        assert("//"@ + "::1"@ =~= "//::1"@);
    }
    if let Some(r) = rewrite_host(&t, "//127.0.0.1", 9) {
        return r;
    }
    if let Some(r) = rewrite_host(&t, "//[::1]", 5) {
        return r;
    }
    if let Some(r) = rewrite_host(&t, "//::1", 3) {
        return r;
    }
    string_of(&t)
}


/// The session a `get_session` call looks up: the id, trimmed, unless absent or blank
/// (then the request is simply not signed in).
pub fn session_lookup_id(session_id: Option<&str>) -> (id: Option<String>)
    ensures
        match session_id {
            Some(s) => if is_blank(s@) {
                id is None
            } else {
                id matches Some(t) && t@ == trim(s@)
            },
            None => id is None,
        },
{
    match session_id {
        Some(s) => if is_blank_str(s) {
            None
        } else {
            Some(trim_str(s))
        },
        None => None,
    }
}

/// How strongly a session was authenticated.
#[derive(Clone, Copy, Debug, PartialEq, Eq)]
pub enum AssuranceLevel {
    Aal1,
    Aal2,
    Other,
}

/// Milliseconds for a time in seconds, held at `u64::MAX`.
pub open spec fn millis_of(seconds: u64) -> nat {
    if seconds as int * 1000 > u64::MAX as int {
        u64::MAX as nat
    } else {
        (seconds * 1000) as nat
    }
}

/// The view of a signed-in session: its ids, email, permissions and times; the assurance
/// as `aal2` or (for anything else) `aal1`; the expiry also in milliseconds as text; and
/// the public handle of the session id.
pub fn authenticated_session_view(
    session_id: String,
    tenant_id: Option<String>,
    user_id: String,
    primary_email: String,
    issued_at_unix_seconds: u64,
    expires_at_unix_seconds: u64,
    permissions: Vec<String>,
    assurance: AssuranceLevel,
    system_administrator: bool,
) -> (view: SessionView)
    ensures
        view.authenticated,
        view.session_id == Some(session_id),
        view.public_session_id matches Some(h) && h@ == public_session_handle(session_id@),
        view.tenant_id == tenant_id,
        view.user_id == Some(user_id),
        view.primary_email == Some(primary_email),
        view.expires_at matches Some(t) && t@ == decimal(millis_of(expires_at_unix_seconds)),
        view.permissions == permissions,
        view.assurance@ == if assurance == AssuranceLevel::Aal2 {
            "aal2"@
        } else {
            "aal1"@
        },
        view.system_administrator == system_administrator,
        view.issued_at_unix_seconds == Some(issued_at_unix_seconds),
        view.expires_at_unix_seconds == Some(expires_at_unix_seconds),
{
    let millis: u64 = if expires_at_unix_seconds > u64::MAX / 1000 {
        u64::MAX
    } else {
        expires_at_unix_seconds * 1000
    };
    let level = match assurance {
        AssuranceLevel::Aal2 => owned("aal2"),
        _ => owned("aal1"),
    };
    let mut view = SessionView {
        authenticated: true,
        session_id: Some(session_id),
        public_session_id: None,
        tenant_id,
        user_id: Some(user_id),
        primary_email: Some(primary_email),
        expires_at: Some(decimal_string(millis)),
        permissions,
        assurance: level,
        system_administrator,
        issued_at_unix_seconds: Some(issued_at_unix_seconds),
        expires_at_unix_seconds: Some(expires_at_unix_seconds),
    };
    attach_public_session_id(&mut view);
    view
}

} // verus!
