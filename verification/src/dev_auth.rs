//! Development authentication helpers (captured mail and the gated bypass): when the
//! capture and skip-verify controls may be shown, how a captured action link is made
//! same-origin, and how its one-time token is read.

use vstd::prelude::*;
use crate::text::{
    chars_of, contains_seq, contains_vec, find_seq, find_vec, has_prefix, index_of, index_of_from, index_of_vec,
    is_blank, lower_chars, slice_vec, split_on, split_vec, string_of, to_lower, trim, trim_chars,
    trim_vec, vec_is,
};

verus! {

/// Public login banner when a pending account is recognized in development.
pub const EMAIL_UNVERIFIED_PUBLIC_MESSAGE: &'static str = "This account is waiting for email verification.";

/// Whether the register/login UI may show the capture / skip-verify controls: only when
/// mail capture is compiled in, production mode is off, developer tools are on and mail
/// goes to the capture transport.
pub fn development_verification_controls_visible(
    mail_capture_compiled: bool,
    production_mode: bool,
    dev_tools: bool,
    mail_transport_capture: bool,
) -> (visible: bool)
    ensures
        visible == (mail_capture_compiled && !production_mode && dev_tools && mail_transport_capture),
{
    mail_capture_compiled && !production_mode && dev_tools && mail_transport_capture
}

/// The same-origin path (with query) of a captured action link: a trimmed path that
/// starts with a single `/` as it is; an absolute URL's path from the first `/` after
/// `://`; nothing for anything else.
pub open spec fn same_origin_path(action_url: Seq<char>) -> Option<Seq<char>> {
    let t = trim(action_url);
    if t.len() == 0 {
        None
    } else if has_prefix(t, "/"@) && !has_prefix(t, "//"@) {
        Some(t)
    } else {
        let k = find_seq(t, "://"@);
        if k < 0 {
            None
        } else {
            let after = t.subrange(k + 3, t.len() as int);
            let p = index_of(after, '/');
            if p < 0 {
                None
            } else {
                Some(after.subrange(p, after.len() as int))
            }
        }
    }
}

/// Rewrites a captured action URL to a same-origin path and query. Capture templates
/// embed the public base URL (often localhost), which a real inbox or a remote browser
/// cannot reach; a same-origin path stays on the host the user is already using.
pub fn same_origin_action_path(action_url: &str) -> (path: Option<String>)
    ensures
        match path {
            Some(p) => same_origin_path(action_url@) == Some(p@),
            None => same_origin_path(action_url@) is None,
        },
{
    let t = trim_chars(action_url);
    if t.len() == 0 {
        return None;
    }
    proof {
        reveal_strlit("/");
        reveal_strlit("//");
        reveal_strlit("://");
    }
    let starts_slash = t[0] == '/';
    let starts_double = t.len() >= 2 && t[0] == '/' && t[1] == '/';
    proof {
        assert(has_prefix(t@, "/"@) == (t@[0] == '/')) by {
            if t@[0] == '/' {
                assert(t@.subrange(0, 1) =~= "/"@);
            }
            if has_prefix(t@, "/"@) {
                assert(t@.subrange(0, 1)[0] == '/');
            }
        }
        assert(has_prefix(t@, "//"@) == (t@.len() >= 2 && t@[0] == '/' && t@[1] == '/')) by {
            if t@.len() >= 2 && t@[0] == '/' && t@[1] == '/' {
                assert(t@.subrange(0, 2) =~= "//"@);
            }
            if has_prefix(t@, "//"@) {
                assert(t@.subrange(0, 2)[0] == '/');
                assert(t@.subrange(0, 2)[1] == '/');
            }
        }
    }
    if starts_slash && !starts_double {
        return Some(string_of(&t));
    }
    let k = match find_vec(&t, "://") {
        Some(k) => k,
        None => {
            return None;
        },
    };
    let n = t.len();
    let after = slice_vec(&t, k + 3, n);
    match index_of_vec(&after, '/') {
        Some(p) => {
            let m = after.len();
            let path = slice_vec(&after, p, m);
            Some(string_of(&path))
        },
        None => None,
    }
}

/// The token carried by one `&`-separated query piece: `token=<value>` with a value that
/// is not blank, trimmed.
pub open spec fn token_of_pair(pair: Seq<char>) -> Option<Seq<char>> {
    let k = index_of(pair, '=');
    if k < 0 {
        None
    } else if pair.subrange(0, k) == "token"@ && !is_blank(pair.subrange(k + 1, pair.len() as int)) {
        Some(trim(pair.subrange(k + 1, pair.len() as int)))
    } else {
        None
    }
}

/// The first token among `pairs[i..]`.
pub open spec fn first_token(pairs: Seq<Seq<char>>, i: int) -> Option<Seq<char>>
    decreases pairs.len() - i,
{
    if i < 0 || i >= pairs.len() {
        None
    } else {
        match token_of_pair(pairs[i]) {
            Some(t) => Some(t),
            None => first_token(pairs, i + 1),
        }
    }
}

/// The one-time token of a captured action link: in the query (after the first `?`) of
/// its same-origin path, or of the link itself when it has none, the first non-blank
/// `token` parameter.
pub open spec fn action_token(action_url: Seq<char>) -> Option<Seq<char>> {
    let candidate = match same_origin_path(action_url) {
        Some(p) => p,
        None => action_url,
    };
    let q = index_of(candidate, '?');
    if q < 0 {
        None
    } else {
        first_token(split_on(candidate.subrange(q + 1, candidate.len() as int), '&'), 0)
    }
}

fn token_of_pair_exec(pair: &Vec<char>) -> (r: Option<String>)
    ensures
        match r {
            Some(t) => token_of_pair(pair@) == Some(t@),
            None => token_of_pair(pair@) is None,
        },
{
    match index_of_vec(pair, '=') {
        None => None,
        Some(k) => {
            let n = pair.len();
            let key = slice_vec(pair, 0, k);
            let value = slice_vec(pair, k + 1, n);
            if !vec_is(&key, "token") {
                return None;
            }
            let t = trim_vec(&value);
            proof {
                crate::text::lemma_trim_empty_is_blank(value@);
            }
            if t.len() == 0 {
                None
            } else {
                Some(string_of(&t))
            }
        },
    }
}

/// Extracts the one-time `token` query parameter from a captured action URL.
pub fn token_from_action_url(action_url: &str) -> (token: Option<String>)
    ensures
        match token {
            Some(t) => action_token(action_url@) == Some(t@),
            None => action_token(action_url@) is None,
        },
{
    let candidate = match same_origin_action_path(action_url) {
        Some(p) => chars_of(p.as_str()),
        None => chars_of(action_url),
    };
    let q = match index_of_vec(&candidate, '?') {
        Some(q) => q,
        None => {
            return None;
        },
    };
    let n = candidate.len();
    let query = slice_vec(&candidate, q + 1, n);
    let pairs = split_vec(&query, '&');
    let ghost views = pairs@.map_values(|p: Vec<char>| p@);
    assert(action_token(action_url@) == first_token(views, 0));
    let mut i: usize = 0;
    while i < pairs.len()
        invariant
            action_token(action_url@) == first_token(views, 0),
            views == pairs@.map_values(|p: Vec<char>| p@),
            views == split_on(query@, '&'),
            i <= pairs@.len(),
            first_token(views, 0) == first_token(views, i as int),
        decreases pairs.len() - i,
    {
        assert(views[i as int] == pairs@[i as int]@);
        match token_of_pair_exec(&pairs[i]) {
            Some(t) => {
                return Some(t);
            },
            None => {},
        }
        i = i + 1;
    }
    None
}

/// A login or register error that should open the pending-verification panel: it carries
/// the public unverified message, or mentions waiting for email verification in any case.
pub open spec fn unverified_error(message: Seq<char>) -> bool {
    contains_seq(message, EMAIL_UNVERIFIED_PUBLIC_MESSAGE@) || contains_seq(
        to_lower(message),
        "waiting for email verification"@,
    )
}

/// True when a login/register error should open the pending-verification panel.
pub fn login_error_is_unverified(message: &str) -> (b: bool)
    ensures
        b == unverified_error(message@),
{
    let m = chars_of(message);
    if contains_vec(&m, EMAIL_UNVERIFIED_PUBLIC_MESSAGE) {
        return true;
    }
    let lower = lower_chars(&m);
    contains_vec(&lower, "waiting for email verification")
}


proof fn lemma_index_of_from_hit(s: Seq<char>, c: char, i: int)
    requires
        0 <= i,
    ensures
        index_of_from(s, c, i) >= 0 ==> i <= index_of_from(s, c, i) < s.len() && s[index_of_from(s, c, i)] == c,
    decreases s.len() - i,
{
    if i < s.len() && s[i] != c {
        lemma_index_of_from_hit(s, c, i + 1);
    }
}

/// A captured link is only ever rewritten to a path on the current host's origin: the
/// result starts with `/`.
pub proof fn lemma_same_origin_path_is_a_path(action_url: Seq<char>)
    ensures
        same_origin_path(action_url) matches Some(p) ==> p.len() > 0 && p[0] == '/',
{
    let t = trim(action_url);
    reveal_strlit("/");
    reveal_strlit("//");
    if t.len() > 0 && has_prefix(t, "/"@) && !has_prefix(t, "//"@) {
        assert(t.subrange(0, 1)[0] == t[0]);
    } else if t.len() > 0 {
        let k = find_seq(t, "://"@);
        if k >= 0 {
            crate::text::lemma_find_contains(t, "://"@);
            let after = t.subrange(k + 3, t.len() as int);
            lemma_index_of_from_hit(after, '/', 0);
        }
    }
}

} // verus!
