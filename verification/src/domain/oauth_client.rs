//! First-party desktop OAuth client policy. The app acts as an authorization server
//! (PKCE + device code) for its own native desktop client.

use vstd::prelude::*;
use crate::text::{
    all_digits, all_digits_vec, contains_pair_vec, contains_seq, has_prefix,
    index_of, index_of_vec, last_index_of, last_index_of_vec, lower_chars, slice_vec,
    strip_prefix_vec, to_lower, trim, trim_chars, vec_eq, vec_is,
};

verus! {

/// Public native client for the Buwiz desktop app. No client secret.
pub const DESKTOP_CLIENT_ID: &'static str = "buwiz-desktop";

pub const DESKTOP_SCOPE: &'static str = "openid profile email tax_profiles";

/// Custom-scheme callback used by the native app.
pub const DESKTOP_CUSTOM_SCHEME_REDIRECT: &'static str = "buwiz://auth/callback";

/// `uri` (already lower-cased) after its `http://` or `https://` scheme, if it has one.
pub open spec fn after_http_scheme(lower: Seq<char>) -> Option<Seq<char>> {
    if has_prefix(lower, "http://"@) {
        Some(lower.subrange(7, lower.len() as int))
    } else if has_prefix(lower, "https://"@) {
        Some(lower.subrange(8, lower.len() as int))
    } else {
        None
    }
}

/// The host of `host:port`: what precedes the last `:` when only digits follow it.
pub open spec fn host_without_port(host_port: Seq<char>) -> Seq<char> {
    let j = last_index_of(host_port, ':');
    if j >= 0 && all_digits(host_port.subrange(j + 1, host_port.len() as int)) {
        host_port.subrange(0, j)
    } else {
        host_port
    }
}

/// An `http(s)` redirect to this machine: a loopback host (`127.0.0.1`, `localhost`,
/// `[::1]`, `::1`) on any port, with no `..` or `//` in the path; ASCII case aside.
pub open spec fn loopback_redirect(uri: Seq<char>) -> bool {
    match after_http_scheme(to_lower(uri)) {
        None => false,
        Some(rest) => {
            let k = index_of(rest, '/');
            let host_port = if k >= 0 {
                rest.subrange(0, k)
            } else {
                rest
            };
            let path = if k >= 0 {
                rest.subrange(k + 1, rest.len() as int)
            } else {
                Seq::empty()
            };
            let host = host_without_port(host_port);
            !contains_seq(path, seq!['.', '.']) && !contains_seq(path, seq!['/', '/']) && (host
                == "127.0.0.1"@ || host == "localhost"@ || host == "[::1]"@ || host == "::1"@)
        },
    }
}

/// `uri` is one of the extra allowed redirects, compared after trimming both.
pub open spec fn in_extra(uri: Seq<char>, extra: Seq<String>) -> bool {
    exists|k: int| 0 <= k < extra.len() && trim((#[trigger] extra[k])@) == uri
}

/// The redirects allowed for the public desktop client: after trimming, a non-empty URI
/// that is in the extra allowlist, is the app's custom-scheme callback, or is a loopback
/// `http(s)` redirect.
pub open spec fn redirect_allowed(uri: Seq<char>, extra: Seq<String>) -> bool {
    let u = trim(uri);
    u.len() > 0 && (in_extra(u, extra) || u == DESKTOP_CUSTOM_SCHEME_REDIRECT@ || loopback_redirect(u))
}

fn loopback_http_redirect_allowed(uri: &Vec<char>) -> (b: bool)
    ensures
        b == loopback_redirect(uri@),
{
    let lower = lower_chars(uri);
    let rest = match strip_prefix_vec(&lower, "http://") {
        Some(r) => r,
        None => match strip_prefix_vec(&lower, "https://") {
            Some(r) => r,
            None => {
                proof {
                    reveal_strlit("http://");
                    reveal_strlit("https://");
                }
                return false;
            },
        },
    };
    proof {
        reveal_strlit("http://");
        reveal_strlit("https://");
    }
    let n = rest.len();
    let (host_port, path) = match index_of_vec(&rest, '/') {
        Some(k) => (slice_vec(&rest, 0, k), slice_vec(&rest, k + 1, n)),
        None => (slice_vec(&rest, 0, n), Vec::new()),
    };
    proof {
        assert(rest@.subrange(0, n as int) =~= rest@);
    }
    if contains_pair_vec(&path, '.', '.') || contains_pair_vec(&path, '/', '/') {
        return false;
    }
    let hp_len = host_port.len();
    let host = match last_index_of_vec(&host_port, ':') {
        Some(j) => {
            let port = slice_vec(&host_port, j + 1, hp_len);
            if all_digits_vec(&port) {
                slice_vec(&host_port, 0, j)
            } else {
                slice_vec(&host_port, 0, hp_len)
            }
        },
        None => slice_vec(&host_port, 0, hp_len),
    };
    proof {
        assert(host_port@.subrange(0, hp_len as int) =~= host_port@);
    }
    vec_is(&host, "127.0.0.1") || vec_is(&host, "localhost") || vec_is(&host, "[::1]") || vec_is(
        &host,
        "::1",
    )
}

/// Whether `uri` is an allowed redirect for the public desktop client. Loopback HTTP(S)
/// on any port is allowed so a native helper can bind an ephemeral port; `extra` holds
/// the deployment's additional allowed URIs.
pub fn desktop_redirect_uri_allowed(uri: &str, extra: &[String]) -> (b: bool)
    ensures
        b == redirect_allowed(uri@, extra@),
{
    let u = trim_chars(uri);
    if u.len() == 0 {
        return false;
    }
    let mut k: usize = 0;
    while k < extra.len()
        invariant
            u@ == trim(uri@),
            u@.len() > 0,
            k <= extra@.len(),
            forall|j: int| 0 <= j < k ==> trim((#[trigger] extra@[j])@) != u@,
        decreases extra.len() - k,
    {
        let candidate = trim_chars(extra[k].as_str());
        if vec_eq(&candidate, &u) {
            assert(trim(extra@[k as int]@) == u@);
            assert(in_extra(u@, extra@));
            return true;
        }
        k = k + 1;
    }
    if vec_is(&u, DESKTOP_CUSTOM_SCHEME_REDIRECT) {
        return true;
    }
    loopback_http_redirect_allowed(&u)
}

} // verus!
