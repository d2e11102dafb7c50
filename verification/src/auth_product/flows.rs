//! The OAuth flow binding: a cookie value that ties an OAuth `state` to the browser that
//! started the flow. The value is a random nonce plus an HMAC over
//! `(nonce, provider, state)`; recomputing the tag on the callback proves the same browser
//! started and finished the flow.

use vstd::prelude::*;
use vstd::utf8::encode_utf8;
use crate::crypto::{
    base64url, base64url_decode, base64url_encode, fill_random, hmac_sha256, hmac_sha256_tag,
    hmac_sha256_verify, zeroes,
};
use crate::error::AuthStackError;
use crate::text::{
    concat2, index_of, index_of_vec, is_ws, lead_ws, lemma_index_of_skip,
    push_char, slice_vec,
    string_of, trail_ws, trim, trim_chars,
};

verus! {

/// The text the binding tag authenticates: `nonce`, provider and state separated by NUL.
pub open spec fn binding_message(nonce: Seq<char>, provider_id: Seq<char>, state: Seq<char>) -> Seq<char> {
    nonce + seq!['\0'] + provider_id + seq!['\0'] + state
}

/// The binding value for a nonce: `<nonce>.<tag>`, the tag being the unpadded base64url
/// HMAC-SHA256 of the binding message under `key`.
pub open spec fn binding_value(key: Seq<u8>, nonce: Seq<char>, provider_id: Seq<char>, state: Seq<char>) -> Seq<char> {
    nonce + seq!['.'] + base64url(
        hmac_sha256(key, encode_utf8(binding_message(nonce, provider_id, state))),
    )
}

fn binding_message_text(nonce: &str, provider_id: &str, state: &str) -> (m: String)
    ensures
        m@ == binding_message(nonce@, provider_id@, state@),
{
    let mut m = concat2(nonce, "");
    proof {
        reveal_strlit("");
    }
    push_char(&mut m, '\0');
    let a = concat2(m.as_str(), provider_id);
    let mut b = a;
    push_char(&mut b, '\0');
    let c = concat2(b.as_str(), state);
    assert(c@ =~= binding_message(nonce@, provider_id@, state@));
    c
}

/// The binding value of `nonce` for this provider and state.
pub fn oauth_flow_binding_value(key: &[u8], nonce: &str, provider_id: &str, state: &str) -> (value: String)
    ensures
        value@ == binding_value(key@, nonce@, provider_id@, state@),
{
    let message = binding_message_text(nonce, provider_id, state);
    let tag = hmac_sha256_tag(key, message.as_str().as_bytes());
    let tag_text = base64url_encode(tag.as_slice());
    let mut value = concat2(nonce, "");
    proof {
        reveal_strlit("");
    }
    push_char(&mut value, '.');
    let v = concat2(value.as_str(), tag_text.as_str());
    assert(v@ =~= binding_value(key@, nonce@, provider_id@, state@));
    v
}

/// Issues a binding for this provider and state under `key`, with a fresh 32-byte nonce.
pub fn issue_oauth_flow_binding(key: &[u8], provider_id: &str, state: &str) -> (r: Result<String, AuthStackError>)
    ensures
        r matches Ok(value) ==> exists|nonce: Seq<u8>|
            nonce.len() == 32 && value@ == binding_value(key@, base64url(nonce), provider_id@, state@),
        r matches Err(e) ==> (e matches AuthStackError::Store { message } && message@
            == "cryptographic randomness is unavailable"@),
{
    let mut bytes = zeroes(32);
    match fill_random(&mut bytes) {
        Ok(()) => {
            let nonce = base64url_encode(bytes.as_slice());
            let value = oauth_flow_binding_value(key, nonce.as_str(), provider_id, state);
            assert(bytes@.len() == 32 && value@ == binding_value(
                key@,
                base64url(bytes@),
                provider_id@,
                state@,
            ));
            Ok(value)
        },
        Err(_) => Err(AuthStackError::store("cryptographic randomness is unavailable")),
    }
}

/// The outcome of checking a presented binding: refused as not started in this browser
/// when none (or a blank one) was presented; forbidden when it has no `.`, when its tag
/// is not base64url, or when the tag is not the one the key gives for this provider and
/// state; accepted otherwise.
pub enum BindingVerdict {
    NotStartedHere,
    Forbidden,
    Accepted,
}

pub open spec fn binding_verdict(
    key: Seq<u8>,
    provider_id: Seq<char>,
    state: Seq<char>,
    presented: Option<Seq<char>>,
) -> BindingVerdict {
    match presented {
        None => BindingVerdict::NotStartedHere,
        Some(raw) => {
            let t = trim(raw);
            if t.len() == 0 {
                BindingVerdict::NotStartedHere
            } else {
                let k = index_of(t, '.');
                if k < 0 {
                    BindingVerdict::Forbidden
                } else {
                    let nonce = t.subrange(0, k);
                    let tag_text = t.subrange(k + 1, t.len() as int);
                    if base64url(
                        hmac_sha256(key, encode_utf8(binding_message(nonce, provider_id, state))),
                    ) == tag_text {
                        BindingVerdict::Accepted
                    } else {
                        BindingVerdict::Forbidden
                    }
                }
            }
        },
    }
}

pub open spec fn presented_view(presented: Option<&str>) -> Option<Seq<char>> {
    match presented {
        Some(p) => Some(p@),
        None => None,
    }
}

/// Checks that an OAuth callback comes from the browser that started the flow.
pub fn verify_oauth_flow_binding(
    key: &[u8],
    provider_id: &str,
    state: &str,
    presented: Option<&str>,
) -> (r: Result<(), AuthStackError>)
    ensures
        match binding_verdict(key@, provider_id@, state@, presented_view(presented)) {
            BindingVerdict::NotStartedHere => r matches Err(AuthStackError::Validation { message })
                && message@
                == "this sign-in was not started in this browser; start OAuth login again"@,
            BindingVerdict::Forbidden => r matches Err(AuthStackError::Forbidden),
            BindingVerdict::Accepted => r is Ok,
        },
{
    let raw = match presented {
        Some(p) => p,
        None => {
            return Err(
                AuthStackError::validation(
                    "this sign-in was not started in this browser; start OAuth login again",
                ),
            );
        },
    };
    let t = trim_chars(raw);
    if t.len() == 0 {
        return Err(
            AuthStackError::validation(
                "this sign-in was not started in this browser; start OAuth login again",
            ),
        );
    }
    let k = match index_of_vec(&t, '.') {
        Some(k) => k,
        None => {
            return Err(AuthStackError::Forbidden);
        },
    };
    let n = t.len();
    let nonce = string_of(&slice_vec(&t, 0, k));
    let tag_text = string_of(&slice_vec(&t, k + 1, n));
    let tag = match base64url_decode(tag_text.as_str()) {
        Some(tag) => tag,
        None => {
            return Err(AuthStackError::Forbidden);
        },
    };
    let message = binding_message_text(nonce.as_str(), provider_id, state);
    proof {
        let expected = hmac_sha256(key@, encode_utf8(message@));
        if base64url(expected) == tag_text@ {
            crate::crypto::lemma_base64url_injective(tag@, expected);
        }
    }
    if hmac_sha256_verify(key, message.as_str().as_bytes(), tag.as_slice()) {
        Ok(())
    } else {
        Err(AuthStackError::Forbidden)
    }
}


/// A character of the base64url alphabet.
pub open spec fn base64url_symbol(c: char) -> bool {
    ('A' <= c <= 'Z') || ('a' <= c <= 'z') || ('0' <= c <= '9') || c == '-' || c == '_'
}

proof fn lemma_base64url_symbols(b: Seq<u8>)
    ensures
        forall|i: int| 0 <= i < base64url(b).len() ==> base64url_symbol(#[trigger] base64url(b)[i]),
    decreases b.len(),
{
    if b.len() >= 3 {
        lemma_base64url_symbols(b.subrange(3, b.len() as int));
        let rest = base64url(b.subrange(3, b.len() as int));
        assert forall|i: int| 0 <= i < base64url(b).len() implies base64url_symbol(
            #[trigger] base64url(b)[i],
        ) by {
            if i >= 4 {
                assert(base64url(b)[i] == rest[i - 4]);
            }
        }
    }
}

/// A binding issued for a provider and state is accepted when it comes back for the
/// same provider and state under the same key.
pub proof fn lemma_binding_round_trip(key: Seq<u8>, nonce: Seq<u8>, provider_id: Seq<char>, state: Seq<char>)
    ensures
        binding_verdict(
            key,
            provider_id,
            state,
            Some(binding_value(key, base64url(nonce), provider_id, state)),
        ) is Accepted,
{
    let n = base64url(nonce);
    let tag = base64url(hmac_sha256(key, encode_utf8(binding_message(n, provider_id, state))));
    let v = binding_value(key, n, provider_id, state);
    lemma_base64url_symbols(nonce);
    lemma_base64url_symbols(hmac_sha256(key, encode_utf8(binding_message(n, provider_id, state))));
    assert(v == n + seq!['.'] + tag);
    assert(v[n.len() as int] == '.');
    assert forall|k: int| 0 <= k < v.len() implies !is_ws(#[trigger] v[k]) by {
        if k < n.len() {
            assert(v[k] == n[k]);
            assert(base64url_symbol(n[k]));
        } else if k > n.len() {
            assert(v[k] == tag[k - n.len() - 1]);
            assert(base64url_symbol(tag[k - n.len() - 1]));
        }
    }
    assert(!is_ws(v[0]));
    assert(lead_ws(v) == 0);
    assert(!is_ws(v.last()));
    assert(trail_ws(v) == 0);
    assert(trim(v) =~= v);
    assert forall|k: int| 0 <= k < n.len() implies v[k] != '.' by {
        assert(v[k] == n[k]);
        assert(base64url_symbol(n[k]));
    }
    lemma_index_of_skip(v, '.', 0, n.len() as int);
    assert(index_of(v, '.') == n.len());
    assert(v.subrange(0, n.len() as int) =~= n);
    assert(v.subrange(n.len() as int + 1, v.len() as int) =~= tag);
}

} // verus!
