//! SHA-256 digests and unpadded base64url text, as this crate uses them for PKCE
//! challenges, stored token hashes and public session handles.

use hmac::Mac;
use vstd::prelude::*;

verus! {

/// The SHA-256 digest of `bytes`.
pub uninterp spec fn sha256(bytes: Seq<u8>) -> Seq<u8>;

/// `sha2::Sha256::digest`. Trusted: the result is the named `sha256` of the bytes and
/// is 32 bytes long; the hash function itself is not restated.
#[verifier::external_body]
pub(crate) fn sha256_digest(bytes: &[u8]) -> (digest: Vec<u8>)
    ensures
        digest@ == sha256(bytes@),
        digest@.len() == 32,
{
    <sha2::Sha256 as sha2::Digest>::digest(bytes).to_vec()
}

/// The base64url alphabet (RFC 4648 section 5).
pub open spec fn base64url_char(v: int) -> char {
    if v < 26 {
        ((65 + v) as u32) as char
    } else if v < 52 {
        ((71 + v) as u32) as char
    } else if v < 62 {
        ((v - 4) as u32) as char
    } else if v == 62 {
        '-'
    } else {
        '_'
    }
}

/// Unpadded base64url (RFC 4648 section 5): each 3 bytes become 4 characters; a final 1
/// or 2 bytes become 2 or 3 characters.
pub open spec fn base64url(bytes: Seq<u8>) -> Seq<char>
    decreases bytes.len(),
{
    if bytes.len() == 0 {
        Seq::empty()
    } else {
        let b0 = bytes[0] as int;
        let b1 = if bytes.len() > 1 {
            bytes[1] as int
        } else {
            0
        };
        let b2 = if bytes.len() > 2 {
            bytes[2] as int
        } else {
            0
        };
        if bytes.len() == 1 {
            seq![base64url_char(b0 / 4), base64url_char((b0 % 4) * 16)]
        } else if bytes.len() == 2 {
            seq![
                base64url_char(b0 / 4),
                base64url_char((b0 % 4) * 16 + b1 / 16),
                base64url_char((b1 % 16) * 4),
            ]
        } else {
            seq![
                base64url_char(b0 / 4),
                base64url_char((b0 % 4) * 16 + b1 / 16),
                base64url_char((b1 % 16) * 4 + b2 / 64),
                base64url_char(b2 % 64),
            ] + base64url(bytes.subrange(3, bytes.len() as int))
        }
    }
}

/// `base64::engine::general_purpose::URL_SAFE_NO_PAD.encode`. Trusted: the text is the
/// unpadded base64url encoding of the bytes, as RFC 4648 defines it.
#[verifier::external_body]
pub(crate) fn base64url_encode(bytes: &[u8]) -> (text: String)
    ensures
        text@ == base64url(bytes@),
{
    <base64::engine::GeneralPurpose as base64::Engine>::encode(
        &base64::engine::general_purpose::URL_SAFE_NO_PAD,
        bytes,
    )
}

/// HMAC-SHA256 tag of `message` under `key`.
pub uninterp spec fn hmac_sha256(key: Seq<u8>, message: Seq<u8>) -> Seq<u8>;

/// Calls `hmac::Hmac<sha2::Sha256>`: keyed with `key`, fed `message`, finalized.
/// The contract names the 32-byte tag; what the tag is, is not stated.
#[verifier::external_body]
pub(crate) fn hmac_sha256_tag(key: &[u8], message: &[u8]) -> (tag: Vec<u8>)
    ensures
        tag@ == hmac_sha256(key@, message@),
        tag@.len() == 32,
{
    let mut mac = <hmac::Hmac<sha2::Sha256> as Mac>::new_from_slice(key).expect("HMAC accepts any key length");
    mac.update(message);
    mac.finalize().into_bytes().to_vec()
}

/// `hmac::Mac::verify_slice` on `hmac::Hmac<sha2::Sha256>` keyed with `key` and fed
/// `message`. Trusted: it accepts exactly the tag that `hmac_sha256_tag` would give
/// (the comparison is constant-time in the crate; that is not stated here).
#[verifier::external_body]
pub(crate) fn hmac_sha256_verify(key: &[u8], message: &[u8], tag: &[u8]) -> (ok: bool)
    ensures
        ok == (tag@ == hmac_sha256(key@, message@)),
{
    let mut mac = <hmac::Hmac<sha2::Sha256> as Mac>::new_from_slice(key).expect("HMAC accepts any key length");
    mac.update(message);
    mac.verify_slice(tag).is_ok()
}

/// `base64::engine::general_purpose::URL_SAFE_NO_PAD.decode`. Trusted: this engine only
/// accepts canonical unpadded text, so it decodes exactly the texts that some bytes
/// encode to, and gives back those bytes.
#[verifier::external_body]
pub(crate) fn base64url_decode(text: &str) -> (bytes: Option<Vec<u8>>)
    ensures
        match bytes {
            Some(b) => base64url(b@) == text@,
            None => forall|b: Seq<u8>| base64url(b) != text@,
        },
{
    <base64::engine::GeneralPurpose as base64::Engine>::decode(
        &base64::engine::general_purpose::URL_SAFE_NO_PAD,
        text,
    ).ok()
}

/// The standard base64 alphabet (RFC 4648 section 4): as base64url, with `+` and `/`.
pub open spec fn base64_char(v: int) -> char {
    if v < 62 {
        base64url_char(v)
    } else if v == 62 {
        '+'
    } else {
        '/'
    }
}

/// Padded standard base64 (RFC 4648 section 4): each 3 bytes become 4 characters; a final
/// 1 or 2 bytes become 2 or 3 characters followed by `==` or `=`.
pub open spec fn base64_padded(bytes: Seq<u8>) -> Seq<char>
    decreases bytes.len(),
{
    if bytes.len() == 0 {
        Seq::empty()
    } else {
        let b0 = bytes[0] as int;
        let b1 = if bytes.len() > 1 {
            bytes[1] as int
        } else {
            0
        };
        let b2 = if bytes.len() > 2 {
            bytes[2] as int
        } else {
            0
        };
        if bytes.len() == 1 {
            seq![base64_char(b0 / 4), base64_char((b0 % 4) * 16), '=', '=']
        } else if bytes.len() == 2 {
            seq![
                base64_char(b0 / 4),
                base64_char((b0 % 4) * 16 + b1 / 16),
                base64_char((b1 % 16) * 4),
                '=',
            ]
        } else {
            seq![
                base64_char(b0 / 4),
                base64_char((b0 % 4) * 16 + b1 / 16),
                base64_char((b1 % 16) * 4 + b2 / 64),
                base64_char(b2 % 64),
            ] + base64_padded(bytes.subrange(3, bytes.len() as int))
        }
    }
}

/// `base64::engine::general_purpose::STANDARD.decode`. Trusted: this engine requires
/// canonical padding and rejects trailing bits, so it decodes exactly the texts that some
/// bytes encode to, and gives back those bytes.
#[verifier::external_body]
pub(crate) fn base64_standard_decode(text: &str) -> (bytes: Option<Vec<u8>>)
    ensures
        match bytes {
            Some(b) => base64_padded(b@) == text@,
            None => forall|b: Seq<u8>| base64_padded(b) != text@,
        },
{
    <base64::engine::GeneralPurpose as base64::Engine>::decode(
        &base64::engine::general_purpose::STANDARD,
        text,
    ).ok()
}

#[verifier::external_type_specification]
#[verifier::external_body]
pub struct ExEntropyError(getrandom::Error);

/// `getrandom::getrandom`: fills `bytes` from the system's entropy source. Trusted: the
/// buffer keeps its length; its contents after the call are whatever the source gave.
#[verifier::external_body]
pub(crate) fn fill_random(bytes: &mut Vec<u8>) -> (r: Result<(), getrandom::Error>)
    ensures
        final(bytes)@.len() == old(bytes)@.len(),
{
    getrandom::getrandom(bytes.as_mut_slice())
}

/// The `Display` text of a `getrandom::Error`; nothing is claimed of it.
#[verifier::external_body]
pub(crate) fn entropy_error_text(error: &getrandom::Error) -> (text: String) {
    format!("{error}")
}

/// `len` zero bytes.
pub(crate) fn zeroes(len: usize) -> (bytes: Vec<u8>)
    ensures
        bytes@.len() == len,
{
    let mut bytes: Vec<u8> = Vec::new();
    let mut i: usize = 0;
    while i < len
        invariant
            i <= len,
            bytes@.len() == i,
        decreases len - i,
    {
        bytes.push(0);
        i = i + 1;
    }
    bytes
}

proof fn lemma_base64url_char_injective(a: int, b: int)
    requires
        0 <= a < 64,
        0 <= b < 64,
        base64url_char(a) == base64url_char(b),
    ensures
        a == b,
{
    assert(base64url_char(a) as u32 == base64url_char(b) as u32);
}

/// Base64url text determines its bytes: different byte strings never encode alike.
pub proof fn lemma_base64url_injective(a: Seq<u8>, b: Seq<u8>)
    requires
        base64url(a) == base64url(b),
    ensures
        a == b,
    decreases a.len(),
{
    let ea = base64url(a);
    let eb = base64url(b);
    if a.len() == 0 || b.len() == 0 {
        if a.len() != 0 || b.len() != 0 {
            assert(ea.len() != eb.len());
        }
        assert(a =~= b);
        return;
    }
    let a0 = a[0] as int;
    let b0 = b[0] as int;
    let a1 = if a.len() > 1 { a[1] as int } else { 0 };
    let b1 = if b.len() > 1 { b[1] as int } else { 0 };
    let a2 = if a.len() > 2 { a[2] as int } else { 0 };
    let b2 = if b.len() > 2 { b[2] as int } else { 0 };
    if a.len() >= 3 && b.len() >= 3 {
        lemma_base64url_len(a.subrange(3, a.len() as int));
        lemma_base64url_len(b.subrange(3, b.len() as int));
    }
    if a.len() >= 3 {
        lemma_base64url_len(a.subrange(3, a.len() as int));
    }
    if b.len() >= 3 {
        lemma_base64url_len(b.subrange(3, b.len() as int));
    }
    assert(ea.len() >= 2 && eb.len() >= 2);
    assert(ea[0] == eb[0] && ea[1] == eb[1]);
    lemma_base64url_char_injective(a0 / 4, b0 / 4);
    lemma_base64url_char_injective((a0 % 4) * 16 + a1 / 16, (b0 % 4) * 16 + b1 / 16);
    assert(a0 == b0);
    if a.len() == 1 || b.len() == 1 {
        assert(a.len() == b.len());
        assert(a =~= b);
        return;
    }
    assert(a1 / 16 == b1 / 16);
    assert(ea[2] == eb[2]);
    lemma_base64url_char_injective((a1 % 16) * 4 + a2 / 64, (b1 % 16) * 4 + b2 / 64);
    assert(a1 == b1);
    if a.len() == 2 || b.len() == 2 {
        assert(a.len() == b.len());
        assert(a =~= b);
        return;
    }
    assert(a2 / 64 == b2 / 64);
    assert(ea[3] == eb[3]);
    lemma_base64url_char_injective(a2 % 64, b2 % 64);
    assert(a2 == b2);
    let ra = a.subrange(3, a.len() as int);
    let rb = b.subrange(3, b.len() as int);
    assert(base64url(ra) =~= ea.subrange(4, ea.len() as int));
    assert(base64url(rb) =~= eb.subrange(4, eb.len() as int));
    lemma_base64url_injective(ra, rb);
    assert(a.len() == b.len());
    assert(a[0] == b[0] && a[1] == b[1] && a[2] == b[2]);
    assert forall|i: int| 3 <= i < a.len() implies a[i] == b[i] by {
        assert(a[i] == ra[i - 3]);
        assert(b[i] == rb[i - 3]);
    }
    assert(a =~= b);
}

/// Base64url text is never shorter than two characters per started group of three bytes.
pub proof fn lemma_base64url_len(a: Seq<u8>)
    ensures
        a.len() == 0 ==> base64url(a).len() == 0,
        a.len() == 1 ==> base64url(a).len() == 2,
        a.len() == 2 ==> base64url(a).len() == 3,
        a.len() >= 3 ==> base64url(a).len() >= 4,
{
}


proof fn lemma_base64_char_facts(a: int, b: int)
    requires
        0 <= a < 64,
        0 <= b < 64,
    ensures
        base64_char(a) != '=',
        base64_char(a) == base64_char(b) ==> a == b,
{
    assert(base64_char(a) as u32 != '=' as u32);
    if base64_char(a) == base64_char(b) {
        assert(base64_char(a) as u32 == base64_char(b) as u32);
    }
}

/// Padded base64 text is at least four characters per started group of three bytes.
proof fn lemma_base64_padded_len(a: Seq<u8>)
    ensures
        a.len() == 0 <==> base64_padded(a).len() == 0,
        a.len() > 0 ==> base64_padded(a).len() >= 4,
{
}

/// Padded base64 text determines its bytes: different byte strings never encode alike.
pub proof fn lemma_base64_padded_injective(a: Seq<u8>, b: Seq<u8>)
    requires
        base64_padded(a) == base64_padded(b),
    ensures
        a == b,
    decreases a.len(),
{
    let ea = base64_padded(a);
    let eb = base64_padded(b);
    lemma_base64_padded_len(a);
    lemma_base64_padded_len(b);
    if a.len() == 0 || b.len() == 0 {
        assert(a =~= b);
        return;
    }
    let a0 = a[0] as int;
    let b0 = b[0] as int;
    let a1 = if a.len() > 1 { a[1] as int } else { 0 };
    let b1 = if b.len() > 1 { b[1] as int } else { 0 };
    let a2 = if a.len() > 2 { a[2] as int } else { 0 };
    let b2 = if b.len() > 2 { b[2] as int } else { 0 };
    assert(ea[0] == eb[0] && ea[1] == eb[1] && ea[2] == eb[2] && ea[3] == eb[3]);
    lemma_base64_char_facts(a0 / 4, b0 / 4);
    lemma_base64_char_facts((a0 % 4) * 16 + a1 / 16, (b0 % 4) * 16 + b1 / 16);
    assert(a0 == b0);
    lemma_base64_char_facts((a1 % 16) * 4 + a2 / 64, (b1 % 16) * 4 + b2 / 64);
    lemma_base64_char_facts((a1 % 16) * 4, (b1 % 16) * 4);
    lemma_base64_char_facts((a1 % 16) * 4 + a2 / 64, (b1 % 16) * 4);
    lemma_base64_char_facts((a1 % 16) * 4, (b1 % 16) * 4 + b2 / 64);
    if a.len() == 1 || b.len() == 1 {
        assert(a.len() == b.len());
        assert(a =~= b);
        return;
    }
    assert(a1 == b1);
    lemma_base64_char_facts(a2 % 64, b2 % 64);
    if a.len() == 2 || b.len() == 2 {
        assert(a.len() == b.len());
        assert(a =~= b);
        return;
    }
    assert(a2 == b2);
    let ra = a.subrange(3, a.len() as int);
    let rb = b.subrange(3, b.len() as int);
    assert(base64_padded(ra) =~= ea.subrange(4, ea.len() as int));
    assert(base64_padded(rb) =~= eb.subrange(4, eb.len() as int));
    lemma_base64_padded_injective(ra, rb);
    assert(a.len() == b.len());
    assert forall|i: int| 3 <= i < a.len() implies a[i] == b[i] by {
        assert(a[i] == ra[i - 3]);
        assert(b[i] == rb[i - 3]);
    }
    assert(a =~= b);
}

} // verus!
