//! Hashed taxpayer identity used for exclusive ownership.
//!
//! The server never uses a raw TIN as a primary key. Clients attest a TIN at
//! create/claim time; the server keeps `tin_last4` for display and an
//! HMAC-SHA256 of `{tin_root}|{branch_code}` for uniqueness and claim matching.

use vstd::prelude::*;

use crate::crypto::{hmac_sha256, hmac_sha256_tag};
use crate::domain::tin::{BranchCode, TinRoot};
use crate::text::{
    chars_of, digit_char, is_hex, is_ws, lemma_trim_unchanged, lower_chars, push_char, string_of,
    string_of_range, to_lower, trim, trim_chars,
};

verus! {

/// The bytes that are authenticated for one registration unit.
pub open spec fn identity_message(tin_root: Seq<char>, branch_code: Seq<char>) -> Seq<u8> {
    tin_root.map_values(|c: char| c as u8) + seq![124u8] + branch_code.map_values(
        |c: char| c as u8,
    )
}

/// Lower-case hexadecimal digit for a value below 16.
pub open spec fn hex_digit(n: nat) -> char {
    if n < 10 {
        digit_char(n)
    } else {
        ((87 + n) as u32) as char
    }
}

/// Lower-case hexadecimal rendering, two characters per byte.
pub open spec fn hex_of(bytes: Seq<u8>) -> Seq<char>
    decreases bytes.len(),
{
    if bytes.len() == 0 {
        Seq::empty()
    } else {
        hex_of(bytes.drop_last()) + seq![
            hex_digit((bytes.last() / 16) as nat),
            hex_digit((bytes.last() % 16) as nat),
        ]
    }
}

/// HMAC-SHA256 hex digest of the taxpayer registration unit.
#[derive(Debug, PartialEq, Eq, Hash)]
pub struct TinIdentityHash(pub String);

impl View for TinIdentityHash {
    type V = Seq<char>;

    open spec fn view(&self) -> Seq<char> {
        self.0@
    }
}

impl Clone for TinIdentityHash {
    fn clone(&self) -> (r: Self)
        ensures
            r == *self,
    {
        TinIdentityHash(self.0.clone())
    }
}

fn hex_digit_exec(n: u8) -> (c: char)
    requires
        n < 16,
    ensures
        c == hex_digit(n as nat),
{
    if n < 10 {
        (48 + n) as char
    } else {
        (87 + n) as char
    }
}

/// Lower-case hexadecimal rendering of `bytes`.
pub fn to_hex(bytes: &[u8]) -> (s: String)
    ensures
        s@ == hex_of(bytes@),
{
    let mut out = String::new();
    let mut i: usize = 0;
    while i < bytes.len()
        invariant
            i <= bytes@.len(),
            out@ == hex_of(bytes@.subrange(0, i as int)),
        decreases bytes.len() - i,
    {
        let b = bytes[i];
        proof {
            let t = bytes@.subrange(0, i as int + 1);
            assert(t.drop_last() =~= bytes@.subrange(0, i as int));
            assert(t.last() == b);
        }
        push_char(&mut out, hex_digit_exec(b / 16));
        push_char(&mut out, hex_digit_exec(b % 16));
        proof {
            let t = bytes@.subrange(0, i as int + 1);
            assert(out@ =~= hex_of(t.drop_last()) + seq![
                hex_digit((t.last() / 16) as nat),
                hex_digit((t.last() % 16) as nat),
            ]);
        }
        i = i + 1;
    }
    assert(bytes@.subrange(0, bytes@.len() as int) =~= bytes@);
    out
}

fn ascii_bytes(s: &str) -> (b: Vec<u8>)
    ensures
        b@ == s@.map_values(|c: char| c as u8),
{
    let v = chars_of(s);
    let mut b: Vec<u8> = Vec::new();
    let mut i: usize = 0;
    while i < v.len()
        invariant
            v@ == s@,
            i <= v@.len(),
            b@ == v@.subrange(0, i as int).map_values(|c: char| c as u8),
        decreases v.len() - i,
    {
        b.push(v[i] as u8);
        i = i + 1;
        assert(b@ =~= v@.subrange(0, i as int).map_values(|c: char| c as u8));
    }
    assert(v@.subrange(0, v@.len() as int) =~= v@);
    b
}

impl TinIdentityHash {
    /// Hex HMAC-SHA256 of `{tin_root}|{branch_code}` under `pepper`.
    pub fn compute(pepper: &[u8], tin_root: &TinRoot, branch_code: &BranchCode) -> (h: Self)
        ensures
            h@ == hex_of(hmac_sha256(pepper@, identity_message(tin_root@, branch_code@))),
            h@.len() == 64,
    {
        let mut message = ascii_bytes(tin_root.as_str());
        message.push(124u8);
        let branch = ascii_bytes(branch_code.as_str());
        let mut i: usize = 0;
        let ghost prefix = message@;
        while i < branch.len()
            invariant
                i <= branch@.len(),
                message@ == prefix + branch@.subrange(0, i as int),
            decreases branch.len() - i,
        {
            message.push(branch[i]);
            i = i + 1;
            assert(message@ =~= prefix + branch@.subrange(0, i as int));
        }
        assert(branch@.subrange(0, branch@.len() as int) =~= branch@);
        assert(message@ =~= identity_message(tin_root@, branch_code@));
        let tag = hmac_sha256_tag(pepper, message.as_slice());
        let hex = to_hex(tag.as_slice());
        proof {
            lemma_hex_len(tag@);
        }
        TinIdentityHash(hex)
    }

    /// Accepts 64 hexadecimal characters (after trimming), stored lower-case.
    pub fn parse(raw: &str) -> (res: Result<Self, String>)
        ensures
            res is Ok <==> (to_lower(trim(raw@)).len() == 64 && forall|i: int|
                0 <= i < 64 ==> is_hex(#[trigger] to_lower(trim(raw@))[i])),
            res matches Ok(h) ==> h@ == to_lower(trim(raw@)),
            res matches Err(e) ==> e@ == "tin identity hash is invalid"@,
    {
        let trimmed = trim_chars(raw);
        let lowered = lower_chars(&trimmed);
        if lowered.len() != 64 {
            return Err("tin identity hash is invalid".to_owned());
        }
        let mut i: usize = 0;
        while i < 64
            invariant
                lowered@.len() == 64,
                lowered@ == to_lower(trim(raw@)),
                i <= 64,
                forall|j: int| 0 <= j < i ==> is_hex(#[trigger] lowered@[j]),
            decreases 64 - i,
        {
            let c = lowered[i];
            if !(('0' <= c && c <= '9') || ('a' <= c && c <= 'f') || ('A' <= c && c <= 'F')) {
                assert(!is_hex(lowered@[i as int]));
                return Err("tin identity hash is invalid".to_owned());
            }
            i = i + 1;
        }
        Ok(TinIdentityHash(string_of(&lowered)))
    }

    pub fn as_str(&self) -> (s: &str)
        ensures
            s@ == self@,
    {
        self.0.as_str()
    }
}

proof fn lemma_hex_len(bytes: Seq<u8>)
    ensures
        hex_of(bytes).len() == 2 * bytes.len(),
    decreases bytes.len(),
{
    if bytes.len() > 0 {
        lemma_hex_len(bytes.drop_last());
    }
}

/// True when `incoming_root` hashes, with an existing personal branch code,
/// to that branch's stored identity hash.
pub fn same_personal_tin(
    pepper: &[u8],
    existing_branch: &BranchCode,
    existing_hash: &TinIdentityHash,
    incoming_root: &TinRoot,
) -> (same: bool)
    ensures
        same == (hex_of(hmac_sha256(pepper@, identity_message(incoming_root@, existing_branch@)))
            == existing_hash@),
{
    let probe = TinIdentityHash::compute(pepper, incoming_root, existing_branch);
    probe.0 == existing_hash.0
}

/// Last four digits of the 9-digit TIN root, for display only.
pub fn tin_last4(tin_root: &TinRoot) -> (s: String)
    ensures
        s@ == tin_root@.subrange(5, 9),
{
    let v = chars_of(tin_root.as_str());
    string_of_range(&v, 5, 9)
}

proof fn lemma_hex_chars(bytes: Seq<u8>)
    ensures
        forall|i: int|
            0 <= i < hex_of(bytes).len() ==> is_hex(#[trigger] hex_of(bytes)[i]) && !('A' <= hex_of(
                bytes,
            )[i] && hex_of(bytes)[i] <= 'Z') && !is_ws(hex_of(bytes)[i]),
    decreases bytes.len(),
{
    lemma_hex_len(bytes);
    if bytes.len() > 0 {
        lemma_hex_chars(bytes.drop_last());
        lemma_hex_len(bytes.drop_last());
        let hi = (bytes.last() / 16) as nat;
        let lo = (bytes.last() % 16) as nat;
        let h = hex_of(bytes);
        let p = hex_of(bytes.drop_last());
        assert forall|i: int| 0 <= i < h.len() implies is_hex(#[trigger] h[i]) && !('A' <= h[i] && h[i] <= 'Z')
            && !is_ws(h[i]) by {
            if i < p.len() {
                assert(h[i] == p[i]);
            } else if i == p.len() {
                assert(h[i] == hex_digit(hi));
            } else {
                assert(h[i] == hex_digit(lo));
            }
        }
    }
}

/// A computed identity hash reads back as itself: it is 64 lower-case hexadecimal
/// characters with nothing to trim, so parsing its text accepts it unchanged.
pub proof fn lemma_computed_hash_parses(h: Seq<char>, pepper: Seq<u8>, tin_root: Seq<char>, branch_code: Seq<char>)
    requires
        h == hex_of(hmac_sha256(pepper, identity_message(tin_root, branch_code))),
        h.len() == 64,
    ensures
        to_lower(trim(h)) == h,
        forall|i: int| 0 <= i < 64 ==> is_hex(#[trigger] to_lower(trim(h))[i]),
{
    lemma_hex_chars(hmac_sha256(pepper, identity_message(tin_root, branch_code)));
    lemma_trim_unchanged(h);
    assert(to_lower(h) =~= h);
}

} // verus!
