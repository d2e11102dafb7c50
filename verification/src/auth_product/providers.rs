//! OAuth providers as the product lists them: the summary with its login URL, and the
//! display name given to a provider from its id.

use vstd::prelude::*;
use crate::application::organization::join_words;
use crate::contracts::auth::AuthProviderSummary;
use crate::text::{chars_of, concat2, push_char, split_on, split_vec};

verus! {

/// The login URL of a provider: `/api/auth/oauth/<id>/start`.
pub open spec fn provider_login_url(provider_id: Seq<char>) -> Seq<char> {
    "/api/auth/oauth/"@ + provider_id + "/start"@
}

/// The summary of a provider, with its login URL.
pub fn provider_summary(provider_id: String, display_name: String, enabled: bool) -> (summary: AuthProviderSummary)
    ensures
        summary.provider_id == provider_id,
        summary.display_name == display_name,
        summary.enabled == enabled,
        summary.login_url@ == provider_login_url(provider_id@),
{
    let a = concat2("/api/auth/oauth/", provider_id.as_str());
    let login_url = concat2(a.as_str(), "/start");
    AuthProviderSummary { provider_id, display_name, enabled, login_url }
}

/// What `char::to_uppercase` yields for a character: its Unicode uppercase mapping.
pub uninterp spec fn char_uppercase(c: char) -> Seq<char>;

/// `char::to_uppercase`, collected into a string. Trusted: the result is the named
/// `char_uppercase` of the character, and (as std documents) one or more characters; the
/// Unicode case tables themselves are not restated.
#[verifier::external_body]
fn uppercase_of(c: char) -> (s: String)
    ensures
        s@ == char_uppercase(c),
        s@.len() >= 1,
{
    c.to_uppercase().collect::<String>()
}

/// `-` and `_` both separate words: the id with `_` written as `-`.
pub open spec fn dashed(s: Seq<char>) -> Seq<char> {
    Seq::new(
        s.len(),
        |i: int|
            if s[i] == '_' {
                '-'
            } else {
                s[i]
            },
    )
}

/// A word of a provider name: the part with its first character in upper case.
pub open spec fn provider_word(part: Seq<char>) -> Seq<char> {
    if part.len() == 0 {
        part
    } else {
        char_uppercase(part[0]) + part.drop_first()
    }
}

/// The words of the non-empty parts.
pub open spec fn provider_words(parts: Seq<Seq<char>>) -> Seq<Seq<char>>
    decreases parts.len(),
{
    if parts.len() == 0 {
        Seq::<Seq<char>>::empty()
    } else if parts.last().len() == 0 {
        provider_words(parts.drop_last())
    } else {
        provider_words(parts.drop_last()).push(provider_word(parts.last()))
    }
}

/// The display name of a provider: its id split at `-` and `_`, empty parts left out,
/// each part's first character upper-cased, joined with spaces (`azure-ad` →
/// `Azure Ad`).
pub open spec fn provider_display_name_of(provider_id: Seq<char>) -> Seq<char> {
    join_words(provider_words(split_on(dashed(provider_id), '-')))
}

/// The display name a provider is saved with.
pub fn provider_display_name(provider_id: &str) -> (name: String)
    ensures
        name@ == provider_display_name_of(provider_id@),
{
    let v = chars_of(provider_id);
    let mut d: Vec<char> = Vec::new();
    let mut k: usize = 0;
    while k < v.len()
        invariant
            k <= v@.len(),
            d@ == dashed(v@).take(k as int),
        decreases v.len() - k,
    {
        d.push(if v[k] == '_' { '-' } else { v[k] });
        assert(dashed(v@).take(k as int + 1) =~= dashed(v@).take(k as int).push(dashed(v@)[k as int]));
        k = k + 1;
    }
    assert(dashed(v@).take(v@.len() as int) =~= dashed(v@));
    let parts = split_vec(&d, '-');
    let ghost pv = parts@.map_values(|p: Vec<char>| p@);
    let mut out = String::new();
    let mut any_word = false;
    let mut i: usize = 0;
    while i < parts.len()
        invariant
            i <= parts@.len(),
            pv == parts@.map_values(|p: Vec<char>| p@),
            out@ == join_words(provider_words(pv.take(i as int))),
            any_word == (provider_words(pv.take(i as int)).len() > 0),
        decreases parts.len() - i,
    {
        let part = &parts[i];
        let ghost words = provider_words(pv.take(i as int));
        proof {
            assert(pv.take(i as int + 1).drop_last() =~= pv.take(i as int));
            assert(pv.take(i as int + 1).last() == part@);
        }
        if part.len() > 0 {
            if any_word {
                push_char(&mut out, ' ');
            }
            let ghost before = out@;
            let upper = uppercase_of(part[0]);
            out.append(upper.as_str());
            let mut j: usize = 1;
            while j < part.len()
                invariant
                    1 <= j <= part@.len(),
                    out@ == before + char_uppercase(part@[0]) + part@.subrange(1, j as int),
                decreases part.len() - j,
            {
                push_char(&mut out, part[j]);
                assert(part@.subrange(1, j as int + 1) =~= part@.subrange(1, j as int).push(part@[j as int]));
                j = j + 1;
            }
            proof {
                assert(part@.subrange(1, part@.len() as int) =~= part@.drop_first());
                let nw = words.push(provider_word(part@));
                assert(nw.drop_last() =~= words);
                if words.len() > 0 {
                    assert(out@ =~= join_words(words) + seq![' '] + provider_word(part@));
                } else {
                    assert(out@ =~= provider_word(part@));
                }
            }
            any_word = true;
        }
        i = i + 1;
    }
    assert(pv.take(pv.len() as int) =~= pv);
    out
}

} // verus!
