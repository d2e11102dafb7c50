//! Reading runtime configuration values: integers, flags, lists and defaults. The values
//! themselves come from the runtime; these functions decide what they mean.

use vstd::prelude::*;
use vstd::utf8::encode_utf8;
use crate::crypto::{base64url, base64url_encode, sha256, sha256_digest};
use crate::desktop_oauth::{listed_values, redirect_list};
use crate::error::AuthStackError;
use crate::text::{
    all_digits, concat2, is_blank, is_blank_str, is_digit, lower_chars, owned, split_on,
    string_of, to_lower, trim, trim_chars, vec_is,
};

verus! {

/// The value of a string of ASCII digits.
pub open spec fn digits_value(s: Seq<char>) -> nat
    decreases s.len(),
{
    if s.len() == 0 {
        0
    } else {
        digits_value(s.drop_last()) * 10 + ((s.last() as int - 48) as nat)
    }
}

/// `str::parse` for an unsigned integer type whose largest value is `max`: an optional `+`
/// and then one or more ASCII digits whose value does not exceed `max`.
pub open spec fn parse_unsigned(s: Seq<char>, max: nat) -> Option<nat> {
    let body = if s.len() > 0 && s[0] == '+' {
        s.drop_first()
    } else {
        s
    };
    if body.len() > 0 && all_digits(body) && digits_value(body) <= max {
        Some(digits_value(body))
    } else {
        None
    }
}

proof fn lemma_digits_value_grows(s: Seq<char>, j: int, k: int)
    requires
        0 <= j <= k <= s.len(),
        all_digits(s),
    ensures
        digits_value(s.take(j)) <= digits_value(s.take(k)),
    decreases k - j,
{
    if j < k {
        lemma_digits_value_grows(s, j, k - 1);
        assert(s.take(k).drop_last() =~= s.take(k - 1));
        assert(is_digit(s[k - 1]));
    }
}

/// Parses an unsigned decimal no larger than `max`, as `str::parse` does.
fn parse_unsigned_exec(s: &Vec<char>, max: u64) -> (r: Option<u64>)
    ensures
        match r {
            Some(v) => parse_unsigned(s@, max as nat) == Some(v as nat),
            None => parse_unsigned(s@, max as nat) is None,
        },
{
    let start: usize = if s.len() > 0 && s[0] == '+' {
        1
    } else {
        0
    };
    let n = s.len();
    let ghost body = if s@.len() > 0 && s@[0] == '+' {
        s@.drop_first()
    } else {
        s@
    };
    assert(body =~= s@.subrange(start as int, n as int));
    if start == n {
        return None;
    }
    let mut acc: u64 = 0;
    let mut i: usize = start;
    while i < n
        invariant
            start <= i <= n,
            start < n,
            n == s@.len(),
            body == s@.subrange(start as int, n as int),
            body == (if s@.len() > 0 && s@[0] == '+' {
                s@.drop_first()
            } else {
                s@
            }),
            forall|k: int| start <= k < i ==> is_digit(#[trigger] s@[k]),
            acc as nat == digits_value(body.take(i - start)),
            acc <= max,
        decreases n - i,
    {
        let c = s[i];
        if !('0' <= c && c <= '9') {
            assert(!is_digit(body[i - start]));
            return None;
        }
        let d = (c as u32 - 48) as u64;
        let next: u128 = (acc as u128) * 10 + (d as u128);
        proof {
            assert(body.take(i - start + 1).drop_last() =~= body.take(i - start));
            assert(body.take(i - start + 1).last() == c);
        }
        assert(next == digits_value(body.take(i - start + 1)));
        if next > max as u128 {
            proof {
                if all_digits(body) {
                    lemma_digits_value_grows(body, i - start + 1, body.len() as int);
                    assert(body.take(body.len() as int) =~= body);
                }
            }
            return None;
        }
        acc = next as u64;
        i = i + 1;
    }
    assert(body.take(n - start) =~= body);
    assert(all_digits(body)) by {
        assert forall|k: int| 0 <= k < body.len() implies is_digit(#[trigger] body[k]) by {
            assert(body[k] == s@[k + start]);
        }
    }
    Some(acc)
}

/// What an integer setting is: its default when unset or blank, else the trimmed value
/// parsed, else a configuration error naming the setting.
pub open spec fn integer_setting(name: Seq<char>, raw: Option<Seq<char>>, default: nat, max: nat) -> Result<nat, Seq<char>> {
    match raw {
        None => Ok(default),
        Some(v) => if is_blank(v) {
            Ok(default)
        } else {
            match parse_unsigned(trim(v), max) {
                Some(n) => Ok(n),
                None => Err(name + " must be an integer"@),
            }
        },
    }
}

pub open spec fn raw_view(raw: Option<String>) -> Option<Seq<char>> {
    match raw {
        Some(s) => Some(s@),
        None => None,
    }
}

fn integer_setting_exec(name: &str, raw: &Option<String>, default: u64, max: u64) -> (r: Result<u64, AuthStackError>)
    requires
        default <= max,
    ensures
        match integer_setting(name@, raw_view(*raw), default as nat, max as nat) {
            Ok(n) => r matches Ok(v) && v as nat == n,
            Err(message) => r matches Err(AuthStackError::Configuration { message: m }) && m@ == message,
        },
{
    match raw {
        None => Ok(default),
        Some(v) => {
            if is_blank_str(v.as_str()) {
                return Ok(default);
            }
            let t = trim_chars(v.as_str());
            match parse_unsigned_exec(&t, max) {
                Some(n) => Ok(n),
                None => {
                    let message = concat2(name, " must be an integer");
                    Err(AuthStackError::configuration(message.as_str()))
                },
            }
        },
    }
}

/// A 32-bit integer setting `name` read as `raw`, with a default.
pub fn config_u32_value(name: &str, raw: &Option<String>, default: u32) -> (r: Result<u32, AuthStackError>)
    ensures
        match integer_setting(name@, raw_view(*raw), default as nat, u32::MAX as nat) {
            Ok(n) => r matches Ok(v) && v as nat == n,
            Err(message) => r matches Err(AuthStackError::Configuration { message: m }) && m@ == message,
        },
{
    match integer_setting_exec(name, raw, default as u64, u32::MAX as u64) {
        Ok(v) => Ok(v as u32),
        Err(e) => Err(e),
    }
}

/// A 64-bit integer setting `name` read as `raw`, with a default.
pub fn config_u64_value(name: &str, raw: &Option<String>, default: u64) -> (r: Result<u64, AuthStackError>)
    ensures
        match integer_setting(name@, raw_view(*raw), default as nat, u64::MAX as nat) {
            Ok(n) => r matches Ok(v) && v as nat == n,
            Err(message) => r matches Err(AuthStackError::Configuration { message: m }) && m@ == message,
        },
{
    integer_setting_exec(name, raw, default, u64::MAX)
}

/// A flag setting: on when the trimmed value is `1`, `true`, `yes` or `on` (any case),
/// off for any other value, the default when unset.
pub open spec fn flag_setting(raw: Option<Seq<char>>, default: bool) -> bool {
    match raw {
        None => default,
        Some(v) => {
            let k = to_lower(trim(v));
            k == "1"@ || k == "true"@ || k == "yes"@ || k == "on"@
        },
    }
}

/// A flag setting read as `raw`, with a default.
pub fn config_bool_value(raw: &Option<String>, default: bool) -> (b: bool)
    ensures
        b == flag_setting(raw_view(*raw), default),
{
    match raw {
        None => default,
        Some(v) => {
            let t = trim_chars(v.as_str());
            let k = lower_chars(&t);
            vec_is(&k, "1") || vec_is(&k, "true") || vec_is(&k, "yes") || vec_is(&k, "on")
        },
    }
}

/// The session lifetime in seconds: one hour unless configured.
pub fn session_ttl_seconds_value(raw: &Option<String>) -> (r: Result<u64, AuthStackError>)
    ensures
        match integer_setting("AUTH_SESSION_TTL_SECONDS"@, raw_view(*raw), 3600, u64::MAX as nat) {
            Ok(n) => r matches Ok(v) && v as nat == n,
            Err(message) => r matches Err(AuthStackError::Configuration { message: m }) && m@ == message,
        },
{
    integer_setting_exec("AUTH_SESSION_TTL_SECONDS", raw, 3600, u64::MAX)
}

/// The vault key version: the configured one when not blank, else `development-v1`.
pub fn key_version_value(raw: &Option<String>) -> (version: String)
    ensures
        version@ == match raw {
            Some(v) => if is_blank(v@) {
                "development-v1"@
            } else {
                v@
            },
            None => "development-v1"@,
        },
{
    match raw {
        Some(v) => if is_blank_str(v.as_str()) {
            owned("development-v1")
        } else {
            v.clone()
        },
        None => owned("development-v1"),
    }
}

/// The bootstrap administrator emails configured as a comma-separated list.
pub fn bootstrap_admin_emails(raw: &str) -> (emails: Vec<String>)
    ensures
        emails@.map_values(|e: String| e@) == listed_values(split_on(raw@, ',')),
{
    redirect_list(raw)
}

/// The lookup key of an email address: the unpadded base64url SHA-256 of the trimmed,
/// lower-cased address.
pub fn email_key(email: &str) -> (key: String)
    ensures
        key@ == base64url(sha256(encode_utf8(to_lower(trim(email@))))),
{
    let t = trim_chars(email);
    let lower = lower_chars(&t);
    let normalized = string_of(&lower);
    let digest = sha256_digest(normalized.as_str().as_bytes());
    base64url_encode(digest.as_slice())
}

} // verus!
