//! OAuth helpers: provider feature-flag names and the development callback URL, with
//! the percent-encoding of query components over UTF-8.

use vstd::prelude::*;
use vstd::utf8::encode_utf8;
use crate::contracts::auth::{AuthProviderSummary, OAuthCallbackRequest, OAuthStartResponse};
use crate::error::AuthStackError;
use crate::text::{
    chars_of, concat2, owned, str_eq, string_of, to_upper, trim, trim_str, upper_char,
    upper_chars,
};

verus! {

/// `c` after upper-casing, with `-` and `.` turned into `_`.
pub open spec fn env_name_char(c: char) -> char {
    if c == '-' || c == '.' {
        '_'
    } else {
        upper_char(c)
    }
}

/// The feature flag that enables a provider: `AUTH_<ID>_ENABLED`, with the id upper-cased
/// and `-` and `.` replaced by `_`.
pub open spec fn provider_flag_name(provider_id: Seq<char>) -> Seq<char> {
    "AUTH_"@ + Seq::new(provider_id.len(), |i: int| env_name_char(provider_id[i])) + "_ENABLED"@
}

/// The feature flag that enables the provider `provider_id`.
pub fn provider_enabled_env_name(provider_id: &str) -> (name: String)
    ensures
        name@ == provider_flag_name(provider_id@),
{
    let chars = chars_of(provider_id);
    let upper = upper_chars(&chars);
    let mut mid: Vec<char> = Vec::new();
    let mut i: usize = 0;
    while i < upper.len()
        invariant
            upper@ == to_upper(provider_id@),
            i <= upper@.len(),
            mid@ == Seq::new(i as nat, |k: int| env_name_char(provider_id@[k])),
        decreases upper.len() - i,
    {
        let c = upper[i];
        if c == '-' || c == '.' {
            mid.push('_');
        } else {
            mid.push(c);
        }
        proof {
            assert(mid@ =~= Seq::new(i as nat + 1, |k: int| env_name_char(provider_id@[k])));
        }
        i = i + 1;
    }
    let middle = string_of(&mid);
    let with_prefix = concat2("AUTH_", middle.as_str());
    concat2(with_prefix.as_str(), "_ENABLED")
}

/// The bytes that stand for themselves in a query component: ASCII letters and digits
/// and `-`, `_`, `.`, `~`.
pub open spec fn unreserved_byte(b: u8) -> bool {
    (65 <= b <= 90) || (97 <= b <= 122) || (48 <= b <= 57) || b == 45 || b == 95 || b == 46
        || b == 126
}

/// An upper-case hexadecimal digit.
pub open spec fn hex_upper(d: int) -> char {
    if d < 10 {
        ((48 + d) as u32) as char
    } else {
        ((55 + d) as u32) as char
    }
}

/// `%XX` for one byte, with upper-case hexadecimal digits.
pub open spec fn percent_byte(b: u8) -> Seq<char> {
    seq!['%', hex_upper(b as int / 16), hex_upper(b as int % 16)]
}

/// Bytes percent-encoded for a URL query component: unreserved bytes as their ASCII
/// character, every other byte as `%XX`.
pub open spec fn percent_query(bytes: Seq<u8>) -> Seq<char>
    decreases bytes.len(),
{
    if bytes.len() == 0 {
        Seq::empty()
    } else {
        percent_query(bytes.drop_last()) + if unreserved_byte(bytes.last()) {
            seq![bytes.last() as char]
        } else {
            percent_byte(bytes.last())
        }
    }
}

/// `value` percent-encoded for a URL query component, byte by byte over its UTF-8
/// encoding.
pub open spec fn query_component(value: Seq<char>) -> Seq<char> {
    percent_query(encode_utf8(value))
}

fn hex_upper_exec(d: u8) -> (c: char)
    requires
        d < 16,
    ensures
        c == hex_upper(d as int),
{
    if d < 10 {
        let b: u8 = 48 + d;
        b as char
    } else {
        let b: u8 = 55 + d;
        b as char
    }
}

/// Percent-encodes `value` for use as a URL query component.
pub fn url_query_component(value: &str) -> (encoded: String)
    ensures
        encoded@ == query_component(value@),
{
    let bytes = value.as_bytes();
    let mut out: Vec<char> = Vec::new();
    let mut i: usize = 0;
    while i < bytes.len()
        invariant
            bytes@ == encode_utf8(value@),
            i <= bytes@.len(),
            out@ == percent_query(bytes@.take(i as int)),
        decreases bytes.len() - i,
    {
        let b = bytes[i];
        proof {
            assert(bytes@.take(i as int + 1).drop_last() =~= bytes@.take(i as int));
        }
        if (65 <= b && b <= 90) || (97 <= b && b <= 122) || (48 <= b && b <= 57) || b == 45 || b
            == 95 || b == 46 || b == 126 {
            out.push(b as char);
        } else {
            out.push('%');
            out.push(hex_upper_exec(b / 16));
            out.push(hex_upper_exec(b % 16));
        }
        proof {
            assert(out@ =~= percent_query(bytes@.take(i as int + 1)));
        }
        i = i + 1;
    }
    assert(bytes@.take(bytes@.len() as int) =~= bytes@);
    string_of(&out)
}

/// The callback URL of the development OAuth bypass for `provider_id`.
pub open spec fn development_callback(provider_id: Seq<char>, state: Seq<char>, redirect_url: Seq<char>) -> Seq<char> {
    "/api/auth/oauth/"@ + provider_id + "/callback?code=development-oauth-code&state="@
        + query_component(state) + "&next="@ + query_component(redirect_url)
}

/// The URL the development OAuth bypass redirects to: the provider's callback with the
/// fixed development code, the flow `state` and the post-login `redirect_url`.
pub fn development_oauth_callback_url(provider_id: &str, state: &str, redirect_url: &str) -> (url: String)
    ensures
        url@ == development_callback(provider_id@, state@, redirect_url@),
{
    let a = concat2("/api/auth/oauth/", provider_id);
    let b = concat2(a.as_str(), "/callback?code=development-oauth-code&state=");
    let s = url_query_component(state);
    let c = concat2(b.as_str(), s.as_str());
    let d = concat2(c.as_str(), "&next=");
    let n = url_query_component(redirect_url);
    let url = concat2(d.as_str(), n.as_str());
    assert(url@ =~= development_callback(provider_id@, state@, redirect_url@));
    url
}


/// OAuth start plus the `Set-Cookie` that binds the returned `state` to this browser.
/// Browser transports must send the cookie back on the callback.
pub struct OAuthLoginStart {
    pub response: OAuthStartResponse,
    pub set_cookie: String,
}

/// Proof that an OAuth callback belongs to the sign-in this browser started.
pub enum OAuthFlowBinding {
    /// Cookie presented on the callback request.
    Browser(Option<String>),
    /// Non-browser transports (gRPC) receive tokens in the response body and are never
    /// issued a session cookie, so there is no ambient credential a forged callback could
    /// plant.
    NonBrowserTransport,
}

/// An optional request field, trimmed; absent counts as empty.
pub open spec fn trimmed_or_empty(field: Option<String>) -> Seq<char> {
    match field {
        Some(v) => trim(v@),
        None => Seq::empty(),
    }
}

/// The code and state an OAuth callback must carry, trimmed: a blank code is refused
/// first, then a blank state.
pub fn oauth_callback_code_and_state(request: &OAuthCallbackRequest) -> (r: Result<(String, String), AuthStackError>)
    ensures
        trimmed_or_empty(request.code).len() == 0 ==> (r matches Err(AuthStackError::Validation { message })
            && message@ == "OAuth callback code is required"@),
        trimmed_or_empty(request.code).len() > 0 && trimmed_or_empty(request.state).len() == 0 ==> (
        r matches Err(AuthStackError::Validation { message }) && message@
            == "OAuth callback state is required"@),
        trimmed_or_empty(request.code).len() > 0 && trimmed_or_empty(request.state).len() > 0 ==> (
        r matches Ok((code, state)) && code@ == trimmed_or_empty(request.code) && state@
            == trimmed_or_empty(request.state)),
{
    let code = match &request.code {
        Some(c) => trim_str(c.as_str()),
        None => String::new(),
    };
    let state = match &request.state {
        Some(s) => trim_str(s.as_str()),
        None => String::new(),
    };
    if code.as_str().unicode_len() == 0 {
        return Err(AuthStackError::validation("OAuth callback code is required"));
    }
    if state.as_str().unicode_len() == 0 {
        return Err(AuthStackError::validation("OAuth callback state is required"));
    }
    Ok((code, state))
}


/// The provider id as it appears in setting names: upper-cased, `-` and `.` as `_`.
pub open spec fn env_id(provider_id: Seq<char>) -> Seq<char> {
    Seq::new(provider_id.len(), |i: int| env_name_char(provider_id[i]))
}

fn env_id_exec(provider_id: &str) -> (s: String)
    ensures
        s@ == env_id(provider_id@),
{
    let chars = chars_of(provider_id);
    let upper = upper_chars(&chars);
    let mut mid: Vec<char> = Vec::new();
    let mut i: usize = 0;
    while i < upper.len()
        invariant
            upper@ == to_upper(provider_id@),
            i <= upper@.len(),
            mid@ == Seq::new(i as nat, |k: int| env_name_char(provider_id@[k])),
        decreases upper.len() - i,
    {
        let c = upper[i];
        if c == '-' || c == '.' {
            mid.push('_');
        } else {
            mid.push(c);
        }
        proof {
            assert(mid@ =~= Seq::new(i as nat + 1, |k: int| env_name_char(provider_id@[k])));
        }
        i = i + 1;
    }
    string_of(&mid)
}

/// The credential settings a provider needs, as alternatives: it has credentials when
/// every setting of one alternative is configured. Google and Facebook need a client id
/// and secret; Apple a client id and either a generated client secret or a team id, key
/// id and private key; any other provider `AUTH_<ID>_CLIENT_ID` and `..._CLIENT_SECRET`.
pub open spec fn credential_requirements(provider_id: Seq<char>) -> Seq<Seq<Seq<char>>> {
    if provider_id == "google"@ {
        seq![seq!["AUTH_GOOGLE_CLIENT_ID"@, "AUTH_GOOGLE_CLIENT_SECRET"@]]
    } else if provider_id == "facebook"@ {
        seq![seq!["AUTH_FACEBOOK_CLIENT_ID"@, "AUTH_FACEBOOK_CLIENT_SECRET"@]]
    } else if provider_id == "apple"@ {
        seq![
            seq!["AUTH_APPLE_CLIENT_ID"@, "AUTH_APPLE_GENERATED_CLIENT_SECRET"@],
            seq!["AUTH_APPLE_CLIENT_ID"@, "AUTH_APPLE_TEAM_ID"@, "AUTH_APPLE_KEY_ID"@, "AUTH_APPLE_PRIVATE_KEY"@],
        ]
    } else {
        seq![
            seq![
                "AUTH_"@ + env_id(provider_id) + "_CLIENT_ID"@,
                "AUTH_"@ + env_id(provider_id) + "_CLIENT_SECRET"@,
            ],
        ]
    }
}

pub open spec fn names_view(v: Vec<String>) -> Seq<Seq<char>> {
    v@.map_values(|s: String| s@)
}

pub open spec fn requirements_view(v: Vec<Vec<String>>) -> Seq<Seq<Seq<char>>> {
    v@.map_values(|alt: Vec<String>| names_view(alt))
}

fn names(a: &str, b: &str) -> (v: Vec<String>)
    ensures
        names_view(v) == seq![a@, b@],
{
    let v = vec![owned(a), owned(b)];
    assert(names_view(v) =~= seq![a@, b@]);
    v
}

/// The credential settings the provider needs, as alternatives.
pub fn provider_credential_requirements(provider_id: &str) -> (reqs: Vec<Vec<String>>)
    ensures
        requirements_view(reqs) == credential_requirements(provider_id@),
{
    if str_eq(provider_id, "google") {
        let r = vec![names("AUTH_GOOGLE_CLIENT_ID", "AUTH_GOOGLE_CLIENT_SECRET")];
        assert(requirements_view(r) =~= credential_requirements(provider_id@));
        r
    } else if str_eq(provider_id, "facebook") {
        let r = vec![names("AUTH_FACEBOOK_CLIENT_ID", "AUTH_FACEBOOK_CLIENT_SECRET")];
        assert(requirements_view(r) =~= credential_requirements(provider_id@));
        r
    } else if str_eq(provider_id, "apple") {
        let first = names("AUTH_APPLE_CLIENT_ID", "AUTH_APPLE_GENERATED_CLIENT_SECRET");
        let second = vec![
            owned("AUTH_APPLE_CLIENT_ID"),
            owned("AUTH_APPLE_TEAM_ID"),
            owned("AUTH_APPLE_KEY_ID"),
            owned("AUTH_APPLE_PRIVATE_KEY"),
        ];
        assert(names_view(second) =~= seq![
            "AUTH_APPLE_CLIENT_ID"@,
            "AUTH_APPLE_TEAM_ID"@,
            "AUTH_APPLE_KEY_ID"@,
            "AUTH_APPLE_PRIVATE_KEY"@,
        ]);
        let r = vec![first, second];
        assert(requirements_view(r) =~= credential_requirements(provider_id@));
        r
    } else {
        let id = env_id_exec(provider_id);
        let prefix = concat2("AUTH_", id.as_str());
        let client_id = concat2(prefix.as_str(), "_CLIENT_ID");
        let client_secret = concat2(prefix.as_str(), "_CLIENT_SECRET");
        let r = vec![names(client_id.as_str(), client_secret.as_str())];
        assert(requirements_view(r) =~= credential_requirements(provider_id@));
        r
    }
}

/// `name` is among the configured settings.
pub open spec fn configured(present: Seq<Seq<char>>, name: Seq<char>) -> bool {
    exists|k: int| 0 <= k < present.len() && present[k] == name
}

/// Every setting of the alternative is configured.
pub open spec fn alternative_met(alt: Seq<Seq<char>>, present: Seq<Seq<char>>) -> bool {
    forall|j: int| 0 <= j < alt.len() ==> configured(present, #[trigger] alt[j])
}

/// Some alternative has every one of its settings configured.
pub open spec fn requirements_met(reqs: Seq<Seq<Seq<char>>>, present: Seq<Seq<char>>) -> bool {
    exists|a: int| 0 <= a < reqs.len() && #[trigger] alternative_met(reqs[a], present)
}

fn configured_exec(present: &Vec<String>, name: &String) -> (b: bool)
    ensures
        b == configured(names_view(*present), name@),
{
    let mut k: usize = 0;
    while k < present.len()
        invariant
            k <= present@.len(),
            forall|i: int| 0 <= i < k ==> names_view(*present)[i] != name@,
        decreases present.len() - k,
    {
        if str_eq(present[k].as_str(), name.as_str()) {
            assert(names_view(*present)[k as int] == name@);
            return true;
        }
        k = k + 1;
    }
    false
}

/// Whether the configured settings (names of the settings that are set and not blank)
/// meet one of the provider's credential alternatives.
pub fn credentials_configured(requirements: &Vec<Vec<String>>, present: &Vec<String>) -> (b: bool)
    ensures
        b == requirements_met(requirements_view(*requirements), names_view(*present)),
{
    let ghost reqs = requirements_view(*requirements);
    let mut a: usize = 0;
    while a < requirements.len()
        invariant
            a <= requirements@.len(),
            reqs == requirements_view(*requirements),
            forall|x: int| 0 <= x < a ==> !#[trigger] alternative_met(reqs[x], names_view(*present)),
        decreases requirements.len() - a,
    {
        let alt = &requirements[a];
        assert(reqs[a as int] == names_view(*alt));
        let mut j: usize = 0;
        let mut all = true;
        while j < alt.len()
            invariant
                j <= alt@.len(),
                reqs[a as int] == names_view(*alt),
                all == forall|i: int| 0 <= i < j ==> configured(names_view(*present), #[trigger] reqs[a as int][i]),
            decreases alt.len() - j,
        {
            let c = configured_exec(present, &alt[j]);
            assert(reqs[a as int][j as int] == alt@[j as int]@);
            all = if c { all } else { false };
            j = j + 1;
        }
        if all {
            assert(alternative_met(reqs[a as int], names_view(*present)));
            return true;
        }
        a = a + 1;
    }
    false
}

/// A provider is enabled when stored as enabled or when its feature flag is on.
pub fn provider_enabled(stored_enabled: bool, flag_enabled: bool) -> (b: bool)
    ensures
        b == (stored_enabled || flag_enabled),
{
    stored_enabled || flag_enabled
}

/// A provider is ready for sign-in when it is configured, enabled and has credentials;
/// it is then reported as enabled. Each failure names the provider.
pub fn oauth_provider_ready(
    provider_id: &str,
    found: Option<AuthProviderSummary>,
    enabled: bool,
    has_credentials: bool,
) -> (r: Result<AuthProviderSummary, AuthStackError>)
    ensures
        found is None ==> (r matches Err(AuthStackError::NotFound { message: m })
            && m@ == "OAuth provider '"@ + provider_id@ + "' is not configured"@),
        found is Some && !enabled ==> (r matches Err(AuthStackError::Configuration { message: m })
            && m@ == "OAuth provider '"@ + provider_id@ + "' is disabled"@),
        found is Some && enabled && !has_credentials ==> (r matches Err(AuthStackError::Configuration { message: m })
            && m@ == "OAuth provider '"@ + provider_id@ + "' is missing credentials"@),
        found is Some && enabled && has_credentials ==> (r matches Ok(p) && p == (AuthProviderSummary {
            enabled: true,
            ..found->0
        })),
{
    let quoted = concat2("OAuth provider '", provider_id);
    match found {
        None => {
            let m = concat2(quoted.as_str(), "' is not configured");
            Err(AuthStackError::not_found(m.as_str()))
        },
        Some(mut provider) => {
            if !enabled {
                let m = concat2(quoted.as_str(), "' is disabled");
                return Err(AuthStackError::configuration(m.as_str()));
            }
            if !has_credentials {
                let m = concat2(quoted.as_str(), "' is missing credentials");
                return Err(AuthStackError::configuration(m.as_str()));
            }
            provider.enabled = true;
            Ok(provider)
        },
    }
}

/// The development callback bypass mints a session from a fixed code, so it is honoured
/// only when switched on, outside production, on loopback.
pub fn development_oauth_callback_bypass_enabled(flag: bool, production: bool, loopback: bool) -> (b: bool)
    ensures
        b == (flag && !production && loopback),
{
    flag && !production && loopback
}

/// The code the development callback bypass accepts.
pub const DEVELOPMENT_OAUTH_CODE: &'static str = "development-oauth-code";

/// The identity the development callback bypass signs in: the fixed code must be
/// presented; the email is `<provider>-<subject>@oauth.local`.
pub fn development_oauth_email(provider_id: &str, code: &str, subject: &str) -> (r: Result<String, AuthStackError>)
    ensures
        code@ == DEVELOPMENT_OAUTH_CODE@ ==> (r matches Ok(email) && email@ == provider_id@ + "-"@ + subject@ + "@oauth.local"@),
        code@ != DEVELOPMENT_OAUTH_CODE@ ==> (r matches Err(AuthStackError::Validation { message: m })
            && m@ == "OAuth development callback code is invalid"@),
{
    if !str_eq(code, DEVELOPMENT_OAUTH_CODE) {
        return Err(AuthStackError::validation("OAuth development callback code is invalid"));
    }
    let a = concat2(provider_id, "-");
    let b = concat2(a.as_str(), subject);
    Ok(concat2(b.as_str(), "@oauth.local"))
}

} // verus!
