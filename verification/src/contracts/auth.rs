//! Authentication and session wire contracts. Types that carry secrets have no derived `Debug`; they offer a redacted rendering instead.

use vstd::prelude::*;
use crate::text::{concat2, decimal, decimal_string, owned};

verus! {

#[derive(Clone, Debug, PartialEq, Eq)]
pub struct AuthProviderSummary {
    pub provider_id: String,
    pub display_name: String,
    pub login_url: String,
    pub enabled: bool,
}

#[derive(Clone, Debug, PartialEq, Eq)]
pub struct AuthCapabilities {
    pub password_enabled: bool,
    pub oauth_enabled: bool,
    pub passkeys_enabled: bool,
    pub providers: Vec<AuthProviderSummary>,
}

#[derive(Clone, Debug, PartialEq, Eq)]
pub struct SessionView {
    pub authenticated: bool,
    /// Raw session identifier for server-side cookie and auth wiring only.
    pub session_id: Option<String>,
    /// Opaque, stable handle safe to expose to browser clients.
    pub public_session_id: Option<String>,
    pub tenant_id: Option<String>,
    pub user_id: Option<String>,
    pub primary_email: Option<String>,
    pub expires_at: Option<String>,
    pub permissions: Vec<String>,
    pub assurance: String,
    pub system_administrator: bool,
    pub issued_at_unix_seconds: Option<u64>,
    pub expires_at_unix_seconds: Option<u64>,
}

#[derive(Clone, Debug, PartialEq, Eq)]
pub struct CsrfTokenResponse {
    pub token: String,
}

#[derive(Clone, PartialEq, Eq)]
pub struct OAuthStartResponse {
    pub provider_id: String,
    pub authorization_url: String,
    pub state: String,
}

#[derive(Clone, PartialEq, Eq)]
pub struct OAuthCallbackRequest {
    pub provider_id: String,
    pub code: Option<String>,
    pub state: Option<String>,
    pub redirect_url: Option<String>,
}

#[derive(Clone, PartialEq, Eq)]
pub struct LoginCompletionResponse {
    pub authenticated: bool,
    pub redirect_url: String,
    pub session_id: Option<String>,
    pub access_token: Option<String>,
    pub refresh_token: Option<String>,
    pub expires_in_seconds: u64,
}

#[derive(Clone, PartialEq, Eq)]
pub struct PasswordResetStartRequest {
    pub email: String,
    pub redirect_url: Option<String>,
}

#[derive(Clone, Debug, PartialEq, Eq)]
pub struct PasswordResetStartResponse {
    pub accepted: bool,
    pub expires_in_seconds: u64,
}

#[derive(Clone, PartialEq, Eq)]
pub struct CapturedMailResponse {
    pub message_kind: String,
    pub recipient: String,
    pub subject: String,
    /// Full plain-text body (greeting, CTA URL, security footer).
    pub body_text: String,
    /// Optional HTML multipart body for productized mail.
    pub body_html: Option<String>,
    /// One-time action URL extracted for capture-mode deep links.
    pub action_url: Option<String>,
}

#[derive(Clone, PartialEq, Eq)]
pub struct EmailVerificationCompleteRequest {
    pub token: String,
    pub redirect_url: Option<String>,
}

#[derive(Clone, PartialEq, Eq)]
pub struct EmailVerificationResendRequest {
    pub email: String,
    pub redirect_url: Option<String>,
}

#[derive(Clone, Debug, PartialEq, Eq)]
pub struct AcceptedResponse {
    pub accepted: bool,
}

#[derive(Clone, PartialEq, Eq)]
pub struct PasswordResetCompleteRequest {
    pub token: String,
    pub password: String,
    pub redirect_url: Option<String>,
}

#[derive(Clone, PartialEq, Eq)]
pub struct EmailPasswordLoginRequest {
    pub email: String,
    pub password: String,
    pub redirect_url: Option<String>,
}

#[derive(Clone, PartialEq, Eq)]
pub struct EmailPasswordRegisterRequest {
    pub email: String,
    pub password: String,
    pub redirect_url: Option<String>,
}

#[derive(Clone, Debug, PartialEq, Eq)]
pub struct PasskeyStartRequest {
    pub email: Option<String>,
    pub redirect_url: Option<String>,
}

#[derive(Clone, PartialEq, Eq)]
pub struct PasskeyStartResponse {
    pub challenge_id: String,
    pub public_key_options_json: String,
    pub redirect_url: String,
}

#[derive(Clone, PartialEq, Eq)]
pub struct PasskeyVerifyRequest {
    pub challenge_id: String,
    pub credential_json: String,
    pub redirect_url: Option<String>,
}

#[derive(Clone, Debug, PartialEq, Eq)]
pub struct LogoutResponse {
    pub redirect_url: String,
}

#[derive(Clone, PartialEq, Eq)]
pub struct TokenRefreshResponse {
    pub access_token: Option<String>,
    pub refresh_token: Option<String>,
    pub expires_in_seconds: u64,
}

#[derive(Clone, PartialEq, Eq)]
pub struct TokenRefreshRequest {
    pub refresh_token: String,
}

#[derive(Clone, PartialEq, Eq)]
pub struct TokenVerifyRequest {
    pub access_token: String,
}

#[derive(Clone, Debug, PartialEq, Eq)]
pub struct TokenVerifyResponse {
    pub active: bool,
    pub subject: String,
    pub tenant_id: Option<String>,
    pub session_id: Option<String>,
    pub expires_at: u64,
    pub scopes: Vec<String>,
    pub role_ids: Vec<String>,
    pub policy_revision: Option<String>,
    pub assurance: String,
    pub system_administrator: bool,
    pub issued_at_unix_seconds: u64,
}

#[derive(Clone, PartialEq, Eq)]
pub struct PasswordChangeRequest {
    pub current_password: String,
    pub new_password: String,
}

#[derive(Clone, Debug, PartialEq, Eq)]
pub struct AccountSessionSummary {
    pub session_id: String,
    pub organization_id: Option<String>,
    pub assurance: String,
    pub issued_at_ms: u64,
    pub expires_at_ms: u64,
    pub current: bool,
}

#[derive(Clone, Debug, PartialEq, Eq)]
pub struct AccountSessionListResponse {
    pub sessions: Vec<AccountSessionSummary>,
}

#[derive(Clone, Debug, PartialEq, Eq)]
pub struct SessionRevokeRequest {
    pub session_id: String,
}

#[derive(Clone, Debug, PartialEq, Eq)]
pub struct MfaStatusResponse {
    pub totp_enrolled: bool,
    pub recovery_codes_remaining: u32,
    pub assurance: String,
}

#[derive(Clone, PartialEq, Eq)]
pub struct MfaEnrollStartResponse {
    pub credential_id: String,
    pub secret_base32: String,
    pub provisioning_uri: String,
}

#[derive(Clone, PartialEq, Eq)]
pub struct MfaCodeRequest {
    pub code: String,
}

#[derive(Clone, PartialEq, Eq)]
pub struct MfaEnrollConfirmResponse {
    pub recovery_codes: Vec<String>,
    pub assurance: String,
}


/// The `Debug` text of a string: quoted, with quotes, backslashes and characters that do
/// not print escaped.
pub uninterp spec fn debug_quoted(s: Seq<char>) -> Seq<char>;

/// `<str as Debug>::fmt`, rendered to a string. Trusted: the text is the named
/// `debug_quoted` of the string; the escaping rules are not restated.
#[verifier::external_body]
fn debug_str(s: &str) -> (text: String)
    ensures
        text@ == debug_quoted(s@),
{
    format!("{s:?}")
}

/// The `Debug` text of an optional string.
pub open spec fn debug_opt(o: Option<String>) -> Seq<char> {
    match o {
        Some(s) => "Some("@ + debug_quoted(s@) + ")"@,
        None => "None"@,
    }
}

/// The `Debug` text of a boolean.
pub open spec fn debug_bool(b: bool) -> Seq<char> {
    if b {
        "true"@
    } else {
        "false"@
    }
}

/// What a redacted field shows.
pub open spec fn redacted() -> Seq<char> {
    "\"[REDACTED]\""@
}

/// `name: value` pairs joined by `, `.
pub open spec fn debug_fields(fields: Seq<(Seq<char>, Seq<char>)>) -> Seq<char>
    decreases fields.len(),
{
    if fields.len() == 0 {
        Seq::empty()
    } else if fields.len() == 1 {
        fields[0].0 + ": "@ + fields[0].1
    } else {
        debug_fields(fields.drop_last()) + ", "@ + fields.last().0 + ": "@ + fields.last().1
    }
}

/// The `Debug` text of a struct (`Formatter::debug_struct`): the name, then the fields in
/// braces.
pub open spec fn debug_struct(name: Seq<char>, fields: Seq<(Seq<char>, Seq<char>)>) -> Seq<char> {
    if fields.len() == 0 {
        name
    } else {
        name + " { "@ + debug_fields(fields) + " }"@
    }
}

fn debug_opt_exec(o: &Option<String>) -> (text: String)
    ensures
        text@ == debug_opt(*o),
{
    match o {
        Some(s) => {
            let q = debug_str(s.as_str());
            let a = concat2("Some(", q.as_str());
            concat2(a.as_str(), ")")
        },
        None => owned("None"),
    }
}

fn debug_bool_exec(b: bool) -> (text: String)
    ensures
        text@ == debug_bool(b),
{
    if b {
        owned("true")
    } else {
        owned("false")
    }
}

fn render_debug_struct(name: &str, fields: &Vec<(String, String)>) -> (text: String)
    ensures
        text@ == debug_struct(name@, fields@.map_values(|f: (String, String)| (f.0@, f.1@))),
{
    let ghost views = fields@.map_values(|f: (String, String)| (f.0@, f.1@));
    if fields.len() == 0 {
        return owned(name);
    }
    let mut body = String::new();
    let mut i: usize = 0;
    while i < fields.len()
        invariant
            views == fields@.map_values(|f: (String, String)| (f.0@, f.1@)),
            i <= fields@.len(),
            fields@.len() > 0,
            body@ == debug_fields(views.take(i as int)),
        decreases fields.len() - i,
    {
        proof {
            assert(views.take(i as int + 1).drop_last() =~= views.take(i as int));
        }
        let f = &fields[i];
        let with_sep = if i == 0 {
            concat2(body.as_str(), "")
        } else {
            concat2(body.as_str(), ", ")
        };
        let a = concat2(with_sep.as_str(), f.0.as_str());
        let b = concat2(a.as_str(), ": ");
        body = concat2(b.as_str(), f.1.as_str());
        proof {
            reveal_strlit("");
            assert(views.take(i as int + 1).last() == (f.0@, f.1@));
            if i == 0 {
                assert(body@ =~= debug_fields(views.take(1)));
            } else {
                assert(body@ =~= debug_fields(views.take(i as int + 1)));
            }
        }
        i = i + 1;
    }
    assert(views.take(views.len() as int) =~= views);
    let head = concat2(name, " { ");
    let with_body = concat2(head.as_str(), body.as_str());
    concat2(with_body.as_str(), " }")
}

impl MfaEnrollStartResponse {
    /// The `Debug` text of this value, with `secret_base32`, `provisioning_uri` redacted.
    pub fn redacted_debug(&self) -> (text: String)
        ensures
            text@ == debug_struct(
                "MfaEnrollStartResponse"@,
                seq![("credential_id"@, debug_quoted(self.credential_id@)), ("secret_base32"@, redacted()), ("provisioning_uri"@, redacted())],
            ),
    {
        let mut fields: Vec<(String, String)> = Vec::new();
        fields.push((owned("credential_id"), debug_str(self.credential_id.as_str())));
        fields.push((owned("secret_base32"), owned("\"[REDACTED]\"")));
        fields.push((owned("provisioning_uri"), owned("\"[REDACTED]\"")));
        let ghost views = fields@.map_values(|f: (String, String)| (f.0@, f.1@));
        assert(views =~= seq![("credential_id"@, debug_quoted(self.credential_id@)), ("secret_base32"@, redacted()), ("provisioning_uri"@, redacted())]);
        render_debug_struct("MfaEnrollStartResponse", &fields)
    }
}

impl MfaCodeRequest {
    /// The `Debug` text of this value, with `code` redacted.
    pub fn redacted_debug(&self) -> (text: String)
        ensures
            text@ == debug_struct(
                "MfaCodeRequest"@,
                seq![("code"@, redacted())],
            ),
    {
        let mut fields: Vec<(String, String)> = Vec::new();
        fields.push((owned("code"), owned("\"[REDACTED]\"")));
        let ghost views = fields@.map_values(|f: (String, String)| (f.0@, f.1@));
        assert(views =~= seq![("code"@, redacted())]);
        render_debug_struct("MfaCodeRequest", &fields)
    }
}

impl MfaEnrollConfirmResponse {
    /// The `Debug` text of this value, with `recovery_codes` redacted.
    pub fn redacted_debug(&self) -> (text: String)
        ensures
            text@ == debug_struct(
                "MfaEnrollConfirmResponse"@,
                seq![("recovery_codes"@, redacted()), ("assurance"@, debug_quoted(self.assurance@))],
            ),
    {
        let mut fields: Vec<(String, String)> = Vec::new();
        fields.push((owned("recovery_codes"), owned("\"[REDACTED]\"")));
        fields.push((owned("assurance"), debug_str(self.assurance.as_str())));
        let ghost views = fields@.map_values(|f: (String, String)| (f.0@, f.1@));
        assert(views =~= seq![("recovery_codes"@, redacted()), ("assurance"@, debug_quoted(self.assurance@))]);
        render_debug_struct("MfaEnrollConfirmResponse", &fields)
    }
}

impl OAuthStartResponse {
    /// The `Debug` text of this value, with `authorization_url`, `state` redacted.
    pub fn redacted_debug(&self) -> (text: String)
        ensures
            text@ == debug_struct(
                "OAuthStartResponse"@,
                seq![("provider_id"@, debug_quoted(self.provider_id@)), ("authorization_url"@, redacted()), ("state"@, redacted())],
            ),
    {
        let mut fields: Vec<(String, String)> = Vec::new();
        fields.push((owned("provider_id"), debug_str(self.provider_id.as_str())));
        fields.push((owned("authorization_url"), owned("\"[REDACTED]\"")));
        fields.push((owned("state"), owned("\"[REDACTED]\"")));
        let ghost views = fields@.map_values(|f: (String, String)| (f.0@, f.1@));
        assert(views =~= seq![("provider_id"@, debug_quoted(self.provider_id@)), ("authorization_url"@, redacted()), ("state"@, redacted())]);
        render_debug_struct("OAuthStartResponse", &fields)
    }
}

impl OAuthCallbackRequest {
    /// The `Debug` text of this value, with `code`, `state` redacted.
    pub fn redacted_debug(&self) -> (text: String)
        ensures
            text@ == debug_struct(
                "OAuthCallbackRequest"@,
                seq![("provider_id"@, debug_quoted(self.provider_id@)), ("redirect_url"@, debug_opt(self.redirect_url)), ("code"@, redacted()), ("state"@, redacted())],
            ),
    {
        let mut fields: Vec<(String, String)> = Vec::new();
        fields.push((owned("provider_id"), debug_str(self.provider_id.as_str())));
        fields.push((owned("redirect_url"), debug_opt_exec(&self.redirect_url)));
        fields.push((owned("code"), owned("\"[REDACTED]\"")));
        fields.push((owned("state"), owned("\"[REDACTED]\"")));
        let ghost views = fields@.map_values(|f: (String, String)| (f.0@, f.1@));
        assert(views =~= seq![("provider_id"@, debug_quoted(self.provider_id@)), ("redirect_url"@, debug_opt(self.redirect_url)), ("code"@, redacted()), ("state"@, redacted())]);
        render_debug_struct("OAuthCallbackRequest", &fields)
    }
}

impl LoginCompletionResponse {
    /// The `Debug` text of this value, with `session_id`, `access_token`, `refresh_token` redacted.
    pub fn redacted_debug(&self) -> (text: String)
        ensures
            text@ == debug_struct(
                "LoginCompletionResponse"@,
                seq![("authenticated"@, debug_bool(self.authenticated)), ("redirect_url"@, debug_quoted(self.redirect_url@)), ("expires_in_seconds"@, decimal(self.expires_in_seconds as nat)), ("session_id"@, redacted()), ("access_token"@, redacted()), ("refresh_token"@, redacted())],
            ),
    {
        let mut fields: Vec<(String, String)> = Vec::new();
        fields.push((owned("authenticated"), debug_bool_exec(self.authenticated)));
        fields.push((owned("redirect_url"), debug_str(self.redirect_url.as_str())));
        fields.push((owned("expires_in_seconds"), decimal_string(self.expires_in_seconds)));
        fields.push((owned("session_id"), owned("\"[REDACTED]\"")));
        fields.push((owned("access_token"), owned("\"[REDACTED]\"")));
        fields.push((owned("refresh_token"), owned("\"[REDACTED]\"")));
        let ghost views = fields@.map_values(|f: (String, String)| (f.0@, f.1@));
        assert(views =~= seq![("authenticated"@, debug_bool(self.authenticated)), ("redirect_url"@, debug_quoted(self.redirect_url@)), ("expires_in_seconds"@, decimal(self.expires_in_seconds as nat)), ("session_id"@, redacted()), ("access_token"@, redacted()), ("refresh_token"@, redacted())]);
        render_debug_struct("LoginCompletionResponse", &fields)
    }
}

impl PasswordResetStartRequest {
    /// The `Debug` text of this value, with `email` redacted.
    pub fn redacted_debug(&self) -> (text: String)
        ensures
            text@ == debug_struct(
                "PasswordResetStartRequest"@,
                seq![("redirect_url"@, debug_opt(self.redirect_url)), ("email"@, redacted())],
            ),
    {
        let mut fields: Vec<(String, String)> = Vec::new();
        fields.push((owned("redirect_url"), debug_opt_exec(&self.redirect_url)));
        fields.push((owned("email"), owned("\"[REDACTED]\"")));
        let ghost views = fields@.map_values(|f: (String, String)| (f.0@, f.1@));
        assert(views =~= seq![("redirect_url"@, debug_opt(self.redirect_url)), ("email"@, redacted())]);
        render_debug_struct("PasswordResetStartRequest", &fields)
    }
}

impl CapturedMailResponse {
    /// The `Debug` text of this value, with `recipient`, `body_text`, `body_html`, `action_url` redacted.
    pub fn redacted_debug(&self) -> (text: String)
        ensures
            text@ == debug_struct(
                "CapturedMailResponse"@,
                seq![("message_kind"@, debug_quoted(self.message_kind@)), ("subject"@, debug_quoted(self.subject@)), ("recipient"@, redacted()), ("body_text"@, redacted()), ("body_html"@, redacted()), ("action_url"@, redacted())],
            ),
    {
        let mut fields: Vec<(String, String)> = Vec::new();
        fields.push((owned("message_kind"), debug_str(self.message_kind.as_str())));
        fields.push((owned("subject"), debug_str(self.subject.as_str())));
        fields.push((owned("recipient"), owned("\"[REDACTED]\"")));
        fields.push((owned("body_text"), owned("\"[REDACTED]\"")));
        fields.push((owned("body_html"), owned("\"[REDACTED]\"")));
        fields.push((owned("action_url"), owned("\"[REDACTED]\"")));
        let ghost views = fields@.map_values(|f: (String, String)| (f.0@, f.1@));
        assert(views =~= seq![("message_kind"@, debug_quoted(self.message_kind@)), ("subject"@, debug_quoted(self.subject@)), ("recipient"@, redacted()), ("body_text"@, redacted()), ("body_html"@, redacted()), ("action_url"@, redacted())]);
        render_debug_struct("CapturedMailResponse", &fields)
    }
}

impl EmailVerificationCompleteRequest {
    /// The `Debug` text of this value, with `token` redacted.
    pub fn redacted_debug(&self) -> (text: String)
        ensures
            text@ == debug_struct(
                "EmailVerificationCompleteRequest"@,
                seq![("redirect_url"@, debug_opt(self.redirect_url)), ("token"@, redacted())],
            ),
    {
        let mut fields: Vec<(String, String)> = Vec::new();
        fields.push((owned("redirect_url"), debug_opt_exec(&self.redirect_url)));
        fields.push((owned("token"), owned("\"[REDACTED]\"")));
        let ghost views = fields@.map_values(|f: (String, String)| (f.0@, f.1@));
        assert(views =~= seq![("redirect_url"@, debug_opt(self.redirect_url)), ("token"@, redacted())]);
        render_debug_struct("EmailVerificationCompleteRequest", &fields)
    }
}

impl EmailVerificationResendRequest {
    /// The `Debug` text of this value, with `email` redacted.
    pub fn redacted_debug(&self) -> (text: String)
        ensures
            text@ == debug_struct(
                "EmailVerificationResendRequest"@,
                seq![("redirect_url"@, debug_opt(self.redirect_url)), ("email"@, redacted())],
            ),
    {
        let mut fields: Vec<(String, String)> = Vec::new();
        fields.push((owned("redirect_url"), debug_opt_exec(&self.redirect_url)));
        fields.push((owned("email"), owned("\"[REDACTED]\"")));
        let ghost views = fields@.map_values(|f: (String, String)| (f.0@, f.1@));
        assert(views =~= seq![("redirect_url"@, debug_opt(self.redirect_url)), ("email"@, redacted())]);
        render_debug_struct("EmailVerificationResendRequest", &fields)
    }
}

impl PasswordResetCompleteRequest {
    /// The `Debug` text of this value, with `token`, `password` redacted.
    pub fn redacted_debug(&self) -> (text: String)
        ensures
            text@ == debug_struct(
                "PasswordResetCompleteRequest"@,
                seq![("redirect_url"@, debug_opt(self.redirect_url)), ("token"@, redacted()), ("password"@, redacted())],
            ),
    {
        let mut fields: Vec<(String, String)> = Vec::new();
        fields.push((owned("redirect_url"), debug_opt_exec(&self.redirect_url)));
        fields.push((owned("token"), owned("\"[REDACTED]\"")));
        fields.push((owned("password"), owned("\"[REDACTED]\"")));
        let ghost views = fields@.map_values(|f: (String, String)| (f.0@, f.1@));
        assert(views =~= seq![("redirect_url"@, debug_opt(self.redirect_url)), ("token"@, redacted()), ("password"@, redacted())]);
        render_debug_struct("PasswordResetCompleteRequest", &fields)
    }
}

impl EmailPasswordLoginRequest {
    /// The `Debug` text of this value, with `email`, `password` redacted.
    pub fn redacted_debug(&self) -> (text: String)
        ensures
            text@ == debug_struct(
                "EmailPasswordLoginRequest"@,
                seq![("redirect_url"@, debug_opt(self.redirect_url)), ("email"@, redacted()), ("password"@, redacted())],
            ),
    {
        let mut fields: Vec<(String, String)> = Vec::new();
        fields.push((owned("redirect_url"), debug_opt_exec(&self.redirect_url)));
        fields.push((owned("email"), owned("\"[REDACTED]\"")));
        fields.push((owned("password"), owned("\"[REDACTED]\"")));
        let ghost views = fields@.map_values(|f: (String, String)| (f.0@, f.1@));
        assert(views =~= seq![("redirect_url"@, debug_opt(self.redirect_url)), ("email"@, redacted()), ("password"@, redacted())]);
        render_debug_struct("EmailPasswordLoginRequest", &fields)
    }
}

impl EmailPasswordRegisterRequest {
    /// The `Debug` text of this value, with `email`, `password` redacted.
    pub fn redacted_debug(&self) -> (text: String)
        ensures
            text@ == debug_struct(
                "EmailPasswordRegisterRequest"@,
                seq![("redirect_url"@, debug_opt(self.redirect_url)), ("email"@, redacted()), ("password"@, redacted())],
            ),
    {
        let mut fields: Vec<(String, String)> = Vec::new();
        fields.push((owned("redirect_url"), debug_opt_exec(&self.redirect_url)));
        fields.push((owned("email"), owned("\"[REDACTED]\"")));
        fields.push((owned("password"), owned("\"[REDACTED]\"")));
        let ghost views = fields@.map_values(|f: (String, String)| (f.0@, f.1@));
        assert(views =~= seq![("redirect_url"@, debug_opt(self.redirect_url)), ("email"@, redacted()), ("password"@, redacted())]);
        render_debug_struct("EmailPasswordRegisterRequest", &fields)
    }
}

impl PasskeyStartResponse {
    /// The `Debug` text of this value, with `challenge_id`, `public_key_options_json` redacted.
    pub fn redacted_debug(&self) -> (text: String)
        ensures
            text@ == debug_struct(
                "PasskeyStartResponse"@,
                seq![("redirect_url"@, debug_quoted(self.redirect_url@)), ("challenge_id"@, redacted()), ("public_key_options_json"@, redacted())],
            ),
    {
        let mut fields: Vec<(String, String)> = Vec::new();
        fields.push((owned("redirect_url"), debug_str(self.redirect_url.as_str())));
        fields.push((owned("challenge_id"), owned("\"[REDACTED]\"")));
        fields.push((owned("public_key_options_json"), owned("\"[REDACTED]\"")));
        let ghost views = fields@.map_values(|f: (String, String)| (f.0@, f.1@));
        assert(views =~= seq![("redirect_url"@, debug_quoted(self.redirect_url@)), ("challenge_id"@, redacted()), ("public_key_options_json"@, redacted())]);
        render_debug_struct("PasskeyStartResponse", &fields)
    }
}

impl PasskeyVerifyRequest {
    /// The `Debug` text of this value, with `challenge_id`, `credential_json` redacted.
    pub fn redacted_debug(&self) -> (text: String)
        ensures
            text@ == debug_struct(
                "PasskeyVerifyRequest"@,
                seq![("redirect_url"@, debug_opt(self.redirect_url)), ("challenge_id"@, redacted()), ("credential_json"@, redacted())],
            ),
    {
        let mut fields: Vec<(String, String)> = Vec::new();
        fields.push((owned("redirect_url"), debug_opt_exec(&self.redirect_url)));
        fields.push((owned("challenge_id"), owned("\"[REDACTED]\"")));
        fields.push((owned("credential_json"), owned("\"[REDACTED]\"")));
        let ghost views = fields@.map_values(|f: (String, String)| (f.0@, f.1@));
        assert(views =~= seq![("redirect_url"@, debug_opt(self.redirect_url)), ("challenge_id"@, redacted()), ("credential_json"@, redacted())]);
        render_debug_struct("PasskeyVerifyRequest", &fields)
    }
}

impl TokenRefreshResponse {
    /// The `Debug` text of this value, with `access_token`, `refresh_token` redacted.
    pub fn redacted_debug(&self) -> (text: String)
        ensures
            text@ == debug_struct(
                "TokenRefreshResponse"@,
                seq![("expires_in_seconds"@, decimal(self.expires_in_seconds as nat)), ("access_token"@, redacted()), ("refresh_token"@, redacted())],
            ),
    {
        let mut fields: Vec<(String, String)> = Vec::new();
        fields.push((owned("expires_in_seconds"), decimal_string(self.expires_in_seconds)));
        fields.push((owned("access_token"), owned("\"[REDACTED]\"")));
        fields.push((owned("refresh_token"), owned("\"[REDACTED]\"")));
        let ghost views = fields@.map_values(|f: (String, String)| (f.0@, f.1@));
        assert(views =~= seq![("expires_in_seconds"@, decimal(self.expires_in_seconds as nat)), ("access_token"@, redacted()), ("refresh_token"@, redacted())]);
        render_debug_struct("TokenRefreshResponse", &fields)
    }
}

impl TokenRefreshRequest {
    /// The `Debug` text of this value, with `refresh_token` redacted.
    pub fn redacted_debug(&self) -> (text: String)
        ensures
            text@ == debug_struct(
                "TokenRefreshRequest"@,
                seq![("refresh_token"@, redacted())],
            ),
    {
        let mut fields: Vec<(String, String)> = Vec::new();
        fields.push((owned("refresh_token"), owned("\"[REDACTED]\"")));
        let ghost views = fields@.map_values(|f: (String, String)| (f.0@, f.1@));
        assert(views =~= seq![("refresh_token"@, redacted())]);
        render_debug_struct("TokenRefreshRequest", &fields)
    }
}

impl TokenVerifyRequest {
    /// The `Debug` text of this value, with `access_token` redacted.
    pub fn redacted_debug(&self) -> (text: String)
        ensures
            text@ == debug_struct(
                "TokenVerifyRequest"@,
                seq![("access_token"@, redacted())],
            ),
    {
        let mut fields: Vec<(String, String)> = Vec::new();
        fields.push((owned("access_token"), owned("\"[REDACTED]\"")));
        let ghost views = fields@.map_values(|f: (String, String)| (f.0@, f.1@));
        assert(views =~= seq![("access_token"@, redacted())]);
        render_debug_struct("TokenVerifyRequest", &fields)
    }
}

impl PasswordChangeRequest {
    /// The `Debug` text of this value, with `current_password`, `new_password` redacted.
    pub fn redacted_debug(&self) -> (text: String)
        ensures
            text@ == debug_struct(
                "PasswordChangeRequest"@,
                seq![("current_password"@, redacted()), ("new_password"@, redacted())],
            ),
    {
        let mut fields: Vec<(String, String)> = Vec::new();
        fields.push((owned("current_password"), owned("\"[REDACTED]\"")));
        fields.push((owned("new_password"), owned("\"[REDACTED]\"")));
        let ghost views = fields@.map_values(|f: (String, String)| (f.0@, f.1@));
        assert(views =~= seq![("current_password"@, redacted()), ("new_password"@, redacted())]);
        render_debug_struct("PasswordChangeRequest", &fields)
    }
}

} // verus!
