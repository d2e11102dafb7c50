//! When the development shortcuts (captured mail, the verification bypass) are allowed,
//! and what a captured mail request asks for.

use vstd::prelude::*;
use crate::application::ingress::{loopback_base_url, require_loopback_public_base_url};
use crate::dev_auth::{development_verification_controls_visible, same_origin_action_path, same_origin_path};
use crate::error::AuthStackError;
use crate::text::str_eq;

verus! {

/// Developer tools are on only outside production, when asked for, on a loopback host.
pub fn development_auth_tools_enabled(production: bool, dev_tools: bool, loopback: bool) -> (b: bool)
    ensures
        b == (!production && dev_tools && loopback),
{
    !production && dev_tools && loopback
}

/// The mail transport setting names the capture transport.
pub open spec fn capture_transport(transport: Option<Seq<char>>) -> bool {
    transport == Some("capture"@)
}

fn capture_transport_exec(transport: &Option<String>) -> (b: bool)
    ensures
        b == capture_transport(crate::application::admin::opt_chars(*transport)),
{
    match transport {
        Some(t) => str_eq(t.as_str(), "capture"),
        None => false,
    }
}

/// Captured mail is readable when the verification controls may be shown and the app is
/// served on loopback.
pub fn development_mail_capture_enabled(
    mail_capture_compiled: bool,
    production: bool,
    dev_tools: bool,
    transport: &Option<String>,
    loopback: bool,
) -> (b: bool)
    ensures
        b == (mail_capture_compiled && !production && dev_tools && capture_transport(
            crate::application::admin::opt_chars(*transport),
        ) && loopback),
{
    let capture = capture_transport_exec(transport);
    development_verification_controls_visible(mail_capture_compiled, production, dev_tools, capture)
        && loopback
}

/// Refuses the captured-mail surface, naming the first condition that fails: production
/// and missing developer tools are forbidden, a routable public base URL, a build without
/// mail capture and another mail transport are configuration errors.
pub fn require_development_mail_capture(
    production: bool,
    dev_tools: bool,
    public_base_url: &str,
    mail_capture_compiled: bool,
    transport: &Option<String>,
) -> (r: Result<(), AuthStackError>)
    ensures
        production ==> r == Err::<(), AuthStackError>(AuthStackError::Forbidden),
        !production && !dev_tools ==> r == Err::<(), AuthStackError>(AuthStackError::Forbidden),
        !production && dev_tools && !loopback_base_url(public_base_url@) ==> (r matches Err(
            AuthStackError::Configuration { message: m },
        ) && m@ == "development auth requires a loopback AUTH_PUBLIC_BASE_URL"@),
        !production && dev_tools && loopback_base_url(public_base_url@) && !mail_capture_compiled ==> (r matches Err(
            AuthStackError::Configuration { message: m },
        ) && m@ == "captured mail requires the mail-capture feature"@),
        !production && dev_tools && loopback_base_url(public_base_url@) && mail_capture_compiled
            && !capture_transport(crate::application::admin::opt_chars(*transport)) ==> (r matches Err(
            AuthStackError::Configuration { message: m },
        ) && m@ == "captured mail requires AUTH_MAIL_TRANSPORT=capture"@),
        !production && dev_tools && loopback_base_url(public_base_url@) && mail_capture_compiled
            && capture_transport(crate::application::admin::opt_chars(*transport)) ==> r is Ok,
{
    if production {
        return Err(AuthStackError::Forbidden);
    }
    if !dev_tools {
        return Err(AuthStackError::Forbidden);
    }
    match require_loopback_public_base_url("development auth", public_base_url) {
        Ok(()) => {},
        Err(e) => {
            proof {
                reveal_strlit("development auth");
                reveal_strlit(" requires a loopback AUTH_PUBLIC_BASE_URL");
                reveal_strlit("development auth requires a loopback AUTH_PUBLIC_BASE_URL");
            }
            return Err(e);
        },
    }
    if !mail_capture_compiled {
        return Err(AuthStackError::configuration("captured mail requires the mail-capture feature"));
    }
    if !capture_transport_exec(transport) {
        return Err(AuthStackError::configuration("captured mail requires AUTH_MAIL_TRANSPORT=capture"));
    }
    Ok(())
}

/// The kinds of mail the development capture can be asked for.
#[derive(Clone, Copy, Debug, PartialEq, Eq)]
pub enum CapturedMailKind {
    EmailVerification,
    PasswordReset,
    Invitation,
}

/// The captured-mail kind a request names: `email-verification`, `password-reset` or
/// `invitation`.
pub fn captured_mail_kind(message_kind: &str) -> (r: Result<CapturedMailKind, AuthStackError>)
    ensures
        message_kind@ == "email-verification"@ ==> r == Ok::<CapturedMailKind, AuthStackError>(CapturedMailKind::EmailVerification),
        message_kind@ == "password-reset"@ ==> r == Ok::<CapturedMailKind, AuthStackError>(CapturedMailKind::PasswordReset),
        message_kind@ == "invitation"@ ==> r == Ok::<CapturedMailKind, AuthStackError>(CapturedMailKind::Invitation),
        !(message_kind@ == "email-verification"@ || message_kind@ == "password-reset"@
            || message_kind@ == "invitation"@) ==> (r matches Err(AuthStackError::Validation { message: m })
            && m@ == "message_kind is invalid"@),
{
    proof {
        reveal_strlit("email-verification");
        reveal_strlit("password-reset");
        reveal_strlit("invitation");
        assert("email-verification"@[0] != "password-reset"@[0]);
        assert("email-verification"@[0] != "invitation"@[0]);
        assert("password-reset"@[0] != "invitation"@[0]);
    }
    if str_eq(message_kind, "email-verification") {
        Ok(CapturedMailKind::EmailVerification)
    } else if str_eq(message_kind, "password-reset") {
        Ok(CapturedMailKind::PasswordReset)
    } else if str_eq(message_kind, "invitation") {
        Ok(CapturedMailKind::Invitation)
    } else {
        Err(AuthStackError::validation("message_kind is invalid"))
    }
}

/// The action link shown for a captured mail: its same-origin path when it has one, else
/// the link as captured.
pub fn captured_action_url(raw_action: Option<String>) -> (url: Option<String>)
    ensures
        match raw_action {
            None => url is None,
            Some(a) => match same_origin_path(a@) {
                Some(p) => url matches Some(u) && u@ == p,
                None => url == Some(a),
            },
        },
{
    match raw_action {
        None => None,
        Some(a) => match same_origin_action_path(a.as_str()) {
            Some(p) => Some(p),
            None => Some(a),
        },
    }
}

} // verus!
