//! Account and token request checks made before the identity stack is asked: a password
//! change, the email a passkey is registered for, and the tokens a request must carry.

use vstd::prelude::*;
use vstd::utf8::encode_utf8;
use crate::contracts::auth::PasswordChangeRequest;
use crate::error::AuthStackError;
use crate::text::{eq_ignore_ascii_case, eq_ignore_ascii_case_vec, is_blank, is_blank_str, str_eq, trim, trim_chars, trim_str};

verus! {

/// A password change names the current password, a new one at least `min_length` bytes
/// long, and the two differ; the checks are made in that order.
pub fn validate_password_change(request: &PasswordChangeRequest, min_length: usize) -> (r: Result<(), AuthStackError>)
    ensures
        request.current_password@.len() == 0 ==> (r matches Err(AuthStackError::Validation { message: m })
            && m@ == "current_password is required"@),
        request.current_password@.len() > 0 && encode_utf8(request.new_password@).len() < min_length ==> (r matches Err(
            AuthStackError::Validation { message: m },
        ) && m@ == "new password is too short"@),
        request.current_password@.len() > 0 && encode_utf8(request.new_password@).len() >= min_length
            && request.current_password@ == request.new_password@ ==> (r matches Err(AuthStackError::Validation { message: m })
            && m@ == "new password must be different"@),
        request.current_password@.len() > 0 && encode_utf8(request.new_password@).len() >= min_length
            && request.current_password@ != request.new_password@ ==> r is Ok,
{
    if request.current_password.unicode_len() == 0 {
        return Err(AuthStackError::validation("current_password is required"));
    }
    if request.new_password.as_str().as_bytes().len() < min_length {
        return Err(AuthStackError::validation("new password is too short"));
    }
    if str_eq(request.current_password.as_str(), request.new_password.as_str()) {
        return Err(AuthStackError::validation("new password must be different"));
    }
    Ok(())
}

/// A passkey is registered for the signed-in account: an email named in the request must
/// be the session's (trimmed, ASCII case aside).
pub fn check_passkey_registration_email(requested: &Option<String>, session_email: &str) -> (r: Result<(), AuthStackError>)
    ensures
        (requested matches Some(e) && !eq_ignore_ascii_case(trim(e@), trim(session_email@)))
            ==> r == Err::<(), AuthStackError>(AuthStackError::Forbidden),
        !(requested matches Some(e) && !eq_ignore_ascii_case(trim(e@), trim(session_email@))) ==> r is Ok,
{
    match requested {
        Some(e) => {
            let a = trim_chars(e.as_str());
            let b = trim_chars(session_email);
            if !eq_ignore_ascii_case_vec(&a, &b) {
                return Err(AuthStackError::Forbidden);
            }
        },
        None => {},
    }
    Ok(())
}

/// The refresh token a refresh presents, trimmed; none (or a blank one) is an invalid token.
pub fn refresh_token_value(refresh_token: &Option<String>) -> (r: Result<String, AuthStackError>)
    ensures
        match refresh_token {
            Some(t) if !is_blank(t@) => r matches Ok(v) && v@ == trim(t@),
            _ => r == Err::<String, AuthStackError>(AuthStackError::InvalidToken),
        },
{
    match refresh_token {
        Some(t) => if !is_blank_str(t.as_str()) {
            return Ok(trim_str(t.as_str()));
        },
        None => {},
    }
    Err(AuthStackError::InvalidToken)
}

/// A token introspection request must carry an access token.
pub fn check_access_token_present(access_token: &str) -> (r: Result<(), AuthStackError>)
    ensures
        is_blank(access_token@) ==> (r matches Err(AuthStackError::Validation { message: m })
            && m@ == "access_token is required"@),
        !is_blank(access_token@) ==> r is Ok,
{
    if is_blank_str(access_token) {
        return Err(AuthStackError::validation("access_token is required"));
    }
    Ok(())
}

} // verus!
