use buwiz::auth_product::config::email_key;
use buwiz::auth_product::flows::{issue_oauth_flow_binding, oauth_flow_binding_value, verify_oauth_flow_binding};
use buwiz::auth_product::infra::{
    attach_public_session_id, normalize_passkey_origin, normalize_passkey_rp_id, public_session_id,
    unauthenticated_session,
};
use buwiz::desktop_oauth::{
    authorization_code_request_check, authorization_code_stored_check, authorize_form,
    authorize_location, desktop_client_check, device_form, device_poll_check, form_map,
    html_escape, login_redirect_location, oauth_page, param, param_or_empty, pkce_s256,
    query_map, random_token, random_user_code, redirect_list, refresh_request_check, sha256_b64,
    token_grant, urlencoding_encode, user_code_from_bytes, validate_authorize_params, TokenGrant,
};
use buwiz::error::AuthStackError;

#[test]
fn sha256_b64_matches_the_known_digest_of_abc() {
    assert_eq!(sha256_b64("abc"), "ungWv48Bz-pBQUDeXa4iI7ADYaOWF3qctBD_YfIAFa0");
}

#[test]
fn pkce_s256_matches_the_rfc_7636_example() {
    assert_eq!(
        pkce_s256("dBjftJeZ4CVP-mB92K27uhbUJU1p1r_wW1gFWFOEjXk"),
        "E9Melhoa2OwvFrEMTJguCHaoeK1t8URWbuGJSstw-cM"
    );
}

#[test]
fn public_session_id_is_a_short_stable_handle() {
    let handle = public_session_id("session-raw-1");
    assert_eq!(handle.len(), 12);
    assert_eq!(handle, public_session_id("session-raw-1"));
    assert_ne!(handle, public_session_id("session-raw-2"));
    assert!(!handle.contains("session"));
}

#[test]
fn attach_public_session_id_follows_the_raw_id() {
    let mut view = unauthenticated_session();
    attach_public_session_id(&mut view);
    assert_eq!(view.public_session_id, None);
    view.session_id = Some("sess-9".to_owned());
    attach_public_session_id(&mut view);
    assert_eq!(view.public_session_id, Some(public_session_id("sess-9")));
    assert_eq!(view.assurance, "none");
    assert!(!view.authenticated);
}

#[test]
fn passkey_relying_party_is_localhost_on_loopback() {
    assert_eq!(normalize_passkey_rp_id(" 127.0.0.1 ".to_owned()), "localhost");
    assert_eq!(normalize_passkey_rp_id("[::1]".to_owned()), "localhost");
    assert_eq!(normalize_passkey_rp_id("example.com".to_owned()), "example.com");
    assert_eq!(normalize_passkey_origin("http://127.0.0.1:3008/".to_owned()), "http://localhost:3008");
    assert_eq!(normalize_passkey_origin("http://[::1]:3008".to_owned()), "http://localhost:3008");
    assert_eq!(normalize_passkey_origin(" https://app.example// ".to_owned()), "https://app.example");
}

#[test]
fn email_key_normalizes_before_hashing() {
    assert_eq!(email_key("  Alice@Example.COM "), sha256_b64("alice@example.com"));
    assert_ne!(email_key("alice@example.com"), "alice@example.com");
}

#[test]
fn flow_binding_round_trip_and_tampering() {
    let key = b"binding-key";
    let value = issue_oauth_flow_binding(key, "google", "state-1").unwrap();
    assert!(verify_oauth_flow_binding(key, "google", "state-1", Some(&value)).is_ok());
    assert!(verify_oauth_flow_binding(key, "google", "state-1", Some(&format!("  {value} "))).is_ok());
    assert!(matches!(
        verify_oauth_flow_binding(key, "google", "state-2", Some(&value)),
        Err(AuthStackError::Forbidden)
    ));
    assert!(matches!(
        verify_oauth_flow_binding(b"other-key", "google", "state-1", Some(&value)),
        Err(AuthStackError::Forbidden)
    ));
    assert!(matches!(
        verify_oauth_flow_binding(key, "google", "state-1", Some("no-dot-here")),
        Err(AuthStackError::Forbidden)
    ));
    assert!(matches!(
        verify_oauth_flow_binding(key, "google", "state-1", Some("nonce.!!!")),
        Err(AuthStackError::Forbidden)
    ));
    let refused = verify_oauth_flow_binding(key, "google", "state-1", None).unwrap_err();
    assert_eq!(refused.public_code(), "validation");
    assert_eq!(
        refused.public_message(),
        "this sign-in was not started in this browser; start OAuth login again"
    );
    let blank = verify_oauth_flow_binding(key, "google", "state-1", Some("   ")).unwrap_err();
    assert_eq!(blank.public_code(), "validation");
}

#[test]
fn flow_binding_value_is_nonce_dot_tag() {
    let value = oauth_flow_binding_value(b"k", "nonce1", "google", "s");
    assert!(value.starts_with("nonce1."));
    assert_eq!(value.len(), "nonce1.".len() + 43);
    assert!(verify_oauth_flow_binding(b"k", "google", "s", Some(&value)).is_ok());
}

#[test]
fn random_tokens_are_base64url_of_the_requested_length() {
    let a = random_token(32).unwrap();
    let b = random_token(32).unwrap();
    assert_eq!(a.len(), 43);
    assert_ne!(a, b);
    assert!(a.chars().all(|c| c.is_ascii_alphanumeric() || c == '-' || c == '_'));
}

#[test]
fn user_codes_use_the_unambiguous_alphabet() {
    assert_eq!(user_code_from_bytes(&[0, 1, 2, 3, 4, 5, 6, 7]), "BCDF-GHJK");
    assert_eq!(user_code_from_bytes(&[28, 29, 255, 27, 56, 0, 0, 0]), "BCF9-BBBB");
    let code = random_user_code().unwrap();
    assert_eq!(code.len(), 9);
    assert_eq!(&code[4..5], "-");
    assert!(code
        .chars()
        .filter(|c| *c != '-')
        .all(|c| "BCDFGHJKLMNPQRSTVWXZ23456789".contains(c)));
}

#[test]
fn html_escape_covers_markup_characters() {
    assert_eq!(html_escape("<a href=\"x\">&</a>"), "&lt;a href=&quot;x&quot;&gt;&amp;&lt;/a&gt;");
    assert_eq!(html_escape("plain 'text'"), "plain 'text'");
}

#[test]
fn pages_escape_what_they_show() {
    let page = oauth_page("<Title>", "a & b", "<p>raw body</p>");
    assert!(page.starts_with("<!DOCTYPE html>"));
    assert!(page.contains("<title>&lt;Title&gt;</title>"));
    assert!(page.contains("<h1>&lt;Title&gt;</h1><p>a &amp; b</p><p>raw body</p></main>"));
    let form = authorize_form("buwiz-desktop", "http://127.0.0.1:1/cb", "s\"1", "c", "t", "<me>");
    assert!(form.contains("value=\"s&quot;1\""));
    assert!(form.contains("sign in as &lt;me&gt; and"));
    let device = device_form("csrf-1", "BCDF-GHJK");
    assert!(device.contains("value=\"BCDF-GHJK\""));
    assert!(device.contains("name=\"csrf\" value=\"csrf-1\""));
}

#[test]
fn form_encoding_and_parsing() {
    assert_eq!(urlencoding_encode("a b&c/é*"), "a+b%26c%2F%C3%A9*");
    let pairs = query_map("a=1&b=x+y&a=3&c=%2Fz");
    assert_eq!(param_or_empty(&pairs, "a"), "3");
    assert_eq!(param_or_empty(&pairs, "b"), "x y");
    assert_eq!(param(&pairs, "c"), Some("/z".to_owned()));
    assert_eq!(param(&pairs, "missing"), None);
    assert_eq!(param_or_empty(&pairs, "missing"), "");
    let body = form_map(b"grant_type=refresh_token&refresh_token=r1");
    assert_eq!(param_or_empty(&body, "grant_type"), "refresh_token");
}

#[test]
fn authorize_location_appends_code_and_state() {
    assert_eq!(
        authorize_location("http://127.0.0.1:9/cb", "abc", "s 1"),
        "http://127.0.0.1:9/cb?code=abc&state=s+1"
    );
    assert_eq!(authorize_location("buwiz://auth/callback?x=1", "a/b", ""), "buwiz://auth/callback?x=1&code=a%2Fb");
    assert_eq!(login_redirect_location("/oauth/authorize?a=b"), "/login?next=%2Foauth%2Fauthorize%3Fa%3Db");
}

#[test]
fn authorize_params_are_checked_in_order() {
    let good = "c".repeat(43);
    let ok = validate_authorize_params("buwiz-desktop", "buwiz://auth/callback", &good, "S256", "code", &[]);
    assert!(ok.is_ok());
    assert_eq!(
        validate_authorize_params("other", "buwiz://auth/callback", &good, "S256", "code", &[]).unwrap_err(),
        "unknown client_id (use buwiz-desktop)"
    );
    assert_eq!(
        validate_authorize_params("buwiz-desktop", "buwiz://auth/callback", &good, "S256", "token", &[]).unwrap_err(),
        "response_type must be code"
    );
    assert_eq!(
        validate_authorize_params("buwiz-desktop", "buwiz://auth/callback", &good, "plain", "code", &[]).unwrap_err(),
        "code_challenge_method must be S256"
    );
    assert_eq!(
        validate_authorize_params("buwiz-desktop", "buwiz://auth/callback", "short", "S256", "code", &[]).unwrap_err(),
        "code_challenge is required"
    );
    assert_eq!(
        validate_authorize_params("buwiz-desktop", "https://evil.example/cb", &good, "S256", "code", &[]).unwrap_err(),
        "redirect_uri is not allowed for the desktop client"
    );
}

#[test]
fn redirect_list_keeps_trimmed_non_blank_entries() {
    assert_eq!(redirect_list(" a , ,b,"), vec!["a".to_owned(), "b".to_owned()]);
    assert!(redirect_list("").is_empty());
}

#[test]
fn token_endpoint_decisions() {
    assert_eq!(token_grant("authorization_code").unwrap(), TokenGrant::AuthorizationCode);
    assert_eq!(token_grant("refresh_token").unwrap(), TokenGrant::RefreshToken);
    assert_eq!(
        token_grant("urn:ietf:params:oauth:grant-type:device_code").unwrap(),
        TokenGrant::DeviceCode
    );
    let unsupported = token_grant("password").unwrap_err();
    assert_eq!((unsupported.status, unsupported.error), (400, "unsupported_grant_type"));

    assert!(desktop_client_check("buwiz-desktop").is_ok());
    assert_eq!(desktop_client_check("x").unwrap_err().error, "invalid_client");

    let verifier = "v".repeat(50);
    assert!(authorization_code_request_check("buwiz-desktop", &verifier).is_ok());
    assert_eq!(
        authorization_code_request_check("buwiz-desktop", "short").unwrap_err().description,
        "code_verifier is invalid"
    );
    assert_eq!(
        authorization_code_request_check("nope", &verifier).unwrap_err().error,
        "invalid_client"
    );

    let challenge = pkce_s256(&verifier);
    assert!(authorization_code_stored_check(
        "buwiz-desktop", "buwiz://auth/callback", &verifier,
        "buwiz-desktop", "buwiz://auth/callback", &challenge
    )
    .is_ok());
    assert_eq!(
        authorization_code_stored_check(
            "buwiz-desktop", "buwiz://auth/callback", &verifier,
            "buwiz-desktop", "buwiz://other", &challenge
        )
        .unwrap_err()
        .description,
        "redirect_uri does not match"
    );
    assert_eq!(
        authorization_code_stored_check(
            "buwiz-desktop", "buwiz://auth/callback", &verifier,
            "buwiz-desktop", "buwiz://auth/callback", &verifier
        )
        .unwrap_err()
        .description,
        "PKCE verification failed"
    );

    assert!(refresh_request_check("r").is_ok());
    assert_eq!(refresh_request_check("").unwrap_err().description, "refresh_token is required");

    assert!(device_poll_check("buwiz-desktop", "buwiz-desktop", true).is_ok());
    assert_eq!(
        device_poll_check("buwiz-desktop", "buwiz-desktop", false).unwrap_err().error,
        "authorization_pending"
    );
    assert_eq!(device_poll_check("buwiz-desktop", "x", true).unwrap_err().error, "invalid_grant");
}
