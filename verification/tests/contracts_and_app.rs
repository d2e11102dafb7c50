use buwiz::application::auth::development_oauth_callback_url;
use buwiz::application::ingress::browser_origins_match;
use buwiz::application::organization::validate_role_permissions;
use buwiz::application::session::{
    expired_oauth_flow_cookie_header_value, oauth_flow_cookie_header_value,
    oauth_flow_value_from_cookie_header, session_cookie_header_value,
};
use buwiz::contracts::auth::{
    EmailPasswordLoginRequest, MfaCodeRequest, MfaEnrollConfirmResponse, MfaEnrollStartResponse,
    PasswordResetCompleteRequest,
};
use buwiz::contracts::organization::PermissionOption;
use buwiz::contracts::tax_profile::{
    bir_form_frequency, group_tax_profiles_by_tin, masked_tin_label, year_choices, TaxProfileView,
};
use buwiz::desktop_oauth::{is_desktop_oauth_request, pkce_verifier_valid};
use buwiz::dev_auth::{
    development_verification_controls_visible, login_error_is_unverified,
    same_origin_action_path, token_from_action_url, EMAIL_UNVERIFIED_PUBLIC_MESSAGE,
};
use buwiz::error::AuthStackError;

#[test]
fn browser_origin_accepts_loopback_aliases() {
    assert!(browser_origins_match("http://localhost:3008", "http://127.0.0.1:3008"));
    assert!(browser_origins_match("http://127.0.0.1:3008", "http://localhost:3008"));
    assert!(browser_origins_match("http://[::1]:3008", "http://localhost:3008"));
    assert!(browser_origins_match("http://localhost:3008", "http://localhost:3008/"));
}

#[test]
fn browser_origin_rejects_host_or_port_mismatch() {
    assert!(!browser_origins_match("http://localhost:3009", "http://localhost:3008"));
    assert!(!browser_origins_match("https://localhost:3008", "http://localhost:3008"));
    assert!(!browser_origins_match("http://evil.example:3008", "http://localhost:3008"));
    assert!(!browser_origins_match("http://localhost:3008", "http://example.com:3008"));
}

#[test]
fn development_oauth_callback_url_encodes_redirect_component() {
    let url = development_oauth_callback_url("google", "state_1", "/dashboard?tab=home");

    assert_eq!(
        url,
        "/api/auth/oauth/google/callback?code=development-oauth-code&state=state_1&next=%2Fdashboard%3Ftab%3Dhome"
    );
}

#[test]
fn session_cookie_header_value_adds_secure_when_enabled() {
    assert_eq!(
        session_cookie_header_value("session_1", Some(3600), true),
        "__Host-session=session_1; Path=/; HttpOnly; SameSite=Lax; Max-Age=3600; Secure"
    );
}

#[test]
fn session_cookie_header_value_omits_secure_when_disabled() {
    assert_eq!(
        session_cookie_header_value("session_1", None, false),
        "wasi_auth_dev_session=session_1; Path=/; HttpOnly; SameSite=Lax"
    );
}

#[test]
fn oauth_flow_cookie_is_host_prefixed_and_short_lived_when_secure() {
    assert_eq!(
        oauth_flow_cookie_header_value("binding_1", 600, true),
        "__Host-oauth_flow=binding_1; Path=/; HttpOnly; SameSite=Lax; Max-Age=600; Secure"
    );
    assert_eq!(
        oauth_flow_cookie_header_value("binding_1", 600, false),
        "wasi_auth_dev_oauth_flow=binding_1; Path=/; HttpOnly; SameSite=Lax; Max-Age=600"
    );
}

#[test]
fn expired_oauth_flow_cookie_clears_the_binding() {
    assert!(expired_oauth_flow_cookie_header_value(true).contains("__Host-oauth_flow=;"));
    assert!(expired_oauth_flow_cookie_header_value(true).contains("Max-Age=0"));
}

#[test]
fn oauth_flow_cookie_is_read_from_a_multi_cookie_header() {
    assert_eq!(
        oauth_flow_value_from_cookie_header("__Host-session=session_1; __Host-oauth_flow=binding_1")
            .as_deref(),
        Some("binding_1")
    );
    assert_eq!(oauth_flow_value_from_cookie_header("__Host-session=session_1"), None);
}

fn workspace_options() -> Vec<PermissionOption> {
    ["workspace.view", "member.manage", "dashboard.manage"]
        .iter()
        .map(|id| PermissionOption {
            id: (*id).to_owned(),
            label: (*id).to_owned(),
            group: "workspace".to_owned(),
        })
        .collect()
}

#[test]
fn role_permissions_reject_system_administration() {
    let error =
        validate_role_permissions(&["system.user.manage".to_owned()], &workspace_options()).unwrap_err();

    assert_eq!(error.public_code(), "validation");
}

#[test]
fn role_permissions_accept_assignable_workspace_permissions() {
    let assignable = workspace_options();
    let permissions = assignable.iter().map(|option| option.id.clone()).collect::<Vec<_>>();

    assert!(!permissions.is_empty());
    assert!(validate_role_permissions(&permissions, &assignable).is_ok());
}

#[test]
fn mfa_enrollment_and_code_debug_output_is_redacted() {
    let enrollment = MfaEnrollStartResponse {
        credential_id: "totp-one".to_owned(),
        secret_base32: "TOPSECRETBASE32".to_owned(),
        provisioning_uri: "otpauth://secret".to_owned(),
    };
    let confirmation = MfaEnrollConfirmResponse {
        recovery_codes: vec!["AAAA-BBBB-CCCC-DDDD".to_owned()],
        assurance: "aal2".to_owned(),
    };
    let request = MfaCodeRequest { code: "123456".to_owned() };

    let debug = format!(
        "{} {} {}",
        enrollment.redacted_debug(),
        confirmation.redacted_debug(),
        request.redacted_debug()
    );
    assert!(!debug.contains("TOPSECRETBASE32"));
    assert!(!debug.contains("otpauth://secret"));
    assert!(!debug.contains("AAAA-BBBB"));
    assert!(!debug.contains("123456"));
    assert!(debug.contains("[REDACTED]"));
}

#[test]
fn password_and_token_contract_debug_output_is_redacted() {
    let login = EmailPasswordLoginRequest {
        email: "person@example.com".to_owned(),
        password: "correct horse battery staple".to_owned(),
        redirect_url: Some("/organizations".to_owned()),
    };
    let reset = PasswordResetCompleteRequest {
        token: "one-time-reset-token".to_owned(),
        password: "another correct password".to_owned(),
        redirect_url: None,
    };

    let debug = format!("{} {}", login.redacted_debug(), reset.redacted_debug());

    assert!(!debug.contains("person@example.com"));
    assert!(!debug.contains("correct horse"));
    assert!(!debug.contains("one-time-reset-token"));
    assert!(debug.contains("[REDACTED]"));
}

fn sample(last4: &str, branch: &str, name: &str, holder: &str) -> TaxProfileView {
    TaxProfileView {
        id: format!("{last4}-{branch}"),
        profile_id: format!("{last4}-{branch}"),
        owner_user_id: None,
        org_id: None,
        tin_last4: last4.to_owned(),
        display_name: name.to_owned(),
        claim_status: "owned".to_owned(),
        full_name: name.to_owned(),
        rdo_code: "039".to_owned(),
        address: String::new(),
        line_of_business: String::new(),
        zip_code: String::new(),
        phone: String::new(),
        email: String::new(),
        taxpayer_type: "individual".to_owned(),
        tax_classification: None,
        is_vat_registered: false,
        holder_kind: holder.to_owned(),
        ownership_status: "personal_exclusive".to_owned(),
        verification_status: "unverified".to_owned(),
        verified_owner_user_id: None,
        account_id: None,
        branch_code: branch.to_owned(),
        is_archived: false,
        revision: 1,
        created_at: None,
        updated_at: None,
    }
}

#[test]
fn groups_branches_of_the_same_tin() {
    let groups = group_tax_profiles_by_tin(vec![
        sample("6789", "00001", "Annex", "personal"),
        sample("6789", "00000", "Head", "personal"),
        sample("1111", "00000", "Firm A", "organization"),
    ]);
    assert_eq!(groups.len(), 2);
    assert_eq!(groups[0].tin_last4, "1111");
    assert_eq!(groups[1].branches.len(), 2);
    assert_eq!(groups[1].branches[0].branch_code, "00000");
    assert_eq!(groups[1].branches[1].branch_code, "00001");
}

#[test]
fn masked_tin_never_prints_the_root() {
    assert_eq!(masked_tin_label("6789", "00001"), "•••-•••-6789-00001");
    assert!(!masked_tin_label("6789", "00000").contains("123"));
}

#[test]
fn year_choices_include_neighbors_and_history() {
    assert_eq!(year_choices(&[2022], 2026), vec![2027, 2026, 2025, 2024, 2022]);
}

#[test]
fn unknown_form_defaults_to_annual() {
    assert_eq!(bir_form_frequency("2550M"), "monthly");
    assert_eq!(bir_form_frequency("9999"), "annual");
}

#[test]
fn pkce_verifier_length_and_charset() {
    assert!(pkce_verifier_valid(&"a".repeat(43)));
    assert!(!pkce_verifier_valid("short"));
    assert!(!pkce_verifier_valid(&format!("{} ", "a".repeat(43))));
}

#[test]
fn desktop_paths_are_recognized() {
    assert!(is_desktop_oauth_request("/.well-known/oauth-authorization-server"));
    assert!(is_desktop_oauth_request("/oauth/device/code"));
    assert!(!is_desktop_oauth_request("/api/auth/password/login"));
}

#[test]
fn capture_controls_require_dev_capture_not_production() {
    assert!(development_verification_controls_visible(true, false, true, true));
    assert!(!development_verification_controls_visible(true, true, true, true));
    assert!(!development_verification_controls_visible(true, false, false, true));
    assert!(!development_verification_controls_visible(true, false, true, false));
    assert!(!development_verification_controls_visible(false, false, true, true));
}

#[test]
fn same_origin_rewrites_localhost_public_base() {
    assert_eq!(
        same_origin_action_path("http://localhost:3008/verify-email?token=abc"),
        Some("/verify-email?token=abc".to_owned())
    );
    assert_eq!(
        same_origin_action_path("http://127.0.0.1:3008/verify-email?token=abc"),
        Some("/verify-email?token=abc".to_owned())
    );
    assert_eq!(
        same_origin_action_path("/verify-email?token=abc"),
        Some("/verify-email?token=abc".to_owned())
    );
    assert_eq!(same_origin_action_path("mailto:nobody@example.test"), None);
}

#[test]
fn token_is_taken_from_query() {
    assert_eq!(
        token_from_action_url("http://localhost:3008/verify-email?token=one-time"),
        Some("one-time".to_owned())
    );
    assert_eq!(token_from_action_url("/verify-email"), None);
}

#[test]
fn unverified_login_copy_is_recognized() {
    assert!(login_error_is_unverified(EMAIL_UNVERIFIED_PUBLIC_MESSAGE));
    assert!(!login_error_is_unverified("Email or password is incorrect"));
}

#[test]
fn auth_required_maps_to_unauthorized_status() {
    assert_eq!(
        AuthStackError::AuthRequired.http_status(),
        http::StatusCode::UNAUTHORIZED.as_u16()
    );
}

#[test]
fn forbidden_maps_to_forbidden_status() {
    assert_eq!(AuthStackError::Forbidden.http_status(), http::StatusCode::FORBIDDEN.as_u16());
}
