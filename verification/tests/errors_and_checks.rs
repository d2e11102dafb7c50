use buwiz::migrate::{app_migration_versions, migration_verdict, parse_migration_command, MigrationAction, MigrationVerdict};
use buwiz::application::ingress::{require_trusted_context_key, trusted_context_headers};
use buwiz::auth_product::errors::{map_ingress_error, IngressFailure};
use buwiz::auth_product::infra::{authenticated_session_view, public_session_id, session_lookup_id, AssuranceLevel};
use buwiz::error::GrpcCode;
use buwiz::application::dashboard::query_run_permission;
use buwiz::contracts::resources::QueryExecutionClass;
use buwiz::application::account::{
    check_access_token_present, check_passkey_registration_email, refresh_token_value,
    validate_password_change,
};
use buwiz::application::authorization::{
    application_resource_id, authorization_capabilities_response, check_batch_size,
    direct_membership_check_needed, effective_permissions,
};
use buwiz::auth_product::errors::{
    map_login_error, map_management_error, map_mfa_error, map_oauth_error,
    map_oauth_provider_error, map_organization_error, map_passkey_error,
    map_password_reset_error, map_policy_error, map_rate_limit_error, map_registration_error,
    map_session_service_error, map_session_store_error, map_signing_key_error, map_token_error,
    map_verification_error, AdminServiceFailure, LoginFailure, ManagementFailure, MfaFailure,
    OAuthFailure, OrganizationFailure, PasskeyFailure, PasswordResetFailure, RateLimitFailure,
    RegistrationFailure, SessionServiceFailure, SigningKeyFailure, StoreFailure, TokenFailure,
    VerificationFailure,
};
use buwiz::contracts::auth::PasswordChangeRequest;
use buwiz::error::AuthStackError;

fn validation(m: &str) -> AuthStackError {
    AuthStackError::Validation { message: m.into() }
}
fn conflict(m: &str) -> AuthStackError {
    AuthStackError::Conflict { message: m.into() }
}
fn store(m: &str) -> AuthStackError {
    AuthStackError::Store { message: m.into() }
}
fn configuration(m: &str) -> AuthStackError {
    AuthStackError::Configuration { message: m.into() }
}

#[test]
fn registration_failures() {
    assert_eq!(map_registration_error(RegistrationFailure::InvalidRequest), validation("registration request is invalid"));
    assert_eq!(
        map_registration_error(RegistrationFailure::Store(StoreFailure::EmailAlreadyExists)),
        conflict("An account already exists for this email address")
    );
    assert_eq!(
        map_registration_error(RegistrationFailure::Store(StoreFailure::IdempotencyConflict)),
        conflict("registration request conflicts with an earlier attempt")
    );
    assert_eq!(map_registration_error(RegistrationFailure::Store(StoreFailure::Other)), store("password registration failed"));
    assert_eq!(map_registration_error(RegistrationFailure::Crypto), store("password registration failed"));
    assert_eq!(
        map_registration_error(RegistrationFailure::InvalidConfiguration),
        configuration("password registration is not configured")
    );
}

#[test]
fn login_and_verification_failures() {
    assert_eq!(map_login_error(LoginFailure::InvalidCredentials), AuthStackError::InvalidCredentials);
    assert_eq!(map_login_error(LoginFailure::Row), store("password login failed"));
    assert_eq!(
        map_verification_error(VerificationFailure::InvalidToken),
        validation("verification token is invalid or expired")
    );
    assert_eq!(
        map_password_reset_error(PasswordResetFailure::InvalidToken),
        validation("password reset token is invalid or expired")
    );
    assert_eq!(map_session_store_error(StoreFailure::Unauthenticated), AuthStackError::AuthRequired);
    assert_eq!(map_session_store_error(StoreFailure::EmailAlreadyExists), store("session verification failed"));
    assert_eq!(map_session_service_error(SessionServiceFailure::NotAuthorized), AuthStackError::Forbidden);
}

#[test]
fn organization_and_management_failures() {
    assert_eq!(
        map_organization_error(OrganizationFailure::SlugConflict),
        conflict("That workspace URL is already taken. Choose a different slug.")
    );
    assert_eq!(map_organization_error(OrganizationFailure::Unauthenticated), AuthStackError::Forbidden);
    assert_eq!(
        map_management_error(ManagementFailure::RoleInUse { member_count: 3, invitation_count: 0 }),
        conflict("cannot delete role while 3 active member(s) and 0 pending invitation(s) still use it")
    );
    assert_eq!(
        map_management_error(ManagementFailure::RestrictedPermission),
        validation("custom role contains a restricted permission")
    );
    assert_eq!(map_management_error(ManagementFailure::Crypto), store("management operation failed"));
}

#[test]
fn rate_limit_failures_keep_the_host_detail() {
    assert_eq!(
        map_rate_limit_error(RateLimitFailure::Transport("connection refused".into())),
        store("rate-limit operation failed: connection refused")
    );
    assert_eq!(map_rate_limit_error(RateLimitFailure::InvalidRow), store("rate-limit operation failed: empty row"));
    assert_eq!(map_rate_limit_error(RateLimitFailure::Other), store("rate-limit operation failed"));
    assert_eq!(
        map_rate_limit_error(RateLimitFailure::Transport("x".into())).public_message(),
        map_rate_limit_error(RateLimitFailure::Other).public_message()
    );
}

#[test]
fn token_mfa_oauth_passkey_failures() {
    assert_eq!(map_token_error(TokenFailure::ExpiredToken), AuthStackError::SessionExpired);
    assert_eq!(map_token_error(TokenFailure::ReuseDetected), AuthStackError::InvalidToken);
    assert_eq!(map_token_error(TokenFailure::InvalidSession), AuthStackError::AuthRequired);
    assert_eq!(map_mfa_error(MfaFailure::InvalidCode), AuthStackError::InvalidCredentials);
    assert_eq!(map_mfa_error(MfaFailure::AlreadyEnrolled), conflict("TOTP is already enrolled"));
    assert_eq!(map_oauth_error(OAuthFailure::Flow), AuthStackError::InvalidToken);
    assert_eq!(map_oauth_error(OAuthFailure::InvalidIdentity), validation("OAuth request is invalid"));
    assert_eq!(map_oauth_error(OAuthFailure::AccountUnavailable), AuthStackError::AuthRequired);
    assert_eq!(
        map_passkey_error(PasskeyFailure::CounterConflict),
        conflict("passkey credential changed or is already registered")
    );
    assert_eq!(map_passkey_error(PasskeyFailure::Serialization), store("passkey operation failed"));
}

#[test]
fn administration_failures() {
    assert_eq!(map_oauth_provider_error(AdminServiceFailure::InvalidAdminSession), AuthStackError::Forbidden);
    assert_eq!(map_policy_error(AdminServiceFailure::InvalidInput), validation("policy bundle is invalid"));
    assert_eq!(map_policy_error(AdminServiceFailure::Row), store("policy publication failed"));
    assert_eq!(
        map_signing_key_error(SigningKeyFailure::InvalidLifecycle),
        configuration("signing-key lifecycle is invalid")
    );
}

#[test]
fn authorization_rules() {
    assert_eq!(check_batch_size(50, 50), Ok(()));
    assert_eq!(check_batch_size(51, 50), Err(validation("authorization batch exceeds the maximum of 50")));
    assert!(direct_membership_check_needed(true, true, false, true));
    assert!(!direct_membership_check_needed(true, true, true, true));
    assert!(!direct_membership_check_needed(false, true, false, true));
    assert!(!direct_membership_check_needed(true, true, false, false));
    let perms = vec!["a".to_owned()];
    assert_eq!(effective_permissions(&perms, "system.x", true), vec!["a".to_owned(), "system.x".to_owned()]);
    assert_eq!(effective_permissions(&perms, "system.x", false), perms);
    assert_eq!(application_resource_id("profile", "42"), "profile:42");
    let caps = authorization_capabilities_response(true, true, false, false, 25);
    assert_eq!(caps.provider, "embedded-cedar+direct-spicedb");
    assert!(caps.consistency_tokens);
    assert_eq!(authorization_capabilities_response(false, true, false, false, 25).provider, "embedded-cedar");
}

#[test]
fn account_request_checks() {
    let change = |current: &str, new: &str| PasswordChangeRequest {
        current_password: current.into(),
        new_password: new.into(),
    };
    assert_eq!(validate_password_change(&change("", "longenough"), 8), Err(validation("current_password is required")));
    assert_eq!(validate_password_change(&change("old", "short"), 8), Err(validation("new password is too short")));
    assert_eq!(validate_password_change(&change("éééé", "éééé"), 8), Err(validation("new password must be different")));
    assert_eq!(validate_password_change(&change("old", "newpassword"), 8), Ok(()));

    assert_eq!(check_passkey_registration_email(&None, "a@x.com"), Ok(()));
    assert_eq!(check_passkey_registration_email(&Some(" A@X.com ".into()), "a@x.com"), Ok(()));
    assert_eq!(check_passkey_registration_email(&Some("b@x.com".into()), "a@x.com"), Err(AuthStackError::Forbidden));

    assert_eq!(refresh_token_value(&Some(" r1 ".into())), Ok("r1".to_owned()));
    assert_eq!(refresh_token_value(&Some("  ".into())), Err(AuthStackError::InvalidToken));
    assert_eq!(refresh_token_value(&None), Err(AuthStackError::InvalidToken));
    assert_eq!(check_access_token_present(" "), Err(validation("access_token is required")));
    assert_eq!(check_access_token_present("t"), Ok(()));
}

#[test]
fn errors_display_their_kind_and_detail() {
    assert_eq!(validation("bad").to_string(), "validation error: bad");
    assert_eq!(AuthStackError::Forbidden.to_string(), "permission denied");
    assert_eq!(
        AuthStackError::RateLimited { retry_after_seconds: 30 }.to_string(),
        "request rate limit exceeded; retry after 30 seconds"
    );
    assert_eq!(store("db down").to_string(), "store error: db down");
    assert_eq!(AuthStackError::NotFound { message: "x".into() }.to_string(), "not found: x");
}

#[test]
fn errors_have_grpc_codes() {
    assert_eq!(validation("x").grpc_code(), GrpcCode::InvalidArgument);
    assert_eq!(AuthStackError::SessionExpired.grpc_code(), GrpcCode::Unauthenticated);
    assert_eq!(AuthStackError::Forbidden.grpc_code(), GrpcCode::PermissionDenied);
    assert_eq!(conflict("x").grpc_code(), GrpcCode::Aborted);
    assert_eq!(AuthStackError::RateLimited { retry_after_seconds: 1 }.grpc_code(), GrpcCode::ResourceExhausted);
    assert_eq!(configuration("x").grpc_code(), GrpcCode::FailedPrecondition);
    assert_eq!(store("x").grpc_code(), GrpcCode::Unavailable);
    assert_eq!(AuthStackError::Transport { message: "x".into() }.grpc_code(), GrpcCode::Internal);
}

#[test]
fn query_runs_need_step_up_unless_reading() {
    assert_eq!(query_run_permission(QueryExecutionClass::Read), ("query.execute", false));
    assert_eq!(query_run_permission(QueryExecutionClass::Mutation), ("query.execute_mutation", true));
}

#[test]
fn ingress_failures() {
    assert_eq!(map_ingress_error(IngressFailure::MissingCredentials), AuthStackError::AuthRequired);
    assert_eq!(map_ingress_error(IngressFailure::InsufficientAssurance), AuthStackError::Forbidden);
    assert_eq!(map_ingress_error(IngressFailure::Csrf), validation("request failed trusted ingress validation"));
    assert_eq!(map_ingress_error(IngressFailure::InvalidContext), AuthStackError::AuthRequired);
}

#[test]
fn trusted_context_header_rules() {
    let one = |v: &str| vec![Some(v.to_owned())];
    assert_eq!(trusted_context_headers(&vec![], &vec![]), Ok(None));
    assert_eq!(trusted_context_headers(&one("env"), &one("req-1")), Ok(Some(("env".into(), "req-1".into()))));
    assert_eq!(trusted_context_headers(&vec![Some("a".into()), Some("b".into())], &one("r")), Err(AuthStackError::InvalidCredentials));
    assert_eq!(trusted_context_headers(&vec![None], &one("r")), Err(AuthStackError::InvalidCredentials));
    assert_eq!(trusted_context_headers(&one("env"), &vec![]), Err(AuthStackError::InvalidCredentials));
    assert_eq!(trusted_context_headers(&one("env"), &vec![Some("a".into()), Some("b".into())]), Err(AuthStackError::InvalidCredentials));
    assert_eq!(require_trusted_context_key(true), Ok(()));
    assert_eq!(
        require_trusted_context_key(false),
        Err(configuration("trusted context was supplied without AUTH_TRUSTED_INGRESS_KEY_BASE64"))
    );
}

#[test]
fn signed_in_session_views() {
    assert_eq!(session_lookup_id(None), None);
    assert_eq!(session_lookup_id(Some("  ")), None);
    assert_eq!(session_lookup_id(Some(" s1 ")), Some("s1".to_owned()));
    let view = authenticated_session_view(
        "s1".into(),
        Some("org".into()),
        "u1".into(),
        "u1@x".into(),
        100,
        1_700_000_000,
        vec!["a".into()],
        AssuranceLevel::Other,
        false,
    );
    assert!(view.authenticated);
    assert_eq!(view.expires_at.as_deref(), Some("1700000000000"));
    assert_eq!(view.assurance, "aal1");
    assert_eq!(view.public_session_id, Some(public_session_id("s1")));
    let huge = authenticated_session_view("s".into(), None, "u".into(), "e".into(), 0, u64::MAX, Vec::new(), AssuranceLevel::Aal2, true);
    assert_eq!(huge.expires_at, Some(u64::MAX.to_string()));
    assert_eq!(huge.assurance, "aal2");
}

#[test]
fn migration_commands() {
    assert_eq!(parse_migration_command(None), Ok(MigrationAction::Status));
    assert_eq!(parse_migration_command(Some("apply")), Ok(MigrationAction::Apply));
    assert_eq!(parse_migration_command(Some("verify-database")), Ok(MigrationAction::VerifyDatabase));
    assert_eq!(parse_migration_command(Some("drop")), Err("unknown migration command drop".to_owned()));
    assert_eq!(app_migration_versions().len(), 3);
}

#[test]
fn migration_verdicts() {
    assert_eq!(migration_verdict(MigrationAction::Apply, "0001", &Ok(true)), MigrationVerdict::Applied);
    assert_eq!(
        migration_verdict(MigrationAction::Status, "0001", &Ok(false)),
        MigrationVerdict::Fail("Buwiz app schema has pending migration: 0001".into())
    );
    assert_eq!(migration_verdict(MigrationAction::Plan, "0001", &Err("no table".into())), MigrationVerdict::ReportPending);
    assert_eq!(
        migration_verdict(MigrationAction::Verify, "0001", &Err("no table".into())),
        MigrationVerdict::Fail("Buwiz app schema is unavailable: no table".into())
    );
}
