//! How failures reported by the identity stack become the product's errors. Each failure
//! type lists the cases the product tells apart (`Other` stands for the rest); the
//! mappings decide what a client is told: bad input, missing authentication, refusal,
//! conflict, misconfiguration, or a store failure with a fixed text.

use vstd::prelude::*;
use crate::error::AuthStackError;
use crate::text::{concat2, decimal, decimal_string};

verus! {

pub open spec fn validation_with(e: AuthStackError, text: Seq<char>) -> bool {
    e matches AuthStackError::Validation { message } && message@ == text
}

pub open spec fn configuration_with(e: AuthStackError, text: Seq<char>) -> bool {
    e matches AuthStackError::Configuration { message } && message@ == text
}

pub open spec fn conflict_with(e: AuthStackError, text: Seq<char>) -> bool {
    e matches AuthStackError::Conflict { message } && message@ == text
}

pub open spec fn store_with(e: AuthStackError, text: Seq<char>) -> bool {
    e matches AuthStackError::Store { message } && message@ == text
}

/// A store failure, as far as the product tells them apart.
#[derive(Clone, Debug, PartialEq, Eq)]
pub enum StoreFailure {
    EmailAlreadyExists,
    IdempotencyConflict,
    Unauthenticated,
    Other,
}

/// A password-registration failure.
#[derive(Clone, Debug, PartialEq, Eq)]
pub enum RegistrationFailure {
    InvalidRequest,
    InvalidConfiguration,
    Store(StoreFailure),
    RandomnessUnavailable,
    Crypto,
    Other,
}

/// Registration: bad input and misconfiguration are named; an address already registered
/// and a replayed request are conflicts; anything else is a store failure.
pub fn map_registration_error(error: RegistrationFailure) -> (e: AuthStackError)
    ensures
        match error {
            RegistrationFailure::InvalidRequest => validation_with(e, "registration request is invalid"@),
            RegistrationFailure::InvalidConfiguration => configuration_with(e, "password registration is not configured"@),
            RegistrationFailure::Store(StoreFailure::EmailAlreadyExists) => conflict_with(e, "An account already exists for this email address"@),
            RegistrationFailure::Store(StoreFailure::IdempotencyConflict) => conflict_with(e, "registration request conflicts with an earlier attempt"@),
            _ => store_with(e, "password registration failed"@),
        },
{
    match error {
        RegistrationFailure::InvalidRequest => AuthStackError::validation("registration request is invalid"),
        RegistrationFailure::InvalidConfiguration => AuthStackError::configuration("password registration is not configured"),
        RegistrationFailure::Store(StoreFailure::EmailAlreadyExists) => AuthStackError::conflict("An account already exists for this email address"),
        RegistrationFailure::Store(StoreFailure::IdempotencyConflict) => AuthStackError::conflict("registration request conflicts with an earlier attempt"),
        _ => AuthStackError::store("password registration failed"),
    }
}

/// A password-login failure.
#[derive(Clone, Debug, PartialEq, Eq)]
pub enum LoginFailure {
    InvalidRequest,
    InvalidCredentials,
    InvalidConfiguration,
    RandomnessUnavailable,
    Crypto,
    Transport,
    Row,
    Context,
    Other,
}

/// Login: wrong credentials are reported as such, without saying which part was wrong.
pub fn map_login_error(error: LoginFailure) -> (e: AuthStackError)
    ensures
        match error {
            LoginFailure::InvalidRequest => validation_with(e, "login request is invalid"@),
            LoginFailure::InvalidCredentials => e == AuthStackError::InvalidCredentials,
            LoginFailure::InvalidConfiguration => configuration_with(e, "password login is not configured"@),
            _ => store_with(e, "password login failed"@),
        },
{
    match error {
        LoginFailure::InvalidRequest => AuthStackError::validation("login request is invalid"),
        LoginFailure::InvalidCredentials => AuthStackError::InvalidCredentials,
        LoginFailure::InvalidConfiguration => AuthStackError::configuration("password login is not configured"),
        _ => AuthStackError::store("password login failed"),
    }
}

/// An email-verification failure.
#[derive(Clone, Debug, PartialEq, Eq)]
pub enum VerificationFailure {
    InvalidRequest,
    InvalidToken,
    InvalidConfiguration,
    RandomnessUnavailable,
    Transport,
    Row,
    Context,
    Other,
}

/// Email verification.
pub fn map_verification_error(error: VerificationFailure) -> (e: AuthStackError)
    ensures
        match error {
            VerificationFailure::InvalidRequest => validation_with(e, "verification request is invalid"@),
            VerificationFailure::InvalidToken => validation_with(e, "verification token is invalid or expired"@),
            VerificationFailure::InvalidConfiguration => configuration_with(e, "email verification is not configured"@),
            _ => store_with(e, "email verification failed"@),
        },
{
    match error {
        VerificationFailure::InvalidRequest => AuthStackError::validation("verification request is invalid"),
        VerificationFailure::InvalidToken => AuthStackError::validation("verification token is invalid or expired"),
        VerificationFailure::InvalidConfiguration => AuthStackError::configuration("email verification is not configured"),
        _ => AuthStackError::store("email verification failed"),
    }
}

/// Loading a session: an unauthenticated one means the caller must sign in.
pub fn map_session_store_error(error: StoreFailure) -> (e: AuthStackError)
    ensures
        match error {
            StoreFailure::Unauthenticated => e == AuthStackError::AuthRequired,
            _ => store_with(e, "session verification failed"@),
        },
{
    match error {
        StoreFailure::Unauthenticated => AuthStackError::AuthRequired,
        _ => AuthStackError::store("session verification failed"),
    }
}

/// An organization failure.
#[derive(Clone, Debug, PartialEq, Eq)]
pub enum OrganizationFailure {
    InvalidRequest,
    Unauthenticated,
    IdempotencyConflict,
    SlugConflict,
    RandomnessUnavailable,
    Transport,
    Row,
    InvalidRow,
    UnexpectedOutcome,
    Other,
}

/// Organizations: a taken workspace URL is a conflict the user can fix.
pub fn map_organization_error(error: OrganizationFailure) -> (e: AuthStackError)
    ensures
        match error {
            OrganizationFailure::InvalidRequest => validation_with(e, "organization request is invalid"@),
            OrganizationFailure::Unauthenticated => e == AuthStackError::Forbidden,
            OrganizationFailure::IdempotencyConflict => conflict_with(e, "organization request conflicts with an earlier attempt"@),
            OrganizationFailure::SlugConflict => conflict_with(e, "That workspace URL is already taken. Choose a different slug."@),
            _ => store_with(e, "organization operation failed"@),
        },
{
    match error {
        OrganizationFailure::InvalidRequest => AuthStackError::validation("organization request is invalid"),
        OrganizationFailure::Unauthenticated => AuthStackError::Forbidden,
        OrganizationFailure::IdempotencyConflict => AuthStackError::conflict("organization request conflicts with an earlier attempt"),
        OrganizationFailure::SlugConflict => AuthStackError::conflict("That workspace URL is already taken. Choose a different slug."),
        _ => AuthStackError::store("organization operation failed"),
    }
}

/// A password-reset failure.
#[derive(Clone, Debug, PartialEq, Eq)]
pub enum PasswordResetFailure {
    InvalidRequest,
    InvalidToken,
    InvalidConfiguration,
    RandomnessUnavailable,
    Crypto,
    Transport,
    Row,
    Context,
    Other,
}

/// Password reset.
pub fn map_password_reset_error(error: PasswordResetFailure) -> (e: AuthStackError)
    ensures
        match error {
            PasswordResetFailure::InvalidRequest => validation_with(e, "password reset request is invalid"@),
            PasswordResetFailure::InvalidToken => validation_with(e, "password reset token is invalid or expired"@),
            PasswordResetFailure::InvalidConfiguration => configuration_with(e, "password reset is not configured"@),
            _ => store_with(e, "password reset failed"@),
        },
{
    match error {
        PasswordResetFailure::InvalidRequest => AuthStackError::validation("password reset request is invalid"),
        PasswordResetFailure::InvalidToken => AuthStackError::validation("password reset token is invalid or expired"),
        PasswordResetFailure::InvalidConfiguration => AuthStackError::configuration("password reset is not configured"),
        _ => AuthStackError::store("password reset failed"),
    }
}

/// A session-service failure.
#[derive(Clone, Debug, PartialEq, Eq)]
pub enum SessionServiceFailure {
    NotAuthorized,
    RandomnessUnavailable,
    Transport,
    Row,
    InvalidRow,
    Other,
}

/// Session management: acting on someone else's session is refused.
pub fn map_session_service_error(error: SessionServiceFailure) -> (e: AuthStackError)
    ensures
        match error {
            SessionServiceFailure::NotAuthorized => e == AuthStackError::Forbidden,
            _ => store_with(e, "session operation failed"@),
        },
{
    match error {
        SessionServiceFailure::NotAuthorized => AuthStackError::Forbidden,
        _ => AuthStackError::store("session operation failed"),
    }
}

/// A rate-limit failure; transport and row failures carry the host's description.
#[derive(Clone, Debug, PartialEq, Eq)]
pub enum RateLimitFailure {
    InvalidRequest,
    Transport(String),
    Row(String),
    InvalidRow,
    Other,
}

/// Rate limiting: the host's description of a transport or row failure is kept for the
/// logs (clients only see the public message).
pub fn map_rate_limit_error(error: RateLimitFailure) -> (e: AuthStackError)
    ensures
        match error {
            RateLimitFailure::InvalidRequest => validation_with(e, "rate-limit request is invalid"@),
            RateLimitFailure::Transport(detail) => store_with(e, "rate-limit operation failed: "@ + detail@),
            RateLimitFailure::Row(detail) => store_with(e, "rate-limit operation failed: "@ + detail@),
            RateLimitFailure::InvalidRow => store_with(e, "rate-limit operation failed: empty row"@),
            RateLimitFailure::Other => store_with(e, "rate-limit operation failed"@),
        },
{
    match error {
        RateLimitFailure::InvalidRequest => AuthStackError::validation("rate-limit request is invalid"),
        RateLimitFailure::Transport(detail) => {
            let m = concat2("rate-limit operation failed: ", detail.as_str());
            AuthStackError::store(m.as_str())
        },
        RateLimitFailure::Row(detail) => {
            let m = concat2("rate-limit operation failed: ", detail.as_str());
            AuthStackError::store(m.as_str())
        },
        RateLimitFailure::InvalidRow => AuthStackError::store("rate-limit operation failed: empty row"),
        RateLimitFailure::Other => AuthStackError::store("rate-limit operation failed"),
    }
}

/// A workspace-management failure.
#[derive(Clone, Debug, PartialEq, Eq)]
pub enum ManagementFailure {
    InvalidRequest,
    NotAuthorized,
    ProtectedInvariant,
    RoleInUse { member_count: u64, invitation_count: u64 },
    RestrictedPermission,
    InvalidToken,
    RandomnessUnavailable,
    Crypto,
    Transport,
    Row,
    InvalidRow,
    Other,
}

/// The refusal to delete a role still in use, with how many members and pending
/// invitations use it.
pub open spec fn role_in_use_message(member_count: u64, invitation_count: u64) -> Seq<char> {
    "cannot delete role while "@ + decimal(member_count as nat) + " active member(s) and "@ + decimal(
        invitation_count as nat,
    ) + " pending invitation(s) still use it"@
}

/// Workspace management: ownership and account invariants, roles still in use and
/// restricted permissions are explained to the caller.
pub fn map_management_error(error: ManagementFailure) -> (e: AuthStackError)
    ensures
        match error {
            ManagementFailure::InvalidRequest => validation_with(e, "management request is invalid"@),
            ManagementFailure::NotAuthorized => e == AuthStackError::Forbidden,
            ManagementFailure::ProtectedInvariant => conflict_with(e, "operation would violate an ownership or account invariant"@),
            ManagementFailure::RoleInUse { member_count, invitation_count } => conflict_with(
                e,
                role_in_use_message(member_count, invitation_count),
            ),
            ManagementFailure::RestrictedPermission => validation_with(e, "custom role contains a restricted permission"@),
            ManagementFailure::InvalidToken => validation_with(e, "invitation token is invalid or expired"@),
            _ => store_with(e, "management operation failed"@),
        },
{
    match error {
        ManagementFailure::InvalidRequest => AuthStackError::validation("management request is invalid"),
        ManagementFailure::NotAuthorized => AuthStackError::Forbidden,
        ManagementFailure::ProtectedInvariant => AuthStackError::conflict("operation would violate an ownership or account invariant"),
        ManagementFailure::RoleInUse { member_count, invitation_count } => {
            let a = concat2("cannot delete role while ", decimal_string(member_count).as_str());
            let b = concat2(a.as_str(), " active member(s) and ");
            let c = concat2(b.as_str(), decimal_string(invitation_count).as_str());
            let m = concat2(c.as_str(), " pending invitation(s) still use it");
            AuthStackError::conflict(m.as_str())
        },
        ManagementFailure::RestrictedPermission => AuthStackError::validation("custom role contains a restricted permission"),
        ManagementFailure::InvalidToken => AuthStackError::validation("invitation token is invalid or expired"),
        _ => AuthStackError::store("management operation failed"),
    }
}

/// A token-service failure.
#[derive(Clone, Debug, PartialEq, Eq)]
pub enum TokenFailure {
    InvalidSession,
    ExpiredToken,
    InvalidToken,
    ReuseDetected,
    RandomnessUnavailable,
    Crypto,
    Transport,
    Row,
    Other,
}

/// Tokens: a dead session needs a new sign-in; an expired token says so; an invalid or
/// replayed refresh token is invalid.
pub fn map_token_error(error: TokenFailure) -> (e: AuthStackError)
    ensures
        match error {
            TokenFailure::InvalidSession => e == AuthStackError::AuthRequired,
            TokenFailure::ExpiredToken => e == AuthStackError::SessionExpired,
            TokenFailure::InvalidToken | TokenFailure::ReuseDetected => e == AuthStackError::InvalidToken,
            _ => store_with(e, "token operation failed"@),
        },
{
    match error {
        TokenFailure::InvalidSession => AuthStackError::AuthRequired,
        TokenFailure::ExpiredToken => AuthStackError::SessionExpired,
        TokenFailure::InvalidToken | TokenFailure::ReuseDetected => AuthStackError::InvalidToken,
        _ => AuthStackError::store("token operation failed"),
    }
}

/// An MFA failure.
#[derive(Clone, Debug, PartialEq, Eq)]
pub enum MfaFailure {
    InvalidSession,
    AlreadyEnrolled,
    InvalidFactor,
    InvalidCode,
    RandomnessUnavailable,
    Crypto,
    Transport,
    Row,
    InvalidRow,
    Other,
}

/// MFA: a wrong factor or code counts as invalid credentials.
pub fn map_mfa_error(error: MfaFailure) -> (e: AuthStackError)
    ensures
        match error {
            MfaFailure::InvalidSession => e == AuthStackError::AuthRequired,
            MfaFailure::AlreadyEnrolled => conflict_with(e, "TOTP is already enrolled"@),
            MfaFailure::InvalidFactor | MfaFailure::InvalidCode => e == AuthStackError::InvalidCredentials,
            _ => store_with(e, "MFA operation failed"@),
        },
{
    match error {
        MfaFailure::InvalidSession => AuthStackError::AuthRequired,
        MfaFailure::AlreadyEnrolled => AuthStackError::conflict("TOTP is already enrolled"),
        MfaFailure::InvalidFactor | MfaFailure::InvalidCode => AuthStackError::InvalidCredentials,
        _ => AuthStackError::store("MFA operation failed"),
    }
}

/// An OAuth-flow failure.
#[derive(Clone, Debug, PartialEq, Eq)]
pub enum OAuthFailure {
    InvalidInput,
    InvalidIdentity,
    InvalidFlow,
    AccountUnavailable,
    Flow,
    RandomnessUnavailable,
    Serialization,
    Transport,
    Row,
    InvalidRow,
    Other,
}

/// OAuth sign-in: an invalid or tampered flow is an invalid token.
pub fn map_oauth_error(error: OAuthFailure) -> (e: AuthStackError)
    ensures
        match error {
            OAuthFailure::InvalidInput | OAuthFailure::InvalidIdentity => validation_with(e, "OAuth request is invalid"@),
            OAuthFailure::InvalidFlow | OAuthFailure::Flow => e == AuthStackError::InvalidToken,
            OAuthFailure::AccountUnavailable => e == AuthStackError::AuthRequired,
            _ => store_with(e, "OAuth operation failed"@),
        },
{
    match error {
        OAuthFailure::InvalidInput | OAuthFailure::InvalidIdentity => AuthStackError::validation("OAuth request is invalid"),
        OAuthFailure::InvalidFlow => AuthStackError::InvalidToken,
        OAuthFailure::AccountUnavailable => AuthStackError::AuthRequired,
        OAuthFailure::Flow => AuthStackError::InvalidToken,
        _ => AuthStackError::store("OAuth operation failed"),
    }
}

/// An administrative-service failure (OAuth providers, policy bundles).
#[derive(Clone, Debug, PartialEq, Eq)]
pub enum AdminServiceFailure {
    InvalidInput,
    InvalidAdminSession,
    RandomnessUnavailable,
    Transport,
    Row,
    InvalidRow,
    Other,
}

/// OAuth-provider administration.
pub fn map_oauth_provider_error(error: AdminServiceFailure) -> (e: AuthStackError)
    ensures
        match error {
            AdminServiceFailure::InvalidInput => validation_with(e, "OAuth provider input is invalid"@),
            AdminServiceFailure::InvalidAdminSession => e == AuthStackError::Forbidden,
            _ => store_with(e, "OAuth provider operation failed"@),
        },
{
    match error {
        AdminServiceFailure::InvalidInput => AuthStackError::validation("OAuth provider input is invalid"),
        AdminServiceFailure::InvalidAdminSession => AuthStackError::Forbidden,
        _ => AuthStackError::store("OAuth provider operation failed"),
    }
}

/// Policy publication.
pub fn map_policy_error(error: AdminServiceFailure) -> (e: AuthStackError)
    ensures
        match error {
            AdminServiceFailure::InvalidInput => validation_with(e, "policy bundle is invalid"@),
            AdminServiceFailure::InvalidAdminSession => e == AuthStackError::Forbidden,
            _ => store_with(e, "policy publication failed"@),
        },
{
    match error {
        AdminServiceFailure::InvalidInput => AuthStackError::validation("policy bundle is invalid"),
        AdminServiceFailure::InvalidAdminSession => AuthStackError::Forbidden,
        _ => AuthStackError::store("policy publication failed"),
    }
}

/// A passkey failure.
#[derive(Clone, Debug, PartialEq, Eq)]
pub enum PasskeyFailure {
    InvalidInput,
    InvalidResponse,
    InvalidFlow,
    InvalidSession,
    InvalidCredentials,
    CredentialConflict,
    CounterConflict,
    Flow,
    RandomnessUnavailable,
    Serialization,
    Transport,
    Row,
    InvalidRow,
    Other,
}

/// Passkeys: a credential that changed or is already registered is a conflict.
pub fn map_passkey_error(error: PasskeyFailure) -> (e: AuthStackError)
    ensures
        match error {
            PasskeyFailure::InvalidInput | PasskeyFailure::InvalidResponse => validation_with(e, "passkey request is invalid"@),
            PasskeyFailure::InvalidFlow | PasskeyFailure::Flow => e == AuthStackError::InvalidToken,
            PasskeyFailure::InvalidSession => e == AuthStackError::AuthRequired,
            PasskeyFailure::InvalidCredentials => e == AuthStackError::InvalidCredentials,
            PasskeyFailure::CredentialConflict | PasskeyFailure::CounterConflict => conflict_with(
                e,
                "passkey credential changed or is already registered"@,
            ),
            _ => store_with(e, "passkey operation failed"@),
        },
{
    match error {
        PasskeyFailure::InvalidInput | PasskeyFailure::InvalidResponse => AuthStackError::validation("passkey request is invalid"),
        PasskeyFailure::InvalidFlow => AuthStackError::InvalidToken,
        PasskeyFailure::InvalidSession => AuthStackError::AuthRequired,
        PasskeyFailure::InvalidCredentials => AuthStackError::InvalidCredentials,
        PasskeyFailure::CredentialConflict | PasskeyFailure::CounterConflict => AuthStackError::conflict("passkey credential changed or is already registered"),
        PasskeyFailure::Flow => AuthStackError::InvalidToken,
        _ => AuthStackError::store("passkey operation failed"),
    }
}

/// A signing-key failure.
#[derive(Clone, Debug, PartialEq, Eq)]
pub enum SigningKeyFailure {
    InvalidInput,
    InvalidAdminOrKey,
    InvalidLifecycle,
    RandomnessUnavailable,
    Transport,
    Row,
    InvalidRow,
    Other,
}

/// Signing-key administration.
pub fn map_signing_key_error(error: SigningKeyFailure) -> (e: AuthStackError)
    ensures
        match error {
            SigningKeyFailure::InvalidInput => validation_with(e, "signing-key input is invalid"@),
            SigningKeyFailure::InvalidAdminOrKey => e == AuthStackError::Forbidden,
            SigningKeyFailure::InvalidLifecycle => configuration_with(e, "signing-key lifecycle is invalid"@),
            _ => store_with(e, "signing-key operation failed"@),
        },
{
    match error {
        SigningKeyFailure::InvalidInput => AuthStackError::validation("signing-key input is invalid"),
        SigningKeyFailure::InvalidAdminOrKey => AuthStackError::Forbidden,
        SigningKeyFailure::InvalidLifecycle => AuthStackError::configuration("signing-key lifecycle is invalid"),
        _ => AuthStackError::store("signing-key operation failed"),
    }
}


/// A failure at the trusted-ingress boundary.
#[derive(Clone, Debug, PartialEq, Eq)]
pub enum IngressFailure {
    MissingCredentials,
    InsufficientAssurance,
    BodyTooLarge,
    InvalidContentLength,
    InvalidRequestId,
    InvalidCredentials,
    Csrf,
    Authenticator,
    InvalidContext,
    Other,
}

/// Trusted ingress: missing credentials (or ones the authenticator or context reject)
/// mean the caller must sign in; too low an assurance is refused; a malformed request is a
/// validation error.
pub fn map_ingress_error(error: IngressFailure) -> (e: AuthStackError)
    ensures
        match error {
            IngressFailure::InsufficientAssurance => e == AuthStackError::Forbidden,
            IngressFailure::BodyTooLarge | IngressFailure::InvalidContentLength | IngressFailure::InvalidRequestId
            | IngressFailure::InvalidCredentials | IngressFailure::Csrf => validation_with(
                e,
                "request failed trusted ingress validation"@,
            ),
            _ => e == AuthStackError::AuthRequired,
        },
{
    match error {
        IngressFailure::MissingCredentials => AuthStackError::AuthRequired,
        IngressFailure::InsufficientAssurance => AuthStackError::Forbidden,
        IngressFailure::BodyTooLarge | IngressFailure::InvalidContentLength | IngressFailure::InvalidRequestId
        | IngressFailure::InvalidCredentials | IngressFailure::Csrf => AuthStackError::validation("request failed trusted ingress validation"),
        IngressFailure::Authenticator | IngressFailure::InvalidContext => AuthStackError::AuthRequired,
        _ => AuthStackError::AuthRequired,
    }
}

} // verus!
