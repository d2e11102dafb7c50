//! Desktop device registration and session issuance.
//!
//! These commands wrap identity-stack sessions and device codes. They never
//! carry PIN, TOTP, mailbox secrets, or refresh-token values.

use vstd::prelude::*;

use crate::text::{is_blank, is_blank_str, owned};

verus! {

#[derive(Clone, Copy, Debug, PartialEq, Eq, Structural)]
pub enum DesktopGrant {
    DeviceCode,
    PkceAuthorizationCode,
}

impl DesktopGrant {
    pub fn as_str(self) -> (s: &'static str)
        ensures
            s@ == match self {
                DesktopGrant::DeviceCode => "device_code"@,
                DesktopGrant::PkceAuthorizationCode => "authorization_code"@,
            },
    {
        match self {
            DesktopGrant::DeviceCode => "device_code",
            DesktopGrant::PkceAuthorizationCode => "authorization_code",
        }
    }
}

#[derive(Debug, PartialEq, Eq)]
pub enum DesktopSessionCommand {
    RegisterDevice { client_id: String, occurred_at: String },
    RevokeDevice { session_id: String, actor_user_id: String, occurred_at: String },
    IssueDesktopSession {
        user_id: String,
        session_id: String,
        grant: DesktopGrant,
        occurred_at: String,
    },
}

#[derive(Debug, PartialEq, Eq)]
pub enum DesktopSessionEvent {
    DeviceRegistered { client_id: String, occurred_at: String },
    DeviceRevoked { session_id: String, actor_user_id: String, occurred_at: String },
    DesktopSessionIssued {
        user_id: String,
        session_id: String,
        grant: DesktopGrant,
        occurred_at: String,
    },
}

impl DesktopSessionEvent {
    pub fn event_type(&self) -> (s: &'static str)
        ensures
            s@ == match self {
                DesktopSessionEvent::DeviceRegistered { .. } => "desktop.device_registered"@,
                DesktopSessionEvent::DeviceRevoked { .. } => "desktop.device_revoked"@,
                DesktopSessionEvent::DesktopSessionIssued { .. } => "desktop.session_issued"@,
            },
    {
        match self {
            DesktopSessionEvent::DeviceRegistered { .. } => "desktop.device_registered",
            DesktopSessionEvent::DeviceRevoked { .. } => "desktop.device_revoked",
            DesktopSessionEvent::DesktopSessionIssued { .. } => "desktop.session_issued",
        }
    }
}

#[derive(Debug, PartialEq, Eq)]
pub enum DesktopSessionError {
    Invalid { reason: String },
}

impl DesktopSessionError {
    /// Human-readable message.
    pub fn message(&self) -> (m: String)
        ensures
            m@ == self->Invalid_reason@,
    {
        match self {
            DesktopSessionError::Invalid { reason } => reason.clone(),
        }
    }
}

fn invalid(reason: &str) -> (e: DesktopSessionError)
    ensures
        e->Invalid_reason@ == reason@,
{
    DesktopSessionError::Invalid { reason: owned(reason) }
}

impl DesktopSessionCommand {
    /// Validates the required identifiers and turns the command into its event,
    /// moving every field across unchanged.
    pub fn handle(self) -> (res: Result<DesktopSessionEvent, DesktopSessionError>)
        ensures
            match self {
                DesktopSessionCommand::RegisterDevice { client_id, occurred_at } => if is_blank(
                    client_id@,
                ) {
                    res matches Err(e) && e->Invalid_reason@ == "client_id is required"@
                } else {
                    res == Ok::<DesktopSessionEvent, DesktopSessionError>(
                        DesktopSessionEvent::DeviceRegistered { client_id, occurred_at },
                    )
                },
                DesktopSessionCommand::RevokeDevice { session_id, actor_user_id, occurred_at } =>
                    if is_blank(session_id@) {
                    res matches Err(e) && e->Invalid_reason@ == "session_id is required"@
                } else if is_blank(actor_user_id@) {
                    res matches Err(e) && e->Invalid_reason@ == "actor_user_id is required"@
                } else {
                    res == Ok::<DesktopSessionEvent, DesktopSessionError>(
                        DesktopSessionEvent::DeviceRevoked { session_id, actor_user_id, occurred_at },
                    )
                },
                DesktopSessionCommand::IssueDesktopSession {
                    user_id,
                    session_id,
                    grant,
                    occurred_at,
                } => if is_blank(user_id@) || is_blank(session_id@) {
                    res matches Err(e) && e->Invalid_reason@
                        == "user_id and session_id are required"@
                } else {
                    res == Ok::<DesktopSessionEvent, DesktopSessionError>(
                        DesktopSessionEvent::DesktopSessionIssued {
                            user_id,
                            session_id,
                            grant,
                            occurred_at,
                        },
                    )
                },
            },
    {
        match self {
            DesktopSessionCommand::RegisterDevice { client_id, occurred_at } => {
                if is_blank_str(client_id.as_str()) {
                    return Err(invalid("client_id is required"));
                }
                Ok(DesktopSessionEvent::DeviceRegistered { client_id, occurred_at })
            },
            DesktopSessionCommand::RevokeDevice { session_id, actor_user_id, occurred_at } => {
                if is_blank_str(session_id.as_str()) {
                    return Err(invalid("session_id is required"));
                }
                if is_blank_str(actor_user_id.as_str()) {
                    return Err(invalid("actor_user_id is required"));
                }
                Ok(DesktopSessionEvent::DeviceRevoked { session_id, actor_user_id, occurred_at })
            },
            DesktopSessionCommand::IssueDesktopSession { user_id, session_id, grant, occurred_at } => {
                if is_blank_str(user_id.as_str()) || is_blank_str(session_id.as_str()) {
                    return Err(invalid("user_id and session_id are required"));
                }
                Ok(DesktopSessionEvent::DesktopSessionIssued { user_id, session_id, grant, occurred_at })
            },
        }
    }
}

} // verus!
