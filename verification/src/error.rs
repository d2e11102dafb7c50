//! The crate-wide error type and its public (client-safe) rendering.

use vstd::prelude::*;

use crate::text::{concat2, decimal, decimal_string, owned};

verus! {

pub type AuthStackResult<T> = Result<T, AuthStackError>;

#[derive(Debug, PartialEq, Eq)]
pub enum AuthStackError {
    Validation { message: String },
    AuthRequired,
    InvalidCredentials,
    InvalidToken,
    SessionExpired,
    Forbidden,
    NotFound { message: String },
    Conflict { message: String },
    RateLimited { retry_after_seconds: u64 },
    Configuration { message: String },
    Store { message: String },
    Serialization { message: String },
    Transport { message: String },
}

/// Wire shape of an error response.
#[derive(Debug, PartialEq, Eq)]
pub struct AuthErrorResponse {
    pub error: AuthErrorPayload,
}

#[derive(Debug, PartialEq, Eq)]
pub struct AuthErrorPayload {
    pub code: &'static str,
    pub message: String,
}

/// Stable machine-readable code of an error.
pub open spec fn public_code_of(e: AuthStackError) -> Seq<char> {
    match e {
        AuthStackError::Validation { .. } => "validation"@,
        AuthStackError::AuthRequired => "auth_required"@,
        AuthStackError::InvalidCredentials => "invalid_credentials"@,
        AuthStackError::InvalidToken => "invalid_token"@,
        AuthStackError::SessionExpired => "session_expired"@,
        AuthStackError::Forbidden => "forbidden"@,
        AuthStackError::NotFound { .. } => "not_found"@,
        AuthStackError::Conflict { .. } => "conflict"@,
        AuthStackError::RateLimited { .. } => "rate_limited"@,
        AuthStackError::Configuration { .. } => "configuration"@,
        AuthStackError::Store { .. } => "store"@,
        AuthStackError::Serialization { .. } => "serialization"@,
        AuthStackError::Transport { .. } => "transport"@,
    }
}

/// Client-safe message: validation, not-found and conflict messages are
/// passed through; server-side details are never exposed.
pub open spec fn public_message_of(e: AuthStackError) -> Seq<char> {
    match e {
        AuthStackError::Validation { message } => message@,
        AuthStackError::NotFound { message } => message@,
        AuthStackError::Conflict { message } => message@,
        AuthStackError::RateLimited { retry_after_seconds } => "too many requests; retry after "@
            + decimal(retry_after_seconds as nat) + " seconds"@,
        AuthStackError::AuthRequired => "authentication is required"@,
        AuthStackError::InvalidCredentials => "Email or password is incorrect"@,
        AuthStackError::InvalidToken => "access token is invalid"@,
        AuthStackError::SessionExpired => "the session has expired"@,
        AuthStackError::Forbidden => "the current account cannot access this resource"@,
        AuthStackError::Configuration { .. } => "auth stack is not configured for this operation"@,
        AuthStackError::Store { .. } => "auth storage is unavailable"@,
        AuthStackError::Serialization { .. } => "auth stack request failed; check server logs"@,
        AuthStackError::Transport { .. } => "auth stack request failed; check server logs"@,
    }
}

/// HTTP status code of an error.
pub open spec fn http_status_of(e: AuthStackError) -> u16 {
    match e {
        AuthStackError::Validation { .. } => 400,
        AuthStackError::AuthRequired | AuthStackError::InvalidCredentials
        | AuthStackError::InvalidToken | AuthStackError::SessionExpired => 401,
        AuthStackError::Forbidden => 403,
        AuthStackError::NotFound { .. } => 404,
        AuthStackError::Conflict { .. } => 409,
        AuthStackError::RateLimited { .. } => 429,
        AuthStackError::Configuration { .. } | AuthStackError::Store { .. } => 503,
        AuthStackError::Serialization { .. } | AuthStackError::Transport { .. } => 500,
    }
}

/// The error's display text.
pub open spec fn display_of(e: AuthStackError) -> Seq<char> {
    match e {
        AuthStackError::Validation { message } => "validation error: "@ + message@,
        AuthStackError::AuthRequired => "authentication is required"@,
        AuthStackError::InvalidCredentials => "credentials are invalid"@,
        AuthStackError::InvalidToken => "token is invalid"@,
        AuthStackError::SessionExpired => "session expired"@,
        AuthStackError::Forbidden => "permission denied"@,
        AuthStackError::NotFound { message } => "not found: "@ + message@,
        AuthStackError::Conflict { message } => "conflict: "@ + message@,
        AuthStackError::RateLimited { retry_after_seconds } => "request rate limit exceeded; retry after "@
            + decimal(retry_after_seconds as nat) + " seconds"@,
        AuthStackError::Configuration { message } => "configuration error: "@ + message@,
        AuthStackError::Store { message } => "store error: "@ + message@,
        AuthStackError::Serialization { message } => "serialization error: "@ + message@,
        AuthStackError::Transport { message } => "transport error: "@ + message@,
    }
}

/// The gRPC status codes errors are reported with.
#[derive(Clone, Copy, Debug, PartialEq, Eq)]
pub enum GrpcCode {
    InvalidArgument,
    Unauthenticated,
    PermissionDenied,
    NotFound,
    Aborted,
    ResourceExhausted,
    FailedPrecondition,
    Unavailable,
    Internal,
}

/// The gRPC status of an error, alongside its HTTP status.
pub open spec fn grpc_code_of(e: AuthStackError) -> GrpcCode {
    match e {
        AuthStackError::Validation { .. } => GrpcCode::InvalidArgument,
        AuthStackError::AuthRequired | AuthStackError::InvalidCredentials | AuthStackError::InvalidToken
        | AuthStackError::SessionExpired => GrpcCode::Unauthenticated,
        AuthStackError::Forbidden => GrpcCode::PermissionDenied,
        AuthStackError::NotFound { .. } => GrpcCode::NotFound,
        AuthStackError::Conflict { .. } => GrpcCode::Aborted,
        AuthStackError::RateLimited { .. } => GrpcCode::ResourceExhausted,
        AuthStackError::Configuration { .. } => GrpcCode::FailedPrecondition,
        AuthStackError::Store { .. } => GrpcCode::Unavailable,
        AuthStackError::Serialization { .. } | AuthStackError::Transport { .. } => GrpcCode::Internal,
    }
}

/// Server faults are never reported over gRPC as the caller's fault, and caller faults
/// never as server faults: an error is a client error exactly when its gRPC code is not
/// `FailedPrecondition`, `Unavailable` or `Internal`.
pub proof fn lemma_grpc_agrees_with_http(e: AuthStackError)
    ensures
        (http_status_of(e) < 500) <==> !(grpc_code_of(e) == GrpcCode::FailedPrecondition
            || grpc_code_of(e) == GrpcCode::Unavailable || grpc_code_of(e) == GrpcCode::Internal),
{
}

/// The internal detail of a server-side failure stays in the logs: two errors of the same
/// kind with a 5xx status show the client the same public message, whatever their
/// messages say.
pub proof fn lemma_server_detail_stays_private(a: AuthStackError, b: AuthStackError)
    requires
        http_status_of(a) >= 500,
        public_code_of(a) == public_code_of(b),
    ensures
        public_message_of(a) == public_message_of(b),
{
    reveal_strlit("validation");
    reveal_strlit("auth_required");
    reveal_strlit("invalid_credentials");
    reveal_strlit("invalid_token");
    reveal_strlit("session_expired");
    reveal_strlit("forbidden");
    reveal_strlit("not_found");
    reveal_strlit("conflict");
    reveal_strlit("rate_limited");
    reveal_strlit("configuration");
    reveal_strlit("store");
    reveal_strlit("serialization");
    reveal_strlit("transport");
    assert("configuration"@[0] != "auth_required"@[0]);
    assert("configuration"@[0] != "invalid_token"@[0]);
    assert("configuration"@[0] != "serialization"@[0]);
    assert("serialization"@[0] != "auth_required"@[0]);
    assert("serialization"@[0] != "invalid_token"@[0]);
    assert("transport"@[0] != "forbidden"@[0]);
    assert("transport"@[0] != "not_found"@[0]);
    let ca = public_code_of(a);
    let cb = public_code_of(b);
    match b {
        AuthStackError::Validation { .. } => assert(cb.len() == 10),
        AuthStackError::AuthRequired => assert(cb.len() == 13 && cb[0] == 'a'),
        AuthStackError::InvalidCredentials => assert(cb.len() == 19),
        AuthStackError::InvalidToken => assert(cb.len() == 13 && cb[0] == 'i'),
        AuthStackError::SessionExpired => assert(cb.len() == 15),
        AuthStackError::Forbidden => assert(cb.len() == 9 && cb[0] == 'f'),
        AuthStackError::NotFound { .. } => assert(cb.len() == 9 && cb[0] == 'n'),
        AuthStackError::Conflict { .. } => assert(cb.len() == 8),
        AuthStackError::RateLimited { .. } => assert(cb.len() == 12),
        AuthStackError::Configuration { .. } => assert(cb.len() == 13 && cb[0] == 'c'),
        AuthStackError::Store { .. } => assert(cb.len() == 5),
        AuthStackError::Serialization { .. } => assert(cb.len() == 13 && cb[0] == 's'),
        AuthStackError::Transport { .. } => assert(cb.len() == 9 && cb[0] == 't'),
    }
    match a {
        AuthStackError::Configuration { .. } => assert(ca.len() == 13 && ca[0] == 'c'),
        AuthStackError::Store { .. } => assert(ca.len() == 5),
        AuthStackError::Serialization { .. } => assert(ca.len() == 13 && ca[0] == 's'),
        AuthStackError::Transport { .. } => assert(ca.len() == 9 && ca[0] == 't'),
        _ => {},
    }
}

impl AuthStackError {
    pub fn validation(message: &str) -> (e: Self)
        ensures
            e matches AuthStackError::Validation { message: m } && m@ == message@,
    {
        AuthStackError::Validation { message: owned(message) }
    }

    pub fn not_found(message: &str) -> (e: Self)
        ensures
            e matches AuthStackError::NotFound { message: m } && m@ == message@,
    {
        AuthStackError::NotFound { message: owned(message) }
    }

    pub fn conflict(message: &str) -> (e: Self)
        ensures
            e matches AuthStackError::Conflict { message: m } && m@ == message@,
    {
        AuthStackError::Conflict { message: owned(message) }
    }

    pub fn configuration(message: &str) -> (e: Self)
        ensures
            e matches AuthStackError::Configuration { message: m } && m@ == message@,
    {
        AuthStackError::Configuration { message: owned(message) }
    }

    pub fn store(message: &str) -> (e: Self)
        ensures
            e matches AuthStackError::Store { message: m } && m@ == message@,
    {
        AuthStackError::Store { message: owned(message) }
    }

    pub fn serialization(message: &str) -> (e: Self)
        ensures
            e matches AuthStackError::Serialization { message: m } && m@ == message@,
    {
        AuthStackError::Serialization { message: owned(message) }
    }

    /// Deserialization failures are reported as serialization errors.
    pub fn deserialization(message: &str) -> (e: Self)
        ensures
            e matches AuthStackError::Serialization { message: m } && m@ == message@,
    {
        Self::serialization(message)
    }

    pub fn transport(message: &str) -> (e: Self)
        ensures
            e matches AuthStackError::Transport { message: m } && m@ == message@,
    {
        AuthStackError::Transport { message: owned(message) }
    }

    /// The HTTP status code (`StatusCode::as_u16`) for this error.
    pub fn http_status(&self) -> (code: u16)
        ensures
            code == http_status_of(*self),
    {
        match self {
            AuthStackError::Validation { .. } => 400,
            AuthStackError::AuthRequired | AuthStackError::InvalidCredentials
            | AuthStackError::InvalidToken | AuthStackError::SessionExpired => 401,
            AuthStackError::Forbidden => 403,
            AuthStackError::NotFound { .. } => 404,
            AuthStackError::Conflict { .. } => 409,
            AuthStackError::RateLimited { .. } => 429,
            AuthStackError::Configuration { .. } | AuthStackError::Store { .. } => 503,
            AuthStackError::Serialization { .. } | AuthStackError::Transport { .. } => 500,
        }
    }

    pub fn public_code(&self) -> (code: &'static str)
        ensures
            code@ == public_code_of(*self),
    {
        match self {
            AuthStackError::Validation { .. } => "validation",
            AuthStackError::AuthRequired => "auth_required",
            AuthStackError::InvalidCredentials => "invalid_credentials",
            AuthStackError::InvalidToken => "invalid_token",
            AuthStackError::SessionExpired => "session_expired",
            AuthStackError::Forbidden => "forbidden",
            AuthStackError::NotFound { .. } => "not_found",
            AuthStackError::Conflict { .. } => "conflict",
            AuthStackError::RateLimited { .. } => "rate_limited",
            AuthStackError::Configuration { .. } => "configuration",
            AuthStackError::Store { .. } => "store",
            AuthStackError::Serialization { .. } => "serialization",
            AuthStackError::Transport { .. } => "transport",
        }
    }

    pub fn public_message(&self) -> (m: String)
        ensures
            m@ == public_message_of(*self),
    {
        match self {
            AuthStackError::Validation { message } => message.clone(),
            AuthStackError::NotFound { message } => message.clone(),
            AuthStackError::Conflict { message } => message.clone(),
            AuthStackError::RateLimited { retry_after_seconds } => {
                let mut m = owned("too many requests; retry after ");
                let n = decimal_string(*retry_after_seconds);
                m.append(n.as_str());
                m.append(" seconds");
                m
            },
            AuthStackError::AuthRequired => owned("authentication is required"),
            AuthStackError::InvalidCredentials => owned("Email or password is incorrect"),
            AuthStackError::InvalidToken => owned("access token is invalid"),
            AuthStackError::SessionExpired => owned("the session has expired"),
            AuthStackError::Forbidden => owned("the current account cannot access this resource"),
            AuthStackError::Configuration { .. } => owned(
                "auth stack is not configured for this operation",
            ),
            AuthStackError::Store { .. } => owned("auth storage is unavailable"),
            AuthStackError::Serialization { .. } | AuthStackError::Transport { .. } => owned(
                "auth stack request failed; check server logs",
            ),
        }
    }

    /// Whether the caller (not the server) is at fault.
    pub fn is_client_error(&self) -> (b: bool)
        ensures
            b == (http_status_of(*self) < 500),
    {
        match self {
            AuthStackError::Validation { .. } | AuthStackError::AuthRequired
            | AuthStackError::InvalidCredentials | AuthStackError::InvalidToken
            | AuthStackError::SessionExpired | AuthStackError::Forbidden
            | AuthStackError::NotFound { .. } | AuthStackError::Conflict { .. }
            | AuthStackError::RateLimited { .. } => true,
            _ => false,
        }
    }

    /// The error's display text (`to_string`).
    pub fn to_string(&self) -> (s: String)
        ensures
            s@ == display_of(*self),
    {
        match self {
            AuthStackError::Validation { message } => concat2("validation error: ", message.as_str()),
            AuthStackError::AuthRequired => owned("authentication is required"),
            AuthStackError::InvalidCredentials => owned("credentials are invalid"),
            AuthStackError::InvalidToken => owned("token is invalid"),
            AuthStackError::SessionExpired => owned("session expired"),
            AuthStackError::Forbidden => owned("permission denied"),
            AuthStackError::NotFound { message } => concat2("not found: ", message.as_str()),
            AuthStackError::Conflict { message } => concat2("conflict: ", message.as_str()),
            AuthStackError::RateLimited { retry_after_seconds } => {
                let n = decimal_string(*retry_after_seconds);
                let a = concat2("request rate limit exceeded; retry after ", n.as_str());
                concat2(a.as_str(), " seconds")
            },
            AuthStackError::Configuration { message } => concat2("configuration error: ", message.as_str()),
            AuthStackError::Store { message } => concat2("store error: ", message.as_str()),
            AuthStackError::Serialization { message } => concat2("serialization error: ", message.as_str()),
            AuthStackError::Transport { message } => concat2("transport error: ", message.as_str()),
        }
    }

    /// The gRPC status code for this error.
    pub fn grpc_code(&self) -> (code: GrpcCode)
        ensures
            code == grpc_code_of(*self),
    {
        match self {
            AuthStackError::Validation { .. } => GrpcCode::InvalidArgument,
            AuthStackError::AuthRequired | AuthStackError::InvalidCredentials
            | AuthStackError::InvalidToken | AuthStackError::SessionExpired => GrpcCode::Unauthenticated,
            AuthStackError::Forbidden => GrpcCode::PermissionDenied,
            AuthStackError::NotFound { .. } => GrpcCode::NotFound,
            AuthStackError::Conflict { .. } => GrpcCode::Aborted,
            AuthStackError::RateLimited { .. } => GrpcCode::ResourceExhausted,
            AuthStackError::Configuration { .. } => GrpcCode::FailedPrecondition,
            AuthStackError::Store { .. } => GrpcCode::Unavailable,
            AuthStackError::Serialization { .. } | AuthStackError::Transport { .. } => GrpcCode::Internal,
        }
    }

    /// The public error body.
    pub fn response_body(&self) -> (r: AuthErrorResponse)
        ensures
            r.error.code@ == public_code_of(*self),
            r.error.message@ == public_message_of(*self),
    {
        AuthErrorResponse {
            error: AuthErrorPayload { code: self.public_code(), message: self.public_message() },
        }
    }
}

} // verus!
